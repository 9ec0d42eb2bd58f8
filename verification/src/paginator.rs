//! The cursor paginator: a frozen listing of quotes cut into pages of three,
//! each page addressed by a token, handed out one page after the other.

use crate::quote::{copy_quotes, quotes_view, Quote, QuoteView};
use crate::token::{is_token, lemma_numbered_injective, numbered, numbered_token, random_token};
use vstd::prelude::*;

verus! {

/// The number of quotes on every page but the last, which may hold fewer.
pub const PAGE_SIZE: usize = 3;

/// How often a token is drawn again at random when it collides with one
/// already in the snapshot, before an unused one is taken by counting.
pub const MAX_DRAWS: usize = 8;

/// One page of a snapshot: its token and its quotes.
#[derive(Debug)]
pub struct Page {
    pub token: String,
    pub quotes: Vec<Quote>,
}

/// The mathematical value of a [`Page`].
pub struct PageView {
    pub token: Seq<char>,
    pub quotes: Seq<QuoteView>,
}

impl View for Page {
    type V = PageView;

    open spec fn view(&self) -> PageView {
        PageView { token: self.token@, quotes: quotes_view(self.quotes@) }
    }
}

/// The values of a sequence of pages, in order.
pub open spec fn pages_view(pages: Seq<Page>) -> Seq<PageView> {
    pages.map_values(|p: Page| p@)
}

/// The tokens of a sequence of pages, in order.
pub open spec fn tokens_of(pages: Seq<PageView>) -> Seq<Seq<char>> {
    pages.map_values(|p: PageView| p.token)
}

/// The number of pages that a listing of `n` quotes is cut into.
pub open spec fn page_count(n: int) -> int {
    (n + 2) / 3
}

/// The `i`-th page of a listing: up to three quotes starting at `3 * i`.
pub open spec fn chunk(quotes: Seq<QuoteView>, i: int) -> Seq<QuoteView> {
    quotes.subrange(3 * i, if 3 * i + 3 <= quotes.len() { 3 * i + 3 } else { quotes.len() as int })
}

/// What a client is handed for one page.
///
/// `page` is the one-based number of the page after the one served, and
/// `next_token` addresses that page; it is `None` when the page served was
/// the last.
#[derive(Debug)]
pub struct PageList {
    pub quotes: Vec<Quote>,
    pub page: usize,
    pub next_token: Option<String>,
}

/// The mathematical value of a [`PageList`].
pub struct PageListView {
    pub quotes: Seq<QuoteView>,
    pub page: int,
    pub next_token: Option<Seq<char>>,
}

impl View for PageList {
    type V = PageListView;

    open spec fn view(&self) -> PageListView {
        PageListView {
            quotes: quotes_view(self.quotes@),
            page: self.page as int,
            next_token: token_view(self.next_token),
        }
    }
}

/// The characters of an optional token.
pub open spec fn token_view(token: Option<String>) -> Option<Seq<char>> {
    match token {
        Some(t) => Some(t@),
        None => None,
    }
}

/// The mathematical value of a [`Paginator`].
pub struct PaginatorView {
    pub pages: Seq<PageView>,
    pub traversed: bool,
}

impl PaginatorView {
    /// The tokens of the pages, in page order.
    pub open spec fn tokens(self) -> Seq<Seq<char>> {
        tokens_of(self.pages)
    }

    /// Every token has sixteen alphanumeric characters, no two pages share a
    /// token, every page holds one to three quotes, and only the last may
    /// hold fewer than three.
    pub open spec fn wf(self) -> bool {
        &&& forall|i: int| 0 <= i < self.pages.len() ==> is_token(#[trigger] self.pages[i].token)
        &&& self.tokens().no_duplicates()
        &&& forall|i: int|
            0 <= i < self.pages.len() ==> 1 <= (#[trigger] self.pages[i]).quotes.len() <= 3
        &&& forall|i: int|
            0 <= i < self.pages.len() - 1 ==> (#[trigger] self.pages[i]).quotes.len() == 3
    }

    /// The pages are the listing `quotes` cut into threes, in order.
    pub open spec fn holds(self, quotes: Seq<QuoteView>) -> bool {
        &&& self.pages.len() == page_count(quotes.len() as int)
        &&& forall|i: int|
            0 <= i < self.pages.len() ==> (#[trigger] self.pages[i]).quotes == chunk(quotes, i)
    }

    /// The position of the page that a request addresses: the first page
    /// when no token is given, else the first page with that token.
    pub open spec fn position(self, token: Option<Seq<char>>) -> Option<int> {
        match token {
            None => if self.pages.len() > 0 {
                Some(0)
            } else {
                None
            },
            Some(t) => self.tokens().index_of_first(t),
        }
    }

    /// What is handed out when the page at position `i` is served.
    pub open spec fn page_list(self, i: int) -> PageListView {
        PageListView {
            quotes: self.pages[i].quotes,
            page: i + 1,
            next_token: if i + 1 < self.pages.len() {
                Some(self.pages[i + 1].token)
            } else {
                None
            },
        }
    }

    /// The paginator after the page at position `i` was served: marked as
    /// traversed once the last page has gone out.
    pub open spec fn after_serving(self, i: int) -> PaginatorView {
        PaginatorView { pages: self.pages, traversed: self.traversed || i + 1 >= self.pages.len() }
    }

    /// The quotes handed out by a run of at most `steps` requests on this
    /// snapshot: the first made with `token`, each later one with the token
    /// that the answer before it gave, until an answer gives none. Serving
    /// a page leaves the pages as they are, so the whole run is answered
    /// from the same pages.
    pub open spec fn walk(self, token: Option<Seq<char>>, steps: nat) -> Seq<QuoteView>
        decreases steps,
    {
        if steps == 0 {
            Seq::empty()
        } else {
            match self.position(token) {
                None => Seq::empty(),
                Some(i) => self.pages[i].quotes + (match self.page_list(i).next_token {
                    None => Seq::empty(),
                    Some(next) => self.walk(Some(next), (steps - 1) as nat),
                }),
            }
        }
    }
}

/// In a well-formed snapshot the token of a page addresses that page and no
/// other.
pub proof fn lemma_token_addresses_its_page(snapshot: PaginatorView, i: int)
    requires
        snapshot.wf(),
        0 <= i < snapshot.pages.len(),
    ensures
        snapshot.position(Some(snapshot.pages[i].token)) == Some(i),
{
    let tokens = snapshot.tokens();
    tokens.index_of_first_ensures(tokens[i]);
}

/// A token that no page of the snapshot has addresses no page.
pub proof fn lemma_unknown_token_addresses_nothing(snapshot: PaginatorView, token: Seq<char>)
    requires
        !snapshot.tokens().contains(token),
    ensures
        snapshot.position(Some(token)) is None,
{
    snapshot.tokens().index_of_first_ensures(token);
}

/// Every token that a well-formed snapshot hands out has sixteen
/// characters, all of them digits or unaccented Latin letters.
pub proof fn lemma_next_token_is_token(snapshot: PaginatorView, i: int)
    requires
        snapshot.wf(),
        0 <= i < snapshot.pages.len(),
    ensures
        match snapshot.page_list(i).next_token {
            Some(next) => is_token(next) && next.len() == 16,
            None => i == snapshot.pages.len() - 1,
        },
{
}

/// From the page at position `i` on, a run of requests that is long enough
/// hands out the rest of the listing, from quote `3 * i` on.
pub proof fn lemma_walk_from(
    snapshot: PaginatorView,
    quotes: Seq<QuoteView>,
    token: Option<Seq<char>>,
    i: int,
    steps: nat,
)
    requires
        snapshot.wf(),
        snapshot.holds(quotes),
        0 <= i < snapshot.pages.len(),
        snapshot.position(token) == Some(i),
        steps >= snapshot.pages.len() - i,
    ensures
        snapshot.walk(token, steps) == quotes.skip(3 * i),
    decreases snapshot.pages.len() - i,
{
    if i + 1 < snapshot.pages.len() {
        let next = snapshot.pages[i + 1].token;
        lemma_token_addresses_its_page(snapshot, i + 1);
        lemma_walk_from(snapshot, quotes, Some(next), i + 1, (steps - 1) as nat);
    }
}

/// A run of requests that starts without a token and follows the tokens
/// handed out returns the listing that the snapshot was taken of, quote by
/// quote and in order. It takes as many requests as the listing has pages,
/// a third of its length rounded up, and only the last answer is without a
/// token.
pub proof fn lemma_traversal_returns_listing(
    snapshot: PaginatorView,
    quotes: Seq<QuoteView>,
    steps: nat,
)
    requires
        snapshot.wf(),
        snapshot.holds(quotes),
        steps >= snapshot.pages.len(),
    ensures
        snapshot.walk(None, steps) == quotes,
        snapshot.pages.len() == page_count(quotes.len() as int),
        3 * (snapshot.pages.len() - 1) < quotes.len() <= 3 * snapshot.pages.len(),
        forall|i: int|
            0 <= i < snapshot.pages.len() ==> (#[trigger] snapshot.page_list(i).next_token is None
                <==> i == snapshot.pages.len() - 1),
{
    if snapshot.pages.len() > 0 {
        lemma_walk_from(snapshot, quotes, None, 0, steps);
    }
}

/// Whether no page in `taken` has the token `candidate`.
pub fn is_unused(taken: &Vec<Page>, candidate: &String) -> (unused: bool)
    ensures
        unused == !tokens_of(pages_view(taken@)).contains(candidate@),
{
    let ghost tokens = tokens_of(pages_view(taken@));
    let mut i: usize = 0;
    while i < taken.len()
        invariant
            i <= taken.len(),
            tokens == tokens_of(pages_view(taken@)),
            forall|j: int| 0 <= j < i ==> tokens[j] != candidate@,
        decreases taken.len() - i,
    {
        if taken[i].token == *candidate {
            assert(tokens[i as int] == candidate@);
            return false;
        }
        i += 1;
    }
    true
}

/// Whether `n` is the least number whose spelling is not among `tokens`.
pub open spec fn is_least_unused(tokens: Seq<Seq<char>>, n: u64) -> bool {
    &&& !tokens.contains(numbered(n))
    &&& forall|m: u64| m < n ==> tokens.contains(#[trigger] numbered(m))
}

/// If the spellings of the first `k` numbers are all among `tokens`, then
/// `tokens` has at least `k` entries.
pub proof fn lemma_spellings_fit(tokens: Seq<Seq<char>>, k: int)
    requires
        0 <= k <= u64::MAX + 1,
        forall|m: u64| m < k ==> tokens.contains(#[trigger] numbered(m)),
    ensures
        k <= tokens.len(),
{
    let spelt = Seq::new(k as nat, |m: int| numbered(m as u64));
    assert forall|i: int, j: int| 0 <= i < spelt.len() && 0 <= j < spelt.len() && i != j implies spelt[i]
        != spelt[j] by {
        if spelt[i] == spelt[j] {
            lemma_numbered_injective(i as u64, j as u64);
        }
    }
    spelt.unique_seq_to_set();
    tokens.lemma_cardinality_of_set();
    vstd::seq_lib::seq_to_set_is_finite(tokens);
    assert forall|t: Seq<char>| spelt.to_set().contains(t) implies tokens.to_set().contains(t) by {
        let i = choose|i: int| 0 <= i < spelt.len() && spelt[i] == t;
        assert(tokens.contains(numbered(i as u64)));
    }
    vstd::set_lib::lemma_len_subset(spelt.to_set(), tokens.to_set());
}

/// The first of the tokens `numbered(0)`, `numbered(1)`, ... that no page in
/// `taken` has.
pub fn first_unused_numbered(taken: &Vec<Page>) -> (token: String)
    ensures
        is_token(token@),
        !tokens_of(pages_view(taken@)).contains(token@),
        exists|n: u64|
            is_least_unused(tokens_of(pages_view(taken@)), n) && token@ == #[trigger] numbered(n),
{
    let ghost tokens = tokens_of(pages_view(taken@));
    let mut n: u64 = 0;
    loop
        invariant
            n <= taken.len(),
            tokens == tokens_of(pages_view(taken@)),
            forall|m: u64| m < n ==> tokens.contains(#[trigger] numbered(m)),
        decreases taken.len() - n,
    {
        let candidate = numbered_token(n);
        if is_unused(taken, &candidate) {
            return candidate;
        }
        proof {
            lemma_spellings_fit(tokens, n + 1);
        }
        n += 1;
    }
}

/// A token that no page in `taken` has: drawn at random, drawn again up to
/// [`MAX_DRAWS`] times in all while it collides, and after that the first
/// unused one by counting.
pub fn fresh_token(taken: &Vec<Page>) -> (token: String)
    ensures
        is_token(token@),
        !tokens_of(pages_view(taken@)).contains(token@),
{
    let mut draws: usize = 0;
    while draws < MAX_DRAWS
        invariant
            draws <= MAX_DRAWS,
        decreases MAX_DRAWS - draws,
    {
        let candidate = random_token();
        if is_unused(taken, &candidate) {
            return candidate;
        }
        draws += 1;
    }
    first_unused_numbered(taken)
}

/// A snapshot of the quote listing, cut into pages, and whether its last
/// page has been handed out.
#[derive(Debug)]
pub struct Paginator {
    pages: Vec<Page>,
    traversed: bool,
}

impl View for Paginator {
    type V = PaginatorView;

    closed spec fn view(&self) -> PaginatorView {
        PaginatorView { pages: pages_view(self.pages@), traversed: self.traversed }
    }
}

impl Paginator {
    /// What holds of every paginator: its snapshot is well formed.
    #[verifier::type_invariant]
    pub open spec fn inv(self) -> bool {
        self@.wf()
    }

    /// An empty paginator: no snapshot, nothing traversed.
    pub fn new() -> (paginator: Self)
        ensures
            paginator@.pages.len() == 0,
            !paginator@.traversed,
            paginator@.wf(),
    {
        Paginator { pages: Vec::new(), traversed: false }
    }

    /// Replaces the snapshot by `quotes` cut into pages of three, in order,
    /// each page under a fresh token, and marks it as not traversed.
    pub fn set_pages(&mut self, quotes: Vec<Quote>)
        ensures
            final(self)@.wf(),
            final(self)@.holds(quotes_view(quotes@)),
            !final(self)@.traversed,
    {
        let ghost listing = quotes_view(quotes@);
        let mut pages: Vec<Page> = Vec::new();
        let mut start: usize = 0;
        while start < quotes.len()
            invariant
                start <= quotes.len(),
                listing == quotes_view(quotes@),
                start < quotes.len() ==> start == 3 * pages.len(),
                pages.len() == page_count(start as int),
                forall|i: int| 0 <= i < pages.len() ==> is_token(#[trigger] pages@[i].token@),
                tokens_of(pages_view(pages@)).no_duplicates(),
                forall|i: int|
                    0 <= i < pages.len() ==> quotes_view((#[trigger] pages@[i]).quotes@) == chunk(
                        listing,
                        i,
                    ),
            decreases quotes.len() - start,
        {
            let end: usize = if quotes.len() - start > PAGE_SIZE {
                start + PAGE_SIZE
            } else {
                quotes.len()
            };
            let token = fresh_token(&pages);
            let page_quotes = copy_quotes(&quotes, start, end);
            let ghost before = tokens_of(pages_view(pages@));
            pages.push(Page { token, quotes: page_quotes });
            proof {
                let after = tokens_of(pages_view(pages@));
                assert(after =~= before.push(token@));
            }
            start = end;
        }
        self.pages = pages;
        self.traversed = false;
    }

    /// The position of the first page whose token is `token`.
    fn find(&self, token: &String) -> (found: Option<usize>)
        ensures
            match found {
                Some(i) => i < self@.pages.len() && self@.tokens().index_of_first(token@) == Some(
                    i as int,
                ),
                None => self@.tokens().index_of_first(token@) is None,
            },
    {
        let ghost tokens = self@.tokens();
        let mut i: usize = 0;
        while i < self.pages.len()
            invariant
                i <= self.pages.len(),
                tokens == self@.tokens(),
                tokens.len() == self.pages.len(),
                forall|j: int| 0 <= j < i ==> tokens[j] != token@,
            decreases self.pages.len() - i,
        {
            if self.pages[i].token == *token {
                proof {
                    assert(tokens[i as int] == token@);
                    tokens.index_of_first_ensures(token@);
                }
                return Some(i);
            }
            i += 1;
        }
        proof {
            tokens.index_of_first_ensures(token@);
        }
        None
    }

    /// Serves one page: the first when `token` is `None`, else the page
    /// that `token` addresses. Returns `None`, and changes nothing, when no
    /// page is addressed. Marks the snapshot as traversed when the page
    /// served is the last.
    pub fn next_page(&mut self, token: Option<String>) -> (served: Option<PageList>)
        ensures
            final(self)@.wf(),
            match old(self)@.position(token_view(token)) {
                Some(i) => {
                    &&& served matches Some(list)
                    &&& list@ == old(self)@.page_list(i)
                    &&& final(self)@ == old(self)@.after_serving(i)
                },
                None => served is None && final(self)@ == old(self)@,
            },
            match served {
                Some(list) => match list.next_token {
                    Some(next) => is_token(next@),
                    None => true,
                },
                None => true,
            },
    {
        proof {
            use_type_invariant(&*self);
        }
        let found: Option<usize> = match &token {
            None => if self.pages.len() > 0 {
                Some(0)
            } else {
                None
            },
            Some(t) => self.find(t),
        };
        match found {
            None => None,
            Some(pos) => {
                assert(self@.pages.len() == self.pages.len());
                let next_pos: usize = pos + 1;
                let page = &self.pages[pos];
                let quotes = copy_quotes(&page.quotes, 0, page.quotes.len());
                assert(quotes_view(quotes@) =~= quotes_view(page.quotes@));
                if next_pos < self.pages.len() {
                    let next_token = self.pages[next_pos].token.clone();
                    Some(PageList { quotes, page: next_pos, next_token: Some(next_token) })
                } else {
                    self.traversed = true;
                    Some(PageList { quotes, page: next_pos, next_token: None })
                }
            },
        }
    }

    /// Whether the last page of the snapshot has been handed out.
    pub fn is_traversed(&self) -> (traversed: bool)
        ensures
            traversed == self@.traversed,
    {
        self.traversed
    }

    /// The number of pages in the snapshot.
    pub fn page_count(&self) -> (count: usize)
        ensures
            count == self@.pages.len(),
            self@.wf(),
    {
        proof {
            use_type_invariant(self);
        }
        self.pages.len()
    }
}

} // verus!
