//! The six quote operations over a store and a paginator held in memory.

use crate::facade::{
    bad_request, bare, draft_reply, draft_response, found_reply, found_response, list_page,
    list_response, list_snapshot, needs_snapshot, reset_reply, wants_snapshot, with_page,
    with_quote, Response, ResponseView,
};
use crate::ident::{fresh_id, is_random_id, quote_id, uuid_text_value};
use crate::paginator::{chunk, token_view, PageListView, Paginator, PaginatorView};
use crate::quote::{NewQuote, QuoteView};
use crate::status::Status;
use crate::store::{
    cited, drafted, edit, edited, ids_of, lemma_drafted_wf, lemma_edited_wf, lemma_position_of,
    lemma_removed_wf, new_row, position_of, removed, rows_wf, QuoteStore, Rows,
};
use vstd::prelude::*;

verus! {

/// The rows after a draft under the identifier `row.id`: with the row, or
/// unchanged where the identifier was taken.
pub open spec fn draft_rows(rows: Rows, row: QuoteView) -> Rows {
    if position_of(rows, row.id) is None {
        drafted(rows, row)
    } else {
        rows
    }
}

/// The answer to a draft under the identifier `row.id`: the row with 201,
/// or 500 where the identifier was taken.
pub open spec fn draft_answer(rows: Rows, row: QuoteView) -> ResponseView {
    draft_response(
        if position_of(rows, row.id) is None {
            Some(row)
        } else {
            None
        },
    )
}

/// The answer to a request that names a row by `id`, the parsed identifier
/// text: 400 where the text was no identifier, else the row with 200, or
/// 404 where there is none.
pub open spec fn cite_answer(rows: Rows, id: Option<u128>) -> ResponseView {
    match id {
        None => bare(Status::BadRequest),
        Some(id) => found_response(cited(rows, id as int)),
    }
}

/// The rows after a request to remove the row named by `id`.
pub open spec fn remove_rows(rows: Rows, id: Option<u128>) -> Rows {
    match id {
        None => rows,
        Some(id) => removed(rows, id as int),
    }
}

/// The answer to a request to edit the row named by `id`: 400 where the
/// text was no identifier, else the edited row with 200, or 404 where there
/// is none.
pub open spec fn undo_answer(rows: Rows, id: Option<u128>, author: Seq<char>, quote: Seq<char>) -> ResponseView {
    match id {
        None => bare(Status::BadRequest),
        Some(id) => found_response(
            match cited(rows, id as int) {
                Some(row) => Some(edit(row, author, quote)),
                None => None,
            },
        ),
    }
}

/// The rows after a request to edit the row named by `id`.
pub open spec fn undo_rows(rows: Rows, id: Option<u128>, author: Seq<char>, quote: Seq<char>) -> Rows {
    match id {
        None => rows,
        Some(id) => edited(rows, id as int, author, quote),
    }
}

/// Whether `snapshot` may be what a listing request is answered from, when
/// the paginator held `before` and the store holds `rows`: a new snapshot of
/// the rows where the request wants one, else `before` itself.
pub open spec fn answers_from(
    before: PaginatorView,
    rows: Rows,
    token: Option<Seq<char>>,
    snapshot: PaginatorView,
) -> bool {
    if wants_snapshot(before, token) {
        snapshot.wf() && snapshot.holds(rows) && !snapshot.traversed
    } else {
        snapshot == before
    }
}

/// A quote store with its paginator.
#[derive(Debug)]
pub struct QuoteService {
    store: QuoteStore,
    paginator: Paginator,
}

/// The mathematical value of a [`QuoteService`].
pub struct ServiceView {
    pub rows: Rows,
    pub snapshot: PaginatorView,
}

impl ServiceView {
    /// The rows and the snapshot are well formed.
    pub open spec fn wf(self) -> bool {
        rows_wf(self.rows) && self.snapshot.wf()
    }
}

impl View for QuoteService {
    type V = ServiceView;

    closed spec fn view(&self) -> ServiceView {
        ServiceView { rows: self.store@, snapshot: self.paginator@ }
    }
}

impl QuoteService {
    /// A service with no quotes and no snapshot.
    pub fn new() -> (service: Self)
        ensures
            service@.wf(),
            service@.rows.len() == 0,
            service@.snapshot.pages.len() == 0,
            !service@.snapshot.traversed,
    {
        QuoteService { store: QuoteStore::new(), paginator: Paginator::new() }
    }

    /// Removes every quote. The snapshot stays.
    pub fn reset(&mut self) -> (response: Response)
        ensures
            final(self)@.wf(),
            final(self)@.rows.len() == 0,
            final(self)@.snapshot == old(self)@.snapshot,
            response@ == bare(Status::Success),
    {
        proof {
            use_type_invariant(&self.store);
            use_type_invariant(&self.paginator);
        }
        self.store.reset();
        reset_reply(true)
    }

    /// Drafts a quote under the identifier `id`, created at `now`.
    pub fn draft_as(&mut self, id: u128, new: NewQuote, now: i64) -> (response: Response)
        ensures
            final(self)@.wf(),
            final(self)@.snapshot == old(self)@.snapshot,
            final(self)@.rows == draft_rows(
                old(self)@.rows,
                new_row(id as int, new.author@, new.quote@, now as int),
            ),
            response@ == draft_answer(
                old(self)@.rows,
                new_row(id as int, new.author@, new.quote@, now as int),
            ),
    {
        proof {
            use_type_invariant(&self.store);
            use_type_invariant(&self.paginator);
        }
        draft_reply(self.store.draft(id, new.author, new.quote, now).ok())
    }

    /// Drafts a quote under a fresh identifier, created at `now`.
    pub fn draft(&mut self, new: NewQuote, now: i64) -> (response: Response)
        ensures
            final(self)@.wf(),
            final(self)@.snapshot == old(self)@.snapshot,
            exists|id: u128|
                {
                    &&& is_random_id(id)
                    &&& final(self)@.rows == draft_rows(
                        old(self)@.rows,
                        #[trigger] new_row(id as int, new.author@, new.quote@, now as int),
                    )
                    &&& response@ == draft_answer(
                        old(self)@.rows,
                        new_row(id as int, new.author@, new.quote@, now as int),
                    )
                },
    {
        let id = fresh_id();
        self.draft_as(id, new, now)
    }

    /// Answers with the row that has the identifier `id`.
    pub fn cite_row(&self, id: u128) -> (response: Response)
        ensures
            self@.wf(),
            response@ == cite_answer(self@.rows, Some(id)),
    {
        proof {
            use_type_invariant(&self.store);
            use_type_invariant(&self.paginator);
        }
        found_reply(self.store.cite(id).ok())
    }

    /// Answers with the row that the identifier text `id` names.
    pub fn cite(&self, id: &str) -> (response: Response)
        ensures
            self@.wf(),
            response@ == cite_answer(self@.rows, uuid_text_value(id@)),
    {
        proof {
            use_type_invariant(&self.store);
            use_type_invariant(&self.paginator);
        }
        match quote_id(id) {
            None => bad_request(),
            Some(id) => self.cite_row(id),
        }
    }

    /// Removes the row that has the identifier `id` and answers with it.
    pub fn remove_row(&mut self, id: u128) -> (response: Response)
        ensures
            final(self)@.wf(),
            final(self)@.snapshot == old(self)@.snapshot,
            final(self)@.rows == remove_rows(old(self)@.rows, Some(id)),
            response@ == cite_answer(old(self)@.rows, Some(id)),
    {
        proof {
            use_type_invariant(&self.store);
            use_type_invariant(&self.paginator);
        }
        found_reply(self.store.remove(id).ok())
    }

    /// Removes the row that the identifier text `id` names and answers with
    /// it.
    pub fn remove(&mut self, id: &str) -> (response: Response)
        ensures
            final(self)@.wf(),
            final(self)@.snapshot == old(self)@.snapshot,
            final(self)@.rows == remove_rows(old(self)@.rows, uuid_text_value(id@)),
            response@ == cite_answer(old(self)@.rows, uuid_text_value(id@)),
    {
        proof {
            use_type_invariant(&self.store);
            use_type_invariant(&self.paginator);
        }
        match quote_id(id) {
            None => bad_request(),
            Some(id) => self.remove_row(id),
        }
    }

    /// Edits the row that has the identifier `id` and answers with it as it
    /// is afterwards.
    pub fn undo_row(&mut self, id: u128, new: NewQuote) -> (response: Response)
        ensures
            final(self)@.wf(),
            final(self)@.snapshot == old(self)@.snapshot,
            final(self)@.rows == undo_rows(old(self)@.rows, Some(id), new.author@, new.quote@),
            response@ == undo_answer(old(self)@.rows, Some(id), new.author@, new.quote@),
    {
        proof {
            use_type_invariant(&self.store);
            use_type_invariant(&self.paginator);
        }
        found_reply(self.store.undo(id, new.author, new.quote).ok())
    }

    /// Edits the row that the identifier text `id` names and answers with it
    /// as it is afterwards.
    pub fn undo(&mut self, id: &str, new: NewQuote) -> (response: Response)
        ensures
            final(self)@.wf(),
            final(self)@.snapshot == old(self)@.snapshot,
            final(self)@.rows == undo_rows(
                old(self)@.rows,
                uuid_text_value(id@),
                new.author@,
                new.quote@,
            ),
            response@ == undo_answer(old(self)@.rows, uuid_text_value(id@), new.author@, new.quote@),
    {
        proof {
            use_type_invariant(&self.store);
            use_type_invariant(&self.paginator);
        }
        match quote_id(id) {
            None => bad_request(),
            Some(id) => self.undo_row(id, new),
        }
    }

    /// Answers a listing request. Without a token, and with the paginator
    /// empty or traversed, a new snapshot of the store is taken first. The
    /// store stays as it is.
    pub fn list(&mut self, token: Option<String>) -> (response: Response)
        ensures
            final(self)@.wf(),
            final(self)@.rows == old(self)@.rows,
            exists|snapshot: PaginatorView|
                {
                    &&& #[trigger] answers_from(
                        old(self)@.snapshot,
                        old(self)@.rows,
                        token_view(token),
                        snapshot,
                    )
                    &&& response@ == list_response(snapshot, token_view(token))
                    &&& final(self)@.snapshot == list_snapshot(snapshot, token_view(token))
                },
    {
        proof {
            use_type_invariant(&self.store);
            use_type_invariant(&self.paginator);
        }
        if needs_snapshot(&self.paginator, &token) {
            self.paginator.set_pages(self.store.list_all());
        }
        let ghost snapshot = self.paginator@;
        assert(answers_from(old(self)@.snapshot, old(self)@.rows, token_view(token), snapshot));
        list_page(&mut self.paginator, token)
    }
}

/// A quote that was drafted is cited as drafted: under its identifier,
/// with the author and text given, at version 1, created at the time that
/// the draft was handed.
pub proof fn lemma_draft_then_cite(
    rows: Rows,
    id: u128,
    author: Seq<char>,
    quote: Seq<char>,
    now: int,
)
    requires
        rows_wf(rows),
        position_of(rows, id as int) is None,
    ensures
        draft_answer(rows, new_row(id as int, author, quote, now)) == with_quote(
            Status::Created,
            new_row(id as int, author, quote, now),
        ),
        cite_answer(draft_rows(rows, new_row(id as int, author, quote, now)), Some(id))
            == with_quote(
            Status::Success,
            QuoteView { id: id as int, author, quote, created_at: now, version: 1 },
        ),
{
    let row = new_row(id as int, author, quote, now);
    lemma_drafted_wf(rows, row);
    lemma_position_of(drafted(rows, row), id as int);
}

/// A quote that was drafted and then edited is cited with the new author
/// and text at version 2, under the same identifier and with the same time
/// of creation.
pub proof fn lemma_draft_undo_cite(
    rows: Rows,
    id: u128,
    author: Seq<char>,
    quote: Seq<char>,
    now: int,
    new_author: Seq<char>,
    new_quote: Seq<char>,
)
    requires
        rows_wf(rows),
        position_of(rows, id as int) is None,
    ensures
        ({
            let drafted_rows = draft_rows(rows, new_row(id as int, author, quote, now));
            let edited_row = QuoteView {
                id: id as int,
                author: new_author,
                quote: new_quote,
                created_at: now,
                version: 2,
            };
            &&& undo_answer(drafted_rows, Some(id), new_author, new_quote) == with_quote(
                Status::Success,
                edited_row,
            )
            &&& cite_answer(undo_rows(drafted_rows, Some(id), new_author, new_quote), Some(id))
                == with_quote(Status::Success, edited_row)
        }),
{
    let row = new_row(id as int, author, quote, now);
    let drafted_rows = drafted(rows, row);
    lemma_drafted_wf(rows, row);
    lemma_position_of(drafted_rows, id as int);
    lemma_edited_wf(drafted_rows, id as int, new_author, new_quote);
    lemma_position_of(edited(drafted_rows, id as int, new_author, new_quote), id as int);
}

/// Removing a quote that was drafted answers with the quote as drafted, and
/// citing it afterwards answers 404.
pub proof fn lemma_draft_remove_cite(
    rows: Rows,
    id: u128,
    author: Seq<char>,
    quote: Seq<char>,
    now: int,
)
    requires
        rows_wf(rows),
        position_of(rows, id as int) is None,
    ensures
        ({
            let drafted_rows = draft_rows(rows, new_row(id as int, author, quote, now));
            &&& cite_answer(drafted_rows, Some(id)) == with_quote(
                Status::Success,
                new_row(id as int, author, quote, now),
            )
            &&& cite_answer(remove_rows(drafted_rows, Some(id)), Some(id)) == bare(
                Status::NotFound,
            )
        }),
{
    let row = new_row(id as int, author, quote, now);
    let drafted_rows = drafted(rows, row);
    lemma_drafted_wf(rows, row);
    lemma_position_of(drafted_rows, id as int);
    lemma_removed_wf(drafted_rows, id as int);
}

/// Whatever was removed is cited with 404 afterwards.
pub proof fn lemma_remove_then_cite(rows: Rows, id: u128)
    requires
        rows_wf(rows),
    ensures
        cite_answer(remove_rows(rows, Some(id)), Some(id)) == bare(Status::NotFound),
{
    lemma_removed_wf(rows, id as int);
}

/// After a reset every identifier is cited with 404.
pub proof fn lemma_reset_then_cite(rows: Rows, id: u128)
    requires
        rows.len() == 0,
    ensures
        cite_answer(rows, Some(id)) == bare(Status::NotFound),
{
    ids_of(rows).index_of_first_ensures(id as int);
}

/// Once the snapshot is traversed, or while there is none, a listing
/// request without a token is answered from the store as it is now: with
/// its first three quotes, or as many as it has, as page 1, and with a
/// token exactly where it holds more than three. An empty store is
/// answered with 400.
pub proof fn lemma_refresh(before: PaginatorView, rows: Rows, snapshot: PaginatorView)
    requires
        before.traversed || before.pages.len() == 0,
        answers_from(before, rows, None, snapshot),
    ensures
        rows.len() == 0 ==> list_response(snapshot, None) == bare(Status::BadRequest),
        rows.len() > 0 ==> list_response(snapshot, None) == with_page(
            PageListView {
                quotes: chunk(rows, 0),
                page: 1,
                next_token: if rows.len() > 3 {
                    Some(snapshot.pages[1].token)
                } else {
                    None
                },
            },
        ),
        list_snapshot(snapshot, None).holds(rows),
        list_snapshot(snapshot, None).traversed == (0 < rows.len() <= 3),
{
}

} // verus!
