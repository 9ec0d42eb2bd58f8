//! What the six quote operations answer over HTTP: a status and a body,
//! decided from what the store and the paginator gave.

use crate::paginator::{
    lemma_unknown_token_addresses_nothing, token_view, PageList, PageListView, Paginator,
    PaginatorView,
};
use crate::quote::{next_version, Quote, QuoteView};
use crate::status::Status;
use crate::token::{is_token, TOKEN_LEN};
use vstd::prelude::*;
use vstd::string::*;

verus! {

/// What an answer carries.
#[derive(Debug)]
pub enum Body {
    Empty,
    Quote(Quote),
    Page(PageList),
}

/// The mathematical value of a [`Body`].
pub enum BodyView {
    Empty,
    Quote(QuoteView),
    Page(PageListView),
}

impl View for Body {
    type V = BodyView;

    open spec fn view(&self) -> BodyView {
        match self {
            Body::Empty => BodyView::Empty,
            Body::Quote(q) => BodyView::Quote(q@),
            Body::Page(p) => BodyView::Page(p@),
        }
    }
}

/// An answer: status and body.
#[derive(Debug)]
pub struct Response {
    pub status: Status,
    pub body: Body,
}

/// The mathematical value of a [`Response`].
pub struct ResponseView {
    pub status: Status,
    pub body: BodyView,
}

impl View for Response {
    type V = ResponseView;

    open spec fn view(&self) -> ResponseView {
        ResponseView { status: self.status, body: self.body@ }
    }
}

/// An answer without a body.
pub open spec fn bare(status: Status) -> ResponseView {
    ResponseView { status, body: BodyView::Empty }
}

/// An answer that carries a quote.
pub open spec fn with_quote(status: Status, quote: QuoteView) -> ResponseView {
    ResponseView { status, body: BodyView::Quote(quote) }
}

/// An answer that carries a page.
pub open spec fn with_page(list: PageListView) -> ResponseView {
    ResponseView { status: Status::Success, body: BodyView::Page(list) }
}

/// The answer to reading, removing or editing one row: the row with 200,
/// or 404 without it.
pub open spec fn found_response(row: Option<QuoteView>) -> ResponseView {
    match row {
        Some(q) => with_quote(Status::Success, q),
        None => bare(Status::NotFound),
    }
}

/// The answer to a draft: the new row with 201, or 500 where the store
/// took none.
pub open spec fn draft_response(row: Option<QuoteView>) -> ResponseView {
    match row {
        Some(q) => with_quote(Status::Created, q),
        None => bare(Status::InternalServerError),
    }
}

/// The answer to a listing request on the snapshot `snapshot`: the page
/// addressed with 200, or 400 where the token addresses none.
pub open spec fn list_response(snapshot: PaginatorView, token: Option<Seq<char>>) -> ResponseView {
    match snapshot.position(token) {
        Some(i) => with_page(snapshot.page_list(i)),
        None => bare(Status::BadRequest),
    }
}

/// The snapshot after a listing request was answered.
pub open spec fn list_snapshot(snapshot: PaginatorView, token: Option<Seq<char>>) -> PaginatorView {
    match snapshot.position(token) {
        Some(i) => snapshot.after_serving(i),
        None => snapshot,
    }
}

/// Whether a listing request must first take a new snapshot from the
/// store: it carries no token, and the paginator is empty or traversed.
pub open spec fn wants_snapshot(snapshot: PaginatorView, token: Option<Seq<char>>) -> bool {
    token is None && (snapshot.pages.len() == 0 || snapshot.traversed)
}

/// The answer to an identifier that is no UUID.
pub fn bad_request() -> (response: Response)
    ensures
        response@ == bare(Status::BadRequest),
{
    Response { status: Status::BadRequest, body: Body::Empty }
}

/// The answer when the store fails to give its listing.
pub fn storage_failure() -> (response: Response)
    ensures
        response@ == bare(Status::InternalServerError),
{
    Response { status: Status::InternalServerError, body: Body::Empty }
}

/// The answer to a reset: 200 when the store was emptied, else 500.
pub fn reset_reply(done: bool) -> (response: Response)
    ensures
        response@ == bare(if done { Status::Success } else { Status::InternalServerError }),
{
    if done {
        Response { status: Status::Success, body: Body::Empty }
    } else {
        Response { status: Status::InternalServerError, body: Body::Empty }
    }
}

/// The answer to reading, removing or editing one row, from what the store
/// gave: whatever went wrong there counts as not found.
pub fn found_reply(row: Option<Quote>) -> (response: Response)
    ensures
        response@ == found_response(quote_view(row)),
{
    match row {
        Some(q) => Response { status: Status::Success, body: Body::Quote(q) },
        None => Response { status: Status::NotFound, body: Body::Empty },
    }
}

/// The answer to a draft, from what the store gave.
pub fn draft_reply(row: Option<Quote>) -> (response: Response)
    ensures
        response@ == draft_response(quote_view(row)),
{
    match row {
        Some(q) => Response { status: Status::Created, body: Body::Quote(q) },
        None => Response { status: Status::InternalServerError, body: Body::Empty },
    }
}

/// The value of an optional quote.
pub open spec fn quote_view(row: Option<Quote>) -> Option<QuoteView> {
    match row {
        Some(q) => Some(q@),
        None => None,
    }
}

/// The version that an edit writes, given the one it read.
pub fn edit_version(current: i32) -> (version: i32)
    ensures
        version == next_version(current as int),
{
    current.wrapping_add(1)
}

/// Whether a listing request must first take a new snapshot from the
/// store.
pub fn needs_snapshot(paginator: &Paginator, token: &Option<String>) -> (needed: bool)
    ensures
        needed == wants_snapshot(paginator@, token_view(*token)),
{
    token.is_none() && (paginator.page_count() == 0 || paginator.is_traversed())
}

/// A token is spelt in as many bytes as it has characters.
pub proof fn lemma_token_bytes(text: Seq<char>)
    requires
        is_token(text),
    ensures
        vstd::utf8::encode_utf8(text).len() == TOKEN_LEN,
{
    vstd::utf8::is_ascii_chars_encode_utf8(text);
}

/// Answers a listing request from the snapshot that `paginator` holds: the
/// page addressed with 200, or 400 where the token is not sixteen bytes
/// long or addresses no page. The snapshot is marked as traversed when its
/// last page goes out.
pub fn list_page(paginator: &mut Paginator, token: Option<String>) -> (response: Response)
    ensures
        final(paginator)@.wf(),
        response@ == list_response(old(paginator)@, token_view(token)),
        final(paginator)@ == list_snapshot(old(paginator)@, token_view(token)),
        match token {
            Some(t) => t@.len() != TOKEN_LEN ==> response@ == bare(Status::BadRequest),
            None => true,
        },
{
    let count = paginator.page_count();
    proof {
        if token is Some {
            let text = token->0@;
            let tokens = paginator@.tokens();
            tokens.index_of_first_ensures(text);
            if tokens.index_of_first(text) is Some {
                let i = tokens.index_of_first(text)->0;
                lemma_token_bytes(text);
            }
        }
    }
    let sized = match &token {
        Some(t) => t.as_str().len() == TOKEN_LEN,
        None => true,
    };
    if !sized {
        return bad_request();
    }
    match paginator.next_page(token) {
        Some(list) => Response { status: Status::Success, body: Body::Page(list) },
        None => bad_request(),
    }
}

/// Answering a listing request leaves the pages as they are: whatever was
/// served before, a request is answered with the same page, and a request
/// with a token never waits for a new snapshot.
pub proof fn lemma_listing_keeps_pages(
    snapshot: PaginatorView,
    token: Option<Seq<char>>,
    next: Option<Seq<char>>,
)
    ensures
        list_snapshot(snapshot, token).pages == snapshot.pages,
        list_response(list_snapshot(snapshot, token), next) == list_response(snapshot, next),
        snapshot.wf() ==> list_snapshot(snapshot, token).wf(),
        next is Some ==> !wants_snapshot(list_snapshot(snapshot, token), next),
{
}

/// A listing request with a token that no page of the snapshot has is
/// answered with 400 and leaves the snapshot as it is.
pub proof fn lemma_unknown_token_is_refused(snapshot: PaginatorView, token: Seq<char>)
    requires
        !snapshot.tokens().contains(token),
    ensures
        list_response(snapshot, Some(token)) == bare(Status::BadRequest),
        list_snapshot(snapshot, Some(token)) == snapshot,
{
    lemma_unknown_token_addresses_nothing(snapshot, token);
}

/// A listing request with a token that is not sixteen characters long is
/// answered with 400 by a well-formed snapshot.
pub proof fn lemma_missized_token_is_refused(snapshot: PaginatorView, token: Seq<char>)
    requires
        snapshot.wf(),
        token.len() != TOKEN_LEN,
    ensures
        list_response(snapshot, Some(token)) == bare(Status::BadRequest),
{
    let tokens = snapshot.tokens();
    if tokens.contains(token) {
        let i = choose|i: int| 0 <= i < tokens.len() && tokens[i] == token;
        assert(is_token(snapshot.pages[i].token));
    }
    lemma_unknown_token_addresses_nothing(snapshot, token);
}

} // verus!
