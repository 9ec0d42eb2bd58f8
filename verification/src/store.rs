//! The quote store: a table of quotes kept in order of creation, with one
//! row per identifier.

use crate::quote::{copy_quotes, next_version, quotes_view, Quote, QuoteView};
use vstd::prelude::*;

verus! {

/// Why the store turned an operation down.
#[derive(Debug, Clone, Copy, PartialEq, Eq, Structural)]
pub enum StoreError {
    /// No row has the identifier.
    NotFound,
    /// A row with the identifier exists already.
    DuplicateId,
}

/// The rows of a store, in listing order.
pub type Rows = Seq<QuoteView>;

/// The identifiers of the rows, in order.
pub open spec fn ids_of(rows: Rows) -> Seq<int> {
    rows.map_values(|q: QuoteView| q.id)
}

/// The position of the row with identifier `id`, if there is one.
pub open spec fn position_of(rows: Rows, id: int) -> Option<int> {
    ids_of(rows).index_of_first(id)
}

/// The row with identifier `id`, if there is one.
pub open spec fn cited(rows: Rows, id: int) -> Option<QuoteView> {
    match position_of(rows, id) {
        Some(i) => Some(rows[i]),
        None => None,
    }
}

/// Where a row created at `created_at` goes: behind every row that is not
/// younger.
pub open spec fn slot(rows: Rows, created_at: int) -> int
    decreases rows.len(),
{
    if rows.len() == 0 {
        0
    } else if rows.last().created_at <= created_at {
        rows.len() as int
    } else {
        slot(rows.drop_last(), created_at)
    }
}

/// The row that a draft creates.
pub open spec fn new_row(id: int, author: Seq<char>, quote: Seq<char>, created_at: int) -> QuoteView {
    QuoteView { id, author, quote, created_at, version: 1 }
}

/// The rows after `row` was drafted.
pub open spec fn drafted(rows: Rows, row: QuoteView) -> Rows {
    rows.insert(slot(rows, row.created_at), row)
}

/// The rows after the row with identifier `id` was removed.
pub open spec fn removed(rows: Rows, id: int) -> Rows {
    match position_of(rows, id) {
        Some(i) => rows.remove(i),
        None => rows,
    }
}

/// A row after an edit: new author and text, the next version, the rest as
/// it was.
pub open spec fn edit(row: QuoteView, author: Seq<char>, quote: Seq<char>) -> QuoteView {
    QuoteView { author, quote, version: next_version(row.version), ..row }
}

/// The rows after the row with identifier `id` was edited.
pub open spec fn edited(rows: Rows, id: int, author: Seq<char>, quote: Seq<char>) -> Rows {
    match position_of(rows, id) {
        Some(i) => rows.update(i, edit(rows[i], author, quote)),
        None => rows,
    }
}

/// No two rows share an identifier, and no row stands before an older one.
pub open spec fn rows_wf(rows: Rows) -> bool {
    &&& ids_of(rows).no_duplicates()
    &&& forall|i: int, j: int|
        0 <= i <= j < rows.len() ==> rows[i].created_at <= rows[j].created_at
}

/// In rows ordered by creation, the slot for `created_at` parts the rows that
/// are not younger from those that are.
pub proof fn lemma_slot_parts(rows: Rows, created_at: int)
    requires
        rows_wf(rows),
    ensures
        0 <= slot(rows, created_at) <= rows.len(),
        forall|i: int| 0 <= i < slot(rows, created_at) ==> rows[i].created_at <= created_at,
        forall|i: int| slot(rows, created_at) <= i < rows.len() ==> rows[i].created_at > created_at,
    decreases rows.len(),
{
    if rows.len() > 0 {
        let last = rows.len() - 1;
        if rows.last().created_at > created_at {
            let front = rows.drop_last();
            assert(ids_of(front) =~= ids_of(rows).drop_last());
            assert forall|i: int, j: int| 0 <= i <= j < front.len() implies front[i].created_at
                <= front[j].created_at by {}
            lemma_slot_parts(front, created_at);
            let at = slot(front, created_at);
            assert forall|i: int| 0 <= i < at implies rows[i].created_at <= created_at by {
                assert(front[i].created_at <= created_at);
            }
            assert forall|i: int| at <= i < rows.len() implies rows[i].created_at > created_at by {
                if i < last {
                    assert(front[i].created_at > created_at);
                }
            }
        } else {
            assert forall|i: int| 0 <= i < rows.len() implies rows[i].created_at <= created_at by {}
        }
    }
}

/// What the position of an identifier means: the one row that has it.
pub proof fn lemma_position_of(rows: Rows, id: int)
    requires
        rows_wf(rows),
    ensures
        match position_of(rows, id) {
            Some(i) => 0 <= i < rows.len() && rows[i].id == id && forall|j: int|
                0 <= j < rows.len() && rows[j].id == id ==> j == i,
            None => forall|j: int| 0 <= j < rows.len() ==> rows[j].id != id,
        },
{
    let ids = ids_of(rows);
    ids.index_of_first_ensures(id);
    match position_of(rows, id) {
        Some(i) => {
            assert forall|j: int| 0 <= j < rows.len() && rows[j].id == id implies j == i by {
                assert(ids[j] == ids[i]);
            }
        },
        None => {
            assert forall|j: int| 0 <= j < rows.len() implies rows[j].id != id by {
                assert(ids[j] == rows[j].id);
            }
        },
    }
}

/// A row that is the only one with its identifier stands at its position.
pub proof fn lemma_position_is(rows: Rows, id: int, i: int)
    requires
        rows_wf(rows),
        0 <= i < rows.len(),
        rows[i].id == id,
    ensures
        position_of(rows, id) == Some(i),
{
    lemma_position_of(rows, id);
}

/// Drafting a row under an unused identifier keeps the rows well formed.
pub proof fn lemma_drafted_wf(rows: Rows, row: QuoteView)
    requires
        rows_wf(rows),
        position_of(rows, row.id) is None,
    ensures
        rows_wf(drafted(rows, row)),
        position_of(drafted(rows, row), row.id) == Some(slot(rows, row.created_at)),
        cited(drafted(rows, row), row.id) == Some(row),
{
    let at = slot(rows, row.created_at);
    let after = drafted(rows, row);
    lemma_slot_parts(rows, row.created_at);
    lemma_position_of(rows, row.id);
    assert forall|i: int, j: int| 0 <= i < after.len() && 0 <= j < after.len() && i != j implies ids_of(
        after,
    )[i] != ids_of(after)[j] by {
        let a = if i < at { i } else { i - 1 };
        let b = if j < at { j } else { j - 1 };
        if i != at && j != at {
            assert(ids_of(rows)[a] != ids_of(rows)[b]);
        }
    }
    lemma_position_is(after, row.id, at);
}

/// Removing a row keeps the rows well formed and leaves no row under its
/// identifier.
pub proof fn lemma_removed_wf(rows: Rows, id: int)
    requires
        rows_wf(rows),
    ensures
        rows_wf(removed(rows, id)),
        position_of(removed(rows, id), id) is None,
{
    lemma_position_of(rows, id);
    let after = removed(rows, id);
    match position_of(rows, id) {
        Some(at) => {
            assert forall|i: int, j: int|
                0 <= i < after.len() && 0 <= j < after.len() && i != j implies ids_of(after)[i]
                != ids_of(after)[j] by {
                let a = if i < at { i } else { i + 1 };
                let b = if j < at { j } else { j + 1 };
                assert(ids_of(rows)[a] != ids_of(rows)[b]);
            }
            lemma_position_of(after, id);
            if position_of(after, id) is Some {
                let k = position_of(after, id).unwrap();
                let a = if k < at { k } else { k + 1 };
                assert(rows[a].id == id);
            }
        },
        None => {},
    }
}

/// Editing a row keeps the rows well formed and the row in its place.
pub proof fn lemma_edited_wf(rows: Rows, id: int, author: Seq<char>, quote: Seq<char>)
    requires
        rows_wf(rows),
    ensures
        rows_wf(edited(rows, id, author, quote)),
        position_of(edited(rows, id, author, quote), id) == position_of(rows, id),
        cited(edited(rows, id, author, quote), id) == match cited(rows, id) {
            Some(row) => Some(edit(row, author, quote)),
            None => None,
        },
{
    lemma_position_of(rows, id);
    let after = edited(rows, id, author, quote);
    assert(ids_of(after) =~= ids_of(rows));
}

/// An edit keeps identifier and time of creation and moves the version on
/// by one. The version stays at 1 or above until it has reached the largest
/// 32-bit value; the edit after that wraps it to the smallest.
pub proof fn lemma_edit_version(row: QuoteView, author: Seq<char>, quote: Seq<char>)
    ensures
        edit(row, author, quote).id == row.id,
        edit(row, author, quote).created_at == row.created_at,
        edit(row, author, quote).author == author,
        edit(row, author, quote).quote == quote,
        row.version != i32::MAX ==> edit(row, author, quote).version == row.version + 1,
        1 <= row.version < i32::MAX ==> edit(row, author, quote).version >= 2,
        row.version == i32::MAX ==> edit(row, author, quote).version == i32::MIN,
{
}

/// A table of quotes.
///
/// Its rows are always well formed in the sense of [`rows_wf`].
#[derive(Debug)]
pub struct QuoteStore {
    rows: Vec<Quote>,
}

impl View for QuoteStore {
    type V = Rows;

    closed spec fn view(&self) -> Rows {
        quotes_view(self.rows@)
    }
}

impl QuoteStore {
    /// What holds of every store: its rows are well formed.
    #[verifier::type_invariant]
    pub open spec fn inv(self) -> bool {
        rows_wf(self@)
    }

    /// An empty store.
    pub fn new() -> (store: Self)
        ensures
            store@ == Seq::<QuoteView>::empty(),
            rows_wf(store@),
    {
        QuoteStore { rows: Vec::new() }
    }

    /// The number of rows.
    pub fn len(&self) -> (len: usize)
        ensures
            len == self@.len(),
            rows_wf(self@),
    {
        proof {
            use_type_invariant(self);
        }
        self.rows.len()
    }

    /// Removes every row.
    pub fn reset(&mut self)
        ensures
            final(self)@ == Seq::<QuoteView>::empty(),
            rows_wf(final(self)@),
    {
        self.rows = Vec::new();
    }

    /// Adds a row: version 1, created at `created_at`, placed behind every
    /// row that is not younger. Turned down, with the store unchanged, when
    /// a row with this identifier exists.
    pub fn draft(&mut self, id: u128, author: String, quote: String, created_at: i64) -> (drafted_row:
        Result<Quote, StoreError>)
        ensures
            rows_wf(final(self)@),
            match position_of(old(self)@, id as int) {
                None => {
                    &&& drafted_row matches Ok(row)
                    &&& row@ == new_row(id as int, author@, quote@, created_at as int)
                    &&& final(self)@ == drafted(old(self)@, row@)
                },
                Some(_) => {
                    &&& drafted_row matches Err(e)
                    &&& e == StoreError::DuplicateId
                    &&& final(self)@ == old(self)@
                },
            },
    {
        match self.find(id) {
            Some(_) => Err(StoreError::DuplicateId),
            None => {
                let at = self.slot_for(created_at);
                let row = Quote { id, author, quote, created_at, version: 1 };
                let copy = row.clone();
                proof {
                    lemma_drafted_wf(self@, row@);
                    assert(quotes_view(self.rows@.insert(at as int, row)) =~= drafted(self@, row@));
                }
                let mut rows = self.take_rows();
                rows.insert(at, row);
                self.rows = rows;
                Ok(copy)
            },
        }
    }

    /// Removes the row with identifier `id` and returns it as it was.
    pub fn remove(&mut self, id: u128) -> (removed_row: Result<Quote, StoreError>)
        ensures
            rows_wf(final(self)@),
            final(self)@ == removed(old(self)@, id as int),
            match cited(old(self)@, id as int) {
                Some(row) => removed_row matches Ok(q) && q@ == row,
                None => removed_row matches Err(e) && e == StoreError::NotFound,
            },
    {
        match self.find(id) {
            None => Err(StoreError::NotFound),
            Some(i) => {
                proof {
                    lemma_removed_wf(self@, id as int);
                    assert(quotes_view(self.rows@.remove(i as int)) =~= removed(self@, id as int));
                }
                let mut rows = self.take_rows();
                let row = rows.remove(i);
                self.rows = rows;
                Ok(row)
            },
        }
    }

    /// The row with identifier `id`.
    pub fn cite(&self, id: u128) -> (row: Result<Quote, StoreError>)
        ensures
            match cited(self@, id as int) {
                Some(found) => row matches Ok(q) && q@ == found,
                None => row matches Err(e) && e == StoreError::NotFound,
            },
    {
        match self.find(id) {
            None => Err(StoreError::NotFound),
            Some(i) => Ok(self.rows[i].clone()),
        }
    }

    /// Writes a new author and text over the row with identifier `id`,
    /// moves its version on by one, wrapping, and returns the row as it is
    /// afterwards. Identifier and time of creation stay.
    pub fn undo(&mut self, id: u128, author: String, quote: String) -> (edited_row: Result<
        Quote,
        StoreError,
    >)
        ensures
            rows_wf(final(self)@),
            final(self)@ == edited(old(self)@, id as int, author@, quote@),
            match cited(old(self)@, id as int) {
                Some(row) => edited_row matches Ok(q) && q@ == edit(row, author@, quote@),
                None => edited_row matches Err(e) && e == StoreError::NotFound,
            },
    {
        match self.find(id) {
            None => Err(StoreError::NotFound),
            Some(i) => {
                let current = &self.rows[i];
                let row = Quote {
                    id: current.id,
                    author,
                    quote,
                    created_at: current.created_at,
                    version: current.version.wrapping_add(1),
                };
                let copy = row.clone();
                proof {
                    lemma_edited_wf(self@, id as int, author@, quote@);
                    assert(quotes_view(self.rows@.update(i as int, row)) =~= edited(
                        self@,
                        id as int,
                        author@,
                        quote@,
                    ));
                }
                let mut rows = self.take_rows();
                rows[i] = row;
                self.rows = rows;
                Ok(copy)
            },
        }
    }

    /// Every row, oldest first.
    pub fn list_all(&self) -> (listing: Vec<Quote>)
        ensures
            quotes_view(listing@) == self@,
            rows_wf(self@),
    {
        proof {
            use_type_invariant(self);
        }
        let listing = copy_quotes(&self.rows, 0, self.rows.len());
        listing
    }

    /// Takes the rows out, leaving none behind.
    fn take_rows(&mut self) -> (rows: Vec<Quote>)
        ensures
            rows == old(self).rows,
            final(self).rows@.len() == 0,
    {
        let mut rows: Vec<Quote> = Vec::new();
        core::mem::swap(&mut self.rows, &mut rows);
        rows
    }

    /// The position of the row with identifier `id`.
    fn find(&self, id: u128) -> (found: Option<usize>)
        ensures
            rows_wf(self@),
            match found {
                Some(i) => i < self.rows.len() && position_of(self@, id as int) == Some(i as int),
                None => position_of(self@, id as int) is None,
            },
    {
        proof {
            use_type_invariant(self);
        }
        let mut i: usize = 0;
        while i < self.rows.len()
            invariant
                i <= self.rows.len(),
                rows_wf(self@),
                self@.len() == self.rows.len(),
                forall|j: int| 0 <= j < i ==> self@[j].id != id,
            decreases self.rows.len() - i,
        {
            if self.rows[i].id == id {
                proof {
                    lemma_position_is(self@, id as int, i as int);
                }
                return Some(i);
            }
            i += 1;
        }
        proof {
            lemma_position_of(self@, id as int);
        }
        None
    }

    /// The slot for a row created at `created_at`.
    fn slot_for(&self, created_at: i64) -> (at: usize)
        ensures
            rows_wf(self@),
            at == slot(self@, created_at as int),
            at <= self.rows.len(),
    {
        proof {
            use_type_invariant(self);
        }
        let mut at: usize = self.rows.len();
        assert(self@.take(at as int) =~= self@);
        while at > 0 && self.rows[at - 1].created_at > created_at
            invariant
                at <= self.rows.len(),
                self@.len() == self.rows.len(),
                slot(self@, created_at as int) == slot(self@.take(at as int), created_at as int),
            decreases at,
        {
            assert(self@.take(at as int).drop_last() =~= self@.take(at - 1));
            at -= 1;
        }
        at
    }
}

} // verus!
