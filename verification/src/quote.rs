//! The quote record and the text a client sends to create or edit one.

use vstd::prelude::*;

verus! {

/// The author and text that a client supplies when drafting or editing.
#[derive(Debug)]
pub struct NewQuote {
    pub author: String,
    pub quote: String,
}

/// One persisted quote.
///
/// `id` is the 128-bit identifier as a big-endian number, `created_at` counts
/// microseconds since the Unix epoch in UTC, and `version` starts at 1 and
/// goes up by one, wrapping, on every edit.
#[derive(Debug)]
pub struct Quote {
    pub id: u128,
    pub author: String,
    pub quote: String,
    pub created_at: i64,
    pub version: i32,
}

/// The mathematical value of a [`Quote`].
pub struct QuoteView {
    pub id: int,
    pub author: Seq<char>,
    pub quote: Seq<char>,
    pub created_at: int,
    pub version: int,
}

impl View for Quote {
    type V = QuoteView;

    open spec fn view(&self) -> QuoteView {
        QuoteView {
            id: self.id as int,
            author: self.author@,
            quote: self.quote@,
            created_at: self.created_at as int,
            version: self.version as int,
        }
    }
}

impl Clone for Quote {
    fn clone(&self) -> (copy: Self)
        ensures
            copy@ == self@,
    {
        Quote {
            id: self.id,
            author: self.author.clone(),
            quote: self.quote.clone(),
            created_at: self.created_at,
            version: self.version,
        }
    }
}

/// The values of a sequence of quotes, in order.
pub open spec fn quotes_view(quotes: Seq<Quote>) -> Seq<QuoteView> {
    quotes.map_values(|q: Quote| q@)
}

/// The version that an edit writes over `version`: one more, wrapping from
/// the largest 32-bit value to the smallest.
pub open spec fn next_version(version: int) -> int {
    if version == i32::MAX {
        i32::MIN as int
    } else {
        version + 1
    }
}

/// Copies a run of quotes, `quotes[from..to]`, into a new vector.
pub fn copy_quotes(quotes: &Vec<Quote>, from: usize, to: usize) -> (copy: Vec<Quote>)
    requires
        from <= to <= quotes.len(),
    ensures
        quotes_view(copy@) == quotes_view(quotes@).subrange(from as int, to as int),
{
    let mut copy: Vec<Quote> = Vec::new();
    let mut i: usize = from;
    while i < to
        invariant
            from <= i <= to <= quotes.len(),
            copy@.len() == i - from,
            forall|k: int| 0 <= k < copy@.len() ==> (#[trigger] copy@[k])@ == quotes@[from + k]@,
        decreases to - i,
    {
        copy.push(quotes[i].clone());
        i += 1;
    }
    copy
}

} // verus!
