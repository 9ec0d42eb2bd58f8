//! Orders sent as a package manifest: which manifests are taken, and what
//! is answered to them.

use crate::status::{empty_answer, Answer, AnswerView, Status};
use crate::text::{decimal, push_decimal, same_text, trim_text, trimmed, without, without_char};
use cargo_manifest::Manifest;
use std::str::FromStr;
use vstd::prelude::*;
use vstd::string::*;

verus! {

/// The formats that a manifest may come in.
#[derive(Debug, Clone, Copy, PartialEq, Eq, Structural)]
pub enum ManifestKind {
    Yaml,
    Json,
    Toml,
}

/// The format that a content type announces.
pub open spec fn kind_of(content_type: Seq<char>) -> Option<ManifestKind> {
    if content_type == "application/toml"@ {
        Some(ManifestKind::Toml)
    } else if content_type == "application/yaml"@ {
        Some(ManifestKind::Yaml)
    } else if content_type == "application/json"@ {
        Some(ManifestKind::Json)
    } else {
        None
    }
}

/// The format that a content type announces, if it is one of the three.
pub fn manifest_kind(content_type: &str) -> (kind: Option<ManifestKind>)
    ensures
        kind == kind_of(content_type@),
{
    if same_text(content_type, "application/toml") {
        Some(ManifestKind::Toml)
    } else if same_text(content_type, "application/yaml") {
        Some(ManifestKind::Yaml)
    } else if same_text(content_type, "application/json") {
        Some(ManifestKind::Json)
    } else {
        None
    }
}

/// Whether `cargo_manifest` reads `text` as a package manifest.
pub uninterp spec fn is_cargo_manifest(text: Seq<char>) -> bool;

/// Asks `cargo_manifest::Manifest::from_str` whether it reads `text`.
///
/// Trusted: the parser looks at the text alone, so the same text is always
/// taken or always turned down.
#[verifier::external_body]
fn cargo_accepts(text: &str) -> (accepted: bool)
    ensures
        accepted == is_cargo_manifest(text@),
{
    Manifest::from_str(text).is_ok()
}

/// Whether `text` is a package manifest.
pub fn accepts_manifest(text: &str) -> (accepted: bool)
    ensures
        accepted == is_cargo_manifest(text@),
{
    cargo_accepts(text)
}

/// What a package holds under `keywords`.
#[derive(Debug)]
pub enum Keywords {
    /// Nothing.
    Absent,
    /// Something that is no list.
    NotList,
    /// A list; an entry that is no text stands as `None`.
    List(Vec<Option<String>>),
}

/// One entry of the orders: its item where that is text, and its quantity
/// where that is a whole number.
#[derive(Debug)]
pub struct Order {
    pub item: Option<String>,
    pub quantity: Option<i64>,
}

/// What a package holds under `metadata.orders`.
#[derive(Debug)]
pub enum Orders {
    /// Nothing.
    Absent,
    /// Something that is no list.
    NotList,
    /// A list of orders.
    List(Vec<Order>),
}

/// What is read of a package: the package written as TOML, where it can be
/// written so, its keywords and its orders.
#[derive(Debug)]
pub struct Package {
    pub toml: Option<String>,
    pub keywords: Keywords,
    pub orders: Orders,
}

/// The mathematical value of an [`Order`].
pub struct OrderView {
    pub item: Option<Seq<char>>,
    pub quantity: Option<int>,
}

impl View for Order {
    type V = OrderView;

    open spec fn view(&self) -> OrderView {
        OrderView {
            item: match self.item {
                Some(i) => Some(i@),
                None => None,
            },
            quantity: match self.quantity {
                Some(q) => Some(q as int),
                None => None,
            },
        }
    }
}

/// The values of a sequence of orders, in order.
pub open spec fn orders_view(orders: Seq<Order>) -> Seq<OrderView> {
    orders.map_values(|o: Order| o@)
}

/// The texts of the entries of a keyword list, in order.
pub open spec fn keywords_view(entries: Seq<Option<String>>) -> Seq<Option<Seq<char>>> {
    entries.map_values(
        |e: Option<String>|
            match e {
                Some(t) => Some(t@),
                None => None,
            },
    )
}

/// The keyword that a manifest must carry.
pub open spec fn magic_keyword() -> Seq<char> {
    "Christmas 2024"@
}

/// Whether a keyword list carries the magic keyword; `None` where an entry
/// that is no text stands before the first such keyword.
pub open spec fn keyword_found(entries: Seq<Option<Seq<char>>>) -> Option<bool>
    decreases entries.len(),
{
    if entries.len() == 0 {
        Some(false)
    } else {
        match entries.first() {
            None => None,
            Some(t) => if t == magic_keyword() {
                Some(true)
            } else {
                keyword_found(entries.drop_first())
            },
        }
    }
}

/// Whether the keywords carry the magic keyword: `Some(false)` where there
/// are none, and `None` where they are no list, or where an entry that is no
/// text stands before the first magic keyword.
pub fn keyword_received(keywords: &Keywords) -> (received: Option<bool>)
    ensures
        received == keyword_outcome(*keywords),
{
    match keywords {
        Keywords::Absent => Some(false),
        Keywords::NotList => None,
        Keywords::List(entries) => {
            let ghost all = keywords_view(entries@);
            let mut i: usize = 0;
            assert(all.skip(0) =~= all);
            while i < entries.len()
                invariant
                    i <= entries.len(),
                    *keywords == Keywords::List(*entries),
                    all == keywords_view(entries@),
                    keyword_found(all) == keyword_found(all.skip(i as int)),
                decreases entries.len() - i,
            {
                proof {
                    assert(all.skip(i as int).drop_first() =~= all.skip(i + 1));
                }
                match &entries[i] {
                    None => {
                        return None;
                    },
                    Some(t) => {
                        if same_text(t.as_str(), "Christmas 2024") {
                            return Some(true);
                        }
                    },
                }
                i += 1;
            }
            Some(false)
        },
    }
}

/// The line that an order is listed as: its item without double quotes, a
/// colon and a blank, its quantity, and a line end. An order without an
/// item that is text, or without a quantity that is a whole number, is not
/// listed.
pub open spec fn order_line(order: OrderView) -> Seq<char> {
    match (order.item, order.quantity) {
        (Some(item), Some(quantity)) => without(item, '"') + ": "@ + decimal(quantity) + "\n"@,
        _ => Seq::empty(),
    }
}

/// The lines of the orders, one after the other.
pub open spec fn order_lines(orders: Seq<OrderView>) -> Seq<char>
    decreases orders.len(),
{
    if orders.len() == 0 {
        Seq::empty()
    } else {
        order_lines(orders.drop_last()) + order_line(orders.last())
    }
}

/// The lines of the orders, one after the other.
pub fn list_orders(orders: &Vec<Order>) -> (lines: String)
    ensures
        lines@ == order_lines(orders_view(orders@)),
{
    let ghost all = orders_view(orders@);
    let mut lines = String::new();
    let mut i: usize = 0;
    while i < orders.len()
        invariant
            i <= orders.len(),
            all == orders_view(orders@),
            lines@ == order_lines(all.take(i as int)),
        decreases orders.len() - i,
    {
        proof {
            assert(all.take(i + 1).drop_last() =~= all.take(i as int));
        }
        let order = &orders[i];
        match (&order.item, order.quantity) {
            (Some(item), Some(quantity)) => {
                let name = without_char(item.as_str(), '"');
                lines.append(name.as_str());
                lines.append(": ");
                push_decimal(&mut lines, quantity);
                lines.append("\n");
            },
            _ => {},
        }
        i += 1;
    }
    assert(all.take(orders.len() as int) =~= all);
    lines
}

/// The orders as they are listed: line by line, without white space at
/// either end of the whole.
pub fn mount_orders(orders: &Vec<Order>) -> (listing: String)
    ensures
        listing@ == trimmed(order_lines(orders_view(orders@))),
{
    let lines = list_orders(orders);
    trim_text(lines.as_str())
}

/// An answer with a body.
pub open spec fn text_answer(status: Status, body: Seq<char>) -> AnswerView {
    AnswerView { status, body }
}

/// The answer to a manifest that cannot be read.
pub fn invalid_manifest() -> (answer: Answer)
    ensures
        answer@ == text_answer(Status::BadRequest, "Invalid manifest"@),
{
    Answer { status: Status::BadRequest, body: "Invalid manifest".to_owned() }
}

/// The answer to a listing of orders: the listing with 200, or 204 where
/// it is empty.
pub open spec fn listing_answer(listing: Seq<char>) -> AnswerView {
    if listing.len() == 0 {
        empty_answer(Status::NoContent)
    } else {
        text_answer(Status::Success, listing)
    }
}

/// Answers a listing of orders.
pub fn listing_reply(listing: String) -> (answer: Answer)
    ensures
        answer@ == listing_answer(listing@),
{
    if listing.as_str().is_empty() {
        Answer::empty(Status::NoContent)
    } else {
        Answer { status: Status::Success, body: listing }
    }
}

/// Whether the keywords carry the magic keyword; `None` where they are
/// malformed.
pub open spec fn keyword_outcome(keywords: Keywords) -> Option<bool> {
    match keywords {
        Keywords::Absent => Some(false),
        Keywords::NotList => None,
        Keywords::List(entries) => keyword_found(keywords_view(entries@)),
    }
}

/// The answer to a package, or `None` where the package is so malformed
/// that none is given. `valid` says whether the package is a package
/// manifest.
///
/// 400 "Invalid manifest" where it is no package manifest; else no answer
/// where the keywords are malformed; else 400 "Magic keyword not provided"
/// without the magic keyword; else 204 without orders; else no answer where
/// the orders are no list; else the listing of the orders with 200, or 204
/// where that is empty.
pub open spec fn verdict(valid: bool, keywords: Keywords, orders: Orders) -> Option<AnswerView> {
    if !valid {
        Some(text_answer(Status::BadRequest, "Invalid manifest"@))
    } else {
        match keyword_outcome(keywords) {
            None => None,
            Some(false) => Some(text_answer(Status::BadRequest, "Magic keyword not provided"@)),
            Some(true) => match orders {
                Orders::Absent => Some(empty_answer(Status::NoContent)),
                Orders::NotList => None,
                Orders::List(list) => Some(
                    listing_answer(trimmed(order_lines(orders_view(list@)))),
                ),
            },
        }
    }
}

/// Answers a package of which it is known whether it is a package manifest.
pub fn answer_package(valid: bool, keywords: &Keywords, orders: &Orders) -> (answer: Option<Answer>)
    ensures
        match answer {
            Some(a) => verdict(valid, *keywords, *orders) == Some(a@),
            None => verdict(valid, *keywords, *orders) is None,
        },
{
    if !valid {
        return Some(invalid_manifest());
    }
    match keyword_received(keywords) {
        None => {
            return None;
        },
        Some(false) => {
            return Some(
                Answer { status: Status::BadRequest, body: "Magic keyword not provided".to_owned() },
            );
        },
        Some(true) => {},
    }
    match orders {
        Orders::Absent => Some(Answer::empty(Status::NoContent)),
        Orders::NotList => None,
        Orders::List(list) => Some(listing_reply(mount_orders(list))),
    }
}

/// Whether a package is a package manifest: whether it could be written as
/// TOML and `cargo_manifest` reads that.
pub open spec fn is_valid(package: Package) -> bool {
    match package.toml {
        Some(t) => is_cargo_manifest(t@),
        None => false,
    }
}

/// Answers a package.
pub fn validate(package: &Package) -> (answer: Option<Answer>)
    ensures
        match answer {
            Some(a) => verdict(is_valid(*package), package.keywords, package.orders) == Some(a@),
            None => verdict(is_valid(*package), package.keywords, package.orders) is None,
        },
{
    let valid = match &package.toml {
        Some(t) => accepts_manifest(t.as_str()),
        None => false,
    };
    answer_package(valid, &package.keywords, &package.orders)
}

} // verus!
