//! Decorations: the colours of a present, the light of an ornament, and the
//! sprinkles that the checksums of a lockfile are drawn as.

use crate::status::{empty_answer, Answer, AnswerView, Status};
use crate::text::{digits_of, push_digits, same_text};
use vstd::prelude::*;
use vstd::string::*;

verus! {

/// The colour of a present and the colour that comes after it: red, blue,
/// purple, and red again. `None` for any other text.
pub open spec fn colors_after(color: Seq<char>) -> Option<(Seq<char>, Seq<char>)> {
    if color == "red"@ {
        Some(("red"@, "blue"@))
    } else if color == "blue"@ {
        Some(("blue"@, "purple"@))
    } else if color == "purple"@ {
        Some(("purple"@, "red"@))
    } else {
        None
    }
}

/// The colour of a present and the colour that comes after it.
pub fn present_colors(color: &str) -> (colors: Option<(&'static str, &'static str)>)
    ensures
        match colors {
            Some((now, next)) => colors_after(color@) == Some((now@, next@)),
            None => colors_after(color@) is None,
        },
{
    if same_text(color, "red") {
        Some(("red", "blue"))
    } else if same_text(color, "blue") {
        Some(("blue", "purple"))
    } else if same_text(color, "purple") {
        Some(("purple", "red"))
    } else {
        None
    }
}

/// For the state of an ornament, `"on"` or `"off"`, the class that shows
/// it and the state that a click leads to. `None` for any other text.
pub open spec fn light_after(state: Seq<char>) -> Option<(Seq<char>, Seq<char>)> {
    if state == "on"@ {
        Some((" on"@, "off"@))
    } else if state == "off"@ {
        Some((""@, "on"@))
    } else {
        None
    }
}

/// For the state of an ornament, the class that shows it and the state
/// that a click leads to.
pub fn ornament_state(state: &str) -> (light: Option<(&'static str, &'static str)>)
    ensures
        match light {
            Some((class, next)) => light_after(state@) == Some((class@, next@)),
            None => light_after(state@) is None,
        },
{
    if same_text(state, "on") {
        Some((" on", "off"))
    } else if same_text(state, "off") {
        Some(("", "on"))
    } else {
        None
    }
}

/// Whether `c` is a hexadecimal digit, in either case.
pub open spec fn is_hex_char(c: char) -> bool {
    ('0' <= c && c <= '9') || ('a' <= c && c <= 'f') || ('A' <= c && c <= 'F')
}

/// Whether `text` can be drawn: ten or more characters, all of them
/// hexadecimal digits.
pub open spec fn valid_checksum(text: Seq<char>) -> bool {
    &&& text.len() >= 10
    &&& forall|i: int| 0 <= i < text.len() ==> is_hex_char(#[trigger] text[i])
}

/// The value of a hexadecimal digit.
pub open spec fn hex_value(c: char) -> int {
    if '0' <= c && c <= '9' {
        c as int - 48
    } else if 'a' <= c && c <= 'f' {
        c as int - 87
    } else {
        c as int - 55
    }
}

/// The number that the two hexadecimal digits at `i` and `i + 1` spell.
pub open spec fn hex_pair(text: Seq<char>, i: int) -> int {
    16 * hex_value(text[i]) + hex_value(text[i + 1])
}

/// Whether `text` can be drawn.
pub fn is_checksum(text: &str) -> (valid: bool)
    ensures
        valid == valid_checksum(text@),
{
    if !text.is_ascii() {
        proof {
            if valid_checksum(text@) {
                assert forall|i: int| 0 <= i < text@.len() implies '\0' <= #[trigger] text@[i]
                    <= '\u{7f}' by {}
            }
        }
        return false;
    }
    let len = text.as_bytes().len();
    proof {
        vstd::utf8::is_ascii_chars_encode_utf8(text@);
    }
    if len < 10 {
        return false;
    }
    let mut i: usize = 0;
    while i < len
        invariant
            i <= len,
            len == text@.len(),
            text.is_ascii(),
            forall|j: int| 0 <= j < i ==> is_hex_char(#[trigger] text@[j]),
        decreases len - i,
    {
        let b = text.get_ascii(i);
        let hex = (48 <= b && b <= 57) || (97 <= b && b <= 102) || (65 <= b && b <= 70);
        if !hex {
            return false;
        }
        i += 1;
    }
    true
}

/// The value of the hexadecimal digit `b`.
fn hex_digit_value(b: u8) -> (value: u8)
    requires
        is_hex_char(b as char),
    ensures
        value == hex_value(b as char),
        value < 16,
{
    if 48 <= b && b <= 57 {
        b - 48
    } else if 97 <= b && b <= 102 {
        b - 87
    } else {
        b - 55
    }
}

/// The sprinkle that a checksum is drawn as: coloured by its first six
/// digits, and placed by the two pairs of digits after them.
pub open spec fn sprinkle_text(checksum: Seq<char>) -> Seq<char> {
    "<div style=\"background-color:#"@ + checksum.subrange(0, 6) + ";top:"@ + digits_of(
        hex_pair(checksum, 6) as nat,
    ) + "px;left:"@ + digits_of(hex_pair(checksum, 8) as nat) + "px;\"></div>"@
}

/// Draws a checksum as a sprinkle.
pub fn sprinkle(checksum: &str) -> (div: String)
    requires
        valid_checksum(checksum@),
    ensures
        div@ == sprinkle_text(checksum@),
{
    proof {
        assert forall|i: int| 0 <= i < checksum@.len() implies '\0' <= #[trigger] checksum@[i]
            <= '\u{7f}' by {}
    }
    let top: u8 = 16 * hex_digit_value(checksum.get_ascii(6)) + hex_digit_value(
        checksum.get_ascii(7),
    );
    let left: u8 = 16 * hex_digit_value(checksum.get_ascii(8)) + hex_digit_value(
        checksum.get_ascii(9),
    );
    let mut div = String::new();
    div.append("<div style=\"background-color:#");
    div.append(checksum.substring_ascii(0, 6));
    div.append(";top:");
    push_digits(&mut div, top as u64);
    div.append("px;left:");
    push_digits(&mut div, left as u64);
    div.append("px;\"></div>");
    div
}

/// What a package of a lockfile holds under `checksum`.
#[derive(Debug)]
pub enum ChecksumEntry {
    /// The package is no table, so it holds nothing under any name.
    NotTable,
    /// Nothing.
    Absent,
    /// Something that is no text.
    NotText,
    /// This text.
    Text(String),
}

/// The mathematical value of a [`ChecksumEntry`].
pub enum ChecksumEntryView {
    NotTable,
    Absent,
    NotText,
    Text(Seq<char>),
}

impl View for ChecksumEntry {
    type V = ChecksumEntryView;

    open spec fn view(&self) -> ChecksumEntryView {
        match self {
            ChecksumEntry::NotTable => ChecksumEntryView::NotTable,
            ChecksumEntry::Absent => ChecksumEntryView::Absent,
            ChecksumEntry::NotText => ChecksumEntryView::NotText,
            ChecksumEntry::Text(t) => ChecksumEntryView::Text(t@),
        }
    }
}

/// The values of a sequence of entries, in order.
pub open spec fn entries_view(entries: Seq<ChecksumEntry>) -> Seq<ChecksumEntryView> {
    entries.map_values(|e: ChecksumEntry| e@)
}

/// Why a lockfile cannot be drawn.
#[derive(Debug, Clone, Copy, PartialEq, Eq, Structural)]
pub enum LockfileError {
    /// The lockfile has no list of packages.
    NoPackages,
    /// A package is no table.
    NotATable,
    /// A checksum is no text.
    NotAString,
    /// A checksum is shorter than ten characters or holds a character that
    /// is no hexadecimal digit.
    InvalidChecksum,
}

/// What is wrong with an entry, if anything.
pub open spec fn entry_error(entry: ChecksumEntryView) -> Option<LockfileError> {
    match entry {
        ChecksumEntryView::NotTable => Some(LockfileError::NotATable),
        ChecksumEntryView::Absent => None,
        ChecksumEntryView::NotText => Some(LockfileError::NotAString),
        ChecksumEntryView::Text(t) => if valid_checksum(t) {
            None
        } else {
            Some(LockfileError::InvalidChecksum)
        },
    }
}

/// What is wrong with the first entry that is amiss, if any is.
pub open spec fn first_error(entries: Seq<ChecksumEntryView>) -> Option<LockfileError>
    decreases entries.len(),
{
    if entries.len() == 0 {
        None
    } else {
        match entry_error(entries.first()) {
            Some(e) => Some(e),
            None => first_error(entries.drop_first()),
        }
    }
}

/// What a lockfile holds for drawing: what its packages hold under
/// `checksum`, in order, or `None` where it has no list of packages.
pub open spec fn packages_view(packages: Option<Vec<ChecksumEntry>>) -> Option<
    Seq<ChecksumEntryView>,
> {
    match packages {
        Some(entries) => Some(entries_view(entries@)),
        None => None,
    }
}

/// The checksums of a lockfile, in order, leaving out the packages that
/// have none; or what is wrong with the first entry that is amiss.
pub open spec fn checksums_of(packages: Option<Seq<ChecksumEntryView>>) -> Result<
    Seq<Seq<char>>,
    LockfileError,
> {
    match packages {
        None => Err(LockfileError::NoPackages),
        Some(entries) => match first_error(entries) {
            Some(e) => Err(e),
            None => Ok(texts_of(entries)),
        },
    }
}

/// The checksums among `entries`, in order.
pub open spec fn texts_of(entries: Seq<ChecksumEntryView>) -> Seq<Seq<char>>
    decreases entries.len(),
{
    if entries.len() == 0 {
        Seq::empty()
    } else {
        match entries.last() {
            ChecksumEntryView::Text(t) => texts_of(entries.drop_last()).push(t),
            _ => texts_of(entries.drop_last()),
        }
    }
}

/// The texts of a sequence of strings, in order.
pub open spec fn strings_view(strings: Seq<String>) -> Seq<Seq<char>> {
    strings.map_values(|s: String| s@)
}

/// The checksums of the packages, in order, leaving out the packages that
/// have none. Fails on the first entry that is no text or cannot be drawn,
/// and where there is no list of packages at all.
pub fn checksums(packages: &Option<Vec<ChecksumEntry>>) -> (found: Result<Vec<String>, LockfileError>)
    ensures
        match found {
            Ok(list) => {
                &&& checksums_of(packages_view(*packages)) == Ok::<Seq<Seq<char>>, LockfileError>(
                    strings_view(list@),
                )
                &&& forall|k: int| 0 <= k < list.len() ==> valid_checksum(#[trigger] list[k]@)
            },
            Err(e) => checksums_of(packages_view(*packages)) == Err::<Seq<Seq<char>>, LockfileError>(e),
        },
{
    let entries = match packages {
        None => {
            return Err(LockfileError::NoPackages);
        },
        Some(entries) => entries,
    };
    let ghost all = entries_view(entries@);
    let mut list: Vec<String> = Vec::new();
    let mut i: usize = 0;
    proof {
        assert(all.skip(0) =~= all);
    }
    while i < entries.len()
        invariant
            i <= entries.len(),
            all == entries_view(entries@),
            packages_view(*packages) == Some(all),
            first_error(all) == first_error(all.skip(i as int)),
            strings_view(list@) == texts_of(all.take(i as int)),
            forall|k: int| 0 <= k < list.len() ==> valid_checksum(#[trigger] list[k]@),
        decreases entries.len() - i,
    {
        proof {
            assert(all.take(i + 1).drop_last() =~= all.take(i as int));
            assert(all.skip(i as int).drop_first() =~= all.skip(i + 1));
        }
        match &entries[i] {
            ChecksumEntry::NotTable => {
                return Err(LockfileError::NotATable);
            },
            ChecksumEntry::Absent => {},
            ChecksumEntry::NotText => {
                return Err(LockfileError::NotAString);
            },
            ChecksumEntry::Text(t) => {
                if !is_checksum(t.as_str()) {
                    return Err(LockfileError::InvalidChecksum);
                }
                list.push(t.clone());
            },
        }
        i += 1;
    }
    Ok(list)
}

/// The sprinkles of `checksums`, one to a line.
pub open spec fn sprinkles_text(checksums: Seq<Seq<char>>) -> Seq<char>
    decreases checksums.len(),
{
    if checksums.len() == 0 {
        Seq::empty()
    } else if checksums.len() == 1 {
        sprinkle_text(checksums[0])
    } else {
        sprinkles_text(checksums.drop_last()) + seq!['\n'] + sprinkle_text(checksums.last())
    }
}

/// Draws every checksum as a sprinkle, one to a line.
pub fn sprinkles(checksums: &Vec<String>) -> (divs: String)
    requires
        forall|k: int| 0 <= k < checksums.len() ==> valid_checksum(#[trigger] checksums[k]@),
    ensures
        divs@ == sprinkles_text(strings_view(checksums@)),
{
    let ghost all = strings_view(checksums@);
    let mut divs = String::new();
    let mut i: usize = 0;
    while i < checksums.len()
        invariant
            i <= checksums.len(),
            all == strings_view(checksums@),
            forall|k: int| 0 <= k < checksums.len() ==> valid_checksum(#[trigger] checksums[k]@),
            divs@ == sprinkles_text(all.take(i as int)),
        decreases checksums.len() - i,
    {
        proof {
            assert(all.take(i + 1).drop_last() =~= all.take(i as int));
            reveal_strlit("\n");
        }
        if i > 0 {
            divs.append("\n");
        }
        let div = sprinkle(checksums[i].as_str());
        divs.append(div.as_str());
        i += 1;
    }
    assert(all.take(checksums.len() as int) =~= all);
    divs
}

/// The answer to an uploaded lockfile: its sprinkles with 200; 422 where
/// the first entry that is amiss is a checksum that cannot be drawn; 400
/// where it is no text, or where the lockfile has no list of packages; and
/// no answer at all where it is a package that is no table.
pub open spec fn lockfile_answer(packages: Option<Seq<ChecksumEntryView>>) -> Option<AnswerView> {
    match checksums_of(packages) {
        Ok(list) => Some(AnswerView { status: Status::Success, body: sprinkles_text(list) }),
        Err(LockfileError::InvalidChecksum) => Some(empty_answer(Status::UnprocessableEntity)),
        Err(LockfileError::NotATable) => None,
        Err(_) => Some(empty_answer(Status::BadRequest)),
    }
}

/// Answers an uploaded lockfile, given what its packages hold under
/// `checksum`, in order, or `None` where it has no list of packages.
pub fn lockfile_reply(packages: &Option<Vec<ChecksumEntry>>) -> (answer: Option<Answer>)
    ensures
        match answer {
            Some(a) => lockfile_answer(packages_view(*packages)) == Some(a@),
            None => lockfile_answer(packages_view(*packages)) is None,
        },
{
    match checksums(packages) {
        Ok(list) => {
            let body = sprinkles(&list);
            Some(Answer { status: Status::Success, body })
        },
        Err(LockfileError::InvalidChecksum) => Some(Answer::empty(Status::UnprocessableEntity)),
        Err(LockfileError::NotATable) => None,
        Err(_) => Some(Answer::empty(Status::BadRequest)),
    }
}

} // verus!
