//! Text helpers: characters appended one by one, numbers written in
//! decimal, characters left out.

use vstd::prelude::*;
use vstd::string::*;

verus! {

/// Appends `c` to `text` with `String::push`.
///
/// Trusted: the text afterwards is the text before with `c` at its end.
#[verifier::external_body]
pub(crate) fn push_char(text: &mut String, c: char)
    ensures
        final(text)@ == old(text)@.push(c),
{
    text.push(c)
}

/// Whether two texts are the same, character by character.
pub fn same_text(a: &str, b: &str) -> (same: bool)
    ensures
        same == (a@ == b@),
{
    a.to_owned() == b.to_owned()
}

/// The test for a character other than `unwanted`.
pub open spec fn other_than(unwanted: char) -> spec_fn(char) -> bool {
    |c: char| c != unwanted
}

/// `text` without the characters equal to `unwanted`.
pub open spec fn without(text: Seq<char>, unwanted: char) -> Seq<char> {
    text.filter(other_than(unwanted))
}

/// Copies `text`, leaving out every character equal to `unwanted`.
pub fn without_char(text: &str, unwanted: char) -> (kept: String)
    ensures
        kept@ == without(text@, unwanted),
{
    let mut kept = String::new();
    proof {
        axiom_spec_iter(text);
    }
    for c in it: text.chars()
        invariant
            it.seq() == text@,
            kept@ == without(text@.take(it.index()), unwanted),
    {
        proof {
            let i = it.index();
            assert(text@.take(i + 1) =~= text@.take(i).push(c));
            text@.take(i).lemma_filter_push(c, other_than(unwanted));
        }
        if c != unwanted {
            push_char(&mut kept, c);
        }
    }
    assert(text@.take(text@.len() as int) =~= text@);
    kept
}

/// The character that writes the digit `d`, from `'0'` for 0 to `'9'` for 9.
pub open spec fn digit(d: int) -> char {
    ((48 + d) as u8) as char
}

/// The decimal digits of `n`, most significant first, without leading
/// zeros; `"0"` for zero.
pub open spec fn digits_of(n: nat) -> Seq<char>
    decreases n,
{
    if n < 10 {
        seq![digit(n as int)]
    } else {
        digits_of(n / 10).push(digit((n % 10) as int))
    }
}

/// `n` written in decimal, with a minus sign in front where it is negative.
pub open spec fn decimal(n: int) -> Seq<char> {
    if n < 0 {
        seq!['-'] + digits_of((-n) as nat)
    } else {
        digits_of(n as nat)
    }
}

/// Writes the decimal digits of `n` at the end of `text`.
pub fn push_digits(text: &mut String, n: u64)
    ensures
        final(text)@ == old(text)@ + digits_of(n as nat),
    decreases n,
{
    if n >= 10 {
        push_digits(text, n / 10);
    }
    let d: u8 = (n % 10) as u8;
    push_char(text, (48 + d) as char);
}

/// Writes `n` in decimal at the end of `text`.
pub fn push_decimal(text: &mut String, n: i64)
    ensures
        final(text)@ == old(text)@ + decimal(n as int),
{
    if n < 0 {
        push_char(text, '-');
        let magnitude: u64 = (-(n + 1)) as u64 + 1;
        push_digits(text, magnitude);
    } else {
        push_digits(text, n as u64);
    }
}

/// Whether `c` is one of the digits `'0'` to `'9'`.
pub open spec fn is_digit(c: char) -> bool {
    '0' <= c && c <= '9'
}

/// The number that a run of digits spells; zero for the empty run.
pub open spec fn digits_value(digits: Seq<char>) -> int
    decreases digits.len(),
{
    if digits.len() == 0 {
        0
    } else {
        10 * digits_value(digits.drop_last()) + (digits.last() as int - 48)
    }
}

/// `text` without the plus sign that it may start with.
pub open spec fn unsigned_part(text: Seq<char>) -> Seq<char> {
    if text.len() > 0 && text[0] == '+' {
        text.skip(1)
    } else {
        text
    }
}

/// The number below 256 that `text` spells: one or more digits, with or
/// without a plus sign in front and nothing else around them. `None` for
/// any other text, and for a number that is too large.
pub open spec fn decimal_u8(text: Seq<char>) -> Option<u8> {
    let digits = unsigned_part(text);
    if digits.len() > 0 && (forall|i: int| 0 <= i < digits.len() ==> is_digit(#[trigger] digits[i]))
        && digits_value(digits) <= 255 {
        Some(digits_value(digits) as u8)
    } else {
        None
    }
}

/// A run of digits spells at least what any shorter run of its first
/// digits spells.
pub proof fn lemma_digits_value_grows(digits: Seq<char>, n: int)
    requires
        0 <= n <= digits.len(),
        forall|i: int| 0 <= i < digits.len() ==> is_digit(#[trigger] digits[i]),
    ensures
        0 <= digits_value(digits.take(n)) <= digits_value(digits),
    decreases digits.len() - n,
{
    if n < digits.len() {
        let longer = digits.take(n + 1);
        assert(longer.drop_last() =~= digits.take(n));
        lemma_digits_value_nonnegative(digits.take(n));
        lemma_digits_value_grows(digits, n + 1);
    } else {
        assert(digits.take(n) =~= digits);
        lemma_digits_value_nonnegative(digits);
    }
}

/// A run of digits spells no negative number.
pub proof fn lemma_digits_value_nonnegative(digits: Seq<char>)
    requires
        forall|i: int| 0 <= i < digits.len() ==> is_digit(#[trigger] digits[i]),
    ensures
        0 <= digits_value(digits),
    decreases digits.len(),
{
    if digits.len() > 0 {
        assert forall|i: int| 0 <= i < digits.drop_last().len() implies is_digit(
            #[trigger] digits.drop_last()[i],
        ) by {}
        lemma_digits_value_nonnegative(digits.drop_last());
    }
}

/// Reads `text` as a decimal number below 256.
pub fn parse_u8(text: &str) -> (number: Option<u8>)
    ensures
        number == decimal_u8(text@),
{
    let mut value: u16 = 0;
    let mut any = false;
    let mut first = true;
    let mut signed = false;
    proof {
        axiom_spec_iter(text);
    }
    for c in it: text.chars()
        invariant
            it.seq() == text@,
            first == (it.index() == 0),
            signed == (it.index() > 0 && text@[0] == '+'),
            any == (unsigned_part(text@.take(it.index())).len() > 0),
            forall|i: int|
                0 <= i < unsigned_part(text@.take(it.index())).len() ==> is_digit(
                    #[trigger] unsigned_part(text@.take(it.index()))[i],
                ),
            value == digits_value(unsigned_part(text@.take(it.index()))),
            value <= 255,
    {
        let ghost i = it.index();
        let ghost seen = unsigned_part(text@.take(i));
        let ghost next = unsigned_part(text@.take(i + 1));
        let ghost whole = unsigned_part(text@);
        if first && c == '+' {
            first = false;
            signed = true;
        } else {
            proof {
                assert(next =~= seen.push(c));
                assert(next.drop_last() =~= seen);
                let at = if signed {
                    i - 1
                } else {
                    i
                };
                assert(whole[at] == c);
            }
            first = false;
            if !('0' <= c && c <= '9') {
                return None;
            }
            let d: u16 = (c as u8 - 48) as u16;
            if value * 10 + d > 255 {
                proof {
                    if forall|k: int| 0 <= k < whole.len() ==> is_digit(#[trigger] whole[k]) {
                        assert(whole.take(seen.len() as int + 1) =~= next);
                        lemma_digits_value_grows(whole, seen.len() as int + 1);
                    }
                }
                return None;
            }
            value = value * 10 + d;
            any = true;
        }
    }
    proof {
        assert(text@.take(text@.len() as int) =~= text@);
    }
    if any {
        Some(value as u8)
    } else {
        None
    }
}

/// `text` as `str::trim` leaves it: without the white space at its start
/// and at its end, white space being what Unicode calls so.
pub uninterp spec fn trimmed(text: Seq<char>) -> Seq<char>;

/// Trims `text` with `str::trim`.
///
/// Trusted: what is cut off depends on the text alone.
#[verifier::external_body]
fn trim(text: &str) -> (kept: &str)
    ensures
        kept@ == trimmed(text@),
{
    text.trim()
}

/// `text` without the white space at its start and at its end.
pub fn trim_text(text: &str) -> (kept: String)
    ensures
        kept@ == trimmed(text@),
{
    trim(text).to_owned()
}

} // verus!
