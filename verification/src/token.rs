//! Continuation tokens: sixteen characters drawn from the digits and the
//! upper- and lower-case Latin letters.

use rand::distributions::Alphanumeric;
use rand::Rng;
use vstd::prelude::*;
use vstd::string::*;

verus! {

/// The number of characters in every token.
pub const TOKEN_LEN: usize = 16;

/// Whether `c` is a digit or an unaccented Latin letter.
pub open spec fn is_token_char(c: char) -> bool {
    ('0' <= c && c <= '9') || ('A' <= c && c <= 'Z') || ('a' <= c && c <= 'z')
}

/// Whether `text` has the form of a token.
pub open spec fn is_token(text: Seq<char>) -> bool {
    &&& text.len() == TOKEN_LEN
    &&& forall|i: int| 0 <= i < text.len() ==> is_token_char(#[trigger] text[i])
}

/// Draws `len` characters with `rand`'s thread-local generator and its
/// `Alphanumeric` distribution.
///
/// Trusted: the distribution hands out bytes of `A-Z`, `a-z` and `0-9` only,
/// and the iterator is cut off after `len` of them. Nothing is claimed about
/// which characters come out.
#[verifier::external_body]
fn random_alphanumeric(len: usize) -> (text: String)
    ensures
        text@.len() == len,
        forall|i: int| 0 <= i < text@.len() ==> is_token_char(#[trigger] text@[i]),
{
    rand::thread_rng().sample_iter(&Alphanumeric).take(len).map(char::from).collect()
}

/// A token drawn at random.
pub fn random_token() -> (token: String)
    ensures
        is_token(token@),
{
    random_alphanumeric(TOKEN_LEN)
}

/// The sixteen hexadecimal digits, in order of value.
pub open spec fn hex_digits() -> Seq<char> {
    "0123456789abcdef"@
}

/// The `k`-th hexadecimal digit of `n`, counted from the most significant.
pub open spec fn nibble(n: u64, k: int) -> int {
    ((n >> ((60 - 4 * k) as u64)) & 0xf) as int
}

/// The token that spells `n` as sixteen lower-case hexadecimal digits.
pub open spec fn numbered(n: u64) -> Seq<char> {
    Seq::new(16, |k: int| hex_digits()[nibble(n, k)])
}

/// The hexadecimal digits are sixteen different token characters.
pub proof fn lemma_hex_digits()
    ensures
        hex_digits().len() == 16,
        forall|i: int| 0 <= i < 16 ==> is_token_char(#[trigger] hex_digits()[i]),
        forall|i: int, j: int|
            0 <= i < 16 && 0 <= j < 16 && #[trigger] hex_digits()[i] == #[trigger] hex_digits()[j]
                ==> i == j,
{
    reveal_strlit("0123456789abcdef");
}

/// Spells `n` as sixteen lower-case hexadecimal digits.
pub fn numbered_token(n: u64) -> (token: String)
    ensures
        token@ == numbered(n),
        is_token(token@),
{
    let digits = "0123456789abcdef";
    proof {
        lemma_hex_digits();
    }
    let mut token = String::new();
    let mut k: u64 = 0;
    while k < 16
        invariant
            k <= 16,
            digits@ == hex_digits(),
            digits@.len() == 16,
            digits.is_ascii(),
            token@.len() == k,
            forall|j: int| 0 <= j < k ==> #[trigger] token@[j] == hex_digits()[nibble(n, j)],
        decreases 16 - k,
    {
        let shift: u64 = 60 - 4 * k;
        let d: u64 = (n >> shift) & 0xf;
        assert(d < 16) by (bit_vector)
            requires
                d == (n >> shift) & 0xf,
        ;
        let piece = digits.substring_ascii(d as usize, d as usize + 1);
        token.append(piece);
        k += 1;
    }
    proof {
        assert forall|i: int| 0 <= i < token@.len() implies is_token_char(#[trigger] token@[i]) by {
            let d = nibble(n, i);
            assert(0 <= d < 16) by {
                let s = (60 - 4 * i) as u64;
                assert((n >> s) & 0xf < 16) by (bit_vector);
            }
        }
    }
    token
}

/// Different numbers are spelt by different tokens.
pub proof fn lemma_numbered_injective(a: u64, b: u64)
    requires
        numbered(a) == numbered(b),
    ensures
        a == b,
{
    lemma_hex_digits();
    assert forall|k: int| 0 <= k < 16 implies nibble(a, k) == nibble(b, k) by {
        let s = (60 - 4 * k) as u64;
        assert((a >> s) & 0xf < 16) by (bit_vector);
        assert((b >> s) & 0xf < 16) by (bit_vector);
        let da = nibble(a, k);
        let db = nibble(b, k);
        assert(numbered(a)[k] == hex_digits()[da]);
    }
    assert(nibble(a, 0) == nibble(b, 0));
    assert(nibble(a, 1) == nibble(b, 1));
    assert(nibble(a, 2) == nibble(b, 2));
    assert(nibble(a, 3) == nibble(b, 3));
    assert(nibble(a, 4) == nibble(b, 4));
    assert(nibble(a, 5) == nibble(b, 5));
    assert(nibble(a, 6) == nibble(b, 6));
    assert(nibble(a, 7) == nibble(b, 7));
    assert(nibble(a, 8) == nibble(b, 8));
    assert(nibble(a, 9) == nibble(b, 9));
    assert(nibble(a, 10) == nibble(b, 10));
    assert(nibble(a, 11) == nibble(b, 11));
    assert(nibble(a, 12) == nibble(b, 12));
    assert(nibble(a, 13) == nibble(b, 13));
    assert(nibble(a, 14) == nibble(b, 14));
    assert(nibble(a, 15) == nibble(b, 15));
    assert(a == b) by (bit_vector)
        requires
            (a >> 60) & 0xf == (b >> 60) & 0xf,
            (a >> 56) & 0xf == (b >> 56) & 0xf,
            (a >> 52) & 0xf == (b >> 52) & 0xf,
            (a >> 48) & 0xf == (b >> 48) & 0xf,
            (a >> 44) & 0xf == (b >> 44) & 0xf,
            (a >> 40) & 0xf == (b >> 40) & 0xf,
            (a >> 36) & 0xf == (b >> 36) & 0xf,
            (a >> 32) & 0xf == (b >> 32) & 0xf,
            (a >> 28) & 0xf == (b >> 28) & 0xf,
            (a >> 24) & 0xf == (b >> 24) & 0xf,
            (a >> 20) & 0xf == (b >> 20) & 0xf,
            (a >> 16) & 0xf == (b >> 16) & 0xf,
            (a >> 12) & 0xf == (b >> 12) & 0xf,
            (a >> 8) & 0xf == (b >> 8) & 0xf,
            (a >> 4) & 0xf == (b >> 4) & 0xf,
            (a >> 0) & 0xf == (b >> 0) & 0xf,
    ;
}

} // verus!
