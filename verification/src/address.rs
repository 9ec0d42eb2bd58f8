//! Arithmetic on network addresses: a destination is an origin plus a key,
//! octet by octet for version 4 and bit by bit for version 6.

use crate::text::{digits_of, push_digits};
use vstd::prelude::*;
use vstd::string::*;

verus! {

/// The sum of two octets, wrapping at 256.
pub open spec fn octet_sum(a: u8, b: u8) -> u8 {
    ((a + b) % 256) as u8
}

/// The difference of two octets, wrapping at 256.
pub open spec fn octet_difference(a: u8, b: u8) -> u8 {
    ((a - b) % 256) as u8
}

/// The destination reached from `from` with `key`: each octet of `from`
/// plus the octet of `key` in its place, wrapping.
pub fn dest(from: [u8; 4], key: [u8; 4]) -> (to: [u8; 4])
    ensures
        forall|i: int| 0 <= i < 4 ==> to[i] == octet_sum(from[i], key[i]),
{
    [
        from[0].wrapping_add(key[0]),
        from[1].wrapping_add(key[1]),
        from[2].wrapping_add(key[2]),
        from[3].wrapping_add(key[3]),
    ]
}

/// The key that leads from `from` to `to`: each octet of `to` minus the
/// octet of `from` in its place, wrapping.
pub fn key(from: [u8; 4], to: [u8; 4]) -> (key: [u8; 4])
    ensures
        forall|i: int| 0 <= i < 4 ==> key[i] == octet_difference(to[i], from[i]),
{
    [
        to[0].wrapping_sub(from[0]),
        to[1].wrapping_sub(from[1]),
        to[2].wrapping_sub(from[2]),
        to[3].wrapping_sub(from[3]),
    ]
}

/// The key that leads to a destination is the key that it was reached
/// with, and the destination reached with the key between two addresses is
/// the second of them.
pub proof fn lemma_key_undoes_dest(a: u8, b: u8)
    ensures
        octet_difference(octet_sum(a, b), a) == b,
        octet_sum(a, octet_difference(b, a)) == b,
{
}

/// Four octets in dotted decimal.
pub open spec fn dotted_text(octets: Seq<u8>) -> Seq<char> {
    digits_of(octets[0] as nat) + seq!['.'] + digits_of(octets[1] as nat) + seq!['.'] + digits_of(
        octets[2] as nat,
    ) + seq!['.'] + digits_of(octets[3] as nat)
}

/// Writes four octets in dotted decimal.
pub fn dotted(octets: [u8; 4]) -> (text: String)
    ensures
        text@ == dotted_text(octets@),
{
    let mut text = String::new();
    push_digits(&mut text, octets[0] as u64);
    text.append(".");
    push_digits(&mut text, octets[1] as u64);
    text.append(".");
    push_digits(&mut text, octets[2] as u64);
    text.append(".");
    push_digits(&mut text, octets[3] as u64);
    proof {
        reveal_strlit(".");
    }
    text
}

/// The address between two version 6 addresses: each segment of `l`
/// exclusive-or the segment of `r` in its place. It serves both ways, from
/// origin and key to destination and from origin and destination to key.
pub fn build(l: [u16; 8], r: [u16; 8]) -> (out: [u16; 8])
    ensures
        forall|i: int| 0 <= i < 8 ==> out[i] == l[i] ^ r[i],
{
    [
        l[0] ^ r[0],
        l[1] ^ r[1],
        l[2] ^ r[2],
        l[3] ^ r[3],
        l[4] ^ r[4],
        l[5] ^ r[5],
        l[6] ^ r[6],
        l[7] ^ r[7],
    ]
}

/// Exclusive-or with one segment twice gives the other back.
pub proof fn lemma_build_undoes_build(a: u16, b: u16)
    ensures
        a ^ (a ^ b) == b,
{
    assert(a ^ (a ^ b) == b) by (bit_vector);
}

} // verus!
