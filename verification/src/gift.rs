//! Gifts wrapped as signed tokens: the token that a cookie carries, and the
//! status that an unwrapping ends in.

use crate::status::Status;
use crate::text::{other_than, push_char, without};
use vstd::prelude::*;

verus! {

/// `text` from behind its first `mark` on; nothing where it has none.
pub open spec fn after_first(text: Seq<char>, mark: char) -> Seq<char> {
    match text.index_of_first(mark) {
        Some(i) => text.skip(i + 1),
        None => Seq::empty(),
    }
}

/// The token that the text of a cookie carries: what stands behind the
/// first equals sign, without the equals signs in it.
pub open spec fn cookie_token(cookie: Seq<char>) -> Seq<char> {
    without(after_first(cookie, '='), '=')
}

/// The token that the text of a cookie, name and value, carries.
pub fn token_of_cookie(cookie: &str) -> (token: String)
    ensures
        token@ == cookie_token(cookie@),
{
    let mut token = String::new();
    let mut behind = false;
    proof {
        vstd::string::axiom_spec_iter(cookie);
        cookie@.take(0).index_of_first_ensures('=');
    }
    for c in it: cookie.chars()
        invariant
            it.seq() == cookie@,
            behind == cookie@.take(it.index()).contains('='),
            token@ == cookie_token(cookie@.take(it.index())),
    {
        proof {
            let i = it.index();
            let seen = cookie@.take(i);
            let next = cookie@.take(i + 1);
            seen.index_of_first_ensures('=');
            next.index_of_first_ensures('=');
            if behind {
                let at = seen.index_of_first('=')->0;
                assert(next.skip(at + 1) =~= seen.skip(at + 1).push(c));
                seen.skip(at + 1).lemma_filter_push(c, other_than('='));
            } else if c == '=' {
                assert(next[i] == '=');
            } else {
                assert forall|j: int| 0 <= j < next.len() implies next[j] != '=' by {}
            }
        }
        if behind {
            if c != '=' {
                push_char(&mut token, c);
            }
        } else if c == '=' {
            behind = true;
        }
    }
    assert(cookie@.take(cookie@.len() as int) =~= cookie@);
    token
}

/// Why a token could not be unwrapped.
#[derive(Debug, Clone, Copy, PartialEq, Eq, Structural)]
pub enum DecodeFailure {
    /// The signature does not fit the token.
    InvalidSignature,
    /// Anything else.
    Other,
}

/// The status that unwrapping a gift from a cookie ends in: 400 without a
/// cookie, 500 where the token cannot be unwrapped, else 200.
pub fn unwrap_status(cookie: bool, unwrapped: bool) -> (status: Status)
    ensures
        status == if !cookie {
            Status::BadRequest
        } else if unwrapped {
            Status::Success
        } else {
            Status::InternalServerError
        },
{
    if !cookie {
        Status::BadRequest
    } else if unwrapped {
        Status::Success
    } else {
        Status::InternalServerError
    }
}

/// The status that unwrapping a gift of the older kind ends in: 200 where
/// it is unwrapped, 401 where the signature does not fit, 400 for any other
/// failure.
pub fn decode_status(failure: Option<DecodeFailure>) -> (status: Status)
    ensures
        status == match failure {
            None => Status::Success,
            Some(DecodeFailure::InvalidSignature) => Status::Unauthorized,
            Some(DecodeFailure::Other) => Status::BadRequest,
        },
{
    match failure {
        None => Status::Success,
        Some(DecodeFailure::InvalidSignature) => Status::Unauthorized,
        Some(DecodeFailure::Other) => Status::BadRequest,
    }
}

} // verus!
