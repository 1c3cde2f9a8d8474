use crate::json::{
    check_uint, decode_u32, first_bad, key_is, last_with, lemma_first_bad_push, lemma_last_with_push, uint_error,
    uint_value, unsigned_value, DecodeError, Json,
};
use vstd::prelude::*;

verus! {

/// The slot of a key inside an object-shaped page cursor.
pub open spec fn page_key(k: Seq<char>) -> Option<int> {
    if k == "page"@ {
        Some(0)
    } else {
        None
    }
}

pub open spec fn page_classifier() -> spec_fn(Seq<char>) -> Option<int> {
    |k: Seq<char>| page_key(k)
}

/// Why a `page` member is rejected: it is not a `u32`.
pub open spec fn page_member_error(i: int, v: Json) -> Option<DecodeError> {
    uint_error(Some(v), "page", u32::MAX as u64)
}

pub open spec fn page_checker() -> spec_fn(int, Json) -> Option<DecodeError> {
    |i: int, v: Json| page_member_error(i, v)
}

/// What a page-number cursor decodes to, by the kind of its value:
/// absent or `null` means no further page; a bare non-negative integer that
/// fits a `u32` is the page; an object gives the page under its last `page`
/// member (other keys are ignored), fails on any `page` member that is not a
/// `u32`, and fails without one.
pub open spec fn page_cursor_spec(v: Option<Json>) -> Result<Option<u32>, DecodeError> {
    match v {
        None => Ok(None),
        Some(Json::Null) => Ok(None),
        Some(Json::Num(n)) => if unsigned_value(n) is Some && n.mantissa <= u32::MAX {
            Ok(Some(n.mantissa as u32))
        } else {
            Err(DecodeError::TypeMismatch("cursor"))
        },
        Some(Json::Obj(m)) => {
            let slot = last_with(m@, page_classifier(), 0);
            if first_bad(m@, page_classifier(), page_checker()) is Some {
                Err(first_bad(m@, page_classifier(), page_checker())->Some_0)
            } else {
                match uint_error(slot, "page", u32::MAX as u64) {
                    Some(e) => Err(e),
                    None => Ok(Some(uint_value(slot) as u32)),
                }
            }
        },
        Some(_) => Err(DecodeError::TypeMismatch("cursor")),
    }
}

/// Finds the value of the last `page` member, and the first `page` member
/// that is not a `u32`.
fn take_page(entries: Vec<(String, Json)>) -> (r: (Option<Json>, Option<DecodeError>))
    ensures
        r.0 == last_with(entries@, page_classifier(), 0),
        r.1 == first_bad(entries@, page_classifier(), page_checker()),
{
    let ghost all = entries@;
    let mut slot: Option<Json> = None;
    let mut bad: Option<DecodeError> = None;
    let mut rest = entries;
    while rest.len() > 0
        invariant
            all == entries@,
            last_with(all, page_classifier(), 0) == match slot {
                Some(v) => Some(v),
                None => last_with(rest@, page_classifier(), 0),
            },
            first_bad(all, page_classifier(), page_checker()) == match first_bad(rest@, page_classifier(), page_checker()) {
                Some(e) => Some(e),
                None => bad,
            },
        decreases rest.len(),
    {
        let ghost before = rest@;
        let (k, v) = rest.pop().unwrap();
        proof {
            assert(before == rest@.push((k, v)));
            lemma_last_with_push(rest@, (k, v), page_classifier());
            lemma_first_bad_push(rest@, (k, v), page_classifier(), page_checker());
        }
        if key_is(&k, "page") {
            match check_uint(&v, "page", u32::MAX as u64) {
                Some(e) => {
                    bad = Some(e);
                },
                None => {},
            }
            if slot.is_none() {
                slot = Some(v);
            }
        }
    }
    (slot, bad)
}

/// Decodes a page-number cursor from any of its wire shapes into the page
/// that comes next, or `None` when there is none.
pub fn decode_rankings_cursor(v: Option<Json>) -> (r: Result<Option<u32>, DecodeError>)
    ensures
        r == page_cursor_spec(v),
{
    match v {
        None => Ok(None),
        Some(Json::Null) => Ok(None),
        Some(Json::Num(n)) => {
            if !n.negative && n.scale == 0 && n.mantissa <= u32::MAX as u64 {
                Ok(Some(n.mantissa as u32))
            } else {
                Err(DecodeError::TypeMismatch("cursor"))
            }
        },
        Some(Json::Obj(m)) => {
            let (slot, bad) = take_page(m);
            match bad {
                Some(e) => {
                    return Err(e);
                },
                None => {},
            }
            match decode_u32(slot, "page") {
                Ok(p) => Ok(Some(p)),
                Err(e) => Err(e),
            }
        },
        Some(_) => Err(DecodeError::TypeMismatch("cursor")),
    }
}

/// A forward-only pagination token of a list or search resource. Its
/// contents are never read: it is only kept and handed back to the service.
#[derive(Debug, PartialEq)]
pub struct Cursor {
    token: Json,
}

impl Cursor {
    pub closed spec fn spec_token(&self) -> Json {
        self.token
    }

    /// Keeps a token as the service returned it.
    pub fn new(token: Json) -> (r: Cursor)
        ensures
            r.spec_token() == token,
    {
        Cursor { token }
    }

    /// The token, to send back unchanged.
    pub fn token(&self) -> (r: &Json)
        ensures
            *r == self.spec_token(),
    {
        &self.token
    }
}

} // verus!
