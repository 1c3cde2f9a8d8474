use crate::json::{
    check_num, check_str, check_uint, decode_num, decode_str, decode_u32, decode_u64, empty_slots, first_bad, key_is,
    last_with, lemma_first_bad_push, lemma_last_with_push, num_error, num_value, str_error, str_value, take_slot,
    uint_error, uint_value, DecodeError, Json,
};
use crate::ranking::CountryRanking;
use vstd::prelude::*;

verus! {

/// The slot of a key of a country's totals.
pub open spec fn country_key(k: Seq<char>) -> Option<int> {
    if k == "active_users"@ {
        Some(0)
    } else if k == "country"@ {
        Some(1)
    } else if k == "code"@ {
        Some(2)
    } else if k == "play_count"@ {
        Some(3)
    } else if k == "performance"@ {
        Some(4)
    } else if k == "ranked_score"@ {
        Some(5)
    } else {
        None
    }
}

pub open spec fn country_classifier() -> spec_fn(Seq<char>) -> Option<int> {
    |k: Seq<char>| country_key(k)
}

fn classify_country_key(k: &String) -> (r: Option<usize>)
    ensures
        r matches Some(i) ==> country_key(k@) == Some(i as int) && i < 6,
        r is None ==> country_key(k@) is None,
{
    if key_is(k, "active_users") {
        Some(0)
    } else if key_is(k, "country") {
        Some(1)
    } else if key_is(k, "code") {
        Some(2)
    } else if key_is(k, "play_count") {
        Some(3)
    } else if key_is(k, "performance") {
        Some(4)
    } else if key_is(k, "ranked_score") {
        Some(5)
    } else {
        None
    }
}


/// Why a value present under the key of a slot is rejected, if it is.
pub open spec fn country_member_error(i: int, v: Json) -> Option<DecodeError> {
    if i == 0 {
        uint_error(Some(v), "active_users", u32::MAX as u64)
    } else if i == 1 {
        str_error(Some(v), "country")
    } else if i == 2 {
        str_error(Some(v), "code")
    } else if i == 3 {
        uint_error(Some(v), "play_count", u64::MAX)
    } else if i == 4 {
        num_error(Some(v), "performance")
    } else if i == 5 {
        uint_error(Some(v), "ranked_score", u64::MAX)
    } else {
        None
    }
}

pub open spec fn country_checker() -> spec_fn(int, Json) -> Option<DecodeError> {
    |i: int, v: Json| country_member_error(i, v)
}

fn check_country_member(i: usize, v: &Json) -> (r: Option<DecodeError>)
    requires
        i < 6,
    ensures
        r == country_member_error(i as int, *v),
{
    if i == 0 {
        check_uint(v, "active_users", u32::MAX as u64)
    } else if i == 1 {
        check_str(v, "country")
    } else if i == 2 {
        check_str(v, "code")
    } else if i == 3 {
        check_uint(v, "play_count", u64::MAX)
    } else if i == 4 {
        check_num(v, "performance")
    } else if i == 5 {
        check_uint(v, "ranked_score", u64::MAX)
    } else {
        None
    }
}

/// Sorts the members of an object into the slots of the table; for a
/// repeated key the later member wins, and unknown keys are dropped. Every
/// value under a known key is checked, and the first rejected one, in member
/// order, is returned.
fn collect_country(entries: Vec<(String, Json)>) -> (res: (Vec<Option<Json>>, Option<DecodeError>))
    ensures
        res.1 == first_bad(entries@, country_classifier(), country_checker()),
        res.0@.len() == 6,
        forall|i: int| 0 <= i < 6 ==> #[trigger] res.0@[i] == last_with(entries@, country_classifier(), i),
{
    let ghost all = entries@;
    let mut slots = empty_slots(6);
    let mut bad: Option<DecodeError> = None;
    let mut rest = entries;
    while rest.len() > 0
        invariant
            all == entries@,
            first_bad(all, country_classifier(), country_checker()) == match first_bad(rest@, country_classifier(), country_checker()) {
                Some(e) => Some(e),
                None => bad,
            },
            slots@.len() == 6,
            forall|i: int|
                0 <= i < 6 ==> last_with(all, country_classifier(), i) == match #[trigger] slots@[i] {
                    Some(v) => Some(v),
                    None => last_with(rest@, country_classifier(), i),
                },
        decreases rest.len(),
    {
        let ghost before = rest@;
        let (k, v) = rest.pop().unwrap();
        proof {
            assert(before == rest@.push((k, v)));
            lemma_last_with_push(rest@, (k, v), country_classifier());
            lemma_first_bad_push(rest@, (k, v), country_classifier(), country_checker());
        }
        match classify_country_key(&k) {
            Some(i) => {
                match check_country_member(i, &v) {
                    Some(e) => {
                        bad = Some(e);
                    },
                    None => {},
                }
                if slots[i].is_none() {
                    slots.set(i, Some(v));
                }
            },
            None => {},
        }
    }
    proof {
        assert forall|i: int| 0 <= i < 6 implies #[trigger] slots@[i] == last_with(all, country_classifier(), i) by {
            assert(last_with(rest@, country_classifier(), i) is None);
        }
    }
    (slots, bad)
}

/// The first field of a country, in table order, that is missing.
pub open spec fn country_error(e: Seq<(String, Json)>) -> Option<DecodeError> {
    if uint_error(last_with(e, country_classifier(), 0), "active_users", u32::MAX as u64) is Some {
        uint_error(last_with(e, country_classifier(), 0), "active_users", u32::MAX as u64)
    } else if str_error(last_with(e, country_classifier(), 1), "country") is Some {
        str_error(last_with(e, country_classifier(), 1), "country")
    } else if str_error(last_with(e, country_classifier(), 2), "code") is Some {
        str_error(last_with(e, country_classifier(), 2), "code")
    } else if uint_error(last_with(e, country_classifier(), 3), "play_count", u64::MAX) is Some {
        uint_error(last_with(e, country_classifier(), 3), "play_count", u64::MAX)
    } else if num_error(last_with(e, country_classifier(), 4), "performance") is Some {
        num_error(last_with(e, country_classifier(), 4), "performance")
    } else if uint_error(last_with(e, country_classifier(), 5), "ranked_score", u64::MAX) is Some {
        uint_error(last_with(e, country_classifier(), 5), "ranked_score", u64::MAX)
    } else {
        None
    }
}

pub open spec fn country_value(e: Seq<(String, Json)>) -> CountryRanking {
    CountryRanking {
        active_users: uint_value(last_with(e, country_classifier(), 0)) as u32,
        country: str_value(last_with(e, country_classifier(), 1)),
        country_code: str_value(last_with(e, country_classifier(), 2)),
        playcount: uint_value(last_with(e, country_classifier(), 3)),
        pp: num_value(last_with(e, country_classifier(), 4)),
        ranked_score: uint_value(last_with(e, country_classifier(), 5)),
    }
}

/// What the totals of one country decode to: the first rejected value under a
/// known key, in member order, then the first missing field, in table order.
pub open spec fn decode_country_ranking_spec(j: Json) -> Result<CountryRanking, DecodeError> {
    match j {
        Json::Obj(m) => if first_bad(m@, country_classifier(), country_checker()) is Some {
            Err(first_bad(m@, country_classifier(), country_checker())->Some_0)
        } else {
            match country_error(m@) {
                Some(e) => Err(e),
                None => Ok(country_value(m@)),
            }
        },
        _ => Err(DecodeError::TypeMismatch("CountryRanking")),
    }
}

/// Decodes the totals of one country. Unknown keys are ignored.
pub fn decode_country_ranking(j: Json) -> (r: Result<CountryRanking, DecodeError>)
    ensures
        r == decode_country_ranking_spec(j),
{
    let entries = match j {
        Json::Obj(m) => m,
        _ => return Err(DecodeError::TypeMismatch("CountryRanking")),
    };
    let (mut slots, bad) = collect_country(entries);
    match bad {
        Some(e) => {
            return Err(e);
        },
        None => {},
    }
    let active_users = match decode_u32(take_slot(&mut slots, 0), "active_users") {
            Ok(v) => v,
            Err(e) => return Err(e),
    };
    let country = match decode_str(take_slot(&mut slots, 1), "country") {
            Ok(v) => v,
            Err(e) => return Err(e),
    };
    let country_code = match decode_str(take_slot(&mut slots, 2), "code") {
            Ok(v) => v,
            Err(e) => return Err(e),
    };
    let playcount = match decode_u64(take_slot(&mut slots, 3), "play_count") {
            Ok(v) => v,
            Err(e) => return Err(e),
    };
    let pp = match decode_num(take_slot(&mut slots, 4), "performance") {
            Ok(v) => v,
            Err(e) => return Err(e),
    };
    let ranked_score = match decode_u64(take_slot(&mut slots, 5), "ranked_score") {
            Ok(v) => v,
            Err(e) => return Err(e),
    };
    Ok(CountryRanking {
        active_users,
        country,
        country_code,
        playcount,
        pp,
        ranked_score,
    })
}

} // verus!
