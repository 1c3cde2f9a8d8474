use crate::datetime::{check_opt_datetime, decode_opt_datetime, is_datetime_text, opt_datetime_error};
use crate::json::{
    decode_bool, decode_num, decode_num_or_null, decode_obj, decode_opt_bool, decode_opt_json, decode_opt_str, decode_opt_u32, decode_opt_u8, decode_str, decode_u32, decode_u32_or_null, decode_u64, key, key_is, last_with, lemma_last_with_push, member_keys, lemma_member_keys_push, first_bad, lemma_first_bad_push, check_str, check_bool, check_uint, check_u32_or_null, check_num, check_num_or_null, check_obj, check_opt_str, check_opt_bool, check_opt_uint, take_slot, empty_slots, Json, Number, DecodeError, spec_from_u64, str_error, str_value, bool_error, bool_value, uint_error, uint_value, u32_or_null_error, u32_or_null_value, num_error, num_value, num_or_null_error, obj_error, json_value, opt_str_error, opt_str_value, opt_bool_error, opt_bool_value, opt_uint_error, opt_u32_value, opt_u8_value, opt_json_value,
};
use vstd::prelude::*;

verus! {

/// The statistics of one user on one leaderboard.
#[derive(Debug, PartialEq)]
pub struct UserStatistics {
    /// Hit accuracy, in percent.
    pub accuracy: Number,
    /// Rank within the user's country.
    pub country_rank: Option<u32>,
    /// Global rank.
    pub global_rank: Option<u32>,
    /// Counts of each grade, as the object on the wire.
    pub grade_counts: Json,
    /// Whether the user is ranked.
    pub is_ranked: bool,
    /// Level and progress, as the object on the wire.
    pub level: Json,
    /// Highest combo reached.
    pub max_combo: u32,
    /// Number of plays.
    pub playcount: u32,
    /// Seconds played; an explicit `null` reads as 0.
    pub playtime: u32,
    /// Performance points; an explicit `null` reads as 0.
    pub pp: Number,
    /// Total ranked score.
    pub ranked_score: u64,
    /// How often others watched the user's replays.
    pub replays_watched: u32,
    /// Total hits.
    pub total_hits: u64,
    /// Total score.
    pub total_score: u64,
}

/// One user record: the profile fields of the nested `user` object and, once
/// decoded from a leaderboard entry, the entry's statistics.
#[derive(Debug, PartialEq)]
pub struct UserCompact {
    pub avatar_url: String,
    pub country_code: String,
    pub default_group: String,
    pub is_active: bool,
    pub is_bot: bool,
    pub is_deleted: bool,
    pub is_online: bool,
    pub is_supporter: bool,
    /// Last visit, as a date and time text.
    pub last_visit: Option<String>,
    pub pm_friends_only: bool,
    pub profile_color: Option<String>,
    pub user_id: u32,
    pub username: String,
    /// Carried as the value on the wire.
    pub account_history: Option<Json>,
    /// Carried as the value on the wire.
    pub badges: Option<Json>,
    pub beatmap_playcounts_count: Option<u32>,
    pub country: Option<String>,
    /// Carried as the value on the wire.
    pub cover: Option<Json>,
    pub favourite_mapset_count: Option<u32>,
    pub follower_count: Option<u32>,
    pub graveyard_mapset_count: Option<u32>,
    /// Carried as the value on the wire.
    pub groups: Option<Json>,
    pub is_admin: Option<bool>,
    pub is_bng: Option<bool>,
    pub is_full_bn: Option<bool>,
    pub is_gmt: Option<bool>,
    pub is_limited_bn: Option<bool>,
    pub is_moderator: Option<bool>,
    pub is_nat: Option<bool>,
    pub is_silenced: Option<bool>,
    pub loved_mapset_count: Option<u32>,
    /// Carried as the value on the wire.
    pub medals: Option<Json>,
    /// Carried as the value on the wire.
    pub monthly_playcounts: Option<Json>,
    /// Carried as the value on the wire.
    pub page: Option<Json>,
    /// Carried as the value on the wire.
    pub previous_usernames: Option<Json>,
    /// Carried as the value on the wire.
    pub rank_history: Option<Json>,
    pub ranked_mapset_count: Option<u32>,
    /// Carried as the value on the wire.
    pub replays_watched_counts: Option<Json>,
    pub scores_best_count: Option<u32>,
    pub scores_first_count: Option<u32>,
    pub scores_recent_count: Option<u32>,
    pub support_level: Option<u8>,
    pub pending_mapset_count: Option<u32>,
    pub statistics: Option<UserStatistics>,
}

/// The slot of a leaderboard entry's key: the statistics, then `user`.
pub open spec fn stats_key(k: Seq<char>) -> Option<int> {
    if k == "hit_accuracy"@ {
        Some(0)
    } else if k == "country_rank"@ {
        Some(1)
    } else if k == "global_rank"@ {
        Some(2)
    } else if k == "grade_counts"@ {
        Some(3)
    } else if k == "is_ranked"@ {
        Some(4)
    } else if k == "level"@ {
        Some(5)
    } else if k == "maximum_combo"@ {
        Some(6)
    } else if k == "play_count"@ {
        Some(7)
    } else if k == "play_time"@ {
        Some(8)
    } else if k == "pp"@ {
        Some(9)
    } else if k == "ranked_score"@ {
        Some(10)
    } else if k == "replays_watched_by_others"@ {
        Some(11)
    } else if k == "total_hits"@ {
        Some(12)
    } else if k == "total_score"@ {
        Some(13)
    } else if k == "user"@ {
        Some(14)
    } else {
        None
    }
}

pub open spec fn stats_classifier() -> spec_fn(Seq<char>) -> Option<int> {
    |k: Seq<char>| stats_key(k)
}

fn classify_stats_key(k: &String) -> (r: Option<usize>)
    ensures
        r matches Some(i) ==> stats_key(k@) == Some(i as int) && i < 15,
        r is None ==> stats_key(k@) is None,
{
    if key_is(k, "hit_accuracy") {
        Some(0)
    } else if key_is(k, "country_rank") {
        Some(1)
    } else if key_is(k, "global_rank") {
        Some(2)
    } else if key_is(k, "grade_counts") {
        Some(3)
    } else if key_is(k, "is_ranked") {
        Some(4)
    } else if key_is(k, "level") {
        Some(5)
    } else if key_is(k, "maximum_combo") {
        Some(6)
    } else if key_is(k, "play_count") {
        Some(7)
    } else if key_is(k, "play_time") {
        Some(8)
    } else if key_is(k, "pp") {
        Some(9)
    } else if key_is(k, "ranked_score") {
        Some(10)
    } else if key_is(k, "replays_watched_by_others") {
        Some(11)
    } else if key_is(k, "total_hits") {
        Some(12)
    } else if key_is(k, "total_score") {
        Some(13)
    } else if key_is(k, "user") {
        Some(14)
    } else {
        None
    }
}

/// Each wire name of the table is told apart from the others.
proof fn lemma_stats_keys()
    ensures
        stats_key("hit_accuracy"@) == Some(0int),
        stats_key("country_rank"@) == Some(1int),
        stats_key("global_rank"@) == Some(2int),
        stats_key("grade_counts"@) == Some(3int),
        stats_key("is_ranked"@) == Some(4int),
        stats_key("level"@) == Some(5int),
        stats_key("maximum_combo"@) == Some(6int),
        stats_key("play_count"@) == Some(7int),
        stats_key("play_time"@) == Some(8int),
        stats_key("pp"@) == Some(9int),
        stats_key("ranked_score"@) == Some(10int),
        stats_key("replays_watched_by_others"@) == Some(11int),
        stats_key("total_hits"@) == Some(12int),
        stats_key("total_score"@) == Some(13int),
        stats_key("user"@) == Some(14int),
{
    reveal_strlit("hit_accuracy");
    reveal_strlit("country_rank");
    reveal_strlit("global_rank");
    reveal_strlit("grade_counts");
    reveal_strlit("is_ranked");
    reveal_strlit("level");
    reveal_strlit("maximum_combo");
    reveal_strlit("play_count");
    reveal_strlit("play_time");
    reveal_strlit("pp");
    reveal_strlit("ranked_score");
    reveal_strlit("replays_watched_by_others");
    reveal_strlit("total_hits");
    reveal_strlit("total_score");
    reveal_strlit("user");
    assert("hit_accuracy"@.len() == 12);
    assert("country_rank"@.len() == 12);
    assert("global_rank"@.len() == 11);
    assert("grade_counts"@.len() == 12);
    assert("is_ranked"@.len() == 9);
    assert("level"@.len() == 5);
    assert("maximum_combo"@.len() == 13);
    assert("play_count"@.len() == 10);
    assert("play_time"@.len() == 9);
    assert("pp"@.len() == 2);
    assert("ranked_score"@.len() == 12);
    assert("replays_watched_by_others"@.len() == 25);
    assert("total_hits"@.len() == 10);
    assert("total_score"@.len() == 11);
    assert("user"@.len() == 4);
    assert("hit_accuracy"@[0] != "country_rank"@[0]);
    assert("hit_accuracy"@[0] != "grade_counts"@[0]);
    assert("country_rank"@[0] != "grade_counts"@[0]);
    assert("is_ranked"@[0] != "play_time"@[0]);
    assert("hit_accuracy"@[0] != "ranked_score"@[0]);
    assert("country_rank"@[0] != "ranked_score"@[0]);
    assert("grade_counts"@[0] != "ranked_score"@[0]);
    assert("play_count"@[0] != "total_hits"@[0]);
    assert("global_rank"@[0] != "total_score"@[0]);
}

/// Why a value present under the key of a slot is rejected, if it is.
pub open spec fn stats_member_error(i: int, v: Json) -> Option<DecodeError> {
    if i == 0 {
        num_error(Some(v), "hit_accuracy")
    } else if i == 1 {
        opt_uint_error(Some(v), "country_rank", u32::MAX as u64)
    } else if i == 2 {
        opt_uint_error(Some(v), "global_rank", u32::MAX as u64)
    } else if i == 3 {
        obj_error(Some(v), "grade_counts")
    } else if i == 4 {
        bool_error(Some(v), "is_ranked")
    } else if i == 5 {
        obj_error(Some(v), "level")
    } else if i == 6 {
        uint_error(Some(v), "maximum_combo", u32::MAX as u64)
    } else if i == 7 {
        uint_error(Some(v), "play_count", u32::MAX as u64)
    } else if i == 8 {
        u32_or_null_error(Some(v), "play_time")
    } else if i == 9 {
        num_or_null_error(Some(v), "pp")
    } else if i == 10 {
        uint_error(Some(v), "ranked_score", u64::MAX)
    } else if i == 11 {
        uint_error(Some(v), "replays_watched_by_others", u32::MAX as u64)
    } else if i == 12 {
        uint_error(Some(v), "total_hits", u64::MAX)
    } else if i == 13 {
        uint_error(Some(v), "total_score", u64::MAX)
    } else if i == 14 {
        match nullable_profile_spec(v) {
            Err(e) => Some(e),
            Ok(_) => None,
        }
    } else {
        None
    }
}

pub open spec fn stats_checker() -> spec_fn(int, Json) -> Option<DecodeError> {
    |i: int, v: Json| stats_member_error(i, v)
}

fn check_stats_member(i: usize, v: &Json) -> (r: Option<DecodeError>)
    requires
        i < 14,
    ensures
        r == stats_member_error(i as int, *v),
{
    if i == 0 {
        check_num(v, "hit_accuracy")
    } else if i == 1 {
        check_opt_uint(v, "country_rank", u32::MAX as u64)
    } else if i == 2 {
        check_opt_uint(v, "global_rank", u32::MAX as u64)
    } else if i == 3 {
        check_obj(v, "grade_counts")
    } else if i == 4 {
        check_bool(v, "is_ranked")
    } else if i == 5 {
        check_obj(v, "level")
    } else if i == 6 {
        check_uint(v, "maximum_combo", u32::MAX as u64)
    } else if i == 7 {
        check_uint(v, "play_count", u32::MAX as u64)
    } else if i == 8 {
        check_u32_or_null(v, "play_time")
    } else if i == 9 {
        check_num_or_null(v, "pp")
    } else if i == 10 {
        check_uint(v, "ranked_score", u64::MAX)
    } else if i == 11 {
        check_uint(v, "replays_watched_by_others", u32::MAX as u64)
    } else if i == 12 {
        check_uint(v, "total_hits", u64::MAX)
    } else if i == 13 {
        check_uint(v, "total_score", u64::MAX)
    } else {
        None
    }
}

/// Sorts the members of a leaderboard entry: the statistics into slots, the
/// `user` object decoded (`null` reads as absent). For a repeated key the
/// later member wins; every value under a known key is checked, and the
/// first rejected one, in member order, is returned.
fn collect_stats(entries: Vec<(String, Json)>) -> (res: (Vec<Option<Json>>, Option<DecodeError>, Option<Option<UserCompact>>))
    ensures
        res.1 == first_bad(entries@, stats_classifier(), stats_checker()),
        res.0@.len() == 14,
        forall|i: int| 0 <= i < 14 ==> #[trigger] res.0@[i] == last_with(entries@, stats_classifier(), i),
        res.1 is None ==> (last_with(entries@, stats_classifier(), 14) matches Some(u) ==> nullable_profile_spec(u) is Ok),
        res.1 is None ==> res.2 == match last_with(entries@, stats_classifier(), 14) {
            None => None,
            Some(u) => Some(nullable_profile_spec(u)->Ok_0),
        },
{
    let ghost all = entries@;
    let mut slots = empty_slots(14);
    let mut bad: Option<DecodeError> = None;
    let mut user: Option<Option<UserCompact>> = None;
    let mut user_seen = false;
    let ghost mut user_raw = Json::Null;
    let mut rest = entries;
    while rest.len() > 0
        invariant
            all == entries@,
            first_bad(all, stats_classifier(), stats_checker()) == match first_bad(rest@, stats_classifier(), stats_checker()) {
                Some(e) => Some(e),
                None => bad,
            },
            slots@.len() == 14,
            forall|i: int|
                0 <= i < 14 ==> last_with(all, stats_classifier(), i) == match #[trigger] slots@[i] {
                    Some(v) => Some(v),
                    None => last_with(rest@, stats_classifier(), i),
                },
            !user_seen ==> user is None && last_with(all, stats_classifier(), 14) == last_with(rest@, stats_classifier(), 14),
            user_seen ==> last_with(all, stats_classifier(), 14) == Some(user_raw),
            user_seen ==> match nullable_profile_spec(user_raw) {
                Ok(x) => user == Some(x),
                Err(_) => bad is Some,
            },
        decreases rest.len(),
    {
        let ghost before = rest@;
        let (k, v) = rest.pop().unwrap();
        proof {
            assert(before == rest@.push((k, v)));
            lemma_last_with_push(rest@, (k, v), stats_classifier());
            lemma_first_bad_push(rest@, (k, v), stats_classifier(), stats_checker());
        }
        match classify_stats_key(&k) {
            Some(i) => {
                if i == 14 {
                    let ghost raw = v;
                    match decode_nullable_profile(v) {
                        Ok(x) => {
                            if !user_seen {
                                user = Some(x);
                            }
                        },
                        Err(e) => {
                            bad = Some(e);
                        },
                    }
                    if !user_seen {
                        proof {
                            user_raw = raw;
                        }
                        user_seen = true;
                    }
                } else {
                    match check_stats_member(i, &v) {
                        Some(e) => {
                            bad = Some(e);
                        },
                        None => {},
                    }
                    if slots[i].is_none() {
                        slots.set(i, Some(v));
                    }
                }
            },
            None => {},
        }
    }
    proof {
        assert forall|i: int| 0 <= i < 14 implies #[trigger] slots@[i] == last_with(all, stats_classifier(), i) by {
            assert(last_with(rest@, stats_classifier(), i) is None);
        }
    }
    (slots, bad, user)
}

/// The slot of a profile key.
pub open spec fn profile_key(k: Seq<char>) -> Option<int> {
    if k == "avatar_url"@ {
        Some(0)
    } else if k == "country_code"@ {
        Some(1)
    } else if k == "default_group"@ {
        Some(2)
    } else if k == "is_active"@ {
        Some(3)
    } else if k == "is_bot"@ {
        Some(4)
    } else if k == "is_deleted"@ {
        Some(5)
    } else if k == "is_online"@ {
        Some(6)
    } else if k == "is_supporter"@ {
        Some(7)
    } else if k == "last_visit"@ {
        Some(8)
    } else if k == "pm_friends_only"@ {
        Some(9)
    } else if k == "profile_colour"@ {
        Some(10)
    } else if k == "id"@ {
        Some(11)
    } else if k == "username"@ {
        Some(12)
    } else if k == "account_history"@ {
        Some(13)
    } else if k == "badges"@ {
        Some(14)
    } else if k == "beatmap_playcounts_count"@ {
        Some(15)
    } else if k == "country"@ {
        Some(16)
    } else if k == "cover"@ {
        Some(17)
    } else if k == "favourite_beatmapset_count"@ {
        Some(18)
    } else if k == "follower_count"@ {
        Some(19)
    } else if k == "graveyard_beatmapset_count"@ {
        Some(20)
    } else if k == "groups"@ {
        Some(21)
    } else if k == "is_admin"@ {
        Some(22)
    } else if k == "is_bng"@ {
        Some(23)
    } else if k == "is_full_bn"@ {
        Some(24)
    } else if k == "is_gmt"@ {
        Some(25)
    } else if k == "is_limited_bn"@ {
        Some(26)
    } else if k == "is_moderator"@ {
        Some(27)
    } else if k == "is_nat"@ {
        Some(28)
    } else if k == "is_silenced"@ {
        Some(29)
    } else if k == "loved_beatmapset_count"@ {
        Some(30)
    } else if k == "user_achievements"@ {
        Some(31)
    } else if k == "monthly_playcounts"@ {
        Some(32)
    } else if k == "page"@ {
        Some(33)
    } else if k == "previous_usernames"@ {
        Some(34)
    } else if k == "rank_history"@ {
        Some(35)
    } else if k == "ranked_beatmapset_count"@ {
        Some(36)
    } else if k == "replays_watched_counts"@ {
        Some(37)
    } else if k == "scores_best_count"@ {
        Some(38)
    } else if k == "scores_first_count"@ {
        Some(39)
    } else if k == "scores_recent_count"@ {
        Some(40)
    } else if k == "support_level"@ {
        Some(41)
    } else if k == "pending_beatmapset_count"@ {
        Some(42)
    } else {
        None
    }
}

pub open spec fn profile_classifier() -> spec_fn(Seq<char>) -> Option<int> {
    |k: Seq<char>| profile_key(k)
}

fn classify_profile_key(k: &String) -> (r: Option<usize>)
    ensures
        r matches Some(i) ==> profile_key(k@) == Some(i as int) && i < 43,
        r is None ==> profile_key(k@) is None,
{
    if key_is(k, "avatar_url") {
        Some(0)
    } else if key_is(k, "country_code") {
        Some(1)
    } else if key_is(k, "default_group") {
        Some(2)
    } else if key_is(k, "is_active") {
        Some(3)
    } else if key_is(k, "is_bot") {
        Some(4)
    } else if key_is(k, "is_deleted") {
        Some(5)
    } else if key_is(k, "is_online") {
        Some(6)
    } else if key_is(k, "is_supporter") {
        Some(7)
    } else if key_is(k, "last_visit") {
        Some(8)
    } else if key_is(k, "pm_friends_only") {
        Some(9)
    } else if key_is(k, "profile_colour") {
        Some(10)
    } else if key_is(k, "id") {
        Some(11)
    } else if key_is(k, "username") {
        Some(12)
    } else if key_is(k, "account_history") {
        Some(13)
    } else if key_is(k, "badges") {
        Some(14)
    } else if key_is(k, "beatmap_playcounts_count") {
        Some(15)
    } else if key_is(k, "country") {
        Some(16)
    } else if key_is(k, "cover") {
        Some(17)
    } else if key_is(k, "favourite_beatmapset_count") {
        Some(18)
    } else if key_is(k, "follower_count") {
        Some(19)
    } else if key_is(k, "graveyard_beatmapset_count") {
        Some(20)
    } else if key_is(k, "groups") {
        Some(21)
    } else if key_is(k, "is_admin") {
        Some(22)
    } else if key_is(k, "is_bng") {
        Some(23)
    } else if key_is(k, "is_full_bn") {
        Some(24)
    } else if key_is(k, "is_gmt") {
        Some(25)
    } else if key_is(k, "is_limited_bn") {
        Some(26)
    } else if key_is(k, "is_moderator") {
        Some(27)
    } else if key_is(k, "is_nat") {
        Some(28)
    } else if key_is(k, "is_silenced") {
        Some(29)
    } else if key_is(k, "loved_beatmapset_count") {
        Some(30)
    } else if key_is(k, "user_achievements") {
        Some(31)
    } else if key_is(k, "monthly_playcounts") {
        Some(32)
    } else if key_is(k, "page") {
        Some(33)
    } else if key_is(k, "previous_usernames") {
        Some(34)
    } else if key_is(k, "rank_history") {
        Some(35)
    } else if key_is(k, "ranked_beatmapset_count") {
        Some(36)
    } else if key_is(k, "replays_watched_counts") {
        Some(37)
    } else if key_is(k, "scores_best_count") {
        Some(38)
    } else if key_is(k, "scores_first_count") {
        Some(39)
    } else if key_is(k, "scores_recent_count") {
        Some(40)
    } else if key_is(k, "support_level") {
        Some(41)
    } else if key_is(k, "pending_beatmapset_count") {
        Some(42)
    } else {
        None
    }
}

/// Each wire name of the table is told apart from the others.
proof fn lemma_profile_keys()
    ensures
        profile_key("avatar_url"@) == Some(0int),
        profile_key("country_code"@) == Some(1int),
        profile_key("default_group"@) == Some(2int),
        profile_key("is_active"@) == Some(3int),
        profile_key("is_bot"@) == Some(4int),
        profile_key("is_deleted"@) == Some(5int),
        profile_key("is_online"@) == Some(6int),
        profile_key("is_supporter"@) == Some(7int),
        profile_key("last_visit"@) == Some(8int),
        profile_key("pm_friends_only"@) == Some(9int),
        profile_key("profile_colour"@) == Some(10int),
        profile_key("id"@) == Some(11int),
        profile_key("username"@) == Some(12int),
        profile_key("account_history"@) == Some(13int),
        profile_key("badges"@) == Some(14int),
        profile_key("beatmap_playcounts_count"@) == Some(15int),
        profile_key("country"@) == Some(16int),
        profile_key("cover"@) == Some(17int),
        profile_key("favourite_beatmapset_count"@) == Some(18int),
        profile_key("follower_count"@) == Some(19int),
        profile_key("graveyard_beatmapset_count"@) == Some(20int),
        profile_key("groups"@) == Some(21int),
        profile_key("is_admin"@) == Some(22int),
        profile_key("is_bng"@) == Some(23int),
        profile_key("is_full_bn"@) == Some(24int),
        profile_key("is_gmt"@) == Some(25int),
        profile_key("is_limited_bn"@) == Some(26int),
        profile_key("is_moderator"@) == Some(27int),
        profile_key("is_nat"@) == Some(28int),
        profile_key("is_silenced"@) == Some(29int),
        profile_key("loved_beatmapset_count"@) == Some(30int),
        profile_key("user_achievements"@) == Some(31int),
        profile_key("monthly_playcounts"@) == Some(32int),
        profile_key("page"@) == Some(33int),
        profile_key("previous_usernames"@) == Some(34int),
        profile_key("rank_history"@) == Some(35int),
        profile_key("ranked_beatmapset_count"@) == Some(36int),
        profile_key("replays_watched_counts"@) == Some(37int),
        profile_key("scores_best_count"@) == Some(38int),
        profile_key("scores_first_count"@) == Some(39int),
        profile_key("scores_recent_count"@) == Some(40int),
        profile_key("support_level"@) == Some(41int),
        profile_key("pending_beatmapset_count"@) == Some(42int),
{
    reveal_strlit("avatar_url");
    reveal_strlit("country_code");
    reveal_strlit("default_group");
    reveal_strlit("is_active");
    reveal_strlit("is_bot");
    reveal_strlit("is_deleted");
    reveal_strlit("is_online");
    reveal_strlit("is_supporter");
    reveal_strlit("last_visit");
    reveal_strlit("pm_friends_only");
    reveal_strlit("profile_colour");
    reveal_strlit("id");
    reveal_strlit("username");
    reveal_strlit("account_history");
    reveal_strlit("badges");
    reveal_strlit("beatmap_playcounts_count");
    reveal_strlit("country");
    reveal_strlit("cover");
    reveal_strlit("favourite_beatmapset_count");
    reveal_strlit("follower_count");
    reveal_strlit("graveyard_beatmapset_count");
    reveal_strlit("groups");
    reveal_strlit("is_admin");
    reveal_strlit("is_bng");
    reveal_strlit("is_full_bn");
    reveal_strlit("is_gmt");
    reveal_strlit("is_limited_bn");
    reveal_strlit("is_moderator");
    reveal_strlit("is_nat");
    reveal_strlit("is_silenced");
    reveal_strlit("loved_beatmapset_count");
    reveal_strlit("user_achievements");
    reveal_strlit("monthly_playcounts");
    reveal_strlit("page");
    reveal_strlit("previous_usernames");
    reveal_strlit("rank_history");
    reveal_strlit("ranked_beatmapset_count");
    reveal_strlit("replays_watched_counts");
    reveal_strlit("scores_best_count");
    reveal_strlit("scores_first_count");
    reveal_strlit("scores_recent_count");
    reveal_strlit("support_level");
    reveal_strlit("pending_beatmapset_count");
    assert("avatar_url"@.len() == 10);
    assert("country_code"@.len() == 12);
    assert("default_group"@.len() == 13);
    assert("is_active"@.len() == 9);
    assert("is_bot"@.len() == 6);
    assert("is_deleted"@.len() == 10);
    assert("is_online"@.len() == 9);
    assert("is_supporter"@.len() == 12);
    assert("last_visit"@.len() == 10);
    assert("pm_friends_only"@.len() == 15);
    assert("profile_colour"@.len() == 14);
    assert("id"@.len() == 2);
    assert("username"@.len() == 8);
    assert("account_history"@.len() == 15);
    assert("badges"@.len() == 6);
    assert("beatmap_playcounts_count"@.len() == 24);
    assert("country"@.len() == 7);
    assert("cover"@.len() == 5);
    assert("favourite_beatmapset_count"@.len() == 26);
    assert("follower_count"@.len() == 14);
    assert("graveyard_beatmapset_count"@.len() == 26);
    assert("groups"@.len() == 6);
    assert("is_admin"@.len() == 8);
    assert("is_bng"@.len() == 6);
    assert("is_full_bn"@.len() == 10);
    assert("is_gmt"@.len() == 6);
    assert("is_limited_bn"@.len() == 13);
    assert("is_moderator"@.len() == 12);
    assert("is_nat"@.len() == 6);
    assert("is_silenced"@.len() == 11);
    assert("loved_beatmapset_count"@.len() == 22);
    assert("user_achievements"@.len() == 17);
    assert("monthly_playcounts"@.len() == 18);
    assert("page"@.len() == 4);
    assert("previous_usernames"@.len() == 18);
    assert("rank_history"@.len() == 12);
    assert("ranked_beatmapset_count"@.len() == 23);
    assert("replays_watched_counts"@.len() == 22);
    assert("scores_best_count"@.len() == 17);
    assert("scores_first_count"@.len() == 18);
    assert("scores_recent_count"@.len() == 19);
    assert("support_level"@.len() == 13);
    assert("pending_beatmapset_count"@.len() == 24);
    assert("avatar_url"@[0] != "is_deleted"@[0]);
    assert("is_active"@[3] != "is_online"@[3]);
    assert("country_code"@[0] != "is_supporter"@[0]);
    assert("avatar_url"@[0] != "last_visit"@[0]);
    assert("is_deleted"@[0] != "last_visit"@[0]);
    assert("pm_friends_only"@[0] != "account_history"@[0]);
    assert("is_bot"@[0] != "badges"@[0]);
    assert("profile_colour"@[0] != "follower_count"@[0]);
    assert("favourite_beatmapset_count"@[0] != "graveyard_beatmapset_count"@[0]);
    assert("is_bot"@[0] != "groups"@[0]);
    assert("badges"@[0] != "groups"@[0]);
    assert("username"@[0] != "is_admin"@[0]);
    assert("is_bot"@[4] != "is_bng"@[4]);
    assert("badges"@[0] != "is_bng"@[0]);
    assert("groups"@[0] != "is_bng"@[0]);
    assert("avatar_url"@[0] != "is_full_bn"@[0]);
    assert("is_deleted"@[3] != "is_full_bn"@[3]);
    assert("last_visit"@[0] != "is_full_bn"@[0]);
    assert("is_bot"@[3] != "is_gmt"@[3]);
    assert("badges"@[0] != "is_gmt"@[0]);
    assert("groups"@[0] != "is_gmt"@[0]);
    assert("is_bng"@[3] != "is_gmt"@[3]);
    assert("default_group"@[0] != "is_limited_bn"@[0]);
    assert("country_code"@[0] != "is_moderator"@[0]);
    assert("is_supporter"@[3] != "is_moderator"@[3]);
    assert("is_bot"@[3] != "is_nat"@[3]);
    assert("badges"@[0] != "is_nat"@[0]);
    assert("groups"@[0] != "is_nat"@[0]);
    assert("is_bng"@[3] != "is_nat"@[3]);
    assert("is_gmt"@[3] != "is_nat"@[3]);
    assert("monthly_playcounts"@[0] != "previous_usernames"@[0]);
    assert("country_code"@[0] != "rank_history"@[0]);
    assert("is_supporter"@[0] != "rank_history"@[0]);
    assert("is_moderator"@[0] != "rank_history"@[0]);
    assert("loved_beatmapset_count"@[0] != "replays_watched_counts"@[0]);
    assert("user_achievements"@[0] != "scores_best_count"@[0]);
    assert("monthly_playcounts"@[0] != "scores_first_count"@[0]);
    assert("previous_usernames"@[0] != "scores_first_count"@[0]);
    assert("default_group"@[0] != "support_level"@[0]);
    assert("is_limited_bn"@[0] != "support_level"@[0]);
    assert("beatmap_playcounts_count"@[0] != "pending_beatmapset_count"@[0]);
}

/// Why a value present under the key of a slot is rejected, if it is.
pub open spec fn profile_member_error(i: int, v: Json) -> Option<DecodeError> {
    if i == 0 {
        str_error(Some(v), "avatar_url")
    } else if i == 1 {
        str_error(Some(v), "country_code")
    } else if i == 2 {
        str_error(Some(v), "default_group")
    } else if i == 3 {
        bool_error(Some(v), "is_active")
    } else if i == 4 {
        bool_error(Some(v), "is_bot")
    } else if i == 5 {
        bool_error(Some(v), "is_deleted")
    } else if i == 6 {
        bool_error(Some(v), "is_online")
    } else if i == 7 {
        bool_error(Some(v), "is_supporter")
    } else if i == 8 {
        opt_datetime_error(Some(v), "last_visit")
    } else if i == 9 {
        bool_error(Some(v), "pm_friends_only")
    } else if i == 10 {
        opt_str_error(Some(v), "profile_colour")
    } else if i == 11 {
        uint_error(Some(v), "id", u32::MAX as u64)
    } else if i == 12 {
        str_error(Some(v), "username")
    } else if i == 13 {
        None
    } else if i == 14 {
        None
    } else if i == 15 {
        opt_uint_error(Some(v), "beatmap_playcounts_count", u32::MAX as u64)
    } else if i == 16 {
        opt_str_error(Some(v), "country")
    } else if i == 17 {
        None
    } else if i == 18 {
        opt_uint_error(Some(v), "favourite_beatmapset_count", u32::MAX as u64)
    } else if i == 19 {
        opt_uint_error(Some(v), "follower_count", u32::MAX as u64)
    } else if i == 20 {
        opt_uint_error(Some(v), "graveyard_beatmapset_count", u32::MAX as u64)
    } else if i == 21 {
        None
    } else if i == 22 {
        opt_bool_error(Some(v), "is_admin")
    } else if i == 23 {
        opt_bool_error(Some(v), "is_bng")
    } else if i == 24 {
        opt_bool_error(Some(v), "is_full_bn")
    } else if i == 25 {
        opt_bool_error(Some(v), "is_gmt")
    } else if i == 26 {
        opt_bool_error(Some(v), "is_limited_bn")
    } else if i == 27 {
        opt_bool_error(Some(v), "is_moderator")
    } else if i == 28 {
        opt_bool_error(Some(v), "is_nat")
    } else if i == 29 {
        opt_bool_error(Some(v), "is_silenced")
    } else if i == 30 {
        opt_uint_error(Some(v), "loved_beatmapset_count", u32::MAX as u64)
    } else if i == 31 {
        None
    } else if i == 32 {
        None
    } else if i == 33 {
        None
    } else if i == 34 {
        None
    } else if i == 35 {
        None
    } else if i == 36 {
        opt_uint_error(Some(v), "ranked_beatmapset_count", u32::MAX as u64)
    } else if i == 37 {
        None
    } else if i == 38 {
        opt_uint_error(Some(v), "scores_best_count", u32::MAX as u64)
    } else if i == 39 {
        opt_uint_error(Some(v), "scores_first_count", u32::MAX as u64)
    } else if i == 40 {
        opt_uint_error(Some(v), "scores_recent_count", u32::MAX as u64)
    } else if i == 41 {
        opt_uint_error(Some(v), "support_level", u8::MAX as u64)
    } else if i == 42 {
        opt_uint_error(Some(v), "pending_beatmapset_count", u32::MAX as u64)
    } else {
        None
    }
}

pub open spec fn profile_checker() -> spec_fn(int, Json) -> Option<DecodeError> {
    |i: int, v: Json| profile_member_error(i, v)
}

fn check_profile_member(i: usize, v: &Json) -> (r: Option<DecodeError>)
    requires
        i < 43,
    ensures
        r == profile_member_error(i as int, *v),
{
    if i == 0 {
        check_str(v, "avatar_url")
    } else if i == 1 {
        check_str(v, "country_code")
    } else if i == 2 {
        check_str(v, "default_group")
    } else if i == 3 {
        check_bool(v, "is_active")
    } else if i == 4 {
        check_bool(v, "is_bot")
    } else if i == 5 {
        check_bool(v, "is_deleted")
    } else if i == 6 {
        check_bool(v, "is_online")
    } else if i == 7 {
        check_bool(v, "is_supporter")
    } else if i == 8 {
        check_opt_datetime(v, "last_visit")
    } else if i == 9 {
        check_bool(v, "pm_friends_only")
    } else if i == 10 {
        check_opt_str(v, "profile_colour")
    } else if i == 11 {
        check_uint(v, "id", u32::MAX as u64)
    } else if i == 12 {
        check_str(v, "username")
    } else if i == 13 {
        None
    } else if i == 14 {
        None
    } else if i == 15 {
        check_opt_uint(v, "beatmap_playcounts_count", u32::MAX as u64)
    } else if i == 16 {
        check_opt_str(v, "country")
    } else if i == 17 {
        None
    } else if i == 18 {
        check_opt_uint(v, "favourite_beatmapset_count", u32::MAX as u64)
    } else if i == 19 {
        check_opt_uint(v, "follower_count", u32::MAX as u64)
    } else if i == 20 {
        check_opt_uint(v, "graveyard_beatmapset_count", u32::MAX as u64)
    } else if i == 21 {
        None
    } else if i == 22 {
        check_opt_bool(v, "is_admin")
    } else if i == 23 {
        check_opt_bool(v, "is_bng")
    } else if i == 24 {
        check_opt_bool(v, "is_full_bn")
    } else if i == 25 {
        check_opt_bool(v, "is_gmt")
    } else if i == 26 {
        check_opt_bool(v, "is_limited_bn")
    } else if i == 27 {
        check_opt_bool(v, "is_moderator")
    } else if i == 28 {
        check_opt_bool(v, "is_nat")
    } else if i == 29 {
        check_opt_bool(v, "is_silenced")
    } else if i == 30 {
        check_opt_uint(v, "loved_beatmapset_count", u32::MAX as u64)
    } else if i == 31 {
        None
    } else if i == 32 {
        None
    } else if i == 33 {
        None
    } else if i == 34 {
        None
    } else if i == 35 {
        None
    } else if i == 36 {
        check_opt_uint(v, "ranked_beatmapset_count", u32::MAX as u64)
    } else if i == 37 {
        None
    } else if i == 38 {
        check_opt_uint(v, "scores_best_count", u32::MAX as u64)
    } else if i == 39 {
        check_opt_uint(v, "scores_first_count", u32::MAX as u64)
    } else if i == 40 {
        check_opt_uint(v, "scores_recent_count", u32::MAX as u64)
    } else if i == 41 {
        check_opt_uint(v, "support_level", u8::MAX as u64)
    } else if i == 42 {
        check_opt_uint(v, "pending_beatmapset_count", u32::MAX as u64)
    } else {
        None
    }
}

/// Sorts the members of an object into the slots of the table; for a
/// repeated key the later member wins, and unknown keys are dropped. Every
/// value under a known key is checked, and the first rejected one, in member
/// order, is returned.
fn collect_profile(entries: Vec<(String, Json)>) -> (res: (Vec<Option<Json>>, Option<DecodeError>))
    ensures
        res.1 == first_bad(entries@, profile_classifier(), profile_checker()),
        res.0@.len() == 43,
        forall|i: int| 0 <= i < 43 ==> #[trigger] res.0@[i] == last_with(entries@, profile_classifier(), i),
{
    let ghost all = entries@;
    let mut slots = empty_slots(43);
    let mut bad: Option<DecodeError> = None;
    let mut rest = entries;
    while rest.len() > 0
        invariant
            all == entries@,
            first_bad(all, profile_classifier(), profile_checker()) == match first_bad(rest@, profile_classifier(), profile_checker()) {
                Some(e) => Some(e),
                None => bad,
            },
            slots@.len() == 43,
            forall|i: int|
                0 <= i < 43 ==> last_with(all, profile_classifier(), i) == match #[trigger] slots@[i] {
                    Some(v) => Some(v),
                    None => last_with(rest@, profile_classifier(), i),
                },
        decreases rest.len(),
    {
        let ghost before = rest@;
        let (k, v) = rest.pop().unwrap();
        proof {
            assert(before == rest@.push((k, v)));
            lemma_last_with_push(rest@, (k, v), profile_classifier());
            lemma_first_bad_push(rest@, (k, v), profile_classifier(), profile_checker());
        }
        match classify_profile_key(&k) {
            Some(i) => {
                match check_profile_member(i, &v) {
                    Some(e) => {
                        bad = Some(e);
                    },
                    None => {},
                }
                if slots[i].is_none() {
                    slots.set(i, Some(v));
                }
            },
            None => {},
        }
    }
    proof {
        assert forall|i: int| 0 <= i < 43 implies #[trigger] slots@[i] == last_with(all, profile_classifier(), i) by {
            assert(last_with(rest@, profile_classifier(), i) is None);
        }
    }
    (slots, bad)
}

/// The first field of the profile, in table order, that does not decode.
pub open spec fn profile_error(e: Seq<(String, Json)>) -> Option<DecodeError> {
    if str_error(last_with(e, profile_classifier(), 0), "avatar_url") is Some {
        str_error(last_with(e, profile_classifier(), 0), "avatar_url")
    } else if str_error(last_with(e, profile_classifier(), 1), "country_code") is Some {
        str_error(last_with(e, profile_classifier(), 1), "country_code")
    } else if str_error(last_with(e, profile_classifier(), 2), "default_group") is Some {
        str_error(last_with(e, profile_classifier(), 2), "default_group")
    } else if bool_error(last_with(e, profile_classifier(), 3), "is_active") is Some {
        bool_error(last_with(e, profile_classifier(), 3), "is_active")
    } else if bool_error(last_with(e, profile_classifier(), 4), "is_bot") is Some {
        bool_error(last_with(e, profile_classifier(), 4), "is_bot")
    } else if bool_error(last_with(e, profile_classifier(), 5), "is_deleted") is Some {
        bool_error(last_with(e, profile_classifier(), 5), "is_deleted")
    } else if bool_error(last_with(e, profile_classifier(), 6), "is_online") is Some {
        bool_error(last_with(e, profile_classifier(), 6), "is_online")
    } else if bool_error(last_with(e, profile_classifier(), 7), "is_supporter") is Some {
        bool_error(last_with(e, profile_classifier(), 7), "is_supporter")
    } else if opt_datetime_error(last_with(e, profile_classifier(), 8), "last_visit") is Some {
        opt_datetime_error(last_with(e, profile_classifier(), 8), "last_visit")
    } else if bool_error(last_with(e, profile_classifier(), 9), "pm_friends_only") is Some {
        bool_error(last_with(e, profile_classifier(), 9), "pm_friends_only")
    } else if opt_str_error(last_with(e, profile_classifier(), 10), "profile_colour") is Some {
        opt_str_error(last_with(e, profile_classifier(), 10), "profile_colour")
    } else if uint_error(last_with(e, profile_classifier(), 11), "id", u32::MAX as u64) is Some {
        uint_error(last_with(e, profile_classifier(), 11), "id", u32::MAX as u64)
    } else if str_error(last_with(e, profile_classifier(), 12), "username") is Some {
        str_error(last_with(e, profile_classifier(), 12), "username")
    } else if opt_uint_error(last_with(e, profile_classifier(), 15), "beatmap_playcounts_count", u32::MAX as u64) is Some {
        opt_uint_error(last_with(e, profile_classifier(), 15), "beatmap_playcounts_count", u32::MAX as u64)
    } else if opt_str_error(last_with(e, profile_classifier(), 16), "country") is Some {
        opt_str_error(last_with(e, profile_classifier(), 16), "country")
    } else if opt_uint_error(last_with(e, profile_classifier(), 18), "favourite_beatmapset_count", u32::MAX as u64) is Some {
        opt_uint_error(last_with(e, profile_classifier(), 18), "favourite_beatmapset_count", u32::MAX as u64)
    } else if opt_uint_error(last_with(e, profile_classifier(), 19), "follower_count", u32::MAX as u64) is Some {
        opt_uint_error(last_with(e, profile_classifier(), 19), "follower_count", u32::MAX as u64)
    } else if opt_uint_error(last_with(e, profile_classifier(), 20), "graveyard_beatmapset_count", u32::MAX as u64) is Some {
        opt_uint_error(last_with(e, profile_classifier(), 20), "graveyard_beatmapset_count", u32::MAX as u64)
    } else if opt_bool_error(last_with(e, profile_classifier(), 22), "is_admin") is Some {
        opt_bool_error(last_with(e, profile_classifier(), 22), "is_admin")
    } else if opt_bool_error(last_with(e, profile_classifier(), 23), "is_bng") is Some {
        opt_bool_error(last_with(e, profile_classifier(), 23), "is_bng")
    } else if opt_bool_error(last_with(e, profile_classifier(), 24), "is_full_bn") is Some {
        opt_bool_error(last_with(e, profile_classifier(), 24), "is_full_bn")
    } else if opt_bool_error(last_with(e, profile_classifier(), 25), "is_gmt") is Some {
        opt_bool_error(last_with(e, profile_classifier(), 25), "is_gmt")
    } else if opt_bool_error(last_with(e, profile_classifier(), 26), "is_limited_bn") is Some {
        opt_bool_error(last_with(e, profile_classifier(), 26), "is_limited_bn")
    } else if opt_bool_error(last_with(e, profile_classifier(), 27), "is_moderator") is Some {
        opt_bool_error(last_with(e, profile_classifier(), 27), "is_moderator")
    } else if opt_bool_error(last_with(e, profile_classifier(), 28), "is_nat") is Some {
        opt_bool_error(last_with(e, profile_classifier(), 28), "is_nat")
    } else if opt_bool_error(last_with(e, profile_classifier(), 29), "is_silenced") is Some {
        opt_bool_error(last_with(e, profile_classifier(), 29), "is_silenced")
    } else if opt_uint_error(last_with(e, profile_classifier(), 30), "loved_beatmapset_count", u32::MAX as u64) is Some {
        opt_uint_error(last_with(e, profile_classifier(), 30), "loved_beatmapset_count", u32::MAX as u64)
    } else if opt_uint_error(last_with(e, profile_classifier(), 36), "ranked_beatmapset_count", u32::MAX as u64) is Some {
        opt_uint_error(last_with(e, profile_classifier(), 36), "ranked_beatmapset_count", u32::MAX as u64)
    } else if opt_uint_error(last_with(e, profile_classifier(), 38), "scores_best_count", u32::MAX as u64) is Some {
        opt_uint_error(last_with(e, profile_classifier(), 38), "scores_best_count", u32::MAX as u64)
    } else if opt_uint_error(last_with(e, profile_classifier(), 39), "scores_first_count", u32::MAX as u64) is Some {
        opt_uint_error(last_with(e, profile_classifier(), 39), "scores_first_count", u32::MAX as u64)
    } else if opt_uint_error(last_with(e, profile_classifier(), 40), "scores_recent_count", u32::MAX as u64) is Some {
        opt_uint_error(last_with(e, profile_classifier(), 40), "scores_recent_count", u32::MAX as u64)
    } else if opt_uint_error(last_with(e, profile_classifier(), 41), "support_level", u8::MAX as u64) is Some {
        opt_uint_error(last_with(e, profile_classifier(), 41), "support_level", u8::MAX as u64)
    } else if opt_uint_error(last_with(e, profile_classifier(), 42), "pending_beatmapset_count", u32::MAX as u64) is Some {
        opt_uint_error(last_with(e, profile_classifier(), 42), "pending_beatmapset_count", u32::MAX as u64)
    } else {
        None
    }
}

/// The profile read from the members of the `user` object, without statistics.
pub open spec fn profile_value(e: Seq<(String, Json)>) -> UserCompact {
    UserCompact {
        avatar_url: str_value(last_with(e, profile_classifier(), 0)),
        country_code: str_value(last_with(e, profile_classifier(), 1)),
        default_group: str_value(last_with(e, profile_classifier(), 2)),
        is_active: bool_value(last_with(e, profile_classifier(), 3)),
        is_bot: bool_value(last_with(e, profile_classifier(), 4)),
        is_deleted: bool_value(last_with(e, profile_classifier(), 5)),
        is_online: bool_value(last_with(e, profile_classifier(), 6)),
        is_supporter: bool_value(last_with(e, profile_classifier(), 7)),
        last_visit: opt_str_value(last_with(e, profile_classifier(), 8)),
        pm_friends_only: bool_value(last_with(e, profile_classifier(), 9)),
        profile_color: opt_str_value(last_with(e, profile_classifier(), 10)),
        user_id: uint_value(last_with(e, profile_classifier(), 11)) as u32,
        username: str_value(last_with(e, profile_classifier(), 12)),
        account_history: opt_json_value(last_with(e, profile_classifier(), 13)),
        badges: opt_json_value(last_with(e, profile_classifier(), 14)),
        beatmap_playcounts_count: opt_u32_value(last_with(e, profile_classifier(), 15)),
        country: opt_str_value(last_with(e, profile_classifier(), 16)),
        cover: opt_json_value(last_with(e, profile_classifier(), 17)),
        favourite_mapset_count: opt_u32_value(last_with(e, profile_classifier(), 18)),
        follower_count: opt_u32_value(last_with(e, profile_classifier(), 19)),
        graveyard_mapset_count: opt_u32_value(last_with(e, profile_classifier(), 20)),
        groups: opt_json_value(last_with(e, profile_classifier(), 21)),
        is_admin: opt_bool_value(last_with(e, profile_classifier(), 22)),
        is_bng: opt_bool_value(last_with(e, profile_classifier(), 23)),
        is_full_bn: opt_bool_value(last_with(e, profile_classifier(), 24)),
        is_gmt: opt_bool_value(last_with(e, profile_classifier(), 25)),
        is_limited_bn: opt_bool_value(last_with(e, profile_classifier(), 26)),
        is_moderator: opt_bool_value(last_with(e, profile_classifier(), 27)),
        is_nat: opt_bool_value(last_with(e, profile_classifier(), 28)),
        is_silenced: opt_bool_value(last_with(e, profile_classifier(), 29)),
        loved_mapset_count: opt_u32_value(last_with(e, profile_classifier(), 30)),
        medals: opt_json_value(last_with(e, profile_classifier(), 31)),
        monthly_playcounts: opt_json_value(last_with(e, profile_classifier(), 32)),
        page: opt_json_value(last_with(e, profile_classifier(), 33)),
        previous_usernames: opt_json_value(last_with(e, profile_classifier(), 34)),
        rank_history: opt_json_value(last_with(e, profile_classifier(), 35)),
        ranked_mapset_count: opt_u32_value(last_with(e, profile_classifier(), 36)),
        replays_watched_counts: opt_json_value(last_with(e, profile_classifier(), 37)),
        scores_best_count: opt_u32_value(last_with(e, profile_classifier(), 38)),
        scores_first_count: opt_u32_value(last_with(e, profile_classifier(), 39)),
        scores_recent_count: opt_u32_value(last_with(e, profile_classifier(), 40)),
        support_level: opt_u8_value(last_with(e, profile_classifier(), 41)),
        pending_mapset_count: opt_u32_value(last_with(e, profile_classifier(), 42)),
        statistics: None,
    }
}

/// What the nested `user` object decodes to.
pub open spec fn decode_profile_spec(j: Json) -> Result<UserCompact, DecodeError> {
    match j {
        Json::Obj(m) => if first_bad(m@, profile_classifier(), profile_checker()) is Some {
            Err(first_bad(m@, profile_classifier(), profile_checker())->Some_0)
        } else {
            match profile_error(m@) {
                Some(e) => Err(e),
                None => Ok(profile_value(m@)),
            }
        },
        _ => Err(DecodeError::TypeMismatch("user")),
    }
}

/// The `user` member, where `null` reads as absent.
pub open spec fn nullable_profile_spec(v: Json) -> Result<Option<UserCompact>, DecodeError> {
    match v {
        Json::Null => Ok(None),
        _ => match decode_profile_spec(v) {
            Ok(p) => Ok(Some(p)),
            Err(e) => Err(e),
        },
    }
}

fn decode_nullable_profile(v: Json) -> (r: Result<Option<UserCompact>, DecodeError>)
    ensures
        r == nullable_profile_spec(v),
{
    match v {
        Json::Null => Ok(None),
        _ => match decode_profile(v) {
            Ok(p) => Ok(Some(p)),
            Err(e) => Err(e),
        },
    }
}

/// The first statistics field, in table order, that does not decode.
pub open spec fn stats_error(e: Seq<(String, Json)>) -> Option<DecodeError> {
    if num_error(last_with(e, stats_classifier(), 0), "hit_accuracy") is Some {
        num_error(last_with(e, stats_classifier(), 0), "hit_accuracy")
    } else if opt_uint_error(last_with(e, stats_classifier(), 1), "country_rank", u32::MAX as u64) is Some {
        opt_uint_error(last_with(e, stats_classifier(), 1), "country_rank", u32::MAX as u64)
    } else if opt_uint_error(last_with(e, stats_classifier(), 2), "global_rank", u32::MAX as u64) is Some {
        opt_uint_error(last_with(e, stats_classifier(), 2), "global_rank", u32::MAX as u64)
    } else if obj_error(last_with(e, stats_classifier(), 3), "grade_counts") is Some {
        obj_error(last_with(e, stats_classifier(), 3), "grade_counts")
    } else if bool_error(last_with(e, stats_classifier(), 4), "is_ranked") is Some {
        bool_error(last_with(e, stats_classifier(), 4), "is_ranked")
    } else if obj_error(last_with(e, stats_classifier(), 5), "level") is Some {
        obj_error(last_with(e, stats_classifier(), 5), "level")
    } else if uint_error(last_with(e, stats_classifier(), 6), "maximum_combo", u32::MAX as u64) is Some {
        uint_error(last_with(e, stats_classifier(), 6), "maximum_combo", u32::MAX as u64)
    } else if uint_error(last_with(e, stats_classifier(), 7), "play_count", u32::MAX as u64) is Some {
        uint_error(last_with(e, stats_classifier(), 7), "play_count", u32::MAX as u64)
    } else if u32_or_null_error(last_with(e, stats_classifier(), 8), "play_time") is Some {
        u32_or_null_error(last_with(e, stats_classifier(), 8), "play_time")
    } else if num_or_null_error(last_with(e, stats_classifier(), 9), "pp") is Some {
        num_or_null_error(last_with(e, stats_classifier(), 9), "pp")
    } else if uint_error(last_with(e, stats_classifier(), 10), "ranked_score", u64::MAX) is Some {
        uint_error(last_with(e, stats_classifier(), 10), "ranked_score", u64::MAX)
    } else if uint_error(last_with(e, stats_classifier(), 11), "replays_watched_by_others", u32::MAX as u64) is Some {
        uint_error(last_with(e, stats_classifier(), 11), "replays_watched_by_others", u32::MAX as u64)
    } else if uint_error(last_with(e, stats_classifier(), 12), "total_hits", u64::MAX) is Some {
        uint_error(last_with(e, stats_classifier(), 12), "total_hits", u64::MAX)
    } else if uint_error(last_with(e, stats_classifier(), 13), "total_score", u64::MAX) is Some {
        uint_error(last_with(e, stats_classifier(), 13), "total_score", u64::MAX)
    } else {
        None
    }
}

/// The statistics read from the flat members of a leaderboard entry.
pub open spec fn stats_value(e: Seq<(String, Json)>) -> UserStatistics {
    UserStatistics {
        accuracy: num_value(last_with(e, stats_classifier(), 0)),
        country_rank: opt_u32_value(last_with(e, stats_classifier(), 1)),
        global_rank: opt_u32_value(last_with(e, stats_classifier(), 2)),
        grade_counts: json_value(last_with(e, stats_classifier(), 3)),
        is_ranked: bool_value(last_with(e, stats_classifier(), 4)),
        level: json_value(last_with(e, stats_classifier(), 5)),
        max_combo: uint_value(last_with(e, stats_classifier(), 6)) as u32,
        playcount: uint_value(last_with(e, stats_classifier(), 7)) as u32,
        playtime: u32_or_null_value(last_with(e, stats_classifier(), 8)),
        pp: num_value(last_with(e, stats_classifier(), 9)),
        ranked_score: uint_value(last_with(e, stats_classifier(), 10)),
        replays_watched: uint_value(last_with(e, stats_classifier(), 11)) as u32,
        total_hits: uint_value(last_with(e, stats_classifier(), 12)),
        total_score: uint_value(last_with(e, stats_classifier(), 13)),
    }
}

/// What one leaderboard entry decodes to: the statistics are read from the
/// flat members and the profile from the nested `user` object. The first
/// member under a known key whose value is rejected (for `user`, what the
/// object reports) is reported first, in member order; then a missing
/// statistics field, in table order; then a missing or `null` `user`.
pub open spec fn decode_user_stats_spec(j: Json) -> Result<UserCompact, DecodeError> {
    match j {
        Json::Obj(m) => if first_bad(m@, stats_classifier(), stats_checker()) is Some {
            Err(first_bad(m@, stats_classifier(), stats_checker())->Some_0)
        } else if stats_error(m@) is Some {
            Err(stats_error(m@)->Some_0)
        } else {
            match last_with(m@, stats_classifier(), 14) {
                None => Err(DecodeError::MissingField("user")),
                Some(Json::Null) => Err(DecodeError::MissingField("user")),
                Some(u) => match decode_profile_spec(u) {
                    Err(e) => Err(e),
                    Ok(p) => Ok(with_statistics(p, stats_value(m@))),
                },
            }
        },
        _ => Err(DecodeError::TypeMismatch("UserStatistics")),
    }
}

/// A profile with its statistics set.
pub open spec fn with_statistics(p: UserCompact, s: UserStatistics) -> UserCompact {
    UserCompact {
        avatar_url: p.avatar_url,
        country_code: p.country_code,
        default_group: p.default_group,
        is_active: p.is_active,
        is_bot: p.is_bot,
        is_deleted: p.is_deleted,
        is_online: p.is_online,
        is_supporter: p.is_supporter,
        last_visit: p.last_visit,
        pm_friends_only: p.pm_friends_only,
        profile_color: p.profile_color,
        user_id: p.user_id,
        username: p.username,
        account_history: p.account_history,
        badges: p.badges,
        beatmap_playcounts_count: p.beatmap_playcounts_count,
        country: p.country,
        cover: p.cover,
        favourite_mapset_count: p.favourite_mapset_count,
        follower_count: p.follower_count,
        graveyard_mapset_count: p.graveyard_mapset_count,
        groups: p.groups,
        is_admin: p.is_admin,
        is_bng: p.is_bng,
        is_full_bn: p.is_full_bn,
        is_gmt: p.is_gmt,
        is_limited_bn: p.is_limited_bn,
        is_moderator: p.is_moderator,
        is_nat: p.is_nat,
        is_silenced: p.is_silenced,
        loved_mapset_count: p.loved_mapset_count,
        medals: p.medals,
        monthly_playcounts: p.monthly_playcounts,
        page: p.page,
        previous_usernames: p.previous_usernames,
        rank_history: p.rank_history,
        ranked_mapset_count: p.ranked_mapset_count,
        replays_watched_counts: p.replays_watched_counts,
        scores_best_count: p.scores_best_count,
        scores_first_count: p.scores_first_count,
        scores_recent_count: p.scores_recent_count,
        support_level: p.support_level,
        pending_mapset_count: p.pending_mapset_count,
        statistics: Some(s),
    }
}

/// Decodes the nested `user` object of a leaderboard entry.
#[verifier::rlimit(100)]
#[verifier::spinoff_prover]
pub fn decode_profile(j: Json) -> (r: Result<UserCompact, DecodeError>)
    ensures
        r == decode_profile_spec(j),
{
    let entries = match j {
        Json::Obj(m) => m,
        _ => return Err(DecodeError::TypeMismatch("user")),
    };
    let (mut slots, bad) = collect_profile(entries);
    match bad {
        Some(e) => {
            return Err(e);
        },
        None => {},
    }
    let avatar_url = match decode_str(take_slot(&mut slots, 0), "avatar_url") {
            Ok(v) => v,
            Err(e) => return Err(e),
    };
    let country_code = match decode_str(take_slot(&mut slots, 1), "country_code") {
            Ok(v) => v,
            Err(e) => return Err(e),
    };
    let default_group = match decode_str(take_slot(&mut slots, 2), "default_group") {
            Ok(v) => v,
            Err(e) => return Err(e),
    };
    let is_active = match decode_bool(take_slot(&mut slots, 3), "is_active") {
            Ok(v) => v,
            Err(e) => return Err(e),
    };
    let is_bot = match decode_bool(take_slot(&mut slots, 4), "is_bot") {
            Ok(v) => v,
            Err(e) => return Err(e),
    };
    let is_deleted = match decode_bool(take_slot(&mut slots, 5), "is_deleted") {
            Ok(v) => v,
            Err(e) => return Err(e),
    };
    let is_online = match decode_bool(take_slot(&mut slots, 6), "is_online") {
            Ok(v) => v,
            Err(e) => return Err(e),
    };
    let is_supporter = match decode_bool(take_slot(&mut slots, 7), "is_supporter") {
            Ok(v) => v,
            Err(e) => return Err(e),
    };
    let last_visit = match decode_opt_datetime(take_slot(&mut slots, 8), "last_visit") {
            Ok(v) => v,
            Err(e) => return Err(e),
    };
    let pm_friends_only = match decode_bool(take_slot(&mut slots, 9), "pm_friends_only") {
            Ok(v) => v,
            Err(e) => return Err(e),
    };
    let profile_color = match decode_opt_str(take_slot(&mut slots, 10), "profile_colour") {
            Ok(v) => v,
            Err(e) => return Err(e),
    };
    let user_id = match decode_u32(take_slot(&mut slots, 11), "id") {
            Ok(v) => v,
            Err(e) => return Err(e),
    };
    let username = match decode_str(take_slot(&mut slots, 12), "username") {
            Ok(v) => v,
            Err(e) => return Err(e),
    };
    let account_history = decode_opt_json(take_slot(&mut slots, 13));
    let badges = decode_opt_json(take_slot(&mut slots, 14));
    let beatmap_playcounts_count = match decode_opt_u32(take_slot(&mut slots, 15), "beatmap_playcounts_count") {
            Ok(v) => v,
            Err(e) => return Err(e),
    };
    let country = match decode_opt_str(take_slot(&mut slots, 16), "country") {
            Ok(v) => v,
            Err(e) => return Err(e),
    };
    let cover = decode_opt_json(take_slot(&mut slots, 17));
    let favourite_mapset_count = match decode_opt_u32(take_slot(&mut slots, 18), "favourite_beatmapset_count") {
            Ok(v) => v,
            Err(e) => return Err(e),
    };
    let follower_count = match decode_opt_u32(take_slot(&mut slots, 19), "follower_count") {
            Ok(v) => v,
            Err(e) => return Err(e),
    };
    let graveyard_mapset_count = match decode_opt_u32(take_slot(&mut slots, 20), "graveyard_beatmapset_count") {
            Ok(v) => v,
            Err(e) => return Err(e),
    };
    let groups = decode_opt_json(take_slot(&mut slots, 21));
    let is_admin = match decode_opt_bool(take_slot(&mut slots, 22), "is_admin") {
            Ok(v) => v,
            Err(e) => return Err(e),
    };
    let is_bng = match decode_opt_bool(take_slot(&mut slots, 23), "is_bng") {
            Ok(v) => v,
            Err(e) => return Err(e),
    };
    let is_full_bn = match decode_opt_bool(take_slot(&mut slots, 24), "is_full_bn") {
            Ok(v) => v,
            Err(e) => return Err(e),
    };
    let is_gmt = match decode_opt_bool(take_slot(&mut slots, 25), "is_gmt") {
            Ok(v) => v,
            Err(e) => return Err(e),
    };
    let is_limited_bn = match decode_opt_bool(take_slot(&mut slots, 26), "is_limited_bn") {
            Ok(v) => v,
            Err(e) => return Err(e),
    };
    let is_moderator = match decode_opt_bool(take_slot(&mut slots, 27), "is_moderator") {
            Ok(v) => v,
            Err(e) => return Err(e),
    };
    let is_nat = match decode_opt_bool(take_slot(&mut slots, 28), "is_nat") {
            Ok(v) => v,
            Err(e) => return Err(e),
    };
    let is_silenced = match decode_opt_bool(take_slot(&mut slots, 29), "is_silenced") {
            Ok(v) => v,
            Err(e) => return Err(e),
    };
    let loved_mapset_count = match decode_opt_u32(take_slot(&mut slots, 30), "loved_beatmapset_count") {
            Ok(v) => v,
            Err(e) => return Err(e),
    };
    let medals = decode_opt_json(take_slot(&mut slots, 31));
    let monthly_playcounts = decode_opt_json(take_slot(&mut slots, 32));
    let page = decode_opt_json(take_slot(&mut slots, 33));
    let previous_usernames = decode_opt_json(take_slot(&mut slots, 34));
    let rank_history = decode_opt_json(take_slot(&mut slots, 35));
    let ranked_mapset_count = match decode_opt_u32(take_slot(&mut slots, 36), "ranked_beatmapset_count") {
            Ok(v) => v,
            Err(e) => return Err(e),
    };
    let replays_watched_counts = decode_opt_json(take_slot(&mut slots, 37));
    let scores_best_count = match decode_opt_u32(take_slot(&mut slots, 38), "scores_best_count") {
            Ok(v) => v,
            Err(e) => return Err(e),
    };
    let scores_first_count = match decode_opt_u32(take_slot(&mut slots, 39), "scores_first_count") {
            Ok(v) => v,
            Err(e) => return Err(e),
    };
    let scores_recent_count = match decode_opt_u32(take_slot(&mut slots, 40), "scores_recent_count") {
            Ok(v) => v,
            Err(e) => return Err(e),
    };
    let support_level = match decode_opt_u8(take_slot(&mut slots, 41), "support_level") {
            Ok(v) => v,
            Err(e) => return Err(e),
    };
    let pending_mapset_count = match decode_opt_u32(take_slot(&mut slots, 42), "pending_beatmapset_count") {
            Ok(v) => v,
            Err(e) => return Err(e),
    };
    Ok(UserCompact {
        avatar_url,
        country_code,
        default_group,
        is_active,
        is_bot,
        is_deleted,
        is_online,
        is_supporter,
        last_visit,
        pm_friends_only,
        profile_color,
        user_id,
        username,
        account_history,
        badges,
        beatmap_playcounts_count,
        country,
        cover,
        favourite_mapset_count,
        follower_count,
        graveyard_mapset_count,
        groups,
        is_admin,
        is_bng,
        is_full_bn,
        is_gmt,
        is_limited_bn,
        is_moderator,
        is_nat,
        is_silenced,
        loved_mapset_count,
        medals,
        monthly_playcounts,
        page,
        previous_usernames,
        rank_history,
        ranked_mapset_count,
        replays_watched_counts,
        scores_best_count,
        scores_first_count,
        scores_recent_count,
        support_level,
        pending_mapset_count,
        statistics: None,
    })
}

/// Decodes one leaderboard entry, merging the flat statistics members and
/// the nested `user` object into one record. Unknown keys are ignored.
#[verifier::rlimit(100)]
#[verifier::spinoff_prover]
pub fn decode_user_stats(j: Json) -> (r: Result<UserCompact, DecodeError>)
    ensures
        r == decode_user_stats_spec(j),
{
    let entries = match j {
        Json::Obj(m) => m,
        _ => return Err(DecodeError::TypeMismatch("UserStatistics")),
    };
    let (mut slots, bad, user) = collect_stats(entries);
    match bad {
        Some(e) => {
            return Err(e);
        },
        None => {},
    }
    let accuracy = match decode_num(take_slot(&mut slots, 0), "hit_accuracy") {
            Ok(v) => v,
            Err(e) => return Err(e),
    };
    let country_rank = match decode_opt_u32(take_slot(&mut slots, 1), "country_rank") {
            Ok(v) => v,
            Err(e) => return Err(e),
    };
    let global_rank = match decode_opt_u32(take_slot(&mut slots, 2), "global_rank") {
            Ok(v) => v,
            Err(e) => return Err(e),
    };
    let grade_counts = match decode_obj(take_slot(&mut slots, 3), "grade_counts") {
            Ok(v) => v,
            Err(e) => return Err(e),
    };
    let is_ranked = match decode_bool(take_slot(&mut slots, 4), "is_ranked") {
            Ok(v) => v,
            Err(e) => return Err(e),
    };
    let level = match decode_obj(take_slot(&mut slots, 5), "level") {
            Ok(v) => v,
            Err(e) => return Err(e),
    };
    let max_combo = match decode_u32(take_slot(&mut slots, 6), "maximum_combo") {
            Ok(v) => v,
            Err(e) => return Err(e),
    };
    let playcount = match decode_u32(take_slot(&mut slots, 7), "play_count") {
            Ok(v) => v,
            Err(e) => return Err(e),
    };
    let playtime = match decode_u32_or_null(take_slot(&mut slots, 8), "play_time") {
            Ok(v) => v,
            Err(e) => return Err(e),
    };
    let pp = match decode_num_or_null(take_slot(&mut slots, 9), "pp") {
            Ok(v) => v,
            Err(e) => return Err(e),
    };
    let ranked_score = match decode_u64(take_slot(&mut slots, 10), "ranked_score") {
            Ok(v) => v,
            Err(e) => return Err(e),
    };
    let replays_watched = match decode_u32(take_slot(&mut slots, 11), "replays_watched_by_others") {
            Ok(v) => v,
            Err(e) => return Err(e),
    };
    let total_hits = match decode_u64(take_slot(&mut slots, 12), "total_hits") {
            Ok(v) => v,
            Err(e) => return Err(e),
    };
    let total_score = match decode_u64(take_slot(&mut slots, 13), "total_score") {
            Ok(v) => v,
            Err(e) => return Err(e),
    };
    let user = match user {
        Some(Some(p)) => p,
        _ => return Err(DecodeError::MissingField("user")),
    };
    let stats = UserStatistics {
        accuracy,
        country_rank,
        global_rank,
        grade_counts,
        is_ranked,
        level,
        max_combo,
        playcount,
        playtime,
        pp,
        ranked_score,
        replays_watched,
        total_hits,
        total_score,
    };
    Ok(UserCompact {
        avatar_url: user.avatar_url,
        country_code: user.country_code,
        default_group: user.default_group,
        is_active: user.is_active,
        is_bot: user.is_bot,
        is_deleted: user.is_deleted,
        is_online: user.is_online,
        is_supporter: user.is_supporter,
        last_visit: user.last_visit,
        pm_friends_only: user.pm_friends_only,
        profile_color: user.profile_color,
        user_id: user.user_id,
        username: user.username,
        account_history: user.account_history,
        badges: user.badges,
        beatmap_playcounts_count: user.beatmap_playcounts_count,
        country: user.country,
        cover: user.cover,
        favourite_mapset_count: user.favourite_mapset_count,
        follower_count: user.follower_count,
        graveyard_mapset_count: user.graveyard_mapset_count,
        groups: user.groups,
        is_admin: user.is_admin,
        is_bng: user.is_bng,
        is_full_bn: user.is_full_bn,
        is_gmt: user.is_gmt,
        is_limited_bn: user.is_limited_bn,
        is_moderator: user.is_moderator,
        is_nat: user.is_nat,
        is_silenced: user.is_silenced,
        loved_mapset_count: user.loved_mapset_count,
        medals: user.medals,
        monthly_playcounts: user.monthly_playcounts,
        page: user.page,
        previous_usernames: user.previous_usernames,
        rank_history: user.rank_history,
        ranked_mapset_count: user.ranked_mapset_count,
        replays_watched_counts: user.replays_watched_counts,
        scores_best_count: user.scores_best_count,
        scores_first_count: user.scores_first_count,
        scores_recent_count: user.scores_recent_count,
        support_level: user.support_level,
        pending_mapset_count: user.pending_mapset_count,
        statistics: Some(stats),
    })
}

/// The member that the encoding of a profile holds for each slot: `None` where
/// the field is empty and its member is left out.
pub open spec fn profile_member(u: UserCompact, i: int) -> Option<Json> {
    if i == 0 {
        Some(Json::Str(u.avatar_url))
    } else if i == 1 {
        Some(Json::Str(u.country_code))
    } else if i == 2 {
        Some(Json::Str(u.default_group))
    } else if i == 3 {
        Some(Json::Bool(u.is_active))
    } else if i == 4 {
        Some(Json::Bool(u.is_bot))
    } else if i == 5 {
        Some(Json::Bool(u.is_deleted))
    } else if i == 6 {
        Some(Json::Bool(u.is_online))
    } else if i == 7 {
        Some(Json::Bool(u.is_supporter))
    } else if i == 8 {
        match u.last_visit {
            Some(v) => Some(Json::Str(v)),
            None => None,
        }
    } else if i == 9 {
        Some(Json::Bool(u.pm_friends_only))
    } else if i == 10 {
        match u.profile_color {
            Some(v) => Some(Json::Str(v)),
            None => None,
        }
    } else if i == 11 {
        Some(Json::Num(spec_from_u64(u.user_id as u64)))
    } else if i == 12 {
        Some(Json::Str(u.username))
    } else if i == 13 {
        u.account_history
    } else if i == 14 {
        u.badges
    } else if i == 15 {
        match u.beatmap_playcounts_count {
            Some(v) => Some(Json::Num(spec_from_u64(v as u64))),
            None => None,
        }
    } else if i == 16 {
        match u.country {
            Some(v) => Some(Json::Str(v)),
            None => None,
        }
    } else if i == 17 {
        u.cover
    } else if i == 18 {
        match u.favourite_mapset_count {
            Some(v) => Some(Json::Num(spec_from_u64(v as u64))),
            None => None,
        }
    } else if i == 19 {
        match u.follower_count {
            Some(v) => Some(Json::Num(spec_from_u64(v as u64))),
            None => None,
        }
    } else if i == 20 {
        match u.graveyard_mapset_count {
            Some(v) => Some(Json::Num(spec_from_u64(v as u64))),
            None => None,
        }
    } else if i == 21 {
        u.groups
    } else if i == 22 {
        match u.is_admin {
            Some(v) => Some(Json::Bool(v)),
            None => None,
        }
    } else if i == 23 {
        match u.is_bng {
            Some(v) => Some(Json::Bool(v)),
            None => None,
        }
    } else if i == 24 {
        match u.is_full_bn {
            Some(v) => Some(Json::Bool(v)),
            None => None,
        }
    } else if i == 25 {
        match u.is_gmt {
            Some(v) => Some(Json::Bool(v)),
            None => None,
        }
    } else if i == 26 {
        match u.is_limited_bn {
            Some(v) => Some(Json::Bool(v)),
            None => None,
        }
    } else if i == 27 {
        match u.is_moderator {
            Some(v) => Some(Json::Bool(v)),
            None => None,
        }
    } else if i == 28 {
        match u.is_nat {
            Some(v) => Some(Json::Bool(v)),
            None => None,
        }
    } else if i == 29 {
        match u.is_silenced {
            Some(v) => Some(Json::Bool(v)),
            None => None,
        }
    } else if i == 30 {
        match u.loved_mapset_count {
            Some(v) => Some(Json::Num(spec_from_u64(v as u64))),
            None => None,
        }
    } else if i == 31 {
        u.medals
    } else if i == 32 {
        u.monthly_playcounts
    } else if i == 33 {
        u.page
    } else if i == 34 {
        u.previous_usernames
    } else if i == 35 {
        u.rank_history
    } else if i == 36 {
        match u.ranked_mapset_count {
            Some(v) => Some(Json::Num(spec_from_u64(v as u64))),
            None => None,
        }
    } else if i == 37 {
        u.replays_watched_counts
    } else if i == 38 {
        match u.scores_best_count {
            Some(v) => Some(Json::Num(spec_from_u64(v as u64))),
            None => None,
        }
    } else if i == 39 {
        match u.scores_first_count {
            Some(v) => Some(Json::Num(spec_from_u64(v as u64))),
            None => None,
        }
    } else if i == 40 {
        match u.scores_recent_count {
            Some(v) => Some(Json::Num(spec_from_u64(v as u64))),
            None => None,
        }
    } else if i == 41 {
        match u.support_level {
            Some(v) => Some(Json::Num(spec_from_u64(v as u64))),
            None => None,
        }
    } else if i == 42 {
        match u.pending_mapset_count {
            Some(v) => Some(Json::Num(spec_from_u64(v as u64))),
            None => None,
        }
    } else {
        None
    }
}

/// The members of a profile's encoding among its first `n` slots.
pub open spec fn profile_member_upto(u: UserCompact, n: int, i: int) -> Option<Json> {
    if 0 <= i < n {
        profile_member(u, i)
    } else {
        None
    }
}

/// The wire name of a profile slot.
pub open spec fn profile_name(i: int) -> Seq<char> {
    if i == 0 {
        "avatar_url"@
    } else if i == 1 {
        "country_code"@
    } else if i == 2 {
        "default_group"@
    } else if i == 3 {
        "is_active"@
    } else if i == 4 {
        "is_bot"@
    } else if i == 5 {
        "is_deleted"@
    } else if i == 6 {
        "is_online"@
    } else if i == 7 {
        "is_supporter"@
    } else if i == 8 {
        "last_visit"@
    } else if i == 9 {
        "pm_friends_only"@
    } else if i == 10 {
        "profile_colour"@
    } else if i == 11 {
        "id"@
    } else if i == 12 {
        "username"@
    } else if i == 13 {
        "account_history"@
    } else if i == 14 {
        "badges"@
    } else if i == 15 {
        "beatmap_playcounts_count"@
    } else if i == 16 {
        "country"@
    } else if i == 17 {
        "cover"@
    } else if i == 18 {
        "favourite_beatmapset_count"@
    } else if i == 19 {
        "follower_count"@
    } else if i == 20 {
        "graveyard_beatmapset_count"@
    } else if i == 21 {
        "groups"@
    } else if i == 22 {
        "is_admin"@
    } else if i == 23 {
        "is_bng"@
    } else if i == 24 {
        "is_full_bn"@
    } else if i == 25 {
        "is_gmt"@
    } else if i == 26 {
        "is_limited_bn"@
    } else if i == 27 {
        "is_moderator"@
    } else if i == 28 {
        "is_nat"@
    } else if i == 29 {
        "is_silenced"@
    } else if i == 30 {
        "loved_beatmapset_count"@
    } else if i == 31 {
        "user_achievements"@
    } else if i == 32 {
        "monthly_playcounts"@
    } else if i == 33 {
        "page"@
    } else if i == 34 {
        "previous_usernames"@
    } else if i == 35 {
        "rank_history"@
    } else if i == 36 {
        "ranked_beatmapset_count"@
    } else if i == 37 {
        "replays_watched_counts"@
    } else if i == 38 {
        "scores_best_count"@
    } else if i == 39 {
        "scores_first_count"@
    } else if i == 40 {
        "scores_recent_count"@
    } else if i == 41 {
        "support_level"@
    } else if i == 42 {
        "pending_beatmapset_count"@
    } else {
        Seq::empty()
    }
}

/// The keys of the members that encode the first `n` profile slots, in
/// order: the name of each slot that holds a member.
pub open spec fn profile_keys_upto(u: UserCompact, n: int) -> Seq<Seq<char>>
    decreases n,
{
    if n <= 0 {
        Seq::empty()
    } else if profile_member(u, n - 1) is Some {
        profile_keys_upto(u, n - 1).push(profile_name(n - 1))
    } else {
        profile_keys_upto(u, n - 1)
    }
}

/// The keys of an encoded profile, in table order; an empty optional field
/// has none.
pub open spec fn profile_wire_keys(u: UserCompact) -> Seq<Seq<char>> {
    profile_keys_upto(u, 43)
}

/// The members encoded so far are those of the first `n` slots, in order,
/// and none of them is rejected when the profile is well-formed.
#[verifier::opaque]
pub open spec fn profile_prefix(e: Seq<(String, Json)>, u: UserCompact, n: int) -> bool {
    &&& forall|i: int| #[trigger] last_with(e, profile_classifier(), i) == profile_member_upto(u, n, i)
    &&& member_keys(e) == profile_keys_upto(u, n)
    &&& 0 <= n
    &&& (profile_wf(u) ==> first_bad(e, profile_classifier(), profile_checker()) is None)
}

proof fn lemma_profile_prefix_push(e: Seq<(String, Json)>, p: (String, Json), u: UserCompact, n: int)
    requires
        profile_prefix(e, u, n),
        profile_key(p.0@) == Some(n),
        Some(p.1) == profile_member(u, n),
    ensures
        profile_prefix(e.push(p), u, n + 1),
{
    reveal(profile_prefix);
    lemma_profile_key_name(p.0@, n);
    if profile_wf(u) {
        lemma_profile_member_accepted(u, n);
    }
    lemma_last_with_push(e, p, profile_classifier());
    lemma_member_keys_push(e, p);
    lemma_first_bad_push(e, p, profile_classifier(), profile_checker());
}

/// The key list depends on the profile fields alone.
proof fn lemma_profile_keys_same(u1: UserCompact, u2: UserCompact, n: int)
    requires
        forall|i: int| #[trigger] profile_member(u1, i) == profile_member(u2, i),
    ensures
        profile_keys_upto(u1, n) == profile_keys_upto(u2, n),
    decreases n,
{
    if n > 0 {
        assert(profile_member(u1, n - 1) == profile_member(u2, n - 1));
        lemma_profile_keys_same(u1, u2, n - 1);
    }
}

proof fn lemma_profile_key_name(k: Seq<char>, n: int)
    requires
        profile_key(k) == Some(n),
    ensures
        k == profile_name(n),
        0 <= n < 43,
{
}

#[verifier::rlimit(100)]
proof fn lemma_profile_member_accepted(u: UserCompact, n: int)
    requires
        profile_wf(u),
        0 <= n < 43,
        profile_member(u, n) is Some,
    ensures
        profile_member_error(n, profile_member(u, n)->Some_0) is None,
{
}

proof fn lemma_profile_prefix_empty(e: Seq<(String, Json)>, u: UserCompact)
    requires
        e.len() == 0,
    ensures
        profile_prefix(e, u, 0),
{
    reveal(profile_prefix);
    assert(member_keys(e) =~= Seq::<Seq<char>>::empty());
}

proof fn lemma_profile_prefix_full(e: Seq<(String, Json)>, u: UserCompact, n: int)
    requires
        profile_prefix(e, u, n),
    ensures
        forall|i: int| 0 <= i < n ==> #[trigger] last_with(e, profile_classifier(), i) == profile_member(u, i),
        member_keys(e) == profile_keys_upto(u, n),
        profile_wf(u) ==> first_bad(e, profile_classifier(), profile_checker()) is None,
{
    reveal(profile_prefix);
    assert forall|i: int| 0 <= i < n implies #[trigger] last_with(e, profile_classifier(), i) == profile_member(u, i) by {
        assert(last_with(e, profile_classifier(), i) == profile_member_upto(u, n, i));
    }
}

proof fn lemma_profile_prefix_skip(e: Seq<(String, Json)>, u: UserCompact, n: int)
    requires
        profile_prefix(e, u, n),
        profile_member(u, n) is None,
    ensures
        profile_prefix(e, u, n + 1),
{
    reveal(profile_prefix);
}

/// The keys of an encoded entry, in order: `hit_accuracy`, then the two ranks
/// where present, then the other statistics, then `user`.
pub open spec fn stats_wire_keys(s: UserStatistics) -> Seq<Seq<char>> {
    let a = Seq::<Seq<char>>::empty().push("hit_accuracy"@);
    let b = if s.country_rank is Some {
        a.push("country_rank"@)
    } else {
        a
    };
    let c = if s.global_rank is Some {
        b.push("global_rank"@)
    } else {
        b
    };
    c.push("grade_counts"@).push("is_ranked"@).push("level"@).push("maximum_combo"@).push("play_count"@).push(
        "play_time"@,
    ).push("pp"@).push("ranked_score"@).push("replays_watched_by_others"@).push("total_hits"@).push(
        "total_score"@,
    ).push("user"@)
}

/// The member that the encoding of an entry holds for each statistics slot.
pub open spec fn stats_member(s: UserStatistics, i: int) -> Option<Json> {
    if i == 0 {
        Some(Json::Num(s.accuracy))
    } else if i == 1 {
        match s.country_rank {
            Some(v) => Some(Json::Num(spec_from_u64(v as u64))),
            None => None,
        }
    } else if i == 2 {
        match s.global_rank {
            Some(v) => Some(Json::Num(spec_from_u64(v as u64))),
            None => None,
        }
    } else if i == 3 {
        Some(s.grade_counts)
    } else if i == 4 {
        Some(Json::Bool(s.is_ranked))
    } else if i == 5 {
        Some(s.level)
    } else if i == 6 {
        Some(Json::Num(spec_from_u64(s.max_combo as u64)))
    } else if i == 7 {
        Some(Json::Num(spec_from_u64(s.playcount as u64)))
    } else if i == 8 {
        Some(Json::Num(spec_from_u64(s.playtime as u64)))
    } else if i == 9 {
        Some(Json::Num(s.pp))
    } else if i == 10 {
        Some(Json::Num(spec_from_u64(s.ranked_score)))
    } else if i == 11 {
        Some(Json::Num(spec_from_u64(s.replays_watched as u64)))
    } else if i == 12 {
        Some(Json::Num(spec_from_u64(s.total_hits)))
    } else if i == 13 {
        Some(Json::Num(spec_from_u64(s.total_score)))
    } else {
        None
    }
}

/// What a profile must hold for its encoding to read back as itself: carried
/// values are not `null`, and a last visit is a date and time text.
pub open spec fn profile_wf(u: UserCompact) -> bool {
    &&& (u.last_visit matches Some(s) ==> is_datetime_text(s@))
    &&& u.account_history != Some(Json::Null)
    &&& u.badges != Some(Json::Null)
    &&& u.cover != Some(Json::Null)
    &&& u.groups != Some(Json::Null)
    &&& u.medals != Some(Json::Null)
    &&& u.monthly_playcounts != Some(Json::Null)
    &&& u.page != Some(Json::Null)
    &&& u.previous_usernames != Some(Json::Null)
    &&& u.rank_history != Some(Json::Null)
    &&& u.replays_watched_counts != Some(Json::Null)
}

/// What statistics must hold to read back as themselves: the nested records
/// are objects.
pub open spec fn stats_wf(s: UserStatistics) -> bool {
    &&& s.grade_counts is Obj
    &&& s.level is Obj
}

/// Appends the members of profile slots 0 to 10.
#[verifier::rlimit(100)]
#[verifier::spinoff_prover]
fn push_profile_part_0(entries: &mut Vec<(String, Json)>, gu: Ghost<UserCompact>, avatar_url: String, country_code: String, default_group: String, is_active: bool, is_bot: bool, is_deleted: bool, is_online: bool, is_supporter: bool, last_visit: Option<String>, pm_friends_only: bool, profile_color: Option<String>)
    requires
        profile_prefix(old(entries)@, gu@, 0),
        avatar_url == gu@.avatar_url,
        country_code == gu@.country_code,
        default_group == gu@.default_group,
        is_active == gu@.is_active,
        is_bot == gu@.is_bot,
        is_deleted == gu@.is_deleted,
        is_online == gu@.is_online,
        is_supporter == gu@.is_supporter,
        last_visit == gu@.last_visit,
        pm_friends_only == gu@.pm_friends_only,
        profile_color == gu@.profile_color,
    ensures
        profile_prefix(final(entries)@, gu@, 11),
{
    let ghost g = gu@;
    proof {
        lemma_profile_keys();
    }
    let p = (key("avatar_url"), Json::Str(avatar_url));
    proof {
        lemma_profile_prefix_push(entries@, p, g, 0);
    }
    entries.push(p);
    let p = (key("country_code"), Json::Str(country_code));
    proof {
        lemma_profile_prefix_push(entries@, p, g, 1);
    }
    entries.push(p);
    let p = (key("default_group"), Json::Str(default_group));
    proof {
        lemma_profile_prefix_push(entries@, p, g, 2);
    }
    entries.push(p);
    let p = (key("is_active"), Json::Bool(is_active));
    proof {
        lemma_profile_prefix_push(entries@, p, g, 3);
    }
    entries.push(p);
    let p = (key("is_bot"), Json::Bool(is_bot));
    proof {
        lemma_profile_prefix_push(entries@, p, g, 4);
    }
    entries.push(p);
    let p = (key("is_deleted"), Json::Bool(is_deleted));
    proof {
        lemma_profile_prefix_push(entries@, p, g, 5);
    }
    entries.push(p);
    let p = (key("is_online"), Json::Bool(is_online));
    proof {
        lemma_profile_prefix_push(entries@, p, g, 6);
    }
    entries.push(p);
    let p = (key("is_supporter"), Json::Bool(is_supporter));
    proof {
        lemma_profile_prefix_push(entries@, p, g, 7);
    }
    entries.push(p);
    match last_visit {
        Some(v) => {
            let p = (key("last_visit"), Json::Str(v));
            proof {
                lemma_profile_prefix_push(entries@, p, g, 8);
            }
            entries.push(p);
        },
        None => {
            proof {
                lemma_profile_prefix_skip(entries@, g, 8);
            }
        },
    }
    let p = (key("pm_friends_only"), Json::Bool(pm_friends_only));
    proof {
        lemma_profile_prefix_push(entries@, p, g, 9);
    }
    entries.push(p);
    match profile_color {
        Some(v) => {
            let p = (key("profile_colour"), Json::Str(v));
            proof {
                lemma_profile_prefix_push(entries@, p, g, 10);
            }
            entries.push(p);
        },
        None => {
            proof {
                lemma_profile_prefix_skip(entries@, g, 10);
            }
        },
    }
}

/// Appends the members of profile slots 11 to 21.
#[verifier::rlimit(100)]
#[verifier::spinoff_prover]
fn push_profile_part_1(entries: &mut Vec<(String, Json)>, gu: Ghost<UserCompact>, user_id: u32, username: String, account_history: Option<Json>, badges: Option<Json>, beatmap_playcounts_count: Option<u32>, country: Option<String>, cover: Option<Json>, favourite_mapset_count: Option<u32>, follower_count: Option<u32>, graveyard_mapset_count: Option<u32>, groups: Option<Json>)
    requires
        profile_prefix(old(entries)@, gu@, 11),
        user_id == gu@.user_id,
        username == gu@.username,
        account_history == gu@.account_history,
        badges == gu@.badges,
        beatmap_playcounts_count == gu@.beatmap_playcounts_count,
        country == gu@.country,
        cover == gu@.cover,
        favourite_mapset_count == gu@.favourite_mapset_count,
        follower_count == gu@.follower_count,
        graveyard_mapset_count == gu@.graveyard_mapset_count,
        groups == gu@.groups,
    ensures
        profile_prefix(final(entries)@, gu@, 22),
{
    let ghost g = gu@;
    proof {
        lemma_profile_keys();
    }
    let p = (key("id"), Json::Num(Number::from_u64(user_id as u64)));
    proof {
        lemma_profile_prefix_push(entries@, p, g, 11);
    }
    entries.push(p);
    let p = (key("username"), Json::Str(username));
    proof {
        lemma_profile_prefix_push(entries@, p, g, 12);
    }
    entries.push(p);
    match account_history {
        Some(v) => {
            let p = (key("account_history"), v);
            proof {
                lemma_profile_prefix_push(entries@, p, g, 13);
            }
            entries.push(p);
        },
        None => {
            proof {
                lemma_profile_prefix_skip(entries@, g, 13);
            }
        },
    }
    match badges {
        Some(v) => {
            let p = (key("badges"), v);
            proof {
                lemma_profile_prefix_push(entries@, p, g, 14);
            }
            entries.push(p);
        },
        None => {
            proof {
                lemma_profile_prefix_skip(entries@, g, 14);
            }
        },
    }
    match beatmap_playcounts_count {
        Some(v) => {
            let p = (key("beatmap_playcounts_count"), Json::Num(Number::from_u64(v as u64)));
            proof {
                lemma_profile_prefix_push(entries@, p, g, 15);
            }
            entries.push(p);
        },
        None => {
            proof {
                lemma_profile_prefix_skip(entries@, g, 15);
            }
        },
    }
    match country {
        Some(v) => {
            let p = (key("country"), Json::Str(v));
            proof {
                lemma_profile_prefix_push(entries@, p, g, 16);
            }
            entries.push(p);
        },
        None => {
            proof {
                lemma_profile_prefix_skip(entries@, g, 16);
            }
        },
    }
    match cover {
        Some(v) => {
            let p = (key("cover"), v);
            proof {
                lemma_profile_prefix_push(entries@, p, g, 17);
            }
            entries.push(p);
        },
        None => {
            proof {
                lemma_profile_prefix_skip(entries@, g, 17);
            }
        },
    }
    match favourite_mapset_count {
        Some(v) => {
            let p = (key("favourite_beatmapset_count"), Json::Num(Number::from_u64(v as u64)));
            proof {
                lemma_profile_prefix_push(entries@, p, g, 18);
            }
            entries.push(p);
        },
        None => {
            proof {
                lemma_profile_prefix_skip(entries@, g, 18);
            }
        },
    }
    match follower_count {
        Some(v) => {
            let p = (key("follower_count"), Json::Num(Number::from_u64(v as u64)));
            proof {
                lemma_profile_prefix_push(entries@, p, g, 19);
            }
            entries.push(p);
        },
        None => {
            proof {
                lemma_profile_prefix_skip(entries@, g, 19);
            }
        },
    }
    match graveyard_mapset_count {
        Some(v) => {
            let p = (key("graveyard_beatmapset_count"), Json::Num(Number::from_u64(v as u64)));
            proof {
                lemma_profile_prefix_push(entries@, p, g, 20);
            }
            entries.push(p);
        },
        None => {
            proof {
                lemma_profile_prefix_skip(entries@, g, 20);
            }
        },
    }
    match groups {
        Some(v) => {
            let p = (key("groups"), v);
            proof {
                lemma_profile_prefix_push(entries@, p, g, 21);
            }
            entries.push(p);
        },
        None => {
            proof {
                lemma_profile_prefix_skip(entries@, g, 21);
            }
        },
    }
}

/// Appends the members of profile slots 22 to 32.
#[verifier::rlimit(100)]
#[verifier::spinoff_prover]
fn push_profile_part_2(entries: &mut Vec<(String, Json)>, gu: Ghost<UserCompact>, is_admin: Option<bool>, is_bng: Option<bool>, is_full_bn: Option<bool>, is_gmt: Option<bool>, is_limited_bn: Option<bool>, is_moderator: Option<bool>, is_nat: Option<bool>, is_silenced: Option<bool>, loved_mapset_count: Option<u32>, medals: Option<Json>, monthly_playcounts: Option<Json>)
    requires
        profile_prefix(old(entries)@, gu@, 22),
        is_admin == gu@.is_admin,
        is_bng == gu@.is_bng,
        is_full_bn == gu@.is_full_bn,
        is_gmt == gu@.is_gmt,
        is_limited_bn == gu@.is_limited_bn,
        is_moderator == gu@.is_moderator,
        is_nat == gu@.is_nat,
        is_silenced == gu@.is_silenced,
        loved_mapset_count == gu@.loved_mapset_count,
        medals == gu@.medals,
        monthly_playcounts == gu@.monthly_playcounts,
    ensures
        profile_prefix(final(entries)@, gu@, 33),
{
    let ghost g = gu@;
    proof {
        lemma_profile_keys();
    }
    match is_admin {
        Some(v) => {
            let p = (key("is_admin"), Json::Bool(v));
            proof {
                lemma_profile_prefix_push(entries@, p, g, 22);
            }
            entries.push(p);
        },
        None => {
            proof {
                lemma_profile_prefix_skip(entries@, g, 22);
            }
        },
    }
    match is_bng {
        Some(v) => {
            let p = (key("is_bng"), Json::Bool(v));
            proof {
                lemma_profile_prefix_push(entries@, p, g, 23);
            }
            entries.push(p);
        },
        None => {
            proof {
                lemma_profile_prefix_skip(entries@, g, 23);
            }
        },
    }
    match is_full_bn {
        Some(v) => {
            let p = (key("is_full_bn"), Json::Bool(v));
            proof {
                lemma_profile_prefix_push(entries@, p, g, 24);
            }
            entries.push(p);
        },
        None => {
            proof {
                lemma_profile_prefix_skip(entries@, g, 24);
            }
        },
    }
    match is_gmt {
        Some(v) => {
            let p = (key("is_gmt"), Json::Bool(v));
            proof {
                lemma_profile_prefix_push(entries@, p, g, 25);
            }
            entries.push(p);
        },
        None => {
            proof {
                lemma_profile_prefix_skip(entries@, g, 25);
            }
        },
    }
    match is_limited_bn {
        Some(v) => {
            let p = (key("is_limited_bn"), Json::Bool(v));
            proof {
                lemma_profile_prefix_push(entries@, p, g, 26);
            }
            entries.push(p);
        },
        None => {
            proof {
                lemma_profile_prefix_skip(entries@, g, 26);
            }
        },
    }
    match is_moderator {
        Some(v) => {
            let p = (key("is_moderator"), Json::Bool(v));
            proof {
                lemma_profile_prefix_push(entries@, p, g, 27);
            }
            entries.push(p);
        },
        None => {
            proof {
                lemma_profile_prefix_skip(entries@, g, 27);
            }
        },
    }
    match is_nat {
        Some(v) => {
            let p = (key("is_nat"), Json::Bool(v));
            proof {
                lemma_profile_prefix_push(entries@, p, g, 28);
            }
            entries.push(p);
        },
        None => {
            proof {
                lemma_profile_prefix_skip(entries@, g, 28);
            }
        },
    }
    match is_silenced {
        Some(v) => {
            let p = (key("is_silenced"), Json::Bool(v));
            proof {
                lemma_profile_prefix_push(entries@, p, g, 29);
            }
            entries.push(p);
        },
        None => {
            proof {
                lemma_profile_prefix_skip(entries@, g, 29);
            }
        },
    }
    match loved_mapset_count {
        Some(v) => {
            let p = (key("loved_beatmapset_count"), Json::Num(Number::from_u64(v as u64)));
            proof {
                lemma_profile_prefix_push(entries@, p, g, 30);
            }
            entries.push(p);
        },
        None => {
            proof {
                lemma_profile_prefix_skip(entries@, g, 30);
            }
        },
    }
    match medals {
        Some(v) => {
            let p = (key("user_achievements"), v);
            proof {
                lemma_profile_prefix_push(entries@, p, g, 31);
            }
            entries.push(p);
        },
        None => {
            proof {
                lemma_profile_prefix_skip(entries@, g, 31);
            }
        },
    }
    match monthly_playcounts {
        Some(v) => {
            let p = (key("monthly_playcounts"), v);
            proof {
                lemma_profile_prefix_push(entries@, p, g, 32);
            }
            entries.push(p);
        },
        None => {
            proof {
                lemma_profile_prefix_skip(entries@, g, 32);
            }
        },
    }
}

/// Appends the members of profile slots 33 to 42.
#[verifier::rlimit(100)]
#[verifier::spinoff_prover]
fn push_profile_part_3(entries: &mut Vec<(String, Json)>, gu: Ghost<UserCompact>, page: Option<Json>, previous_usernames: Option<Json>, rank_history: Option<Json>, ranked_mapset_count: Option<u32>, replays_watched_counts: Option<Json>, scores_best_count: Option<u32>, scores_first_count: Option<u32>, scores_recent_count: Option<u32>, support_level: Option<u8>, pending_mapset_count: Option<u32>)
    requires
        profile_prefix(old(entries)@, gu@, 33),
        page == gu@.page,
        previous_usernames == gu@.previous_usernames,
        rank_history == gu@.rank_history,
        ranked_mapset_count == gu@.ranked_mapset_count,
        replays_watched_counts == gu@.replays_watched_counts,
        scores_best_count == gu@.scores_best_count,
        scores_first_count == gu@.scores_first_count,
        scores_recent_count == gu@.scores_recent_count,
        support_level == gu@.support_level,
        pending_mapset_count == gu@.pending_mapset_count,
    ensures
        profile_prefix(final(entries)@, gu@, 43),
{
    let ghost g = gu@;
    proof {
        lemma_profile_keys();
    }
    match page {
        Some(v) => {
            let p = (key("page"), v);
            proof {
                lemma_profile_prefix_push(entries@, p, g, 33);
            }
            entries.push(p);
        },
        None => {
            proof {
                lemma_profile_prefix_skip(entries@, g, 33);
            }
        },
    }
    match previous_usernames {
        Some(v) => {
            let p = (key("previous_usernames"), v);
            proof {
                lemma_profile_prefix_push(entries@, p, g, 34);
            }
            entries.push(p);
        },
        None => {
            proof {
                lemma_profile_prefix_skip(entries@, g, 34);
            }
        },
    }
    match rank_history {
        Some(v) => {
            let p = (key("rank_history"), v);
            proof {
                lemma_profile_prefix_push(entries@, p, g, 35);
            }
            entries.push(p);
        },
        None => {
            proof {
                lemma_profile_prefix_skip(entries@, g, 35);
            }
        },
    }
    match ranked_mapset_count {
        Some(v) => {
            let p = (key("ranked_beatmapset_count"), Json::Num(Number::from_u64(v as u64)));
            proof {
                lemma_profile_prefix_push(entries@, p, g, 36);
            }
            entries.push(p);
        },
        None => {
            proof {
                lemma_profile_prefix_skip(entries@, g, 36);
            }
        },
    }
    match replays_watched_counts {
        Some(v) => {
            let p = (key("replays_watched_counts"), v);
            proof {
                lemma_profile_prefix_push(entries@, p, g, 37);
            }
            entries.push(p);
        },
        None => {
            proof {
                lemma_profile_prefix_skip(entries@, g, 37);
            }
        },
    }
    match scores_best_count {
        Some(v) => {
            let p = (key("scores_best_count"), Json::Num(Number::from_u64(v as u64)));
            proof {
                lemma_profile_prefix_push(entries@, p, g, 38);
            }
            entries.push(p);
        },
        None => {
            proof {
                lemma_profile_prefix_skip(entries@, g, 38);
            }
        },
    }
    match scores_first_count {
        Some(v) => {
            let p = (key("scores_first_count"), Json::Num(Number::from_u64(v as u64)));
            proof {
                lemma_profile_prefix_push(entries@, p, g, 39);
            }
            entries.push(p);
        },
        None => {
            proof {
                lemma_profile_prefix_skip(entries@, g, 39);
            }
        },
    }
    match scores_recent_count {
        Some(v) => {
            let p = (key("scores_recent_count"), Json::Num(Number::from_u64(v as u64)));
            proof {
                lemma_profile_prefix_push(entries@, p, g, 40);
            }
            entries.push(p);
        },
        None => {
            proof {
                lemma_profile_prefix_skip(entries@, g, 40);
            }
        },
    }
    match support_level {
        Some(v) => {
            let p = (key("support_level"), Json::Num(Number::from_u64(v as u64)));
            proof {
                lemma_profile_prefix_push(entries@, p, g, 41);
            }
            entries.push(p);
        },
        None => {
            proof {
                lemma_profile_prefix_skip(entries@, g, 41);
            }
        },
    }
    match pending_mapset_count {
        Some(v) => {
            let p = (key("pending_beatmapset_count"), Json::Num(Number::from_u64(v as u64)));
            proof {
                lemma_profile_prefix_push(entries@, p, g, 42);
            }
            entries.push(p);
        },
        None => {
            proof {
                lemma_profile_prefix_skip(entries@, g, 42);
            }
        },
    }
}

/// Encodes the profile fields of a record as the `user` object: required
/// fields always, each optional field only when it holds a value, under its
/// wire name. Statistics are not part of it.
pub fn encode_profile(user: UserCompact) -> (r: Json)
    ensures
        r matches Json::Obj(m) && forall|i: int| 0 <= i < 43 ==> #[trigger] last_with(m@, profile_classifier(), i) == profile_member(user, i),
        r matches Json::Obj(m) && member_keys(m@) == profile_wire_keys(user),
        r matches Json::Obj(m) && (profile_wf(user) ==> first_bad(m@, profile_classifier(), profile_checker()) is None),
{
    let ghost g = user;
    let UserCompact {
        avatar_url,
        country_code,
        default_group,
        is_active,
        is_bot,
        is_deleted,
        is_online,
        is_supporter,
        last_visit,
        pm_friends_only,
        profile_color,
        user_id,
        username,
        account_history,
        badges,
        beatmap_playcounts_count,
        country,
        cover,
        favourite_mapset_count,
        follower_count,
        graveyard_mapset_count,
        groups,
        is_admin,
        is_bng,
        is_full_bn,
        is_gmt,
        is_limited_bn,
        is_moderator,
        is_nat,
        is_silenced,
        loved_mapset_count,
        medals,
        monthly_playcounts,
        page,
        previous_usernames,
        rank_history,
        ranked_mapset_count,
        replays_watched_counts,
        scores_best_count,
        scores_first_count,
        scores_recent_count,
        support_level,
        pending_mapset_count,
        statistics: _,
    } = user;
    let mut entries: Vec<(String, Json)> = Vec::new();
    proof {
        lemma_profile_prefix_empty(entries@, g);
    }
    push_profile_part_0(&mut entries, Ghost(g), avatar_url, country_code, default_group, is_active, is_bot, is_deleted, is_online, is_supporter, last_visit, pm_friends_only, profile_color);
    push_profile_part_1(&mut entries, Ghost(g), user_id, username, account_history, badges, beatmap_playcounts_count, country, cover, favourite_mapset_count, follower_count, graveyard_mapset_count, groups);
    push_profile_part_2(&mut entries, Ghost(g), is_admin, is_bng, is_full_bn, is_gmt, is_limited_bn, is_moderator, is_nat, is_silenced, loved_mapset_count, medals, monthly_playcounts);
    push_profile_part_3(&mut entries, Ghost(g), page, previous_usernames, rank_history, ranked_mapset_count, replays_watched_counts, scores_best_count, scores_first_count, scores_recent_count, support_level, pending_mapset_count);
    proof {
        lemma_profile_prefix_full(entries@, g, 43);
    }
    Json::Obj(entries)
}

/// What the encoding of a record with statistics is: an object whose keys
/// are, in order, those of [`stats_wire_keys`], holding the statistics members
/// of [`stats_member`] and under `user` an object whose keys are those of
/// [`profile_wire_keys`], holding the members of [`profile_member`].
pub open spec fn encodes_entry(user: UserCompact, r: Json) -> bool {
    &&& r matches Json::Obj(m) && member_keys(m@) == stats_wire_keys(user.statistics->Some_0)
    &&& r matches Json::Obj(m) && forall|i: int| 0 <= i < 14 ==> #[trigger] last_with(m@, stats_classifier(), i) == stats_member(user.statistics->Some_0, i)
    &&& r matches Json::Obj(m) && last_with(m@, stats_classifier(), 14) matches Some(u) && u matches Json::Obj(um) && member_keys(um@) == profile_wire_keys(user) && forall|i: int| 0 <= i < 43 ==> #[trigger] last_with(um@, profile_classifier(), i) == profile_member(user, i)
}


/// Encodes one leaderboard entry: the statistics members first, in table
/// order, with `country_rank` and `global_rank` only when present, then `user`
/// holding the profile. The record must carry statistics.
#[verifier::rlimit(100)]
#[verifier::spinoff_prover]
pub fn encode_user_stats(user: UserCompact) -> (r: Json)
    requires
        user.statistics is Some,
    ensures
        encodes_entry(user, r),
        profile_wf(user) && stats_wf(user.statistics->Some_0) ==> decode_user_stats_spec(r) == Ok::<UserCompact, DecodeError>(user),
{
    let ghost g = user;
    proof {
        lemma_stats_keys();
    }
    let mut user = user;
    let stats = user.statistics.take().unwrap();
    let ghost s = stats;
    let UserStatistics {
        accuracy,
        country_rank,
        global_rank,
        grade_counts,
        is_ranked,
        level,
        max_combo,
        playcount,
        playtime,
        pp,
        ranked_score,
        replays_watched,
        total_hits,
        total_score,
    } = stats;
    let mut entries: Vec<(String, Json)> = Vec::new();
    let p = (key("hit_accuracy"), Json::Num(accuracy));
    proof {
        lemma_last_with_push(entries@, p, stats_classifier());
        lemma_member_keys_push(entries@, p);
        lemma_first_bad_push(entries@, p, stats_classifier(), stats_checker());
    }
    entries.push(p);
    match country_rank {
        Some(v) => {
            let p = (key("country_rank"), Json::Num(Number::from_u64(v as u64)));
            proof {
                lemma_last_with_push(entries@, p, stats_classifier());
                lemma_member_keys_push(entries@, p);
                lemma_first_bad_push(entries@, p, stats_classifier(), stats_checker());
            }
            entries.push(p);
        },
        None => {},
    }
    match global_rank {
        Some(v) => {
            let p = (key("global_rank"), Json::Num(Number::from_u64(v as u64)));
            proof {
                lemma_last_with_push(entries@, p, stats_classifier());
                lemma_member_keys_push(entries@, p);
                lemma_first_bad_push(entries@, p, stats_classifier(), stats_checker());
            }
            entries.push(p);
        },
        None => {},
    }
    let p = (key("grade_counts"), grade_counts);
    proof {
        lemma_last_with_push(entries@, p, stats_classifier());
        lemma_member_keys_push(entries@, p);
        lemma_first_bad_push(entries@, p, stats_classifier(), stats_checker());
    }
    entries.push(p);
    let p = (key("is_ranked"), Json::Bool(is_ranked));
    proof {
        lemma_last_with_push(entries@, p, stats_classifier());
        lemma_member_keys_push(entries@, p);
        lemma_first_bad_push(entries@, p, stats_classifier(), stats_checker());
    }
    entries.push(p);
    let p = (key("level"), level);
    proof {
        lemma_last_with_push(entries@, p, stats_classifier());
        lemma_member_keys_push(entries@, p);
        lemma_first_bad_push(entries@, p, stats_classifier(), stats_checker());
    }
    entries.push(p);
    let p = (key("maximum_combo"), Json::Num(Number::from_u64(max_combo as u64)));
    proof {
        lemma_last_with_push(entries@, p, stats_classifier());
        lemma_member_keys_push(entries@, p);
        lemma_first_bad_push(entries@, p, stats_classifier(), stats_checker());
    }
    entries.push(p);
    let p = (key("play_count"), Json::Num(Number::from_u64(playcount as u64)));
    proof {
        lemma_last_with_push(entries@, p, stats_classifier());
        lemma_member_keys_push(entries@, p);
        lemma_first_bad_push(entries@, p, stats_classifier(), stats_checker());
    }
    entries.push(p);
    let p = (key("play_time"), Json::Num(Number::from_u64(playtime as u64)));
    proof {
        lemma_last_with_push(entries@, p, stats_classifier());
        lemma_member_keys_push(entries@, p);
        lemma_first_bad_push(entries@, p, stats_classifier(), stats_checker());
    }
    entries.push(p);
    let p = (key("pp"), Json::Num(pp));
    proof {
        lemma_last_with_push(entries@, p, stats_classifier());
        lemma_member_keys_push(entries@, p);
        lemma_first_bad_push(entries@, p, stats_classifier(), stats_checker());
    }
    entries.push(p);
    let p = (key("ranked_score"), Json::Num(Number::from_u64(ranked_score)));
    proof {
        lemma_last_with_push(entries@, p, stats_classifier());
        lemma_member_keys_push(entries@, p);
        lemma_first_bad_push(entries@, p, stats_classifier(), stats_checker());
    }
    entries.push(p);
    let p = (key("replays_watched_by_others"), Json::Num(Number::from_u64(replays_watched as u64)));
    proof {
        lemma_last_with_push(entries@, p, stats_classifier());
        lemma_member_keys_push(entries@, p);
        lemma_first_bad_push(entries@, p, stats_classifier(), stats_checker());
    }
    entries.push(p);
    let p = (key("total_hits"), Json::Num(Number::from_u64(total_hits)));
    proof {
        lemma_last_with_push(entries@, p, stats_classifier());
        lemma_member_keys_push(entries@, p);
        lemma_first_bad_push(entries@, p, stats_classifier(), stats_checker());
    }
    entries.push(p);
    let p = (key("total_score"), Json::Num(Number::from_u64(total_score)));
    proof {
        lemma_last_with_push(entries@, p, stats_classifier());
        lemma_member_keys_push(entries@, p);
        lemma_first_bad_push(entries@, p, stats_classifier(), stats_checker());
    }
    entries.push(p);
    let ghost ut = user;
    let profile = encode_profile(user);
    let ghost pj = profile;
    proof {
        assert forall|i: int| #[trigger] profile_member(ut, i) == profile_member(g, i) by {}
        lemma_profile_keys_same(ut, g, 43);
    }
    let p = (key("user"), profile);
    proof {
        lemma_last_with_push(entries@, p, stats_classifier());
        lemma_member_keys_push(entries@, p);
        lemma_first_bad_push(entries@, p, stats_classifier(), stats_checker());
        if profile_wf(g) {
            lemma_profile_round_trip(g, s, pj);
        }
    }
    entries.push(p);
    let ghost e = entries@;
    let r = Json::Obj(entries);
    proof {
        assert forall|i: int| 0 <= i < 14 implies #[trigger] last_with(e, stats_classifier(), i) == stats_member(s, i) by {
            if i == 0 {
                assert(last_with(e, stats_classifier(), 0) == stats_member(s, 0));
            } else if i == 1 {
                assert(last_with(e, stats_classifier(), 1) == stats_member(s, 1));
            } else if i == 2 {
                assert(last_with(e, stats_classifier(), 2) == stats_member(s, 2));
            } else if i == 3 {
                assert(last_with(e, stats_classifier(), 3) == stats_member(s, 3));
            } else if i == 4 {
                assert(last_with(e, stats_classifier(), 4) == stats_member(s, 4));
            } else if i == 5 {
                assert(last_with(e, stats_classifier(), 5) == stats_member(s, 5));
            } else if i == 6 {
                assert(last_with(e, stats_classifier(), 6) == stats_member(s, 6));
            } else if i == 7 {
                assert(last_with(e, stats_classifier(), 7) == stats_member(s, 7));
            } else if i == 8 {
                assert(last_with(e, stats_classifier(), 8) == stats_member(s, 8));
            } else if i == 9 {
                assert(last_with(e, stats_classifier(), 9) == stats_member(s, 9));
            } else if i == 10 {
                assert(last_with(e, stats_classifier(), 10) == stats_member(s, 10));
            } else if i == 11 {
                assert(last_with(e, stats_classifier(), 11) == stats_member(s, 11));
            } else if i == 12 {
                assert(last_with(e, stats_classifier(), 12) == stats_member(s, 12));
            } else if i == 13 {
                assert(last_with(e, stats_classifier(), 13) == stats_member(s, 13));
            }
        }
        assert(last_with(e, stats_classifier(), 14) == Some(pj));
        if profile_wf(g) && stats_wf(s) {
            assert(first_bad(e, stats_classifier(), stats_checker()) is None);
            lemma_decode_encoded(g, s, r, pj);
        }
    }
    r
}

#[verifier::rlimit(100)]
#[verifier::spinoff_prover]
proof fn lemma_profile_round_trip(u: UserCompact, s: UserStatistics, pj: Json)
    requires
        u.statistics == Some(s),
        profile_wf(u),
        pj matches Json::Obj(um) && forall|i: int| 0 <= i < 43 ==> #[trigger] last_with(um@, profile_classifier(), i) == profile_member(u, i),
        pj matches Json::Obj(um) && first_bad(um@, profile_classifier(), profile_checker()) is None,
    ensures
        decode_profile_spec(pj) == Ok::<UserCompact, DecodeError>(profile_value(pj->Obj_0@)),
        with_statistics(profile_value(pj->Obj_0@), s) == u,
{
    let um = pj->Obj_0@;
    assert(last_with(um, profile_classifier(), 0) == profile_member(u, 0));
    assert(last_with(um, profile_classifier(), 1) == profile_member(u, 1));
    assert(last_with(um, profile_classifier(), 2) == profile_member(u, 2));
    assert(last_with(um, profile_classifier(), 3) == profile_member(u, 3));
    assert(last_with(um, profile_classifier(), 4) == profile_member(u, 4));
    assert(last_with(um, profile_classifier(), 5) == profile_member(u, 5));
    assert(last_with(um, profile_classifier(), 6) == profile_member(u, 6));
    assert(last_with(um, profile_classifier(), 7) == profile_member(u, 7));
    assert(last_with(um, profile_classifier(), 8) == profile_member(u, 8));
    assert(last_with(um, profile_classifier(), 9) == profile_member(u, 9));
    assert(last_with(um, profile_classifier(), 10) == profile_member(u, 10));
    assert(last_with(um, profile_classifier(), 11) == profile_member(u, 11));
    assert(last_with(um, profile_classifier(), 12) == profile_member(u, 12));
    assert(last_with(um, profile_classifier(), 13) == profile_member(u, 13));
    assert(last_with(um, profile_classifier(), 14) == profile_member(u, 14));
    assert(last_with(um, profile_classifier(), 15) == profile_member(u, 15));
    assert(last_with(um, profile_classifier(), 16) == profile_member(u, 16));
    assert(last_with(um, profile_classifier(), 17) == profile_member(u, 17));
    assert(last_with(um, profile_classifier(), 18) == profile_member(u, 18));
    assert(last_with(um, profile_classifier(), 19) == profile_member(u, 19));
    assert(last_with(um, profile_classifier(), 20) == profile_member(u, 20));
    assert(last_with(um, profile_classifier(), 21) == profile_member(u, 21));
    assert(last_with(um, profile_classifier(), 22) == profile_member(u, 22));
    assert(last_with(um, profile_classifier(), 23) == profile_member(u, 23));
    assert(last_with(um, profile_classifier(), 24) == profile_member(u, 24));
    assert(last_with(um, profile_classifier(), 25) == profile_member(u, 25));
    assert(last_with(um, profile_classifier(), 26) == profile_member(u, 26));
    assert(last_with(um, profile_classifier(), 27) == profile_member(u, 27));
    assert(last_with(um, profile_classifier(), 28) == profile_member(u, 28));
    assert(last_with(um, profile_classifier(), 29) == profile_member(u, 29));
    assert(last_with(um, profile_classifier(), 30) == profile_member(u, 30));
    assert(last_with(um, profile_classifier(), 31) == profile_member(u, 31));
    assert(last_with(um, profile_classifier(), 32) == profile_member(u, 32));
    assert(last_with(um, profile_classifier(), 33) == profile_member(u, 33));
    assert(last_with(um, profile_classifier(), 34) == profile_member(u, 34));
    assert(last_with(um, profile_classifier(), 35) == profile_member(u, 35));
    assert(last_with(um, profile_classifier(), 36) == profile_member(u, 36));
    assert(last_with(um, profile_classifier(), 37) == profile_member(u, 37));
    assert(last_with(um, profile_classifier(), 38) == profile_member(u, 38));
    assert(last_with(um, profile_classifier(), 39) == profile_member(u, 39));
    assert(last_with(um, profile_classifier(), 40) == profile_member(u, 40));
    assert(last_with(um, profile_classifier(), 41) == profile_member(u, 41));
    assert(last_with(um, profile_classifier(), 42) == profile_member(u, 42));
    assert(profile_error(um) is None);
    assert(with_statistics(profile_value(um), s) == u);
}

proof fn lemma_decode_encoded(u: UserCompact, s: UserStatistics, j: Json, pj: Json)
    requires
        j is Obj,
        u.statistics == Some(s),
        stats_wf(s),
        forall|i: int| 0 <= i < 14 ==> #[trigger] last_with(j->Obj_0@, stats_classifier(), i) == stats_member(s, i),
        last_with(j->Obj_0@, stats_classifier(), 14) == Some(pj),
        first_bad(j->Obj_0@, stats_classifier(), stats_checker()) is None,
        pj is Obj,
        decode_profile_spec(pj) == Ok::<UserCompact, DecodeError>(profile_value(pj->Obj_0@)),
        with_statistics(profile_value(pj->Obj_0@), s) == u,
    ensures
        decode_user_stats_spec(j) == Ok::<UserCompact, DecodeError>(u),
{
    let e = j->Obj_0@;
    assert(last_with(e, stats_classifier(), 0) == stats_member(s, 0));
    assert(last_with(e, stats_classifier(), 1) == stats_member(s, 1));
    assert(last_with(e, stats_classifier(), 2) == stats_member(s, 2));
    assert(last_with(e, stats_classifier(), 3) == stats_member(s, 3));
    assert(last_with(e, stats_classifier(), 4) == stats_member(s, 4));
    assert(last_with(e, stats_classifier(), 5) == stats_member(s, 5));
    assert(last_with(e, stats_classifier(), 6) == stats_member(s, 6));
    assert(last_with(e, stats_classifier(), 7) == stats_member(s, 7));
    assert(last_with(e, stats_classifier(), 8) == stats_member(s, 8));
    assert(last_with(e, stats_classifier(), 9) == stats_member(s, 9));
    assert(last_with(e, stats_classifier(), 10) == stats_member(s, 10));
    assert(last_with(e, stats_classifier(), 11) == stats_member(s, 11));
    assert(last_with(e, stats_classifier(), 12) == stats_member(s, 12));
    assert(last_with(e, stats_classifier(), 13) == stats_member(s, 13));
    assert(stats_error(e) is None);
    assert(stats_value(e) == s);
}

} // verus!
