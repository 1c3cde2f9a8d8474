use osu_rankings::cursor::{decode_rankings_cursor, Cursor};
use osu_rankings::json::{DecodeError, Json, Number};
use osu_rankings::ranking::{
    decode_user_stats_vec, encode_user_stats_vec, CountryRankings, CountryRankingsRequest, GameMode,
    LeaderboardKind, RankingType, Rankings, RankingsRequest,
};
use osu_rankings::user::{decode_user_stats, encode_user_stats, UserCompact, UserStatistics};

fn s(x: &str) -> Json {
    Json::Str(x.to_string())
}

fn n(v: u64) -> Json {
    Json::Num(Number { negative: false, mantissa: v, scale: 0 })
}

fn dec(mantissa: u64, scale: u32) -> Number {
    Number { negative: false, mantissa, scale }
}

fn obj(members: Vec<(&str, Json)>) -> Json {
    Json::Obj(members.into_iter().map(|(k, v)| (k.to_string(), v)).collect())
}

fn user_object() -> Json {
    obj(vec![
        ("avatar_url", s("https://a.ppy.sh/2")),
        ("country_code", s("AU")),
        ("default_group", s("default")),
        ("id", n(2)),
        ("is_active", Json::Bool(true)),
        ("is_bot", Json::Bool(false)),
        ("is_deleted", Json::Bool(false)),
        ("is_online", Json::Bool(false)),
        ("is_supporter", Json::Bool(true)),
        ("last_visit", Json::Null),
        ("pm_friends_only", Json::Bool(false)),
        ("profile_colour", Json::Null),
        ("username", s("x")),
    ])
}

fn grade_counts() -> Json {
    obj(vec![("ss", n(1)), ("ssh", n(2)), ("s", n(3)), ("sh", n(4)), ("a", n(5))])
}

fn level() -> Json {
    obj(vec![("current", n(100)), ("progress", n(50))])
}

fn envelope(skip: &str, pp: Option<Json>, play_time: Option<Json>) -> Json {
    let mut m = vec![
        ("hit_accuracy", Json::Num(dec(985, 1))),
        ("grade_counts", grade_counts()),
        ("is_ranked", Json::Bool(true)),
        ("level", level()),
        ("maximum_combo", n(1000)),
        ("play_count", n(5000)),
        ("ranked_score", n(123456)),
        ("replays_watched_by_others", n(10)),
        ("total_hits", n(99999)),
        ("total_score", n(987654)),
        ("user", user_object()),
    ];
    if let Some(v) = pp {
        m.push(("pp", v));
    }
    if let Some(v) = play_time {
        m.push(("play_time", v));
    }
    m.retain(|(k, _)| *k != skip);
    obj(m)
}

fn full_envelope() -> Json {
    envelope("", Some(Json::Num(dec(70000, 1))), Some(n(100000)))
}

fn sample_user(country_rank: Option<u32>, global_rank: Option<u32>) -> UserCompact {
    let mut u = decode_user_stats(full_envelope()).unwrap();
    let stats = u.statistics.as_mut().unwrap();
    stats.country_rank = country_rank;
    stats.global_rank = global_rank;
    u.badges = Some(Json::Arr(vec![s("badge")]));
    u.last_visit = Some("2020-01-02T03:04:05Z".to_string());
    u.support_level = Some(3);
    u
}

#[test]
fn cursor_null_is_none() {
    assert_eq!(decode_rankings_cursor(Some(Json::Null)), Ok(None));
    assert_eq!(decode_rankings_cursor(None), Ok(None));
}

#[test]
fn cursor_bare_integer() {
    assert_eq!(decode_rankings_cursor(Some(n(7))), Ok(Some(7)));
}

#[test]
fn cursor_object_with_page() {
    assert_eq!(decode_rankings_cursor(Some(obj(vec![("page", n(3))]))), Ok(Some(3)));
}

#[test]
fn cursor_object_with_page_and_extra() {
    let c = obj(vec![("page", n(3)), ("extra", s("x"))]);
    assert_eq!(decode_rankings_cursor(Some(c)), Ok(Some(3)));
}

#[test]
fn cursor_empty_object_misses_page() {
    assert_eq!(decode_rankings_cursor(Some(obj(vec![]))), Err(DecodeError::MissingField("page")));
}

#[test]
fn cursor_object_without_page() {
    let c = obj(vec![("extra", n(1))]);
    assert_eq!(decode_rankings_cursor(Some(c)), Err(DecodeError::MissingField("page")));
}

#[test]
fn cursor_of_wrong_kind() {
    assert_eq!(decode_rankings_cursor(Some(s("3"))), Err(DecodeError::TypeMismatch("cursor")));
    let c = obj(vec![("page", s("3"))]);
    assert_eq!(decode_rankings_cursor(Some(c)), Err(DecodeError::TypeMismatch("page")));
}

#[test]
fn cursor_bare_integer_over_u32_is_mismatch() {
    assert_eq!(decode_rankings_cursor(Some(n((1u64 << 32) + 5))), Err(DecodeError::TypeMismatch("cursor")));
}

#[test]
fn cursor_ill_typed_earlier_page_fails() {
    let c = obj(vec![("page", s("x")), ("page", n(3))]);
    assert_eq!(decode_rankings_cursor(Some(c)), Err(DecodeError::TypeMismatch("page")));
}

#[test]
fn pp_null_reads_zero() {
    let u = decode_user_stats(envelope("", Some(Json::Null), Some(n(100000)))).unwrap();
    assert_eq!(u.statistics.unwrap().pp, Number::zero());
}

#[test]
fn pp_absent_is_missing() {
    let r = decode_user_stats(envelope("", None, Some(n(100000))));
    assert_eq!(r, Err(DecodeError::MissingField("pp")));
}

#[test]
fn play_time_null_reads_zero() {
    let u = decode_user_stats(envelope("", Some(Json::Num(dec(70000, 1))), Some(Json::Null))).unwrap();
    assert_eq!(u.statistics.unwrap().playtime, 0);
}

#[test]
fn play_time_absent_is_missing() {
    let r = decode_user_stats(envelope("", Some(Json::Num(dec(70000, 1))), None));
    assert_eq!(r, Err(DecodeError::MissingField("play_time")));
}

#[test]
fn missing_hit_accuracy() {
    let e = envelope("hit_accuracy", Some(Json::Num(dec(70000, 1))), Some(n(100000)));
    assert_eq!(decode_user_stats(e), Err(DecodeError::MissingField("hit_accuracy")));
}

#[test]
fn missing_user() {
    let e = envelope("user", Some(Json::Num(dec(70000, 1))), Some(n(100000)));
    assert_eq!(decode_user_stats(e), Err(DecodeError::MissingField("user")));
}

#[test]
fn ill_typed_statistic() {
    let mut e = full_envelope();
    if let Json::Obj(m) = &mut e {
        m.push(("maximum_combo".to_string(), s("many")));
    }
    assert_eq!(decode_user_stats(e), Err(DecodeError::TypeMismatch("maximum_combo")));
}

#[test]
fn u32_out_of_range_is_mismatch() {
    let mut e = full_envelope();
    if let Json::Obj(m) = &mut e {
        m.push(("play_count".to_string(), n(1u64 << 32)));
    }
    assert_eq!(decode_user_stats(e), Err(DecodeError::TypeMismatch("play_count")));
}

#[test]
fn decodes_merged_record() {
    let u = decode_user_stats(full_envelope()).unwrap();
    assert_eq!(u.user_id, 2);
    assert_eq!(u.username, "x");
    assert_eq!(u.country_code, "AU");
    assert_eq!(u.last_visit, None);
    assert_eq!(u.profile_color, None);
    let st = u.statistics.unwrap();
    assert_eq!(st.accuracy, dec(985, 1));
    assert_eq!(st.pp, dec(70000, 1));
    assert_eq!(st.playtime, 100000);
    assert_eq!(st.max_combo, 1000);
    assert_eq!(st.playcount, 5000);
    assert_eq!(st.ranked_score, 123456);
    assert_eq!(st.replays_watched, 10);
    assert_eq!(st.total_hits, 99999);
    assert_eq!(st.total_score, 987654);
    assert_eq!(st.country_rank, None);
    assert_eq!(st.global_rank, None);
    assert!(st.is_ranked);
    assert_eq!(st.grade_counts, grade_counts());
    assert_eq!(st.level, level());
}

#[test]
fn unknown_keys_are_ignored() {
    let mut e = full_envelope();
    if let Json::Obj(m) = &mut e {
        m.push(("rank_change_since_30_days".to_string(), n(4)));
    }
    assert!(decode_user_stats(e).is_ok());
}

#[test]
fn later_duplicate_wins() {
    let mut e = full_envelope();
    if let Json::Obj(m) = &mut e {
        m.push(("maximum_combo".to_string(), n(7)));
    }
    assert_eq!(decode_user_stats(e).unwrap().statistics.unwrap().max_combo, 7);
}

#[test]
fn null_ranks_read_as_none_and_values_as_some() {
    let mut e = full_envelope();
    if let Json::Obj(m) = &mut e {
        m.push(("country_rank".to_string(), Json::Null));
        m.push(("global_rank".to_string(), n(12)));
    }
    let st = decode_user_stats(e).unwrap().statistics.unwrap();
    assert_eq!(st.country_rank, None);
    assert_eq!(st.global_rank, Some(12));
}

#[test]
fn null_user_is_missing() {
    let mut e = envelope("user", Some(Json::Num(dec(70000, 1))), Some(n(100000)));
    if let Json::Obj(m) = &mut e {
        m.push(("user".to_string(), Json::Null));
    }
    assert_eq!(decode_user_stats(e), Err(DecodeError::MissingField("user")));
}

#[test]
fn ill_typed_earlier_duplicate_fails() {
    let mut e = full_envelope();
    if let Json::Obj(m) = &mut e {
        m.insert(0, ("maximum_combo".to_string(), s("many")));
    }
    assert_eq!(decode_user_stats(e), Err(DecodeError::TypeMismatch("maximum_combo")));
}

#[test]
fn invalid_last_visit_is_mismatch() {
    let mut e = full_envelope();
    if let Json::Obj(m) = &mut e {
        if let Some((_, Json::Obj(u))) = m.iter_mut().find(|(k, _)| k == "user") {
            u.push(("last_visit".to_string(), s("yesterday")));
        }
    }
    assert_eq!(decode_user_stats(e), Err(DecodeError::TypeMismatch("last_visit")));
}

#[test]
fn valid_last_visit_is_kept() {
    let mut e = full_envelope();
    if let Json::Obj(m) = &mut e {
        if let Some((_, Json::Obj(u))) = m.iter_mut().find(|(k, _)| k == "user") {
            u.push(("last_visit".to_string(), s("2021-05-06T07:08:09+00:00")));
        }
    }
    let u = decode_user_stats(e).unwrap();
    assert_eq!(u.last_visit, Some("2021-05-06T07:08:09+00:00".to_string()));
}

#[test]
fn round_trip_with_both_ranks() {
    let back = decode_user_stats(encode_user_stats(sample_user(Some(5), Some(50)))).unwrap();
    assert_eq!(back, sample_user(Some(5), Some(50)));
}

#[test]
fn round_trip_with_no_ranks() {
    let back = decode_user_stats(encode_user_stats(sample_user(None, None))).unwrap();
    assert_eq!(back, sample_user(None, None));
}

#[test]
fn round_trip_with_one_rank_each() {
    let a = decode_user_stats(encode_user_stats(sample_user(Some(1), None))).unwrap();
    assert_eq!(a, sample_user(Some(1), None));
    let b = decode_user_stats(encode_user_stats(sample_user(None, Some(2)))).unwrap();
    assert_eq!(b, sample_user(None, Some(2)));
}

#[test]
fn encode_order_and_omissions() {
    let j = encode_user_stats(sample_user(None, Some(50)));
    let Json::Obj(m) = j else { panic!("not an object") };
    let keys: Vec<&str> = m.iter().map(|(k, _)| k.as_str()).collect();
    assert_eq!(
        keys,
        vec![
            "hit_accuracy", "global_rank", "grade_counts", "is_ranked", "level", "maximum_combo",
            "play_count", "play_time", "pp", "ranked_score", "replays_watched_by_others",
            "total_hits", "total_score", "user"
        ]
    );
    let Json::Obj(user) = &m[13].1 else { panic!("user is not an object") };
    let ukeys: Vec<&str> = user.iter().map(|(k, _)| k.as_str()).collect();
    assert!(ukeys.contains(&"id"));
    assert!(ukeys.contains(&"badges"));
    assert!(ukeys.contains(&"support_level"));
    assert!(ukeys.contains(&"last_visit"));
    assert!(!ukeys.contains(&"profile_colour"));
    assert!(!ukeys.contains(&"statistics"));
    assert!(!ukeys.contains(&"user_achievements"));
    assert_eq!(m[1].1, n(50));
}

#[test]
fn vec_round_trip_keeps_order() {
    let users = vec![sample_user(Some(1), None), sample_user(None, Some(2))];
    let back = decode_user_stats_vec(encode_user_stats_vec(users)).unwrap();
    assert_eq!(back, vec![sample_user(Some(1), None), sample_user(None, Some(2))]);
}

#[test]
fn vec_first_error_wins() {
    let a = Json::Arr(vec![full_envelope(), envelope("pp", None, Some(n(1))), s("x")]);
    assert_eq!(decode_user_stats_vec(a), Err(DecodeError::MissingField("pp")));
    assert_eq!(decode_user_stats_vec(s("x")), Err(DecodeError::TypeMismatch("ranking")));
}

fn rankings_envelope(cursor: Json) -> Json {
    obj(vec![("cursor", cursor), ("ranking", Json::Arr(vec![full_envelope()])), ("total", n(50))])
}

#[test]
fn end_to_end_performance_page() {
    let page = Rankings::decode(rankings_envelope(obj(vec![("page", n(3))])), GameMode::Osu, LeaderboardKind::Performance)
        .unwrap();
    assert_eq!(page.next_page, Some(3));
    assert_eq!(page.total, 50);
    assert_eq!(page.ranking.len(), 1);
    assert_eq!(page.ranking[0].user_id, 2);
    assert_eq!(page.mode, GameMode::Osu);
    assert_eq!(page.ranking_type, LeaderboardKind::Performance);
    assert_eq!(
        page.get_next(),
        Some(RankingsRequest { mode: GameMode::Osu, kind: LeaderboardKind::Performance, page: 3 })
    );
}

#[test]
fn exhausted_page_asks_nothing() {
    let page = Rankings::decode(rankings_envelope(Json::Null), GameMode::Taiko, LeaderboardKind::Score).unwrap();
    assert_eq!(page.next_page, None);
    assert_eq!(page.get_next(), None);
}

#[test]
fn rankings_missing_ranking_and_total() {
    let e = obj(vec![("total", n(1))]);
    assert_eq!(Rankings::decode(e, GameMode::Osu, LeaderboardKind::Score), Err(DecodeError::MissingField("ranking")));
    let e = obj(vec![("ranking", Json::Arr(vec![]))]);
    assert_eq!(Rankings::decode(e, GameMode::Osu, LeaderboardKind::Score), Err(DecodeError::MissingField("total")));
    let e = obj(vec![("cursor", obj(vec![])), ("ranking", Json::Arr(vec![])), ("total", n(0))]);
    assert_eq!(Rankings::decode(e, GameMode::Osu, LeaderboardKind::Score), Err(DecodeError::MissingField("page")));
}

#[test]
fn score_page_dispatches_score() {
    let page = Rankings::decode(rankings_envelope(n(2)), GameMode::Mania, LeaderboardKind::Score).unwrap();
    let req = page.get_next().unwrap();
    assert_eq!(req.kind.ranking_type(), RankingType::Score);
    assert_eq!(req.page, 2);
    assert_eq!(req.mode, GameMode::Mania);
}

#[test]
fn leaderboard_kinds_are_dispatchable_only() {
    for k in [LeaderboardKind::Performance, LeaderboardKind::Score] {
        let t = k.ranking_type();
        assert!(t != RankingType::Charts && t != RankingType::Country);
    }
}

#[test]
fn ranking_type_names() {
    assert_eq!(RankingType::Charts.as_str(), "charts");
    assert_eq!(RankingType::Country.as_str(), "country");
    assert_eq!(RankingType::Performance.as_str(), "performance");
    assert_eq!(RankingType::Score.as_str(), "score");
}

#[test]
fn country_rankings_next_page() {
    let c = CountryRankings { next_page: Some(4), ranking: vec![], total: 10 };
    assert_eq!(c.get_next(GameMode::Catch), Some(CountryRankingsRequest { mode: GameMode::Catch, page: 4 }));
    let done = CountryRankings { next_page: None, ranking: vec![], total: 10 };
    assert_eq!(done.get_next(GameMode::Catch), None);
}

#[test]
fn cursor_token_is_kept() {
    let c = Cursor::new(obj(vec![("id", n(9))]));
    assert_eq!(c.token(), &obj(vec![("id", n(9))]));
}

#[allow(dead_code)]
fn statistics_type_is_public(s: UserStatistics) -> Number {
    s.pp
}

fn country(code: &str) -> Json {
    obj(vec![
        ("active_users", n(1000)),
        ("code", s(code)),
        ("country", s("Australia")),
        ("play_count", n(123)),
        ("performance", Json::Num(dec(45678, 2))),
        ("ranked_score", n(999)),
    ])
}

#[test]
fn country_rankings_decode() {
    let e = obj(vec![
        ("cursor", obj(vec![("page", n(2))])),
        ("ranking", Json::Arr(vec![country("AU"), country("NZ")])),
        ("total", n(250)),
    ]);
    let page = CountryRankings::decode(e).unwrap();
    assert_eq!(page.next_page, Some(2));
    assert_eq!(page.total, 250);
    assert_eq!(page.ranking.len(), 2);
    assert_eq!(page.ranking[1].country_code, "NZ");
    assert_eq!(page.ranking[0].pp, dec(45678, 2));
    assert_eq!(page.ranking[0].playcount, 123);
    assert_eq!(page.get_next(GameMode::Osu), Some(CountryRankingsRequest { mode: GameMode::Osu, page: 2 }));
}

#[test]
fn country_rankings_errors() {
    let e = obj(vec![("ranking", Json::Arr(vec![obj(vec![("code", s("AU"))])])), ("total", n(1))]);
    assert_eq!(CountryRankings::decode(e), Err(DecodeError::MissingField("active_users")));
    let e = obj(vec![("cursor", s("x")), ("ranking", Json::Arr(vec![])), ("total", n(1))]);
    assert_eq!(CountryRankings::decode(e), Err(DecodeError::TypeMismatch("cursor")));
    let e = obj(vec![("cursor", Json::Null), ("ranking", Json::Arr(vec![]))]);
    assert_eq!(CountryRankings::decode(e), Err(DecodeError::MissingField("total")));
}

#[test]
fn rankings_ill_typed_earlier_total_fails() {
    let e = obj(vec![("total", s("many")), ("ranking", Json::Arr(vec![])), ("total", n(1))]);
    assert_eq!(Rankings::decode(e, GameMode::Osu, LeaderboardKind::Score), Err(DecodeError::TypeMismatch("total")));
}
