use crate::country::{decode_country_ranking, decode_country_ranking_spec};
use crate::cursor::{decode_rankings_cursor, page_cursor_spec};
use crate::json::{
    check_uint, decode_u32, first_bad, key_is, last_with, lemma_first_bad_push, lemma_last_with_push, uint_error,
    uint_value, DecodeError, Json, Number,
};
use crate::user::{decode_user_stats, decode_user_stats_spec, encode_user_stats, encodes_entry, profile_wf, stats_wf, UserCompact};
use vstd::prelude::*;

verus! {

/// A game mode.
#[derive(Clone, Copy, Debug, PartialEq, Eq, Structural)]
pub enum GameMode {
    Osu,
    Taiko,
    Catch,
    Mania,
}

/// Every kind of ranking the service offers.
#[derive(Clone, Copy, Debug, PartialEq, Eq, Structural)]
pub enum RankingType {
    Charts,
    Country,
    Performance,
    Score,
}

pub open spec fn ranking_type_name(t: RankingType) -> Seq<char> {
    match t {
        RankingType::Charts => "charts"@,
        RankingType::Country => "country"@,
        RankingType::Performance => "performance"@,
        RankingType::Score => "score"@,
    }
}

impl RankingType {
    /// The lower-case name of the ranking, as the service spells it.
    pub fn as_str(&self) -> (r: &'static str)
        ensures
            r@ == ranking_type_name(*self),
    {
        match self {
            RankingType::Charts => "charts",
            RankingType::Country => "country",
            RankingType::Performance => "performance",
            RankingType::Score => "score",
        }
    }
}

/// The rankings of users whose next page is fetched the same way: by mode,
/// kind and page number. Charts and country rankings page on their own and
/// cannot be named here.
#[derive(Clone, Copy, Debug, PartialEq, Eq, Structural)]
pub enum LeaderboardKind {
    Performance,
    Score,
}

pub open spec fn spec_ranking_type(k: LeaderboardKind) -> RankingType {
    match k {
        LeaderboardKind::Performance => RankingType::Performance,
        LeaderboardKind::Score => RankingType::Score,
    }
}

impl LeaderboardKind {
    pub fn ranking_type(&self) -> (r: RankingType)
        ensures
            r == spec_ranking_type(*self),
    {
        match self {
            LeaderboardKind::Performance => RankingType::Performance,
            LeaderboardKind::Score => RankingType::Score,
        }
    }
}

/// A leaderboard kind never names a ranking that pages on its own.
pub proof fn lemma_leaderboard_kind_dispatchable(k: LeaderboardKind)
    ensures
        spec_ranking_type(k) != RankingType::Charts,
        spec_ranking_type(k) != RankingType::Country,
{
}

/// A record that encodes and then decodes as itself.
pub open spec fn entry_wf(u: UserCompact) -> bool {
    &&& profile_wf(u)
    &&& u.statistics matches Some(s)
    &&& stats_wf(s)
}

/// A decoded list of entries preceded by those decoded before.
pub open spec fn prepend_ok(d: Seq<UserCompact>, r: Result<Seq<UserCompact>, DecodeError>) -> Result<Seq<UserCompact>, DecodeError> {
    match r {
        Ok(s) => Ok(d + s),
        Err(e) => Err(e),
    }
}

/// The entries of a leaderboard, in order; the first entry that fails decides
/// the error.
pub open spec fn decode_users_spec(items: Seq<Json>) -> Result<Seq<UserCompact>, DecodeError>
    decreases items.len(),
{
    if items.len() == 0 {
        Ok(Seq::empty())
    } else {
        match decode_user_stats_spec(items[0]) {
            Err(e) => Err(e),
            Ok(u) => prepend_ok(seq![u], decode_users_spec(items.drop_first())),
        }
    }
}

pub open spec fn decode_user_stats_vec_spec(v: Json) -> Result<Seq<UserCompact>, DecodeError> {
    match v {
        Json::Arr(a) => decode_users_spec(a@),
        _ => Err(DecodeError::TypeMismatch("ranking")),
    }
}

/// Decodes the array of leaderboard entries, keeping their order.
pub fn decode_user_stats_vec(v: Json) -> (r: Result<Vec<UserCompact>, DecodeError>)
    ensures
        match r {
            Ok(us) => decode_user_stats_vec_spec(v) == Ok::<Seq<UserCompact>, DecodeError>(us@),
            Err(e) => decode_user_stats_vec_spec(v) == Err::<Seq<UserCompact>, DecodeError>(e),
        },
{
    let items = match v {
        Json::Arr(a) => a,
        _ => return Err(DecodeError::TypeMismatch("ranking")),
    };
    let ghost all = items@;
    let mut users: Vec<UserCompact> = Vec::with_capacity(items.len());
    let mut rest = items;
    proof {
        assert(users@ + Seq::<UserCompact>::empty() =~= users@);
    }
    while rest.len() > 0
        invariant
            decode_user_stats_vec_spec(v) == decode_users_spec(all),
            decode_users_spec(all) == prepend_ok(users@, decode_users_spec(rest@)),
        decreases rest.len(),
    {
        let ghost before = rest@;
        let item = rest.remove(0);
        proof {
            assert(rest@ =~= before.drop_first());
        }
        match decode_user_stats(item) {
            Ok(u) => {
                proof {
                    match decode_users_spec(rest@) {
                        Ok(s) => {
                            assert(users@ + (seq![u] + s) =~= users@.push(u) + s);
                        },
                        Err(_) => {},
                    }
                }
                users.push(u);
            },
            Err(e) => {
                proof {
                    assert(decode_users_spec(before) == Err::<Seq<UserCompact>, DecodeError>(e));
                }
                return Err(e);
            },
        }
    }
    proof {
        assert(users@ + Seq::<UserCompact>::empty() =~= users@);
    }
    Ok(users)
}

/// Entries that each decode as themselves decode together, in order.
pub proof fn lemma_decode_users_each(items: Seq<Json>, users: Seq<UserCompact>)
    requires
        items.len() == users.len(),
        forall|k: int| 0 <= k < items.len() ==> decode_user_stats_spec(#[trigger] items[k]) == Ok::<UserCompact, DecodeError>(users[k]),
    ensures
        decode_users_spec(items) == Ok::<Seq<UserCompact>, DecodeError>(users),
    decreases items.len(),
{
    if items.len() > 0 {
        assert(decode_user_stats_spec(items[0]) == Ok::<UserCompact, DecodeError>(users[0]));
        assert forall|k: int| 0 <= k < items.drop_first().len() implies decode_user_stats_spec(#[trigger] items.drop_first()[k]) == Ok::<UserCompact, DecodeError>(users.drop_first()[k]) by {
            assert(items.drop_first()[k] == items[k + 1]);
        }
        lemma_decode_users_each(items.drop_first(), users.drop_first());
        assert(seq![users[0]] + users.drop_first() =~= users);
    } else {
        assert(users =~= Seq::<UserCompact>::empty());
    }
}

/// Encodes leaderboard entries as an array, in order. Every entry must carry
/// statistics; entries that are well-formed decode back to themselves.
pub fn encode_user_stats_vec(users: Vec<UserCompact>) -> (r: Json)
    requires
        forall|k: int| 0 <= k < users@.len() ==> (#[trigger] users@[k]).statistics is Some,
    ensures
        r matches Json::Arr(a) && a@.len() == users@.len() && (forall|k: int| 0 <= k < users@.len() ==> encodes_entry(users@[k], #[trigger] a@[k])),
        r matches Json::Arr(a) && (forall|k: int| 0 <= k < users@.len() && entry_wf(users@[k]) ==> decode_user_stats_spec(#[trigger] a@[k]) == Ok::<UserCompact, DecodeError>(users@[k])),
        (forall|k: int| 0 <= k < users@.len() ==> entry_wf(#[trigger] users@[k])) ==> decode_user_stats_vec_spec(r) == Ok::<Seq<UserCompact>, DecodeError>(users@),
{
    let ghost all = users@;
    let mut out: Vec<Json> = Vec::with_capacity(users.len());
    let mut rest = users;
    while rest.len() > 0
        invariant
            out@.len() + rest@.len() == all.len(),
            rest@ == all.subrange(out@.len() as int, all.len() as int),
            forall|k: int| 0 <= k < all.len() ==> (#[trigger] all[k]).statistics is Some,
            forall|k: int| 0 <= k < out@.len() && entry_wf(all[k]) ==> decode_user_stats_spec(#[trigger] out@[k]) == Ok::<UserCompact, DecodeError>(all[k]),
            forall|k: int| 0 <= k < out@.len() ==> encodes_entry(all[k], #[trigger] out@[k]),
        decreases rest.len(),
    {
        let ghost n: int = out@.len() as int;
        let u = rest.remove(0);
        proof {
            assert(u == all[n]);
            assert(rest@ =~= all.subrange(n + 1int, all.len() as int));
        }
        let j = encode_user_stats(u);
        out.push(j);
    }
    proof {
        if forall|k: int| 0 <= k < all.len() ==> entry_wf(#[trigger] all[k]) {
            lemma_decode_users_each(out@, all);
        }
    }
    Json::Arr(out)
}

/// A request for one page of a leaderboard.
#[derive(Clone, Copy, Debug, PartialEq, Eq, Structural)]
pub struct RankingsRequest {
    pub mode: GameMode,
    pub kind: LeaderboardKind,
    pub page: u32,
}

/// One page of a performance or score leaderboard, with what is needed to
/// ask for the next page.
#[derive(Debug, PartialEq)]
pub struct Rankings {
    /// The mode the page was fetched for.
    pub mode: GameMode,
    /// The next page, if there is one.
    pub next_page: Option<u32>,
    /// The entries of this page, in the order of the leaderboard.
    pub ranking: Vec<UserCompact>,
    /// The kind of leaderboard the page belongs to.
    pub ranking_type: LeaderboardKind,
    /// Number of entries in the whole leaderboard.
    pub total: u32,
}

/// The slot of a key of a leaderboard page.
pub open spec fn rankings_key(k: Seq<char>) -> Option<int> {
    if k == "cursor"@ {
        Some(0)
    } else if k == "ranking"@ {
        Some(1)
    } else if k == "total"@ {
        Some(2)
    } else {
        None
    }
}

pub open spec fn rankings_classifier() -> spec_fn(Seq<char>) -> Option<int> {
    |k: Seq<char>| rankings_key(k)
}

fn classify_rankings_key(k: &String) -> (r: Option<usize>)
    ensures
        r matches Some(i) ==> rankings_key(k@) == Some(i as int) && i < 3,
        r is None ==> rankings_key(k@) is None,
{
    if key_is(k, "cursor") {
        Some(0)
    } else if key_is(k, "ranking") {
        Some(1)
    } else if key_is(k, "total") {
        Some(2)
    } else {
        None
    }
}

/// Why a value present under a key of a leaderboard page is rejected.
pub open spec fn rankings_member_error(i: int, v: Json) -> Option<DecodeError> {
    if i == 0 {
        match page_cursor_spec(Some(v)) {
            Err(e) => Some(e),
            Ok(_) => None,
        }
    } else if i == 1 {
        match decode_user_stats_vec_spec(v) {
            Err(e) => Some(e),
            Ok(_) => None,
        }
    } else if i == 2 {
        uint_error(Some(v), "total", u32::MAX as u64)
    } else {
        None
    }
}

pub open spec fn rankings_checker() -> spec_fn(int, Json) -> Option<DecodeError> {
    |i: int, v: Json| rankings_member_error(i, v)
}

/// The members of a leaderboard page: the first rejected value under a known
/// key, in member order; the cursor and the entries decoded from their last
/// members; and the last `total` member.
fn collect_rankings(entries: Vec<(String, Json)>) -> (r: (Option<DecodeError>, Option<u32>, Option<Vec<UserCompact>>, Option<Json>))
    ensures
        r.0 == first_bad(entries@, rankings_classifier(), rankings_checker()),
        r.0 is None ==> page_cursor_spec(last_with(entries@, rankings_classifier(), 0)) == Ok::<Option<u32>, DecodeError>(r.1),
        r.0 is None ==> match last_with(entries@, rankings_classifier(), 1) {
            None => r.2 is None,
            Some(v) => r.2 matches Some(us) && decode_user_stats_vec_spec(v) == Ok::<Seq<UserCompact>, DecodeError>(us@),
        },
        r.3 == last_with(entries@, rankings_classifier(), 2),
{
    let ghost all = entries@;
    let mut bad: Option<DecodeError> = None;
    let mut cursor: Option<u32> = None;
    let mut cursor_seen = false;
    let ghost mut cursor_raw = Json::Null;
    let mut ranking: Option<Vec<UserCompact>> = None;
    let mut ranking_seen = false;
    let ghost mut ranking_raw = Json::Null;
    let mut total: Option<Json> = None;
    let mut rest = entries;
    while rest.len() > 0
        invariant
            all == entries@,
            first_bad(all, rankings_classifier(), rankings_checker()) == match first_bad(rest@, rankings_classifier(), rankings_checker()) {
                Some(e) => Some(e),
                None => bad,
            },
            !cursor_seen ==> cursor is None && last_with(all, rankings_classifier(), 0) == last_with(rest@, rankings_classifier(), 0),
            cursor_seen ==> last_with(all, rankings_classifier(), 0) == Some(cursor_raw),
            cursor_seen ==> match page_cursor_spec(Some(cursor_raw)) {
                Ok(c) => cursor == c,
                Err(_) => bad is Some,
            },
            !ranking_seen ==> ranking is None && last_with(all, rankings_classifier(), 1) == last_with(rest@, rankings_classifier(), 1),
            ranking_seen ==> last_with(all, rankings_classifier(), 1) == Some(ranking_raw),
            ranking_seen ==> match decode_user_stats_vec_spec(ranking_raw) {
                Ok(s) => ranking matches Some(us) && us@ == s,
                Err(_) => bad is Some,
            },
            last_with(all, rankings_classifier(), 2) == match total {
                Some(v) => Some(v),
                None => last_with(rest@, rankings_classifier(), 2),
            },
        decreases rest.len(),
    {
        let ghost before = rest@;
        let (k, v) = rest.pop().unwrap();
        proof {
            assert(before == rest@.push((k, v)));
            lemma_last_with_push(rest@, (k, v), rankings_classifier());
            lemma_first_bad_push(rest@, (k, v), rankings_classifier(), rankings_checker());
        }
        match classify_rankings_key(&k) {
            Some(i) => {
                let ghost raw = v;
                if i == 0 {
                    match decode_rankings_cursor(Some(v)) {
                        Ok(c) => {
                            if !cursor_seen {
                                cursor = c;
                            }
                        },
                        Err(e) => {
                            bad = Some(e);
                        },
                    }
                    if !cursor_seen {
                        proof {
                            cursor_raw = raw;
                        }
                        cursor_seen = true;
                    }
                } else if i == 1 {
                    match decode_user_stats_vec(v) {
                        Ok(us) => {
                            if !ranking_seen {
                                ranking = Some(us);
                            }
                        },
                        Err(e) => {
                            bad = Some(e);
                        },
                    }
                    if !ranking_seen {
                        proof {
                            ranking_raw = raw;
                        }
                        ranking_seen = true;
                    }
                } else {
                    match check_uint(&v, "total", u32::MAX as u64) {
                        Some(e) => {
                            bad = Some(e);
                        },
                        None => {},
                    }
                    if total.is_none() {
                        total = Some(v);
                    }
                }
            },
            None => {},
        }
    }
    (bad, cursor, ranking, total)
}

/// What a leaderboard page decodes to: its next page, its entries and its
/// total. The first rejected value under a known key, in member order, is
/// reported first; then a missing `ranking` or `total`.
pub open spec fn decode_rankings_spec(j: Json) -> Result<(Option<u32>, Seq<UserCompact>, u32), DecodeError> {
    match j {
        Json::Obj(m) => if first_bad(m@, rankings_classifier(), rankings_checker()) is Some {
            Err(first_bad(m@, rankings_classifier(), rankings_checker())->Some_0)
        } else {
            let c = page_cursor_spec(last_with(m@, rankings_classifier(), 0));
            let r = match last_with(m@, rankings_classifier(), 1) {
                None => Err(DecodeError::MissingField("ranking")),
                Some(v) => decode_user_stats_vec_spec(v),
            };
            let t = last_with(m@, rankings_classifier(), 2);
            if c is Err {
                Err(c->Err_0)
            } else if r is Err {
                Err(r->Err_0)
            } else if uint_error(t, "total", u32::MAX as u64) is Some {
                Err(uint_error(t, "total", u32::MAX as u64)->Some_0)
            } else {
                Ok((c->Ok_0, r->Ok_0, uint_value(t) as u32))
            }
        },
        _ => Err(DecodeError::TypeMismatch("Rankings")),
    }
}

impl Rankings {
    /// Decodes one page of a leaderboard fetched for `mode` and `kind`, which
    /// the page keeps to ask for the next one.
    pub fn decode(j: Json, mode: GameMode, kind: LeaderboardKind) -> (r: Result<Rankings, DecodeError>)
        ensures
            match r {
                Ok(p) => decode_rankings_spec(j) == Ok::<(Option<u32>, Seq<UserCompact>, u32), DecodeError>((p.next_page, p.ranking@, p.total)) && p.mode == mode && p.ranking_type == kind,
                Err(e) => decode_rankings_spec(j) == Err::<(Option<u32>, Seq<UserCompact>, u32), DecodeError>(e),
            },
    {
        let entries = match j {
            Json::Obj(m) => m,
            _ => return Err(DecodeError::TypeMismatch("Rankings")),
        };
        let (bad, next_page, ranking, total) = collect_rankings(entries);
        match bad {
            Some(e) => {
                return Err(e);
            },
            None => {},
        }
        let ranking = match ranking {
            None => return Err(DecodeError::MissingField("ranking")),
            Some(us) => us,
        };
        let total = match decode_u32(total, "total") {
            Ok(t) => t,
            Err(e) => return Err(e),
        };
        Ok(Rankings { mode, next_page, ranking, ranking_type: kind, total })
    }

    /// The request for the next page: the same mode and kind at the page the
    /// cursor named, or `None` when there are no more pages. Nothing is sent
    /// here; the page itself is left as it is.
    pub fn get_next(&self) -> (r: Option<RankingsRequest>)
        ensures
            r == match self.next_page {
                None => None,
                Some(p) => Some(RankingsRequest { mode: self.mode, kind: self.ranking_type, page: p }),
            },
    {
        match self.next_page {
            None => None,
            Some(page) => Some(RankingsRequest { mode: self.mode, kind: self.ranking_type, page }),
        }
    }
}

/// The totals of one country.
#[derive(Debug, PartialEq)]
pub struct CountryRanking {
    /// Active user count.
    pub active_users: u32,
    /// Country name.
    pub country: String,
    pub country_code: String,
    /// Summed play count of all users.
    pub playcount: u64,
    /// Summed performance points of all users, as written on the wire.
    pub pp: Number,
    /// Summed ranked score of all users.
    pub ranked_score: u64,
}

/// A request for one page of the country ranking.
#[derive(Clone, Copy, Debug, PartialEq, Eq, Structural)]
pub struct CountryRankingsRequest {
    pub mode: GameMode,
    pub page: u32,
}

/// One page of the country ranking.
#[derive(Debug, PartialEq)]
pub struct CountryRankings {
    /// The next page, if there is one.
    pub next_page: Option<u32>,
    /// Countries ordered by performance points, descending.
    pub ranking: Vec<CountryRanking>,
    /// Number of countries.
    pub total: u32,
}


impl CountryRankings {
    /// Decodes one page of the country ranking.
    pub fn decode(j: Json) -> (r: Result<CountryRankings, DecodeError>)
        ensures
            match r {
                Ok(p) => decode_country_rankings_spec(j) == Ok::<(Option<u32>, Seq<CountryRanking>, u32), DecodeError>((p.next_page, p.ranking@, p.total)),
                Err(e) => decode_country_rankings_spec(j) == Err::<(Option<u32>, Seq<CountryRanking>, u32), DecodeError>(e),
            },
    {
        let entries = match j {
            Json::Obj(m) => m,
            _ => return Err(DecodeError::TypeMismatch("CountryRankings")),
        };
        let (bad, next_page, ranking, total) = collect_country_rankings(entries);
        match bad {
            Some(e) => {
                return Err(e);
            },
            None => {},
        }
        let ranking = match ranking {
            None => return Err(DecodeError::MissingField("ranking")),
            Some(cs) => cs,
        };
        let total = match decode_u32(total, "total") {
            Ok(t) => t,
            Err(e) => return Err(e),
        };
        Ok(CountryRankings { next_page, ranking, total })
    }

    /// The request for the next page in `mode`, or `None` when there are no
    /// more pages.
    pub fn get_next(&self, mode: GameMode) -> (r: Option<CountryRankingsRequest>)
        ensures
            r == match self.next_page {
                None => None,
                Some(p) => Some(CountryRankingsRequest { mode, page: p }),
            },
    {
        match self.next_page {
            None => None,
            Some(page) => Some(CountryRankingsRequest { mode, page }),
        }
    }
}

/// The details of a spotlight. Dates are kept as their text.
#[derive(Debug)]
pub struct Spotlight {
    pub end_date: String,
    /// Whether the spotlight has a separate ranking for each mode.
    pub mode_specific: bool,
    pub name: String,
    /// Number of participants; only given when one spotlight is viewed.
    pub participant_count: Option<u32>,
    pub spotlight_id: u32,
    pub spotlight_type: String,
    pub start_date: String,
}

impl PartialEq for Spotlight {
    /// Spotlights are the same when their id and dates are.
    fn eq(&self, other: &Spotlight) -> (r: bool) {
        self.spotlight_id == other.spotlight_id && self.start_date == other.start_date
            && self.end_date == other.end_date
    }
}

impl vstd::std_specs::cmp::PartialEqSpecImpl for Spotlight {
    open spec fn obeys_eq_spec() -> bool {
        true
    }

    open spec fn eq_spec(&self, other: &Spotlight) -> bool {
        self.spotlight_id == other.spotlight_id && self.start_date@ == other.start_date@
            && self.end_date@ == other.end_date@
    }
}

/// The beatmap chart of a spotlight.
#[derive(Debug, PartialEq)]
pub struct ChartRankings {
    /// The beatmap sets of the spotlight, as the values on the wire.
    pub mapsets: Vec<Json>,
    /// Entries ordered by score, descending.
    pub ranking: Vec<UserCompact>,
    pub spotlight: Spotlight,
}

/// A decoded list of countries preceded by those decoded before.
pub open spec fn prepend_countries(d: Seq<CountryRanking>, r: Result<Seq<CountryRanking>, DecodeError>) -> Result<Seq<CountryRanking>, DecodeError> {
    match r {
        Ok(s) => Ok(d + s),
        Err(e) => Err(e),
    }
}

/// The countries of a ranking page, in order; the first country that fails decides
/// the error.
pub open spec fn decode_countries_spec(items: Seq<Json>) -> Result<Seq<CountryRanking>, DecodeError>
    decreases items.len(),
{
    if items.len() == 0 {
        Ok(Seq::empty())
    } else {
        match decode_country_ranking_spec(items[0]) {
            Err(e) => Err(e),
            Ok(u) => prepend_countries(seq![u], decode_countries_spec(items.drop_first())),
        }
    }
}

pub open spec fn decode_country_vec_spec(v: Json) -> Result<Seq<CountryRanking>, DecodeError> {
    match v {
        Json::Arr(a) => decode_countries_spec(a@),
        _ => Err(DecodeError::TypeMismatch("ranking")),
    }
}

/// Decodes the array of country totals, keeping their order.
pub fn decode_country_vec(v: Json) -> (r: Result<Vec<CountryRanking>, DecodeError>)
    ensures
        match r {
            Ok(us) => decode_country_vec_spec(v) == Ok::<Seq<CountryRanking>, DecodeError>(us@),
            Err(e) => decode_country_vec_spec(v) == Err::<Seq<CountryRanking>, DecodeError>(e),
        },
{
    let items = match v {
        Json::Arr(a) => a,
        _ => return Err(DecodeError::TypeMismatch("ranking")),
    };
    let ghost all = items@;
    let mut countries: Vec<CountryRanking> = Vec::with_capacity(items.len());
    let mut rest = items;
    proof {
        assert(countries@ + Seq::<CountryRanking>::empty() =~= countries@);
    }
    while rest.len() > 0
        invariant
            decode_country_vec_spec(v) == decode_countries_spec(all),
            decode_countries_spec(all) == prepend_countries(countries@, decode_countries_spec(rest@)),
        decreases rest.len(),
    {
        let ghost before = rest@;
        let item = rest.remove(0);
        proof {
            assert(rest@ =~= before.drop_first());
        }
        match decode_country_ranking(item) {
            Ok(c) => {
                proof {
                    match decode_countries_spec(rest@) {
                        Ok(s) => {
                            assert(countries@ + (seq![c] + s) =~= countries@.push(c) + s);
                        },
                        Err(_) => {},
                    }
                }
                countries.push(c);
            },
            Err(e) => {
                proof {
                    assert(decode_countries_spec(before) == Err::<Seq<CountryRanking>, DecodeError>(e));
                }
                return Err(e);
            },
        }
    }
    proof {
        assert(countries@ + Seq::<CountryRanking>::empty() =~= countries@);
    }
    Ok(countries)
}

/// Why a value present under a key of a country ranking page is rejected.
pub open spec fn country_rankings_member_error(i: int, v: Json) -> Option<DecodeError> {
    if i == 0 {
        match page_cursor_spec(Some(v)) {
            Err(e) => Some(e),
            Ok(_) => None,
        }
    } else if i == 1 {
        match decode_country_vec_spec(v) {
            Err(e) => Some(e),
            Ok(_) => None,
        }
    } else if i == 2 {
        uint_error(Some(v), "total", u32::MAX as u64)
    } else {
        None
    }
}

pub open spec fn country_rankings_checker() -> spec_fn(int, Json) -> Option<DecodeError> {
    |i: int, v: Json| country_rankings_member_error(i, v)
}

/// The members of a country ranking page: the first rejected value under a known
/// key, in member order; the cursor and the countries decoded from their last
/// members; and the last `total` member.
fn collect_country_rankings(entries: Vec<(String, Json)>) -> (r: (Option<DecodeError>, Option<u32>, Option<Vec<CountryRanking>>, Option<Json>))
    ensures
        r.0 == first_bad(entries@, rankings_classifier(), country_rankings_checker()),
        r.0 is None ==> page_cursor_spec(last_with(entries@, rankings_classifier(), 0)) == Ok::<Option<u32>, DecodeError>(r.1),
        r.0 is None ==> match last_with(entries@, rankings_classifier(), 1) {
            None => r.2 is None,
            Some(v) => r.2 matches Some(cs) && decode_country_vec_spec(v) == Ok::<Seq<CountryRanking>, DecodeError>(cs@),
        },
        r.3 == last_with(entries@, rankings_classifier(), 2),
{
    let ghost all = entries@;
    let mut bad: Option<DecodeError> = None;
    let mut cursor: Option<u32> = None;
    let mut cursor_seen = false;
    let ghost mut cursor_raw = Json::Null;
    let mut ranking: Option<Vec<CountryRanking>> = None;
    let mut ranking_seen = false;
    let ghost mut ranking_raw = Json::Null;
    let mut total: Option<Json> = None;
    let mut rest = entries;
    while rest.len() > 0
        invariant
            all == entries@,
            first_bad(all, rankings_classifier(), country_rankings_checker()) == match first_bad(rest@, rankings_classifier(), country_rankings_checker()) {
                Some(e) => Some(e),
                None => bad,
            },
            !cursor_seen ==> cursor is None && last_with(all, rankings_classifier(), 0) == last_with(rest@, rankings_classifier(), 0),
            cursor_seen ==> last_with(all, rankings_classifier(), 0) == Some(cursor_raw),
            cursor_seen ==> match page_cursor_spec(Some(cursor_raw)) {
                Ok(c) => cursor == c,
                Err(_) => bad is Some,
            },
            !ranking_seen ==> ranking is None && last_with(all, rankings_classifier(), 1) == last_with(rest@, rankings_classifier(), 1),
            ranking_seen ==> last_with(all, rankings_classifier(), 1) == Some(ranking_raw),
            ranking_seen ==> match decode_country_vec_spec(ranking_raw) {
                Ok(s) => ranking matches Some(cs) && cs@ == s,
                Err(_) => bad is Some,
            },
            last_with(all, rankings_classifier(), 2) == match total {
                Some(v) => Some(v),
                None => last_with(rest@, rankings_classifier(), 2),
            },
        decreases rest.len(),
    {
        let ghost before = rest@;
        let (k, v) = rest.pop().unwrap();
        proof {
            assert(before == rest@.push((k, v)));
            lemma_last_with_push(rest@, (k, v), rankings_classifier());
            lemma_first_bad_push(rest@, (k, v), rankings_classifier(), country_rankings_checker());
        }
        match classify_rankings_key(&k) {
            Some(i) => {
                let ghost raw = v;
                if i == 0 {
                    match decode_rankings_cursor(Some(v)) {
                        Ok(c) => {
                            if !cursor_seen {
                                cursor = c;
                            }
                        },
                        Err(e) => {
                            bad = Some(e);
                        },
                    }
                    if !cursor_seen {
                        proof {
                            cursor_raw = raw;
                        }
                        cursor_seen = true;
                    }
                } else if i == 1 {
                    match decode_country_vec(v) {
                        Ok(cs) => {
                            if !ranking_seen {
                                ranking = Some(cs);
                            }
                        },
                        Err(e) => {
                            bad = Some(e);
                        },
                    }
                    if !ranking_seen {
                        proof {
                            ranking_raw = raw;
                        }
                        ranking_seen = true;
                    }
                } else {
                    match check_uint(&v, "total", u32::MAX as u64) {
                        Some(e) => {
                            bad = Some(e);
                        },
                        None => {},
                    }
                    if total.is_none() {
                        total = Some(v);
                    }
                }
            },
            None => {},
        }
    }
    (bad, cursor, ranking, total)
}

/// What a country ranking page decodes to: its next page, its entries and its
/// total. The first rejected value under a known key, in member order, is
/// reported first; then a missing `ranking` or `total`.
pub open spec fn decode_country_rankings_spec(j: Json) -> Result<(Option<u32>, Seq<CountryRanking>, u32), DecodeError> {
    match j {
        Json::Obj(m) => if first_bad(m@, rankings_classifier(), country_rankings_checker()) is Some {
            Err(first_bad(m@, rankings_classifier(), country_rankings_checker())->Some_0)
        } else {
            let c = page_cursor_spec(last_with(m@, rankings_classifier(), 0));
            let r = match last_with(m@, rankings_classifier(), 1) {
                None => Err(DecodeError::MissingField("ranking")),
                Some(v) => decode_country_vec_spec(v),
            };
            let t = last_with(m@, rankings_classifier(), 2);
            if c is Err {
                Err(c->Err_0)
            } else if r is Err {
                Err(r->Err_0)
            } else if uint_error(t, "total", u32::MAX as u64) is Some {
                Err(uint_error(t, "total", u32::MAX as u64)->Some_0)
            } else {
                Ok((c->Ok_0, r->Ok_0, uint_value(t) as u32))
            }
        },
        _ => Err(DecodeError::TypeMismatch("CountryRankings")),
    }
}

} // verus!
