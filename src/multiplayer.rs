use vstd::prelude::*;

verus! {

/// The decimal digits of a natural number, most significant first.
pub open spec fn decimal(n: nat) -> Seq<char>
    decreases n,
{
    if n < 10 {
        seq![digit_char(n)]
    } else {
        decimal(n / 10).push(digit_char(n % 10))
    }
}

pub open spec fn digit_char(d: nat) -> char {
    if d == 0 { '0' } else if d == 1 { '1' } else if d == 2 { '2' } else if d == 3 { '3' }
    else if d == 4 { '4' } else if d == 5 { '5' } else if d == 6 { '6' } else if d == 7 { '7' }
    else if d == 8 { '8' } else { '9' }
}

/// Relies on `u32`'s `Display` (via `ToString`): the plain decimal digits.
#[verifier::external_body]
fn decimal_text(n: u32) -> (r: String)
    ensures
        r@ == decimal(n as nat),
{
    n.to_string()
}

/// The endpoint of a multiplayer request, with its path parameters.
#[derive(Clone, Copy, Debug, PartialEq, Eq, Structural)]
pub enum Route {
    GetMultiplayerScore { room: u32, playlist: u32, score_id: u32 },
    GetMultiplayerScores { room: u32, playlist: u32 },
    GetMultiplayerUserHighScore { room: u32, playlist: u32, user_id: u32 },
}

/// A request ready for the transport: an endpoint and its query pairs, in
/// order.
#[derive(Debug, PartialEq)]
pub struct Request {
    pub route: Route,
    pub query: Vec<(String, String)>,
}

/// The query pairs of a request as character sequences.
pub open spec fn query_view(q: Seq<(String, String)>) -> Seq<(Seq<char>, Seq<char>)> {
    q.map_values(|p: (String, String)| (p.0@, p.1@))
}

/// One score of a multiplayer playlist item.
#[derive(Debug)]
pub struct GetMultiplayerScore {
    pub room: u32,
    pub playlist: u32,
    pub score_id: u32,
}

impl GetMultiplayerScore {
    pub fn new(room: u32, playlist: u32, score_id: u32) -> (r: Self)
        ensures
            r.room == room,
            r.playlist == playlist,
            r.score_id == score_id,
    {
        GetMultiplayerScore { room, playlist, score_id }
    }

    /// The request to send: the score's endpoint, no query.
    pub fn start(&self) -> (r: Request)
        ensures
            r.route == (Route::GetMultiplayerScore {
                room: self.room,
                playlist: self.playlist,
                score_id: self.score_id,
            }),
            r.query@.len() == 0,
    {
        Request {
            route: Route::GetMultiplayerScore {
                room: self.room,
                playlist: self.playlist,
                score_id: self.score_id,
            },
            query: Vec::new(),
        }
    }
}

/// The scores of a multiplayer playlist item.
#[derive(Debug)]
pub struct GetMultiplayerScores {
    pub room: u32,
    pub playlist: u32,
    pub limit: Option<u32>,
    pub sort: Option<&'static str>,
    pub cursor: Option<()>,
}

/// The query that a scores request sends: `limit` when set, then `sort` when
/// set.
pub open spec fn scores_query(limit: Option<u32>, sort: Option<&'static str>) -> Seq<(Seq<char>, Seq<char>)> {
    let l = match limit {
        Some(n) => seq![("limit"@, decimal(n as nat))],
        None => Seq::empty(),
    };
    match sort {
        Some(s) => l.push(("sort"@, s@)),
        None => l,
    }
}

impl GetMultiplayerScores {
    pub fn new(room: u32, playlist: u32) -> (r: Self)
        ensures
            r.room == room,
            r.playlist == playlist,
            r.limit is None,
            r.sort is None,
            r.cursor is None,
    {
        GetMultiplayerScores { room, playlist, limit: None, sort: None, cursor: None }
    }

    /// Asks for the scores in ascending order.
    pub fn sort_ascending(self) -> (r: Self)
        ensures
            r.sort == Some("sort_asc"),
            r.room == self.room,
            r.playlist == self.playlist,
            r.limit == self.limit,
            r.cursor == self.cursor,
    {
        let mut s = self;
        s.sort = Some("sort_asc");
        s
    }

    /// Asks for the scores in descending order.
    pub fn sort_descending(self) -> (r: Self)
        ensures
            r.sort == Some("sort_desc"),
            r.room == self.room,
            r.playlist == self.playlist,
            r.limit == self.limit,
            r.cursor == self.cursor,
    {
        let mut s = self;
        s.sort = Some("sort_desc");
        s
    }

    /// The request to send; the pending cursor is used up.
    pub fn start(&mut self) -> (r: Request)
        ensures
            r.route == (Route::GetMultiplayerScores { room: old(self).room, playlist: old(self).playlist }),
            query_view(r.query@) == scores_query(old(self).limit, old(self).sort),
            final(self).cursor is None,
            final(self).room == old(self).room,
            final(self).playlist == old(self).playlist,
            final(self).limit == old(self).limit,
            final(self).sort == old(self).sort,
    {
        let mut query: Vec<(String, String)> = Vec::new();
        if let Some(limit) = self.limit {
            query.push(("limit".to_string(), decimal_text(limit)));
        }
        if let Some(sort) = self.sort {
            query.push(("sort".to_string(), sort.to_string()));
        }
        self.cursor = None;
        let r = Request {
            route: Route::GetMultiplayerScores { room: self.room, playlist: self.playlist },
            query,
        };
        proof {
            assert(query_view(r.query@) =~= scores_query(old(self).limit, old(self).sort));
        }
        r
    }
}

/// A user's best score on a multiplayer playlist item.
#[derive(Debug)]
pub struct GetMultiplayerUserHighScore {
    pub room: u32,
    pub playlist: u32,
    pub user_id: u32,
}

impl GetMultiplayerUserHighScore {
    pub fn new(room: u32, playlist: u32, user_id: u32) -> (r: Self)
        ensures
            r.room == room,
            r.playlist == playlist,
            r.user_id == user_id,
    {
        GetMultiplayerUserHighScore { room, playlist, user_id }
    }

    /// The request to send: the user's endpoint, no query.
    pub fn start(&self) -> (r: Request)
        ensures
            r.route == (Route::GetMultiplayerUserHighScore {
                room: self.room,
                playlist: self.playlist,
                user_id: self.user_id,
            }),
            r.query@.len() == 0,
    {
        Request {
            route: Route::GetMultiplayerUserHighScore {
                room: self.room,
                playlist: self.playlist,
                user_id: self.user_id,
            },
            query: Vec::new(),
        }
    }
}

} // verus!
