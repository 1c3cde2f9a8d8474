//! Codec and pagination for the leaderboard, news and multiplayer result
//! envelopes of the osu! web API, over a plain JSON value model.

pub mod country;
pub mod cursor;
pub mod datetime;
pub mod json;
pub mod multiplayer;
pub mod news;
pub mod ranking;
pub mod user;
