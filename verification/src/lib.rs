//! A small leaderboard library: score submissions are checked against a
//! salted integrity hash, stored with a server-side timestamp, and served
//! back as ranked queries — the ten best scores inside a time window, and
//! the rank a given score would hold there.

pub mod clock;
pub mod digits;
pub mod entry;
pub mod hashing;
pub mod laws;
pub mod ranking;
pub mod store;
pub mod text;
pub mod window;
