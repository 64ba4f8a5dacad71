//! Classification of a status-query outcome.
//!
//! One query-protocol exchange either yields the server's live metadata or
//! nothing. Getting nothing — no listener, a dropped datagram, a malformed
//! response — is a normal operating condition, mapped to an offline status
//! with fixed sentinel values, never to an error.
use vstd::prelude::*;
use vstd::string::*;

verus! {

/// Live status of the game server, computed per query and then discarded.
pub struct ServerStatus {
    pub online: bool,
    pub name: String,
    pub map: String,
    pub players: u8,
    pub max_players: u8,
    pub game: String,
}

/// What a successful query-protocol exchange reports.
pub struct QueryReply {
    pub name: String,
    pub map: String,
    pub players: u8,
    pub max_players: u8,
    pub game: String,
}

impl ServerStatus {
    /// Map a query outcome to a status: a reply means online with the
    /// reported metadata; no reply means offline with the sentinel values,
    /// not an error.
    pub fn from_query(reply: Option<QueryReply>) -> (s: ServerStatus)
        ensures
            match reply {
                Some(r) => {
                    &&& s.online
                    &&& s.name == r.name
                    &&& s.map == r.map
                    &&& s.players == r.players
                    &&& s.max_players == r.max_players
                    &&& s.game == r.game
                },
                None => {
                    &&& !s.online
                    &&& s.name@ == "Unknown"@
                    &&& s.map@ == "N/A"@
                    &&& s.game@ == "Unknown"@
                    &&& s.players == 0
                    &&& s.max_players == 0
                },
            },
    {
        match reply {
            Some(r) => ServerStatus {
                online: true,
                name: r.name,
                map: r.map,
                players: r.players,
                max_players: r.max_players,
                game: r.game,
            },
            None => ServerStatus {
                online: false,
                name: "Unknown".to_owned(),
                map: "N/A".to_owned(),
                players: 0,
                max_players: 0,
                game: "Unknown".to_owned(),
            },
        }
    }
}

} // verus!
