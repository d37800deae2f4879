//! Player resolution. The entity-graph and entitlement services are sharded by
//! *character* geid and reject the account JWT (`"No player Id was found in
//! metadata"`); the current-player reply swaps it for a player-scoped JWT
//! (+ geid).

use vstd::prelude::*;

use crate::error::Error;

verus! {

/// The active character's geid and its player-scoped JWT.
#[derive(Clone)]
pub struct PlayerSession {
    /// Player-scoped game JWT. Secret.
    pub jwt: String,
    /// The active character's geid — the sharding key.
    pub geid: u64,
}

/// The player record of the current-player reply.
#[derive(Debug, Clone, Copy, PartialEq, Eq, Structural)]
pub struct PlayerRecord {
    /// The character's geid.
    pub geid: u64,
}

/// The backend's reply to `GetCurrentPlayer`.
pub struct CurrentPlayerReply {
    /// The player record, if any.
    pub player: Option<PlayerRecord>,
    /// The player-scoped JWT; empty if none.
    pub jwt: String,
}

/// The reply names a current character: a player record with a non-zero
/// geid, and a non-empty JWT.
pub open spec fn has_current_player(reply: CurrentPlayerReply) -> bool {
    &&& reply.player matches Some(p) && p.geid != 0
    &&& reply.jwt@.len() > 0
}

/// A reply names a current character exactly when it has a player record
/// whose geid is not zero and its JWT is not empty.
pub proof fn law_current_player_needs_geid_and_jwt(reply: CurrentPlayerReply)
    ensures
        has_current_player(reply) <==> (reply.player is Some && reply.player.unwrap().geid != 0
            && reply.jwt@.len() != 0),
{
}

/// Resolve the current character from the `GetCurrentPlayer` reply. Returns
/// [`Error::NoCurrentPlayer`] if there is no player record (or its geid is 0)
/// or the JWT is empty.
pub fn current_player(reply: CurrentPlayerReply) -> (r: Result<PlayerSession, Error>)
    ensures
        has_current_player(reply) ==> (r matches Ok(p) && p.geid == reply.player.unwrap().geid
            && p.jwt == reply.jwt),
        !has_current_player(reply) ==> (r matches Err(e) && e is NoCurrentPlayer),
{
    let geid = match reply.player {
        Some(p) => if p.geid != 0 {
            Some(p.geid)
        } else {
            None
        },
        None => None,
    };
    match geid {
        Some(g) => if !reply.jwt.as_str().is_empty() {
            Ok(PlayerSession { jwt: reply.jwt, geid: g })
        } else {
            Err(Error::NoCurrentPlayer)
        },
        None => Err(Error::NoCurrentPlayer),
    }
}

} // verus!
