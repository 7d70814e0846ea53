//! The admission policy: who may redeem an invite at all.
//!
//! The rules read the acting user and two numbers, and nothing else. They do
//! not depend on the kind of invite, and they are checked before the invite is
//! looked at.
use vstd::prelude::*;
use crate::model::{User, UserView};
use crate::result::Error;

verus! {

/// The policy's verdict on an actor who is a member of `servers` servers and
/// may be a member of at most `quota`:
/// a bot is refused as `IsBot`; anyone else who has used up the quota is
/// refused as `QuotaExceeded`; everyone else is eligible.
pub open spec fn eligible(actor: UserView, servers: nat, quota: nat) -> Result<(), Error> {
    if actor.bot {
        Err(Error::IsBot)
    } else if servers >= quota {
        Err(Error::QuotaExceeded)
    } else {
        Ok(())
    }
}

/// The first rule: the actor must not be a bot account.
pub fn refuse_bots(actor: &User) -> (verdict: Result<(), Error>)
    ensures
        verdict == if actor@.bot {
            Err::<(), Error>(Error::IsBot)
        } else {
            Ok::<(), Error>(())
        },
{
    if actor.bot {
        Err(Error::IsBot)
    } else {
        Ok(())
    }
}

/// The second rule: the actor must be under their server quota, so that one
/// more membership still fits.
pub fn within_quota(servers: usize, quota: usize) -> (verdict: Result<(), Error>)
    ensures
        verdict == if servers < quota {
            Ok::<(), Error>(())
        } else {
            Err::<(), Error>(Error::QuotaExceeded)
        },
{
    if servers < quota {
        Ok(())
    } else {
        Err(Error::QuotaExceeded)
    }
}

/// Both rules in their order: a bot over quota is refused as a bot.
pub fn check_eligible(actor: &User, servers: usize, quota: usize) -> (verdict: Result<(), Error>)
    ensures
        verdict == eligible(actor@, servers as nat, quota as nat),
{
    match refuse_bots(actor) {
        Err(error) => Err(error),
        Ok(()) => within_quota(servers, quota),
    }
}

} // verus!
