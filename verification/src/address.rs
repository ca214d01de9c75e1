use vstd::prelude::*;

verus! {

/// Dense integer identifier of an actor, unique within a state tree and
/// assigned monotonically on creation.
pub type ActorID = u64;

/// Identifier of the distinguished actor that receives block rewards.
pub const REWARD_ACTOR_ID: ActorID = 2;

/// Identifier of the distinguished actor that receives all burnt funds.
pub const BURNT_FUNDS_ACTOR_ID: ActorID = 99;

/// An address is either the numeric identifier an actor was assigned on
/// creation, or a key (derived/public) address that the state tree binds to
/// at most one actor identifier.
#[derive(Clone, Copy, PartialEq, Eq, Structural, Debug)]
pub enum Address {
    Id(ActorID),
    Key(u64),
}

/// Address of the block-reward destination actor.
pub fn reward_actor_addr() -> (a: Address)
    ensures
        a == Address::Id(REWARD_ACTOR_ID),
{
    Address::Id(REWARD_ACTOR_ID)
}

/// Address of the burnt-funds destination actor.
pub fn burnt_funds_actor_addr() -> (a: Address)
    ensures
        a == Address::Id(BURNT_FUNDS_ACTOR_ID),
{
    Address::Id(BURNT_FUNDS_ACTOR_ID)
}

} // verus!
