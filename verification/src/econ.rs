use vstd::prelude::*;

verus! {

/// A quantity of the chain's native token. Balances, fees and transferred
/// values are all token amounts; they are never negative.
pub type TokenAmount = u128;

} // verus!
