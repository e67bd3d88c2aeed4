//! The node-level listener that reports the largest accounts.

use vstd::prelude::*;

verus! {

use crate::basics::{AccountDetails, MicroAlgos, Round};

/// Tracks the accounts with the largest balances and the money in
/// circulation, per round.
#[derive(Debug)]
pub struct TopAccountListener {
    pub round: Round,
    pub online_circulation: MicroAlgos,
    pub total_circulation: MicroAlgos,
    pub accounts: Vec<AccountDetails>,
}

impl TopAccountListener {
    /// A listener before any round was observed: everything zero.
    pub fn new() -> (r: Self)
        ensures
            r.round == 0,
            r.online_circulation.0 == 0,
            r.total_circulation.0 == 0,
            r.accounts@.len() == 0,
    {
        TopAccountListener {
            round: 0,
            online_circulation: MicroAlgos(0),
            total_circulation: MicroAlgos(0),
            accounts: Vec::new(),
        }
    }
}

} // verus!
