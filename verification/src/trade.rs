use vstd::prelude::*;

verus! {

/// The read-only calls of an escrow instance.
#[derive(Clone, Copy, Debug, PartialEq, Eq, Structural)]
pub enum QueryMsg {
    State {},
}

/// Lifecycle of one escrowed trade, the event source of the ledger.
#[derive(Clone, Copy, Debug, PartialEq, Eq, Structural)]
pub enum TradeState {
    Canceled,
    Closed,
    Created,
    EscrowFunded,
}

} // verus!
