use vstd::prelude::*;

verus! {

/// Which side of a listed offer the maker takes.
#[derive(Clone, Copy, Debug, PartialEq, Eq, Structural)]
pub enum OfferType {
    Buy,
    Sell,
}

impl OfferType {
    /// The side's display name, as the host prints it.
    pub fn label(&self) -> (r: String)
        ensures
            *self is Buy ==> r@ == "Buy"@,
            *self is Sell ==> r@ == "Sell"@,
    {
        match self {
            OfferType::Buy => "Buy".to_owned(),
            OfferType::Sell => "Sell".to_owned(),
        }
    }
}

/// Whether a listed offer accepts new trades.
#[derive(Clone, Copy, Debug, PartialEq, Eq, Structural)]
pub enum OfferState {
    Active,
    Paused,
}

} // verus!
