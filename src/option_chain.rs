use vstd::prelude::*;

verus! {

/// One deliverable of an option contract.
#[derive(Debug, Clone, PartialEq, Eq)]
pub struct OptionDeliverable {
    pub symbol: String,
    pub asset_type: String,
    pub deliverable_units: String,
    pub currency_type: String,
}

impl Default for OptionDeliverable {
    fn default() -> (r: OptionDeliverable)
        ensures
            r.symbol@.len() == 0,
            r.asset_type@.len() == 0,
            r.deliverable_units@.len() == 0,
            r.currency_type@.len() == 0,
    {
        OptionDeliverable {
            symbol: String::new(),
            asset_type: String::new(),
            deliverable_units: String::new(),
            currency_type: String::new(),
        }
    }
}

/// Strategy an option chain was requested for.
#[derive(Debug, Clone, Copy, PartialEq, Eq, Structural)]
pub enum Strategy {
    Single,
    Analytical,
    Covered,
    Vertical,
    Calendar,
    Strangle,
    Straddle,
    Butterfly,
    Condor,
    Diagonal,
    Collar,
    Roll,
}

impl Default for Strategy {
    fn default() -> (r: Strategy)
        ensures
            r == Strategy::Single,
    {
        Strategy::Single
    }
}

/// Exchange an underlying is listed on.
#[derive(Debug, Clone, Copy, PartialEq, Eq, Structural)]
pub enum ExchangeName {
    Ind,
    Ase,
    Nys,
    Nas,
    Nap,
    Pac,
    Opr,
    Bats,
}

impl Default for ExchangeName {
    fn default() -> (r: ExchangeName)
        ensures
            r == ExchangeName::Ind,
    {
        ExchangeName::Ind
    }
}

/// Side of an option contract.
#[derive(Debug, Clone, Copy, PartialEq, Eq, Structural)]
pub enum PutCall {
    Put,
    Call,
}

impl Default for PutCall {
    fn default() -> (r: PutCall)
        ensures
            r == PutCall::Put,
    {
        PutCall::Put
    }
}

} // verus!
