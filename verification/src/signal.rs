use vstd::prelude::*;

verus! {

/// The tri-state availability reading produced by parsing one page fetch.
/// It is never stored across cycles; only its boolean projection
/// (`InStock` vs. not) is kept in a product's `last_status`.
#[derive(Clone, Copy, Debug, PartialEq, Eq, Structural)]
pub enum StockSignal {
    InStock,
    OutOfStock,
    Unknown,
}

} // verus!
