use vstd::prelude::*;

verus! {

/// The asset kinds a vault can hold: the native asset and three stablecoins.
/// The kind is fixed at creation and retained in the record.
#[derive(Clone, Copy, Debug, PartialEq, Eq, Structural)]
pub enum TokenType {
    SOL,
    USDC,
    USDT,
    JupUSD,
}

} // verus!
