//! Domain types for bank administration: the fixed-point weight
//! representation, the bank lifecycle state, and the partial-update record.

use vstd::prelude::*;

verus! {

/// A 128-bit signed fixed-point number with 48 fractional bits: the raw bits
/// encode the value `bits / 2^48`. Weights travel in this representation so
/// that the value later written on-chain suffers no rounding drift.
#[derive(Clone, Copy, Debug, PartialEq, Eq, Structural)]
pub struct WrappedI80F48 {
    pub bits: i128,
}

/// The administrative lifecycle state of a bank account.
#[derive(Clone, Copy, Debug, PartialEq, Eq, Structural)]
pub enum BankOperationalState {
    Paused,
    Operational,
    ReduceOnly,
}

/// A partial update of a bank's configuration: every field optional, and an
/// absent field must be left untouched by the processor.
#[derive(Clone, Copy, Debug, PartialEq, Eq)]
pub struct BankConfigOpt {
    pub deposit_weight_init: Option<WrappedI80F48>,
    pub deposit_weight_maint: Option<WrappedI80F48>,
    pub liability_weight_init: Option<WrappedI80F48>,
    pub liability_weight_maint: Option<WrappedI80F48>,
    pub max_capacity: Option<u64>,
    pub operational_state: Option<BankOperationalState>,
    pub oracle: Option<crate::config::Pubkey>,
}

} // verus!
