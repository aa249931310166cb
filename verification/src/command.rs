//! The typed command surface: one closed sum type per command group, the
//! top-level command, and the enumerated operational-state argument.

use crate::bank::{BankOperationalState, WrappedI80F48};
use crate::config::{Cluster, CommitmentLevel, GlobalOptions, Pubkey};
use vstd::prelude::*;

verus! {

/// One full invocation: the global overrides plus the selected command.
#[derive(Debug, PartialEq, Eq)]
pub struct Opts {
    pub cfg_override: GlobalOptions,
    pub command: Command,
}

/// The top-level command groups.
#[derive(Debug, PartialEq, Eq)]
pub enum Command {
    Group { subcmd: GroupCommand },
    Bank { subcmd: BankCommand },
    Profile { subcmd: ProfileCommand },
}

/// Commands against a lending group. The interest-rate and weight
/// parameters of `AddBank` are operator-supplied decimals that the core
/// never computes with; each is carried opaquely as the 64-bit encoding the
/// front end produced and is decoded again only when the processor is
/// invoked.
#[derive(Debug, PartialEq, Eq)]
pub enum GroupCommand {
    Get {
        marginfi_group: Option<Pubkey>,
    },
    GetAll {},
    Create {
        admin: Option<Pubkey>,
        override_existing_profile_group: bool,
    },
    Update {
        admin: Option<Pubkey>,
    },
    AddBank {
        bank_mint: Pubkey,
        deposit_weight_init: u64,
        deposit_weight_maint: u64,
        liability_weight_init: u64,
        liability_weight_maint: u64,
        max_capacity: u64,
        pyth_oracle: Pubkey,
        optimal_utilization_rate: u64,
        plateau_interest_rate: u64,
        max_interest_rate: u64,
        insurance_fee_fixed_apr: u64,
        insurance_ir_fee: u64,
        protocol_fixed_fee_apr: u64,
        protocol_ir_fee: u64,
    },
}

/// The operational state as it appears on the command line. The front end
/// converts the weight flags of `Update` to fixed point before the command
/// value is built, so an absent flag is still absent here and a present one
/// already carries the exact fixed-point image of the typed decimal.
#[derive(Clone, Copy, Debug, PartialEq, Eq, Structural)]
pub enum BankOperationalStateArg {
    Paused,
    Operational,
    ReduceOnly,
}

/// The domain state denoted by each argument variant: a 1:1 mapping.
pub open spec fn spec_state_of_arg(a: BankOperationalStateArg) -> BankOperationalState {
    match a {
        BankOperationalStateArg::Paused => BankOperationalState::Paused,
        BankOperationalStateArg::Operational => BankOperationalState::Operational,
        BankOperationalStateArg::ReduceOnly => BankOperationalState::ReduceOnly,
    }
}

impl From<BankOperationalStateArg> for BankOperationalState {
    fn from(a: BankOperationalStateArg) -> (r: Self)
        ensures
            r == spec_state_of_arg(a),
    {
        match a {
            BankOperationalStateArg::Paused => BankOperationalState::Paused,
            BankOperationalStateArg::Operational => BankOperationalState::Operational,
            BankOperationalStateArg::ReduceOnly => BankOperationalState::ReduceOnly,
        }
    }
}

impl vstd::std_specs::convert::FromSpecImpl<BankOperationalStateArg> for BankOperationalState {
    open spec fn obeys_from_spec() -> bool {
        true
    }

    open spec fn from_spec(a: BankOperationalStateArg) -> Self {
        spec_state_of_arg(a)
    }
}

/// Commands against a single bank.
#[derive(Debug, PartialEq, Eq)]
pub enum BankCommand {
    Get {
        bank: Option<Pubkey>,
    },
    GetAll {
        marginfi_group: Option<Pubkey>,
    },
    Update {
        bank_pk: Pubkey,
        deposit_weight_init: Option<WrappedI80F48>,
        deposit_weight_maint: Option<WrappedI80F48>,
        liability_weight_init: Option<WrappedI80F48>,
        liability_weight_maint: Option<WrappedI80F48>,
        max_capacity: Option<u64>,
        operational_state: Option<BankOperationalStateArg>,
    },
}

/// Commands against the local profile store. These touch no on-chain state:
/// they are dispatched without configuration resolution and without the
/// consent gate.
#[derive(Debug, PartialEq, Eq)]
pub enum ProfileCommand {
    Create {
        name: String,
        cluster: Cluster,
        keypair_path: String,
        rpc_url: String,
        program_id: Option<Pubkey>,
        commitment: Option<CommitmentLevel>,
        group: Option<Pubkey>,
    },
    Show,
    List,
    SetActive {
        name: String,
    },
    Update {
        name: String,
        cluster: Option<Cluster>,
        keypair_path: Option<String>,
        rpc_url: Option<String>,
        program_id: Option<Pubkey>,
        commitment: Option<CommitmentLevel>,
        group: Option<Pubkey>,
    },
}

} // verus!
