//! The command classifier and the dispatcher: which commands are gated
//! behind operator consent, and the fully resolved processor invocation
//! each command turns into.

use crate::bank::{BankConfigOpt, BankOperationalState};
use crate::command::{BankCommand, Command, GroupCommand, ProfileCommand};
use crate::config::{Cluster, CommitmentLevel, Config, Profile, Pubkey};
use vstd::prelude::*;

verus! {

/// Whether a command mutates authoritative on-chain state and must
/// therefore pass the consent gate. Exempt are exactly the four read-only
/// commands; profile commands mutate only the local store and are never
/// gated. Every variant is matched explicitly so that a new variant cannot
/// silently skip the consent check.
pub open spec fn spec_requires_consent(cmd: Command) -> bool {
    match cmd {
        Command::Group { subcmd } => match subcmd {
            GroupCommand::Get { .. } => false,
            GroupCommand::GetAll { .. } => false,
            GroupCommand::Create { .. } => true,
            GroupCommand::Update { .. } => true,
            GroupCommand::AddBank { .. } => true,
        },
        Command::Bank { subcmd } => match subcmd {
            BankCommand::Get { .. } => false,
            BankCommand::GetAll { .. } => false,
            BankCommand::Update { .. } => true,
        },
        Command::Profile { .. } => false,
    }
}

/// The command classifier: a pure function of the command's tag, never of
/// its payload.
pub fn requires_consent(cmd: &Command) -> (r: bool)
    ensures
        r == spec_requires_consent(*cmd),
{
    match cmd {
        Command::Group { subcmd } => match subcmd {
            GroupCommand::Get { .. } => false,
            GroupCommand::GetAll { .. } => false,
            GroupCommand::Create { .. } => true,
            GroupCommand::Update { .. } => true,
            GroupCommand::AddBank { .. } => true,
        },
        Command::Bank { subcmd } => match subcmd {
            BankCommand::Get { .. } => false,
            BankCommand::GetAll { .. } => false,
            BankCommand::Update { .. } => true,
        },
        Command::Profile { .. } => false,
    }
}

/// Whether the dispatcher resolves a remote configuration before handling
/// the command: it does for the group and bank families, never for profile
/// commands, which only touch the local store.
pub fn needs_resolution(cmd: &Command) -> (r: bool)
    ensures
        r == !(cmd matches Command::Profile { .. }),
{
    match cmd {
        Command::Group { .. } => true,
        Command::Bank { .. } => true,
        Command::Profile { .. } => false,
    }
}

/// Consent is demanded for exactly the mutating group and bank commands:
/// the four read-only commands and every profile command are exempt,
/// whatever their payloads.
pub proof fn lemma_consent_exactly_for_mutations(cmd: Command)
    ensures
        spec_requires_consent(cmd) <==> (cmd matches Command::Group {
            subcmd: GroupCommand::Create { .. },
        } || cmd matches Command::Group { subcmd: GroupCommand::Update { .. } }
            || cmd matches Command::Group { subcmd: GroupCommand::AddBank { .. } }
            || cmd matches Command::Bank { subcmd: BankCommand::Update { .. } }),
{
}

/// The read-only group commands never reach the consent gate, so they can
/// never prompt the operator: classification alone already exempts them.
pub proof fn lemma_reads_never_prompt(cmd: Command)
    requires
        cmd matches Command::Group { subcmd: GroupCommand::Get { .. } } || cmd matches Command::Group {
            subcmd: GroupCommand::GetAll { .. },
        } || cmd matches Command::Bank { subcmd: BankCommand::Get { .. } }
            || cmd matches Command::Bank { subcmd: BankCommand::GetAll { .. } },
    ensures
        !spec_requires_consent(cmd),
{
}

/// One fully resolved invocation of the external processor: the remote
/// operation to perform, with every argument typed, merged and converted.
/// Executing it is the driver's work; deciding it is this library's.
#[derive(Debug, PartialEq, Eq)]
pub enum ProcessorCall {
    GroupGet {
        config: Config,
        marginfi_group: Option<Pubkey>,
    },
    GroupGetAll {
        config: Config,
    },
    GroupCreate {
        config: Config,
        profile: Profile,
        admin: Option<Pubkey>,
        override_existing_profile_group: bool,
    },
    GroupConfigure {
        config: Config,
        profile: Profile,
        admin: Option<Pubkey>,
    },
    GroupAddBank {
        config: Config,
        profile: Profile,
        bank_mint: Pubkey,
        pyth_oracle: Pubkey,
        deposit_weight_init: u64,
        deposit_weight_maint: u64,
        liability_weight_init: u64,
        liability_weight_maint: u64,
        max_capacity: u64,
        optimal_utilization_rate: u64,
        plateau_interest_rate: u64,
        max_interest_rate: u64,
        insurance_fee_fixed_apr: u64,
        insurance_ir_fee: u64,
        protocol_fixed_fee_apr: u64,
        protocol_ir_fee: u64,
    },
    BankGet {
        config: Config,
        bank: Option<Pubkey>,
    },
    BankGetAll {
        config: Config,
        marginfi_group: Option<Pubkey>,
    },
    BankConfigure {
        config: Config,
        profile: Profile,
        bank_pk: Pubkey,
        bank_config_opt: BankConfigOpt,
    },
    CreateProfile {
        name: String,
        cluster: Cluster,
        keypair_path: String,
        rpc_url: String,
        program_id: Option<Pubkey>,
        commitment: Option<CommitmentLevel>,
        group: Option<Pubkey>,
    },
    ShowProfile,
    ListProfiles,
    SetProfile {
        name: String,
    },
    ConfigureProfile {
        name: String,
        cluster: Option<Cluster>,
        keypair_path: Option<String>,
        rpc_url: Option<String>,
        program_id: Option<Pubkey>,
        commitment: Option<CommitmentLevel>,
        group: Option<Pubkey>,
    },
}

/// The processor invocation a group command resolves to. A `Get` without an
/// explicit group falls back to the profile's default group.
pub open spec fn spec_plan_group(subcmd: GroupCommand, profile: Profile, config: Config) -> ProcessorCall {
    match subcmd {
        GroupCommand::Get { marginfi_group } => ProcessorCall::GroupGet {
            config,
            marginfi_group: match marginfi_group {
                Some(g) => Some(g),
                None => profile.marginfi_group,
            },
        },
        GroupCommand::GetAll {  } => ProcessorCall::GroupGetAll { config },
        GroupCommand::Create { admin, override_existing_profile_group } => ProcessorCall::GroupCreate {
            config,
            profile,
            admin,
            override_existing_profile_group,
        },
        GroupCommand::Update { admin } => ProcessorCall::GroupConfigure { config, profile, admin },
        GroupCommand::AddBank {
            bank_mint,
            deposit_weight_init,
            deposit_weight_maint,
            liability_weight_init,
            liability_weight_maint,
            max_capacity,
            pyth_oracle,
            optimal_utilization_rate,
            plateau_interest_rate,
            max_interest_rate,
            insurance_fee_fixed_apr,
            insurance_ir_fee,
            protocol_fixed_fee_apr,
            protocol_ir_fee,
        } => ProcessorCall::GroupAddBank {
            config,
            profile,
            bank_mint,
            pyth_oracle,
            deposit_weight_init,
            deposit_weight_maint,
            liability_weight_init,
            liability_weight_maint,
            max_capacity,
            optimal_utilization_rate,
            plateau_interest_rate,
            max_interest_rate,
            insurance_fee_fixed_apr,
            insurance_ir_fee,
            protocol_fixed_fee_apr,
            protocol_ir_fee,
        },
    }
}

/// Resolve a group command into its processor invocation. Runs after the
/// consent gate, which the caller must already have passed for the mutating
/// variants.
pub fn plan_group(subcmd: GroupCommand, profile: Profile, config: Config) -> (r: ProcessorCall)
    ensures
        r == spec_plan_group(subcmd, profile, config),
{
    match subcmd {
        GroupCommand::Get { marginfi_group } => ProcessorCall::GroupGet {
            config,
            marginfi_group: match marginfi_group {
                Some(g) => Some(g),
                None => profile.marginfi_group,
            },
        },
        GroupCommand::GetAll {  } => ProcessorCall::GroupGetAll { config },
        GroupCommand::Create { admin, override_existing_profile_group } => ProcessorCall::GroupCreate {
            config,
            profile,
            admin,
            override_existing_profile_group,
        },
        GroupCommand::Update { admin } => ProcessorCall::GroupConfigure { config, profile, admin },
        GroupCommand::AddBank {
            bank_mint,
            deposit_weight_init,
            deposit_weight_maint,
            liability_weight_init,
            liability_weight_maint,
            max_capacity,
            pyth_oracle,
            optimal_utilization_rate,
            plateau_interest_rate,
            max_interest_rate,
            insurance_fee_fixed_apr,
            insurance_ir_fee,
            protocol_fixed_fee_apr,
            protocol_ir_fee,
        } => ProcessorCall::GroupAddBank {
            config,
            profile,
            bank_mint,
            pyth_oracle,
            deposit_weight_init,
            deposit_weight_maint,
            liability_weight_init,
            liability_weight_maint,
            max_capacity,
            optimal_utilization_rate,
            plateau_interest_rate,
            max_interest_rate,
            insurance_fee_fixed_apr,
            insurance_ir_fee,
            protocol_fixed_fee_apr,
            protocol_ir_fee,
        },
    }
}

/// The partial bank update a `BankCommand::Update` payload denotes: every
/// given field is taken over unchanged, every absent field stays absent,
/// and the oracle is never set on this path.
pub open spec fn spec_bank_config_opt(
    deposit_weight_init: Option<crate::bank::WrappedI80F48>,
    deposit_weight_maint: Option<crate::bank::WrappedI80F48>,
    liability_weight_init: Option<crate::bank::WrappedI80F48>,
    liability_weight_maint: Option<crate::bank::WrappedI80F48>,
    max_capacity: Option<u64>,
    operational_state: Option<crate::command::BankOperationalStateArg>,
) -> BankConfigOpt {
    BankConfigOpt {
        deposit_weight_init,
        deposit_weight_maint,
        liability_weight_init,
        liability_weight_maint,
        max_capacity,
        operational_state: match operational_state {
            Some(a) => Some(crate::command::spec_state_of_arg(a)),
            None => None,
        },
        oracle: None,
    }
}

/// The processor invocation a bank command resolves to.
pub open spec fn spec_plan_bank(subcmd: BankCommand, profile: Profile, config: Config) -> ProcessorCall {
    match subcmd {
        BankCommand::Get { bank } => ProcessorCall::BankGet { config, bank },
        BankCommand::GetAll { marginfi_group } => ProcessorCall::BankGetAll { config, marginfi_group },
        BankCommand::Update {
            bank_pk,
            deposit_weight_init,
            deposit_weight_maint,
            liability_weight_init,
            liability_weight_maint,
            max_capacity,
            operational_state,
        } => ProcessorCall::BankConfigure {
            config,
            profile,
            bank_pk,
            bank_config_opt: spec_bank_config_opt(
                deposit_weight_init,
                deposit_weight_maint,
                liability_weight_init,
                liability_weight_maint,
                max_capacity,
                operational_state,
            ),
        },
    }
}

/// Resolve a bank command into its processor invocation. For an update,
/// the partial-update record is built field by field: present fields are
/// taken over, absent fields stay absent, and the oracle is never set.
pub fn plan_bank(subcmd: BankCommand, profile: Profile, config: Config) -> (r: ProcessorCall)
    ensures
        r == spec_plan_bank(subcmd, profile, config),
{
    match subcmd {
        BankCommand::Get { bank } => ProcessorCall::BankGet { config, bank },
        BankCommand::GetAll { marginfi_group } => ProcessorCall::BankGetAll { config, marginfi_group },
        BankCommand::Update {
            bank_pk,
            deposit_weight_init,
            deposit_weight_maint,
            liability_weight_init,
            liability_weight_maint,
            max_capacity,
            operational_state,
        } => ProcessorCall::BankConfigure {
            config,
            profile,
            bank_pk,
            bank_config_opt: BankConfigOpt {
                deposit_weight_init,
                deposit_weight_maint,
                liability_weight_init,
                liability_weight_maint,
                max_capacity,
                operational_state: match operational_state {
                    Some(a) => Some(BankOperationalState::from(a)),
                    None => None,
                },
                oracle: None,
            },
        },
    }
}

/// The processor invocation a profile command resolves to: a 1:1 forwarding
/// of the command's own fields, with no configuration resolution and no
/// consent gate on this path.
pub open spec fn spec_plan_profile(subcmd: ProfileCommand) -> ProcessorCall {
    match subcmd {
        ProfileCommand::Create { name, cluster, keypair_path, rpc_url, program_id, commitment, group } =>
            ProcessorCall::CreateProfile { name, cluster, keypair_path, rpc_url, program_id, commitment, group },
        ProfileCommand::Show => ProcessorCall::ShowProfile,
        ProfileCommand::List => ProcessorCall::ListProfiles,
        ProfileCommand::SetActive { name } => ProcessorCall::SetProfile { name },
        ProfileCommand::Update { name, cluster, keypair_path, rpc_url, program_id, commitment, group } =>
            ProcessorCall::ConfigureProfile { name, cluster, keypair_path, rpc_url, program_id, commitment, group },
    }
}

/// Resolve a profile command into its processor invocation.
pub fn plan_profile(subcmd: ProfileCommand) -> (r: ProcessorCall)
    ensures
        r == spec_plan_profile(subcmd),
{
    match subcmd {
        ProfileCommand::Create { name, cluster, keypair_path, rpc_url, program_id, commitment, group } =>
            ProcessorCall::CreateProfile { name, cluster, keypair_path, rpc_url, program_id, commitment, group },
        ProfileCommand::Show => ProcessorCall::ShowProfile,
        ProfileCommand::List => ProcessorCall::ListProfiles,
        ProfileCommand::SetActive { name } => ProcessorCall::SetProfile { name },
        ProfileCommand::Update { name, cluster, keypair_path, rpc_url, program_id, commitment, group } =>
            ProcessorCall::ConfigureProfile { name, cluster, keypair_path, rpc_url, program_id, commitment, group },
    }
}

/// A bank update sets exactly the fields the operator gave: each field of
/// the planned partial update equals the command's own field, an absent
/// weight stays absent with no default introduced, and the oracle field is
/// never set by this command path.
pub proof fn lemma_bank_update_sets_only_given_fields(
    profile: Profile,
    config: Config,
    bank_pk: Pubkey,
    deposit_weight_init: Option<crate::bank::WrappedI80F48>,
    deposit_weight_maint: Option<crate::bank::WrappedI80F48>,
    liability_weight_init: Option<crate::bank::WrappedI80F48>,
    liability_weight_maint: Option<crate::bank::WrappedI80F48>,
    max_capacity: Option<u64>,
    operational_state: Option<crate::command::BankOperationalStateArg>,
)
    ensures
        spec_plan_bank(
            BankCommand::Update {
                bank_pk,
                deposit_weight_init,
                deposit_weight_maint,
                liability_weight_init,
                liability_weight_maint,
                max_capacity,
                operational_state,
            },
            profile,
            config,
        ) matches ProcessorCall::BankConfigure { config: c, profile: p, bank_pk: k, bank_config_opt: b }
            && c == config && p == profile && k == bank_pk
            && b.deposit_weight_init == deposit_weight_init
            && b.deposit_weight_maint == deposit_weight_maint
            && b.liability_weight_init == liability_weight_init
            && b.liability_weight_maint == liability_weight_maint
            && b.max_capacity == max_capacity
            && (operational_state is None ==> b.operational_state is None)
            && (operational_state matches Some(a) ==> b.operational_state == Some(
                crate::command::spec_state_of_arg(a),
            ))
            && b.oracle is None,
{
}

} // verus!
