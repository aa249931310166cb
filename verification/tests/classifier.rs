use marginfi_cli::command::{
    BankCommand, BankOperationalStateArg, Command, GroupCommand, ProfileCommand,
};
use marginfi_cli::config::{Cluster, Pubkey};
use marginfi_cli::dispatch::{needs_resolution, requires_consent};

fn key(tag: u8) -> Pubkey {
    let mut bytes = [0u8; 32];
    bytes[0] = tag;
    Pubkey { bytes }
}

fn group(subcmd: GroupCommand) -> Command {
    Command::Group { subcmd }
}

fn bank(subcmd: BankCommand) -> Command {
    Command::Bank { subcmd }
}

#[test]
fn read_only_group_commands_are_exempt() {
    assert!(!requires_consent(&group(GroupCommand::Get {
        marginfi_group: None
    })));
    assert!(!requires_consent(&group(GroupCommand::Get {
        marginfi_group: Some(key(7))
    })));
    assert!(!requires_consent(&group(GroupCommand::GetAll {})));
}

#[test]
fn read_only_bank_commands_are_exempt() {
    assert!(!requires_consent(&bank(BankCommand::Get { bank: None })));
    assert!(!requires_consent(&bank(BankCommand::Get {
        bank: Some(key(3))
    })));
    assert!(!requires_consent(&bank(BankCommand::GetAll {
        marginfi_group: None
    })));
    assert!(!requires_consent(&bank(BankCommand::GetAll {
        marginfi_group: Some(key(4))
    })));
}

#[test]
fn mutating_group_commands_require_consent_whatever_the_payload() {
    assert!(requires_consent(&group(GroupCommand::Create {
        admin: None,
        override_existing_profile_group: false,
    })));
    assert!(requires_consent(&group(GroupCommand::Create {
        admin: Some(key(1)),
        override_existing_profile_group: true,
    })));
    assert!(requires_consent(&group(GroupCommand::Update { admin: None })));
    assert!(requires_consent(&group(GroupCommand::Update {
        admin: Some(key(2))
    })));
    assert!(requires_consent(&group(GroupCommand::AddBank {
        bank_mint: key(5),
        deposit_weight_init: 0,
        deposit_weight_maint: 0,
        liability_weight_init: 0,
        liability_weight_maint: 0,
        max_capacity: 0,
        pyth_oracle: key(6),
        optimal_utilization_rate: 0,
        plateau_interest_rate: 0,
        max_interest_rate: 0,
        insurance_fee_fixed_apr: 0,
        insurance_ir_fee: 0,
        protocol_fixed_fee_apr: 0,
        protocol_ir_fee: 0,
    })));
}

#[test]
fn mutating_bank_commands_require_consent_whatever_the_payload() {
    assert!(requires_consent(&bank(BankCommand::Update {
        bank_pk: key(8),
        deposit_weight_init: None,
        deposit_weight_maint: None,
        liability_weight_init: None,
        liability_weight_maint: None,
        max_capacity: None,
        operational_state: None,
    })));
    assert!(requires_consent(&bank(BankCommand::Update {
        bank_pk: key(8),
        deposit_weight_init: None,
        deposit_weight_maint: None,
        liability_weight_init: None,
        liability_weight_maint: None,
        max_capacity: Some(1),
        operational_state: Some(BankOperationalStateArg::Paused),
    })));
}

#[test]
fn profile_commands_never_go_through_the_gate() {
    assert!(!requires_consent(&Command::Profile {
        subcmd: ProfileCommand::Show
    }));
    assert!(!requires_consent(&Command::Profile {
        subcmd: ProfileCommand::List
    }));
    assert!(!requires_consent(&Command::Profile {
        subcmd: ProfileCommand::SetActive {
            name: "alice".to_string()
        }
    }));
    assert!(!requires_consent(&Command::Profile {
        subcmd: ProfileCommand::Create {
            name: "bob".to_string(),
            cluster: Cluster::Devnet,
            keypair_path: "/tmp/id.json".to_string(),
            rpc_url: "https://rpc.example".to_string(),
            program_id: None,
            commitment: None,
            group: None,
        }
    }));
}

#[test]
fn profile_commands_resolve_no_remote_config() {
    assert!(!needs_resolution(&Command::Profile {
        subcmd: ProfileCommand::List
    }));
    assert!(needs_resolution(&group(GroupCommand::GetAll {})));
    assert!(needs_resolution(&bank(BankCommand::Get { bank: None })));
}
