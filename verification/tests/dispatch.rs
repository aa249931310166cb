use fixed::types::I80F48;
use marginfi_cli::bank::{BankConfigOpt, BankOperationalState, WrappedI80F48};
use marginfi_cli::command::{
    BankCommand, BankOperationalStateArg, Command, GroupCommand, ProfileCommand,
};
use marginfi_cli::config::{Cluster, CommitmentLevel, Config, Profile, Pubkey};
use marginfi_cli::dispatch::{plan_bank, plan_group, plan_profile, ProcessorCall};

fn key(tag: u8) -> Pubkey {
    let mut bytes = [0u8; 32];
    bytes[0] = tag;
    Pubkey { bytes }
}

fn sample_profile() -> Profile {
    Profile {
        name: "alice".to_string(),
        cluster: Cluster::Mainnet,
        keypair_path: "/home/alice/id.json".to_string(),
        rpc_url: "https://rpc.profile.example".to_string(),
        program_id: key(1),
        commitment: CommitmentLevel::Confirmed,
        marginfi_group: Some(key(2)),
    }
}

fn sample_config() -> Config {
    sample_profile().get_config(None)
}

/// The fixed-point image of an `f32` weight flag, as the front end hands it
/// to the command builder.
fn weight_from_f32(x: f32) -> WrappedI80F48 {
    WrappedI80F48 {
        bits: I80F48::from_num(x).to_bits(),
    }
}

#[test]
fn weight_conversion_is_exact_for_one_and_a_half() {
    // 1.5 is exactly 3 * 2^47 in a representation with 48 fractional bits.
    let w = weight_from_f32(1.5_f32);
    assert_eq!(w.bits, 3_i128 << 47);
}

#[test]
fn some_weight_converts_and_none_stays_none() {
    let cmd = BankCommand::Update {
        bank_pk: key(8),
        deposit_weight_init: Some(weight_from_f32(1.5_f32)),
        deposit_weight_maint: None,
        liability_weight_init: None,
        liability_weight_maint: None,
        max_capacity: None,
        operational_state: None,
    };
    let call = plan_bank(cmd, sample_profile(), sample_config());
    match call {
        ProcessorCall::BankConfigure {
            bank_config_opt, ..
        } => {
            assert_eq!(
                bank_config_opt.deposit_weight_init,
                Some(WrappedI80F48 { bits: 3_i128 << 47 })
            );
            assert_eq!(bank_config_opt.deposit_weight_maint, None);
            assert_eq!(bank_config_opt.liability_weight_init, None);
            assert_eq!(bank_config_opt.liability_weight_maint, None);
        }
        other => panic!("expected a bank configure call, got {:?}", other),
    }
}

#[test]
fn bank_update_with_only_max_capacity_sets_nothing_else() {
    let cmd = BankCommand::Update {
        bank_pk: key(8),
        deposit_weight_init: None,
        deposit_weight_maint: None,
        liability_weight_init: None,
        liability_weight_maint: None,
        max_capacity: Some(1000),
        operational_state: None,
    };
    let call = plan_bank(cmd, sample_profile(), sample_config());
    assert_eq!(
        call,
        ProcessorCall::BankConfigure {
            config: sample_config(),
            profile: sample_profile(),
            bank_pk: key(8),
            bank_config_opt: BankConfigOpt {
                deposit_weight_init: None,
                deposit_weight_maint: None,
                liability_weight_init: None,
                liability_weight_maint: None,
                max_capacity: Some(1000),
                operational_state: None,
                oracle: None,
            },
        }
    );
}

#[test]
fn operational_state_converts_one_to_one() {
    let states = [
        (BankOperationalStateArg::Paused, BankOperationalState::Paused),
        (
            BankOperationalStateArg::Operational,
            BankOperationalState::Operational,
        ),
        (
            BankOperationalStateArg::ReduceOnly,
            BankOperationalState::ReduceOnly,
        ),
    ];
    for (arg, expected) in states {
        assert_eq!(BankOperationalState::from(arg), expected);
        let cmd = BankCommand::Update {
            bank_pk: key(8),
            deposit_weight_init: None,
            deposit_weight_maint: None,
            liability_weight_init: None,
            liability_weight_maint: None,
            max_capacity: None,
            operational_state: Some(arg),
        };
        match plan_bank(cmd, sample_profile(), sample_config()) {
            ProcessorCall::BankConfigure {
                bank_config_opt, ..
            } => assert_eq!(bank_config_opt.operational_state, Some(expected)),
            other => panic!("expected a bank configure call, got {:?}", other),
        }
    }
}

#[test]
fn group_get_defaults_to_the_profile_group() {
    let call = plan_group(
        GroupCommand::Get {
            marginfi_group: None,
        },
        sample_profile(),
        sample_config(),
    );
    assert_eq!(
        call,
        ProcessorCall::GroupGet {
            config: sample_config(),
            marginfi_group: Some(key(2)),
        }
    );
}

#[test]
fn group_get_prefers_the_explicit_group() {
    let call = plan_group(
        GroupCommand::Get {
            marginfi_group: Some(key(7)),
        },
        sample_profile(),
        sample_config(),
    );
    assert_eq!(
        call,
        ProcessorCall::GroupGet {
            config: sample_config(),
            marginfi_group: Some(key(7)),
        }
    );
}

#[test]
fn group_create_forwards_profile_and_flags() {
    let call = plan_group(
        GroupCommand::Create {
            admin: Some(key(3)),
            override_existing_profile_group: true,
        },
        sample_profile(),
        sample_config(),
    );
    assert_eq!(
        call,
        ProcessorCall::GroupCreate {
            config: sample_config(),
            profile: sample_profile(),
            admin: Some(key(3)),
            override_existing_profile_group: true,
        }
    );
}

#[test]
fn add_bank_forwards_every_parameter_unchanged() {
    let call = plan_group(
        GroupCommand::AddBank {
            bank_mint: key(5),
            deposit_weight_init: 11,
            deposit_weight_maint: 12,
            liability_weight_init: 13,
            liability_weight_maint: 14,
            max_capacity: 15,
            pyth_oracle: key(6),
            optimal_utilization_rate: 16,
            plateau_interest_rate: 17,
            max_interest_rate: 18,
            insurance_fee_fixed_apr: 19,
            insurance_ir_fee: 20,
            protocol_fixed_fee_apr: 21,
            protocol_ir_fee: 22,
        },
        sample_profile(),
        sample_config(),
    );
    assert_eq!(
        call,
        ProcessorCall::GroupAddBank {
            config: sample_config(),
            profile: sample_profile(),
            bank_mint: key(5),
            pyth_oracle: key(6),
            deposit_weight_init: 11,
            deposit_weight_maint: 12,
            liability_weight_init: 13,
            liability_weight_maint: 14,
            max_capacity: 15,
            optimal_utilization_rate: 16,
            plateau_interest_rate: 17,
            max_interest_rate: 18,
            insurance_fee_fixed_apr: 19,
            insurance_ir_fee: 20,
            protocol_fixed_fee_apr: 21,
            protocol_ir_fee: 22,
        }
    );
}

#[test]
fn profile_commands_forward_their_fields_one_to_one() {
    assert_eq!(plan_profile(ProfileCommand::Show), ProcessorCall::ShowProfile);
    assert_eq!(plan_profile(ProfileCommand::List), ProcessorCall::ListProfiles);
    assert_eq!(
        plan_profile(ProfileCommand::SetActive {
            name: "alice".to_string()
        }),
        ProcessorCall::SetProfile {
            name: "alice".to_string()
        }
    );
    assert_eq!(
        plan_profile(ProfileCommand::Create {
            name: "bob".to_string(),
            cluster: Cluster::Devnet,
            keypair_path: "/tmp/id.json".to_string(),
            rpc_url: "https://rpc.example".to_string(),
            program_id: Some(key(4)),
            commitment: Some(CommitmentLevel::Processed),
            group: None,
        }),
        ProcessorCall::CreateProfile {
            name: "bob".to_string(),
            cluster: Cluster::Devnet,
            keypair_path: "/tmp/id.json".to_string(),
            rpc_url: "https://rpc.example".to_string(),
            program_id: Some(key(4)),
            commitment: Some(CommitmentLevel::Processed),
            group: None,
        }
    );
    assert_eq!(
        plan_profile(ProfileCommand::Update {
            name: "bob".to_string(),
            cluster: None,
            keypair_path: None,
            rpc_url: Some("https://rpc.new.example".to_string()),
            program_id: None,
            commitment: None,
            group: Some(key(5)),
        }),
        ProcessorCall::ConfigureProfile {
            name: "bob".to_string(),
            cluster: None,
            keypair_path: None,
            rpc_url: Some("https://rpc.new.example".to_string()),
            program_id: None,
            commitment: None,
            group: Some(key(5)),
        }
    );
}

#[test]
fn get_all_commands_carry_only_the_config_and_filter() {
    assert_eq!(
        plan_group(GroupCommand::GetAll {}, sample_profile(), sample_config()),
        ProcessorCall::GroupGetAll {
            config: sample_config()
        }
    );
    assert_eq!(
        plan_bank(
            BankCommand::GetAll {
                marginfi_group: Some(key(2))
            },
            sample_profile(),
            sample_config()
        ),
        ProcessorCall::BankGetAll {
            config: sample_config(),
            marginfi_group: Some(key(2)),
        }
    );
    // A plain bank read forwards the optional bank address untouched.
    assert_eq!(
        plan_bank(
            BankCommand::Get { bank: None },
            sample_profile(),
            sample_config()
        ),
        ProcessorCall::BankGet {
            config: sample_config(),
            bank: None,
        }
    );
}
