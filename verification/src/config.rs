//! Connection profiles, per-invocation overrides, and the effective
//! configuration derived by merging the two.

use vstd::prelude::*;

verus! {

/// A protocol account address: 32 raw key bytes. The core never inspects the
/// bytes; it only stores addresses and forwards them.
#[derive(Clone, Copy, Debug, PartialEq, Eq)]
pub struct Pubkey {
    pub bytes: [u8; 32],
}

/// The cluster a command is aimed at. `Custom` carries an RPC and a
/// websocket endpoint.
#[derive(Debug, PartialEq, Eq)]
pub enum Cluster {
    Testnet,
    Mainnet,
    Devnet,
    Localnet,
    Debug,
    Custom(String, String),
}

impl Clone for Cluster {
    fn clone(&self) -> (r: Self)
        ensures
            r == *self,
    {
        match self {
            Cluster::Testnet => Cluster::Testnet,
            Cluster::Mainnet => Cluster::Mainnet,
            Cluster::Devnet => Cluster::Devnet,
            Cluster::Localnet => Cluster::Localnet,
            Cluster::Debug => Cluster::Debug,
            Cluster::Custom(rpc, ws) => Cluster::Custom(rpc.clone(), ws.clone()),
        }
    }
}

/// Commitment level requested for remote reads and writes.
#[derive(Clone, Copy, Debug, PartialEq, Eq)]
pub enum CommitmentLevel {
    Processed,
    Confirmed,
    Finalized,
}

/// Overrides supplied on the command line for one invocation. An absent
/// field means "use the profile's value"; a present field always wins.
#[derive(Debug, PartialEq, Eq)]
pub struct GlobalOptions {
    pub cluster: Option<Cluster>,
    pub rpc_url: Option<String>,
    pub program_id: Option<Pubkey>,
    pub commitment: Option<CommitmentLevel>,
}

impl Clone for GlobalOptions {
    fn clone(&self) -> (r: Self)
        ensures
            r == *self,
    {
        GlobalOptions {
            cluster: match &self.cluster {
                Some(c) => Some(c.clone()),
                None => None,
            },
            rpc_url: match &self.rpc_url {
                Some(u) => Some(u.clone()),
                None => None,
            },
            program_id: self.program_id,
            commitment: self.commitment,
        }
    }
}

/// A stored, named connection profile. `name` doubles as the consent token
/// that a mutating command asks the operator to type back.
#[derive(Debug, PartialEq, Eq)]
pub struct Profile {
    pub name: String,
    pub cluster: Cluster,
    pub keypair_path: String,
    pub rpc_url: String,
    pub program_id: Pubkey,
    pub commitment: CommitmentLevel,
    pub marginfi_group: Option<Pubkey>,
}

impl Clone for Profile {
    fn clone(&self) -> (r: Self)
        ensures
            r == *self,
    {
        Profile {
            name: self.name.clone(),
            cluster: self.cluster.clone(),
            keypair_path: self.keypair_path.clone(),
            rpc_url: self.rpc_url.clone(),
            program_id: self.program_id,
            commitment: self.commitment,
            marginfi_group: self.marginfi_group,
        }
    }
}

/// The effective configuration of one command execution: every connection
/// parameter fully resolved. Built fresh per invocation, never persisted.
#[derive(Debug, PartialEq, Eq)]
pub struct Config {
    pub cluster: Cluster,
    pub rpc_url: String,
    pub program_id: Pubkey,
    pub commitment: CommitmentLevel,
    pub keypair_path: String,
}

impl Clone for Config {
    fn clone(&self) -> (r: Self)
        ensures
            r == *self,
    {
        Config {
            cluster: self.cluster.clone(),
            rpc_url: self.rpc_url.clone(),
            program_id: self.program_id,
            commitment: self.commitment,
            keypair_path: self.keypair_path.clone(),
        }
    }
}

/// Failures of configuration resolution. Resolution fails closed: without a
/// stored profile no `Config` is ever produced.
#[derive(Clone, Copy, Debug, PartialEq, Eq)]
pub enum CliError {
    NoActiveProfile,
}

impl CliError {
    /// Human-readable rendering, for the driver's error reporting.
    pub fn message(&self) -> (r: &'static str)
        ensures
            r@ == "no active profile is set"@,
    {
        match self {
            CliError::NoActiveProfile => "no active profile is set",
        }
    }
}

/// The override value where one is present, the base value otherwise.
pub open spec fn override_or<T>(over: Option<T>, base: T) -> T {
    match over {
        Some(v) => v,
        None => base,
    }
}

/// The configuration a profile yields on its own, with no overrides.
pub open spec fn spec_profile_config(p: Profile) -> Config {
    Config {
        cluster: p.cluster,
        rpc_url: p.rpc_url,
        program_id: p.program_id,
        commitment: p.commitment,
        keypair_path: p.keypair_path,
    }
}

/// The field-independent merge of a profile with one invocation's overrides:
/// a present override wins, an absent one falls back to the profile. The
/// signer material is never overridable and always comes from the profile.
pub open spec fn spec_merged_config(p: Profile, o: GlobalOptions) -> Config {
    Config {
        cluster: override_or(o.cluster, p.cluster),
        rpc_url: override_or(o.rpc_url, p.rpc_url),
        program_id: override_or(o.program_id, p.program_id),
        commitment: override_or(o.commitment, p.commitment),
        keypair_path: p.keypair_path,
    }
}

impl Profile {
    /// Derive the effective configuration for one invocation from this
    /// profile and the overrides, when any were supplied.
    pub fn get_config(&self, overrides: Option<&GlobalOptions>) -> (c: Config)
        ensures
            overrides matches Some(o) ==> c == spec_merged_config(*self, *o),
            overrides is None ==> c == spec_profile_config(*self),
    {
        match overrides {
            None => Config {
                cluster: self.cluster.clone(),
                rpc_url: self.rpc_url.clone(),
                program_id: self.program_id,
                commitment: self.commitment,
                keypair_path: self.keypair_path.clone(),
            },
            Some(o) => Config {
                cluster: match &o.cluster {
                    Some(c) => c.clone(),
                    None => self.cluster.clone(),
                },
                rpc_url: match &o.rpc_url {
                    Some(u) => u.clone(),
                    None => self.rpc_url.clone(),
                },
                program_id: match o.program_id {
                    Some(k) => k,
                    None => self.program_id,
                },
                commitment: match o.commitment {
                    Some(l) => l,
                    None => self.commitment,
                },
                keypair_path: self.keypair_path.clone(),
            },
        }
    }
}

/// Resolve one invocation's configuration from the profile the store handed
/// back (`None` when the store has no active profile) and the command-line
/// overrides. Returns the profile itself, still needed later as the consent
/// token, alongside the derived configuration. Fails closed when no profile
/// exists.
pub fn resolve(loaded: Option<Profile>, overrides: &GlobalOptions) -> (r: Result<
    (Profile, Config),
    CliError,
>)
    ensures
        loaded is None <==> r == Err::<(Profile, Config), CliError>(CliError::NoActiveProfile),
        loaded matches Some(p) ==> r matches Ok(pc) && pc.0 == p && pc.1 == spec_merged_config(
            p,
            *overrides,
        ),
{
    match loaded {
        None => Err(CliError::NoActiveProfile),
        Some(p) => {
            let config = p.get_config(Some(overrides));
            Ok((p, config))
        },
    }
}

/// A present override always wins: every field of the merged configuration
/// whose override is present equals that override, never the profile value.
pub proof fn lemma_present_override_wins(p: Profile, o: GlobalOptions)
    ensures
        o.cluster matches Some(c) ==> spec_merged_config(p, o).cluster == c,
        o.rpc_url matches Some(u) ==> spec_merged_config(p, o).rpc_url == u,
        o.program_id matches Some(k) ==> spec_merged_config(p, o).program_id == k,
        o.commitment matches Some(l) ==> spec_merged_config(p, o).commitment == l,
{
}

/// An absent override falls back to the profile: every field of the merged
/// configuration whose override is absent equals the profile's field, and
/// the signer material always does.
pub proof fn lemma_absent_override_keeps_profile(p: Profile, o: GlobalOptions)
    ensures
        o.cluster is None ==> spec_merged_config(p, o).cluster == p.cluster,
        o.rpc_url is None ==> spec_merged_config(p, o).rpc_url == p.rpc_url,
        o.program_id is None ==> spec_merged_config(p, o).program_id == p.program_id,
        o.commitment is None ==> spec_merged_config(p, o).commitment == p.commitment,
        spec_merged_config(p, o).keypair_path == p.keypair_path,
{
}

/// Resolution is deterministic: the merge is a function of the profile and
/// the overrides alone, so resolving the same profile with the same
/// overrides twice yields identical configurations.
pub proof fn lemma_resolution_deterministic(p: Profile, o: GlobalOptions, c1: Config, c2: Config)
    requires
        c1 == spec_merged_config(p, o),
        c2 == spec_merged_config(p, o),
    ensures
        c1 == c2,
{
}

} // verus!
