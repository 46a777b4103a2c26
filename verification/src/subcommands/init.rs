//! Initialising a workspace: a configuration, a deployer keypair for the
//! development, the test and the main network, and first funds for the
//! deployers off the main network.

use crate::cluster::{Cluster, ClusterView};
use crate::config::{Config, ConfigView, WithPath};
use crate::solana_cmd::{command_result_view, signed, signed_command, Command, CommandView};
use crate::text::{push_str, strings_view};
use crate::workspace::{Workspace, WorkspaceError, WorkspaceView};
use vstd::prelude::*;
use vstd::string::StringExecFns;

verus! {

/// The configuration of the workspace to be: the one that was found, or
/// the default one, which then has to be written.
pub fn process(path: String, discovered: Option<WithPath<Config>>) -> (r: (Workspace, bool))
    ensures
        r.0.path@ == path@,
        match discovered {
            Some(found) => r.0.cfg == found.spec_inner() && !r.1,
            None => r.0.cfg@ == (ConfigView {
                rpc_endpoints: crate::config::default_rpc(),
                upgrade_authority_keypair: None,
            }) && r.1,
        },
{
    match discovered {
        Some(found) => (Workspace { path, cfg: found.into_inner() }, false),
        None => (Workspace { path, cfg: Config::default() }, true),
    }
}

/// What is done about the deployer keypair of one cluster.
#[derive(Clone, Copy, Debug, PartialEq, Eq, Structural)]
pub enum KeypairStep {
    /// It exists: read it.
    Read,
    /// It is absent: generate it.
    Generate,
}

/// A keypair that exists is kept.
pub fn keypair_step(exists: bool) -> (r: KeypairStep)
    ensures
        exists ==> r == KeypairStep::Read,
        !exists ==> r == KeypairStep::Generate,
{
    if exists {
        KeypairStep::Read
    } else {
        KeypairStep::Generate
    }
}

/// The request that funds the deployer of `cluster` for the first time,
/// or nothing on the main network.
pub open spec fn first_airdrop(w: WorkspaceView, cluster: ClusterView) -> Option<
    Result<CommandView, WorkspaceError>,
> {
    if cluster is Mainnet {
        None
    } else {
        Some(
            signed_command(
                w,
                cluster,
                ".goki/deployers/"@ + crate::cluster::cluster_name(cluster) + ".json"@,
                seq!["airdrop"@, "1"@],
            ),
        )
    }
}

/// Builds the request that funds the deployer of `cluster` for the first
/// time.
pub fn airdrop(workspace: &Workspace, cluster: &Cluster) -> (r: Option<
    Result<Command, WorkspaceError>,
>)
    ensures
        match r {
            Some(command) => first_airdrop(workspace@, cluster@) == Some(
                command_result_view(command),
            ),
            None => first_airdrop(workspace@, cluster@) is None,
        },
{
    if cluster.is_mainnet() {
        return None;
    }
    let mut keypair = String::from_str(".goki/deployers/");
    keypair.append(cluster.name().as_str());
    keypair.append(".json");
    let mut args: Vec<String> = Vec::new();
    push_str(&mut args, "airdrop");
    push_str(&mut args, "1");
    assert(strings_view(args@) =~= seq!["airdrop"@, "1"@]);
    Some(signed(workspace, cluster, keypair.as_str(), args))
}

} // verus!
