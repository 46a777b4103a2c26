//! Showing the account of the deployer of a cluster.

use crate::cluster::{Cluster, ClusterView};
use crate::solana_cmd::{Command, CommandView};
use crate::text::{push_str, push_string, strings_view};
use crate::workflow::{command_outcome, lift, outcome_view, Error};
use crate::workspace::{workspace_command, DeployerProbe, Workspace, WorkspaceView};
use vstd::prelude::*;

verus! {

/// The query for the deployer's account, signed by the deployer.
pub open spec fn balance_command(w: WorkspaceView, cluster: ClusterView, probe: DeployerProbe) -> Result<
    CommandView,
    Error,
> {
    command_outcome(
        workspace_command(w, cluster, probe, seq!["account"@, w.deployer_kp_path(cluster)]),
    )
}

/// Builds the query for the deployer's account.
pub fn process(workspace: &Workspace, cluster: &Cluster, probe: DeployerProbe) -> (r: Result<
    Command,
    Error,
>)
    ensures
        outcome_view(r) == balance_command(workspace@, cluster@, probe),
{
    let mut args: Vec<String> = Vec::new();
    push_str(&mut args, "account");
    push_string(&mut args, workspace.get_deployer_kp_path(cluster));
    assert(strings_view(args@) =~= seq!["account"@, workspace@.deployer_kp_path(cluster@)]);
    lift(workspace.exec_deployer_command(cluster, probe, args))
}

} // verus!
