//! Transferring funds from the upgrade authority. Nothing is transferred
//! on the main network.

use crate::cluster::{Cluster, ClusterView};
use crate::solana_cmd::{signed, signed_command, Command, CommandView};
use crate::subcommands::upgrade_local::{resolve_authority, upgrade_authority};
use crate::text::{push_str, push_string, str_equal, strings_view};
use crate::workflow::{command_outcome, lift, outcome_view, Error};
use crate::workspace::{DeployerProbe, Workspace, WorkspaceView};
use vstd::prelude::*;
use vstd::string::StringExecFns;

verus! {

/// Who receives: `deployer` stands for the deployer keypair of the
/// cluster, anything else for itself.
pub open spec fn recipient(w: WorkspaceView, cluster: ClusterView, to_raw: Seq<char>) -> Seq<char> {
    if to_raw == "deployer"@ {
        w.deployer_kp_path(cluster)
    } else {
        to_raw
    }
}

/// The transfer of `amount` to `to_raw`, signed by the upgrade authority:
/// the keypair that the configuration names, else that of the deployer.
pub open spec fn transfer_command(
    w: WorkspaceView,
    cluster: ClusterView,
    probe: DeployerProbe,
    to_raw: Seq<char>,
    amount: Seq<char>,
) -> Result<CommandView, Error> {
    if cluster is Mainnet {
        Err(Error::MainnetSafetyViolation)
    } else {
        match upgrade_authority(w, cluster, probe, None) {
            Err(e) => Err(e),
            Ok(signer) => command_outcome(
                signed_command(
                    w,
                    cluster,
                    signer,
                    seq!["transfer"@, recipient(w, cluster, to_raw), amount],
                ),
            ),
        }
    }
}

/// Builds the transfer.
pub fn process(
    workspace: &Workspace,
    cluster: &Cluster,
    probe: DeployerProbe,
    to_raw: &str,
    amount: &str,
) -> (r: Result<Command, Error>)
    ensures
        outcome_view(r) == transfer_command(workspace@, cluster@, probe, to_raw@, amount@),
{
    if cluster.is_mainnet() {
        return Err(Error::MainnetSafetyViolation);
    }
    let signer = match resolve_authority(workspace, cluster, probe, &None) {
        Ok(signer) => signer,
        Err(e) => {
            return Err(e);
        },
    };
    let to = if str_equal(to_raw, "deployer") {
        workspace.get_deployer_kp_path(cluster)
    } else {
        String::from_str(to_raw)
    };
    let mut args: Vec<String> = Vec::new();
    push_str(&mut args, "transfer");
    push_string(&mut args, to);
    push_str(&mut args, amount);
    assert(strings_view(args@) =~= seq![
        "transfer"@,
        recipient(workspace@, cluster@, to_raw@),
        amount@,
    ]);
    lift(signed(workspace, cluster, signer.as_str(), args))
}

} // verus!
