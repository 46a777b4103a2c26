//! Asking a cluster for funds, some number of times with a pause between
//! the requests. The main network gives none.

use crate::cluster::{Cluster, ClusterView};
use crate::solana_cmd::{Command, CommandView};
use crate::text::{push_str, strings_view};
use crate::workflow::{command_outcome, error_message, lift, outcome_view, Error};
use crate::workspace::{workspace_command, DeployerProbe, Workspace, WorkspaceView};
use vstd::prelude::*;

verus! {

/// The request for `amount`, signed by the deployer of the cluster.
pub open spec fn airdrop_command(
    w: WorkspaceView,
    cluster: ClusterView,
    probe: DeployerProbe,
    amount: Seq<char>,
) -> Result<CommandView, Error> {
    if cluster is Mainnet {
        Err(Error::MainnetSafetyViolation)
    } else {
        command_outcome(workspace_command(w, cluster, probe, seq!["airdrop"@, amount]))
    }
}

/// Builds the request that is sent each time.
pub fn process(workspace: &Workspace, cluster: &Cluster, probe: DeployerProbe, amount: &str) -> (r:
    Result<Command, Error>)
    ensures
        outcome_view(r) == airdrop_command(workspace@, cluster@, probe, amount@),
{
    if cluster.is_mainnet() {
        return Err(Error::MainnetSafetyViolation);
    }
    let mut args: Vec<String> = Vec::new();
    push_str(&mut args, "airdrop");
    push_str(&mut args, amount);
    assert(strings_view(args@) =~= seq!["airdrop"@, amount@]);
    lift(workspace.exec_deployer_command(cluster, probe, args))
}

/// What the operator is told when funds are asked for or moved in vain.
pub open spec fn funding_error_message(
    w: WorkspaceView,
    cluster: ClusterView,
    probe: DeployerProbe,
    e: Error,
) -> Seq<char> {
    error_message(w, cluster, probe, "cannot request an airdrop from mainnet"@, e)
}

/// Tells the operator why no funds were asked for or moved.
pub fn explain(workspace: &Workspace, cluster: &Cluster, probe: DeployerProbe, e: Error) -> (r:
    String)
    ensures
        r@ == funding_error_message(workspace@, cluster@, probe, e),
{
    crate::workflow::explain(workspace, cluster, probe, "cannot request an airdrop from mainnet", e)
}

/// Whether the request number `i`, counted from 0, is made: there are
/// `iterations` requests in all.
pub open spec fn is_requested(i: u32, iterations: u32) -> bool {
    i < iterations
}

/// Says whether the request number `i` of `iterations` is made. A
/// request that failed counts like any other.
pub fn requested(i: u32, iterations: u32) -> (r: bool)
    ensures
        r == is_requested(i, iterations),
{
    i < iterations
}

/// What follows a request.
#[derive(Clone, Copy, Debug, PartialEq, Eq, Structural)]
pub enum Next {
    /// Wait for `millis` milliseconds, then send the next request.
    Pause { millis: u64 },
    /// Nothing: that was the last request.
    Done,
}

/// What follows the request number `i`, counted from 0, of `iterations`:
/// a pause after each but the last. Whether the request succeeded makes
/// no difference.
pub open spec fn after_request(i: u32, iterations: u32, interval: u64) -> Next {
    if i + 1 < iterations {
        Next::Pause { millis: interval }
    } else {
        Next::Done
    }
}

/// Says what follows the request number `i` of `iterations`.
pub fn next(i: u32, iterations: u32, interval: u64) -> (r: Next)
    ensures
        r == after_request(i, iterations, interval),
{
    if i < iterations && i != iterations - 1 {
        Next::Pause { millis: interval }
    } else {
        Next::Done
    }
}


/// A pause follows a request exactly when another request is made after
/// it.
pub proof fn lemma_pause_before_next_request(i: u32, iterations: u32, interval: u64)
    ensures
        after_request(i, iterations, interval) is Pause <==> i < u32::MAX && is_requested(
            (i + 1) as u32,
            iterations,
        ),
        after_request(i, iterations, interval) is Pause ==> after_request(i, iterations, interval)
            == (Next::Pause { millis: interval }),
{
}

} // verus!
