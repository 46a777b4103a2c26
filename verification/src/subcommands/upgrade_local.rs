//! Upgrading a program with a local signer.
//!
//! The location may be the key of a buffer that was uploaded before. Then
//! nothing is fetched and nothing is uploaded again: the upgrade is asked
//! for at once. Otherwise the artifact is fetched and written into a
//! fresh buffer, which is handed to the upgrade authority before the
//! upgrade.

use crate::cluster::{Cluster, ClusterView};
use crate::config::optional_view;
use crate::pubkey::{pubkey_decode, Pubkey};
use crate::workflow::{
    answers, lemma_no_work_after_abort, new_deployment, optional_key, step_view, Action,
    ActionView, Deployment, DeploymentIntentView, DeploymentView, Error, EventView, Operation,
    Stage,
};
use crate::workspace::{DeployerProbe, Workspace, WorkspaceView};
use vstd::prelude::*;

verus! {

/// The keypair that signs the upgrade: the one that the operator gave,
/// else the one that the configuration names, else that of the deployer
/// of the cluster. The main network takes none but the one that the
/// operator gave.
pub open spec fn upgrade_authority(
    w: WorkspaceView,
    cluster: ClusterView,
    probe: DeployerProbe,
    provided: Option<Seq<char>>,
) -> Result<Seq<char>, Error> {
    match provided {
        Some(keypair) => Ok(keypair),
        None => if cluster is Mainnet {
            Err(Error::MainnetSafetyViolation)
        } else {
            match w.cfg.upgrade_authority_keypair {
                Some(keypair) => Ok(keypair),
                None => match w.deployer_kp_path_if_exists(cluster, probe) {
                    Ok(keypair) => Ok(keypair),
                    Err(e) => Err(Error::Workspace(e)),
                },
            }
        },
    }
}

/// The first step of an upgrade, given the key that the location stands
/// for, if it stands for one.
pub open spec fn upgrade_start(
    w: WorkspaceView,
    cluster: ClusterView,
    probe: DeployerProbe,
    provided: Option<Seq<char>>,
    buffer_key: Option<Seq<u8>>,
    location_or_buffer: Seq<char>,
    program_id: Seq<char>,
) -> (DeploymentView, ActionView) {
    let s = new_deployment(Operation::Upgrade, cluster, probe, location_or_buffer, program_id);
    match upgrade_authority(w, cluster, probe, provided) {
        Err(e) => s.aborted(e),
        Ok(keypair) => {
            let resolved = DeploymentView {
                stage: Stage::AuthorityResolved,
                intent: DeploymentIntentView {
                    upgrade_authority: Some(keypair),
                    resolved_buffer_key: buffer_key,
                    ..s.intent
                },
                ..s
            };
            if buffer_key is Some {
                resolved.upgrade_program(w, Stage::AuthorityResolved)
            } else {
                resolved.fetch_artifact()
            }
        },
    }
}

/// Settles the keypair that signs the upgrade.
pub fn resolve_authority(
    workspace: &Workspace,
    cluster: &Cluster,
    probe: DeployerProbe,
    provided: &Option<String>,
) -> (r: Result<String, Error>)
    ensures
        match r {
            Ok(keypair) => upgrade_authority(
                workspace@,
                cluster@,
                probe,
                optional_view(*provided),
            ) == Ok::<Seq<char>, Error>(keypair@),
            Err(e) => upgrade_authority(workspace@, cluster@, probe, optional_view(*provided))
                == Err::<Seq<char>, Error>(e),
        },
{
    match provided {
        Some(keypair) => Ok(keypair.clone()),
        None => {
            if cluster.is_mainnet() {
                return Err(Error::MainnetSafetyViolation);
            }
            match &workspace.cfg.upgrade_authority_keypair {
                Some(keypair) => Ok(keypair.clone()),
                None => match workspace.get_deployer_kp_path_if_exists(cluster, probe) {
                    Ok(keypair) => Ok(keypair),
                    Err(e) => Err(Error::Workspace(e)),
                },
            }
        },
    }
}

/// Starts an upgrade, given the key that the location stands for, if it
/// stands for one.
pub fn begin(
    workspace: &Workspace,
    cluster: Cluster,
    probe: DeployerProbe,
    upgrade_authority_kp_provided: Option<String>,
    buffer_key: Option<Pubkey>,
    location_or_buffer: String,
    program_id: String,
) -> (r: (Deployment, Action))
    ensures
        step_view(r) == upgrade_start(
            workspace@,
            cluster@,
            probe,
            optional_view(upgrade_authority_kp_provided),
            optional_key(buffer_key),
            location_or_buffer@,
            program_id@,
        ),
{
    let authority = resolve_authority(workspace, &cluster, probe, &upgrade_authority_kp_provided);
    let s = Deployment::new(Operation::Upgrade, cluster, probe, location_or_buffer, program_id);
    match authority {
        Err(e) => s.abort(e),
        Ok(keypair) => {
            let mut s = s;
            s.stage = Stage::AuthorityResolved;
            s.intent.upgrade_authority = Some(keypair);
            s.intent.resolved_buffer_key = buffer_key;
            match buffer_key {
                Some(_) => s.upgrade_program(workspace, Stage::AuthorityResolved),
                None => s.fetch_artifact(),
            }
        },
    }
}

/// Starts the upgrade of the program `program_id` from the artifact at
/// `location_or_buffer`, or from the buffer whose key it is.
pub fn process(
    workspace: &Workspace,
    cluster: Cluster,
    probe: DeployerProbe,
    upgrade_authority_kp_provided: Option<String>,
    location_or_buffer: String,
    program_id: String,
) -> (r: (Deployment, Action))
    ensures
        step_view(r) == upgrade_start(
            workspace@,
            cluster@,
            probe,
            optional_view(upgrade_authority_kp_provided),
            pubkey_decode(location_or_buffer@),
            location_or_buffer@,
            program_id@,
        ),
{
    let buffer_key = Pubkey::from_str(location_or_buffer.as_str());
    begin(
        workspace,
        cluster,
        probe,
        upgrade_authority_kp_provided,
        buffer_key,
        location_or_buffer,
        program_id,
    )
}

/// An upgrade on the main network with no keypair given is refused as a
/// violation of mainnet safety at its first step, whatever the
/// configuration and the workspace hold, and the tool is never invoked
/// for it, whatever arrives afterwards.
pub proof fn lemma_mainnet_needs_authority(
    w: WorkspaceView,
    probe: DeployerProbe,
    buffer_key: Option<Seq<u8>>,
    location_or_buffer: Seq<char>,
    program_id: Seq<char>,
    events: Seq<EventView>,
)
    ensures
        ({
            let (s, first) = upgrade_start(
                w,
                ClusterView::Mainnet,
                probe,
                None,
                buffer_key,
                location_or_buffer,
                program_id,
            );
            &&& first == (ActionView::Abort { error: Error::MainnetSafetyViolation })
            &&& s.stage is Aborted
            &&& forall|i: int|
                0 <= i < events.len() ==> !(#[trigger] answers(s, w, events)[i]).invokes_tool()
        }),
{
    let (s, first) = upgrade_start(
        w,
        ClusterView::Mainnet,
        probe,
        None,
        buffer_key,
        location_or_buffer,
        program_id,
    );
    lemma_no_work_after_abort(s, w, events);
}

/// An upgrade that has only the upgrade itself left, or nothing.
pub open spec fn only_upgrade_left(s: DeploymentView) -> bool {
    s.operation is Upgrade && (s.waiting is Upgrade || s.waiting is Nothing)
}

/// With only the upgrade left, the machine never asks for more than the
/// end of the operation.
proof fn lemma_only_upgrade_left(s: DeploymentView, w: WorkspaceView, events: Seq<EventView>)
    requires
        only_upgrade_left(s),
    ensures
        answers(s, w, events).len() == events.len(),
        forall|i: int|
            0 <= i < events.len() ==> {
                let a = #[trigger] answers(s, w, events)[i];
                a is Finish || a is Abort
            },
    decreases events.len(),
{
    if events.len() > 0 {
        let (next, action) = s.step(w, events[0]);
        lemma_only_upgrade_left(next, w, events.drop_first());
    }
}

/// Where the location is the text of a public key, it is the key of a
/// buffer that was uploaded before, and the upgrade reuses that buffer.
/// Its first action is the upgrade itself, signed by the upgrade
/// authority, unless the authority or the address of the cluster is
/// wanting; when the tool has succeeded the operation is complete; and
/// whatever arrives, nothing is fetched, nothing is digested and no
/// buffer keypair is generated.
pub proof fn lemma_uploaded_buffer_is_reused(
    w: WorkspaceView,
    cluster: ClusterView,
    probe: DeployerProbe,
    provided: Option<Seq<char>>,
    location_or_buffer: Seq<char>,
    program_id: Seq<char>,
    events: Seq<EventView>,
)
    ensures
        pubkey_decode(location_or_buffer) matches Some(buffer_key) ==> ({
            let (s, first) = upgrade_start(
                w,
                cluster,
                probe,
                provided,
                pubkey_decode(location_or_buffer),
                location_or_buffer,
                program_id,
            );
            &&& match (upgrade_authority(w, cluster, probe, provided), w.cluster_url(cluster)) {
                (Ok(keypair), Some(url)) => first == (ActionView::Run {
                    command: crate::solana_cmd::solana_at(url, keypair).with_args(
                        crate::solana_cmd::upgrade_args(keypair, buffer_key, program_id),
                    ),
                }),
                _ => first is Abort,
            }
            &&& first is Run ==> s.step(w, EventView::Succeeded) == s.completed()
            &&& !first.prepares_buffer()
            &&& forall|i: int|
                0 <= i < events.len() ==> !(#[trigger] answers(s, w, events)[i]).prepares_buffer()
        }),
{
    if pubkey_decode(location_or_buffer) is Some {
        let (s, first) = upgrade_start(
            w,
            cluster,
            probe,
            provided,
            pubkey_decode(location_or_buffer),
            location_or_buffer,
            program_id,
        );
        lemma_only_upgrade_left(s, w, events);
    }
}

/// An upgrade starts with what is known in line with what is waited for.
pub proof fn lemma_start_is_wf(
    w: WorkspaceView,
    cluster: ClusterView,
    probe: DeployerProbe,
    provided: Option<Seq<char>>,
    buffer_key: Option<Seq<u8>>,
    location_or_buffer: Seq<char>,
    program_id: Seq<char>,
)
    ensures
        upgrade_start(
            w,
            cluster,
            probe,
            provided,
            buffer_key,
            location_or_buffer,
            program_id,
        ).0.wf(),
{
}

} // verus!
