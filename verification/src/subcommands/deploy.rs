//! Deploying a program for the first time: the upgrade authority is
//! settled first, then the artifact is fetched and deployed under the
//! program's keypair, and at last the program is handed to the authority.
//!
//! On the main network the authority has to be named: the deployer's own
//! key is no fallback there.

use crate::cluster::{Cluster, ClusterView};
use crate::pubkey::{pubkey_decode, pubkey_encode, Pubkey};
use crate::workflow::{
    answers, lemma_no_work_after_abort, new_deployment, step_view, Action, ActionView, Deployment,
    DeploymentIntentView, DeploymentView, Error, EventView, Operation, Stage, Waiting,
};
use crate::workspace::{DeployerProbe, Workspace, WorkspaceView};
use vstd::prelude::*;

verus! {

/// An upgrade authority as the operator gave it.
#[derive(Clone, Copy, Debug)]
pub enum ProvidedAuthority {
    /// None was given.
    Absent,
    /// One was given, and it is not the text of a public key.
    Invalid,
    /// This key was given.
    Key(Pubkey),
}

/// A `ProvidedAuthority` with the key taken as its bytes.
pub ghost enum ProvidedAuthorityView {
    Absent,
    Invalid,
    Key(Seq<u8>),
}

impl View for ProvidedAuthority {
    type V = ProvidedAuthorityView;

    open spec fn view(&self) -> ProvidedAuthorityView {
        match self {
            ProvidedAuthority::Absent => ProvidedAuthorityView::Absent,
            ProvidedAuthority::Invalid => ProvidedAuthorityView::Invalid,
            ProvidedAuthority::Key(key) => ProvidedAuthorityView::Key(key@),
        }
    }
}

/// What the text that the operator gave stands for.
pub open spec fn provided_authority(text: Option<Seq<char>>) -> ProvidedAuthorityView {
    match text {
        None => ProvidedAuthorityView::Absent,
        Some(text) => match pubkey_decode(text) {
            Some(key) => ProvidedAuthorityView::Key(key),
            None => ProvidedAuthorityView::Invalid,
        },
    }
}

/// The first step of a deployment. The deployer of the cluster has to be
/// there. A key that was given is the authority; where none was given the
/// deployer's own key is, which has to be read first, but not on the
/// main network.
pub open spec fn deploy_start(
    w: WorkspaceView,
    cluster: ClusterView,
    probe: DeployerProbe,
    authority: ProvidedAuthorityView,
    location: Seq<char>,
    program_kp_path: Seq<char>,
) -> (DeploymentView, ActionView) {
    let s = new_deployment(Operation::Deploy, cluster, probe, location, program_kp_path);
    match w.deployer_kp_path_if_exists(cluster, probe) {
        Err(e) => s.aborted(Error::Workspace(e)),
        Ok(deployer) => match authority {
            ProvidedAuthorityView::Key(key) => (
                DeploymentView {
                    stage: Stage::AuthorityResolved,
                    waiting: Waiting::ProgramKey,
                    intent: DeploymentIntentView {
                        upgrade_authority: Some(pubkey_encode(key)),
                        ..s.intent
                    },
                    ..s
                },
                ActionView::ReadPubkey { keypair: program_kp_path },
            ),
            ProvidedAuthorityView::Invalid => s.aborted(Error::InvalidPubkey),
            ProvidedAuthorityView::Absent => if cluster is Mainnet {
                s.aborted(Error::MainnetSafetyViolation)
            } else {
                (
                    DeploymentView { waiting: Waiting::DeployerKey, ..s },
                    ActionView::ReadPubkey { keypair: deployer },
                )
            },
        },
    }
}

/// Reads the authority that the operator gave, if any.
pub fn read_authority(text: &Option<String>) -> (r: ProvidedAuthority)
    ensures
        r@ == provided_authority(crate::config::optional_view(*text)),
{
    match text {
        None => ProvidedAuthority::Absent,
        Some(text) => match Pubkey::from_str(text.as_str()) {
            Some(key) => ProvidedAuthority::Key(key),
            None => ProvidedAuthority::Invalid,
        },
    }
}

/// Starts a deployment with the authority already read.
pub fn begin(
    workspace: &Workspace,
    cluster: Cluster,
    probe: DeployerProbe,
    authority: ProvidedAuthority,
    location: String,
    program_kp_path: String,
) -> (r: (Deployment, Action))
    ensures
        step_view(r) == deploy_start(
            workspace@,
            cluster@,
            probe,
            authority@,
            location@,
            program_kp_path@,
        ),
{
    let deployer = workspace.get_deployer_kp_path_if_exists(&cluster, probe);
    let on_mainnet = cluster.is_mainnet();
    let keypair = program_kp_path.clone();
    let s = Deployment::new(Operation::Deploy, cluster, probe, location, program_kp_path);
    match deployer {
        Err(e) => s.abort(Error::Workspace(e)),
        Ok(deployer) => match authority {
            ProvidedAuthority::Key(key) => {
                let mut s = s;
                s.stage = Stage::AuthorityResolved;
                s.waiting = Waiting::ProgramKey;
                s.intent.upgrade_authority = Some(key.to_string());
                (s, Action::ReadPubkey { keypair })
            },
            ProvidedAuthority::Invalid => s.abort(Error::InvalidPubkey),
            ProvidedAuthority::Absent => {
                if on_mainnet {
                    s.abort(Error::MainnetSafetyViolation)
                } else {
                    let mut s = s;
                    s.waiting = Waiting::DeployerKey;
                    (s, Action::ReadPubkey { keypair: deployer })
                }
            },
        },
    }
}

/// Starts the deployment of the artifact at `location` under the program
/// keypair at `program_kp_path`.
pub fn process(
    workspace: &Workspace,
    cluster: Cluster,
    probe: DeployerProbe,
    upgrade_authority_provided: Option<String>,
    location: String,
    program_kp_path: String,
) -> (r: (Deployment, Action))
    ensures
        step_view(r) == deploy_start(
            workspace@,
            cluster@,
            probe,
            provided_authority(crate::config::optional_view(upgrade_authority_provided)),
            location@,
            program_kp_path@,
        ),
{
    let authority = read_authority(&upgrade_authority_provided);
    begin(workspace, cluster, probe, authority, location, program_kp_path)
}

/// A deployment to the main network without an upgrade authority is
/// refused as a violation of mainnet safety at its first step, whatever
/// the location and the program, and the tool is never invoked for it,
/// whatever arrives afterwards. The deployer keypair of the main network
/// has to be in the workspace: its absence is reported before.
pub proof fn lemma_mainnet_needs_authority(
    w: WorkspaceView,
    probe: DeployerProbe,
    location: Seq<char>,
    program_kp_path: Seq<char>,
    events: Seq<EventView>,
)
    requires
        probe.dir_exists,
        probe.keypair_exists,
    ensures
        ({
            let (s, first) = deploy_start(
                w,
                ClusterView::Mainnet,
                probe,
                ProvidedAuthorityView::Absent,
                location,
                program_kp_path,
            );
            &&& first == (ActionView::Abort { error: Error::MainnetSafetyViolation })
            &&& s.stage is Aborted
            &&& forall|i: int|
                0 <= i < events.len() ==> !(#[trigger] answers(s, w, events)[i]).invokes_tool()
        }),
{
    let (s, first) = deploy_start(
        w,
        ClusterView::Mainnet,
        probe,
        ProvidedAuthorityView::Absent,
        location,
        program_kp_path,
    );
    lemma_no_work_after_abort(s, w, events);
}

/// A deployment starts with what is known in line with what is waited
/// for.
pub proof fn lemma_start_is_wf(
    w: WorkspaceView,
    cluster: ClusterView,
    probe: DeployerProbe,
    authority: ProvidedAuthorityView,
    location: Seq<char>,
    program_kp_path: Seq<char>,
)
    ensures
        deploy_start(w, cluster, probe, authority, location, program_kp_path).0.wf(),
{
}

} // verus!
