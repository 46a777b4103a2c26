//! Uploading a buffer for a program that exists: the artifact is fetched
//! and written into a fresh buffer, which is then handed to the program's
//! own upgrade authority, so that the owner of the program, not the
//! uploader, controls it.

use crate::cluster::{Cluster, ClusterView};
use crate::workflow::{
    answers, lemma_no_work_after_abort, new_deployment, step_view, Action, ActionView, Deployment,
    DeploymentView, Error, EventView, Operation,
};
use crate::workspace::{DeployerProbe, Workspace, WorkspaceError, WorkspaceView};
use vstd::prelude::*;

verus! {

/// The first step of an upload: the deployer of the cluster has to be
/// there, then the artifact is asked for.
pub open spec fn upload_start(
    w: WorkspaceView,
    cluster: ClusterView,
    probe: DeployerProbe,
    location: Seq<char>,
    program_id: Seq<char>,
) -> (DeploymentView, ActionView) {
    let s = new_deployment(Operation::UploadBuffer, cluster, probe, location, program_id);
    match w.deployer_kp_path_if_exists(cluster, probe) {
        Err(e) => s.aborted(Error::Workspace(e)),
        Ok(_) => s.fetch_artifact(),
    }
}

/// Starts the upload of the artifact at `location` for the program
/// `program_id`.
pub fn process(
    workspace: &Workspace,
    cluster: Cluster,
    probe: DeployerProbe,
    location: String,
    program_id: String,
) -> (r: (Deployment, Action))
    ensures
        step_view(r) == upload_start(workspace@, cluster@, probe, location@, program_id@),
{
    let deployer = workspace.get_deployer_kp_path_if_exists(&cluster, probe);
    let s = Deployment::new(Operation::UploadBuffer, cluster, probe, location, program_id);
    match deployer {
        Err(e) => s.abort(Error::Workspace(e)),
        Ok(_) => s.fetch_artifact(),
    }
}

/// An upload starts with what is known in line with what is waited for.
pub proof fn lemma_start_is_wf(
    w: WorkspaceView,
    cluster: ClusterView,
    probe: DeployerProbe,
    location: Seq<char>,
    program_id: Seq<char>,
)
    ensures
        upload_start(w, cluster, probe, location, program_id).0.wf(),
{
}


/// Without the deployer keypair of the cluster, be it the file or the
/// whole directory that is missing, an upload is given up at its first
/// step because the signer is not found, and nothing is fetched,
/// generated or run for it, whatever arrives afterwards.
pub proof fn lemma_upload_needs_the_deployer(
    w: WorkspaceView,
    cluster: ClusterView,
    probe: DeployerProbe,
    location: Seq<char>,
    program_id: Seq<char>,
    events: Seq<EventView>,
)
    requires
        !probe.dir_exists || !probe.keypair_exists,
    ensures
        ({
            let (s, first) = upload_start(w, cluster, probe, location, program_id);
            &&& first == (ActionView::Abort {
                error: Error::Workspace(WorkspaceError::SignerNotFound),
            })
            &&& s.stage is Aborted
            &&& forall|i: int| 0 <= i < events.len() ==> #[trigger] answers(s, w, events)[i] is Abort
        }),
{
    let (s, first) = upload_start(w, cluster, probe, location, program_id);
    lemma_no_work_after_abort(s, w, events);
}

} // verus!
