//! The deployment workflow: one state machine for the three operations
//! that put program code on a cluster.
//!
//! The machine does no work itself. It is handed what has happened, as an
//! `Event`, and answers with what has to be done next, as an `Action`. The
//! caller performs the action and comes back with the next event, until
//! the machine answers `Finish` or `Abort`.
//!
//! ```text
//! Start -> AuthorityResolved -> ArtifactResolved -> BufferUploaded
//!       -> AuthorityTransferred -> Complete
//! ```
//!
//! `Aborted` is reached from every stage on a failure. Nothing that a
//! finished step has written to the cluster is undone.

use crate::cluster::{Cluster, ClusterView};
use crate::config::optional_view;
use crate::location::{parse_location, FetchError, Location, LocationError, LocationView};
use crate::pubkey::Pubkey;
use crate::solana_cmd::{
    command_result_view, deploy, deploy_args, set_buffer_authority, set_buffer_authority_args,
    set_upgrade_authority, set_upgrade_authority_args, signed_command, upgrade, upgrade_args,
    write_buffer, write_buffer_args, Command, CommandView,
};
use crate::text::{push_str, push_string, strings_view};
use crate::workspace::{workspace_command, DeployerProbe, Workspace, WorkspaceError, WorkspaceView};
use vstd::prelude::*;
use vstd::string::StringExecFns;

verus! {

/// Why an operation was given up.
#[derive(Clone, Copy, Debug, PartialEq, Eq, Structural)]
pub enum Error {
    /// The location string is malformed.
    Parse(LocationError),
    /// The artifact could not be fetched.
    Fetch(FetchError),
    /// The workspace lacks the signer or the address of the cluster.
    Workspace(WorkspaceError),
    /// The operation would act on the main network without an authority
    /// that the operator named.
    MainnetSafetyViolation,
    /// The authority given is not the text of a public key.
    InvalidPubkey,
    /// A keypair could not be read or written.
    Keypair,
    /// The tool could not be started.
    ToolNotStarted,
    /// The tool's output is not UTF-8, or not the JSON that was expected.
    MalformedOutput,
    /// The tool ended with this exit code, which is not 0.
    ExternalToolFailure(i32),
    /// An event arrived that the machine was not waiting for.
    UnexpectedEvent,
}

/// How far an operation has come.
#[derive(Clone, Copy, Debug, PartialEq, Eq, Structural)]
pub enum Stage {
    Start,
    AuthorityResolved,
    ArtifactResolved,
    BufferUploaded,
    AuthorityTransferred,
    Complete,
    Aborted,
}

/// The three operations.
#[derive(Clone, Copy, Debug, PartialEq, Eq, Structural)]
pub enum Operation {
    /// Upload a buffer and hand it to the program's upgrade authority.
    UploadBuffer,
    /// Deploy a program for the first time.
    Deploy,
    /// Upgrade a program, signing with a local keypair.
    Upgrade,
}

/// The event that the machine waits for.
#[derive(Clone, Copy, Debug, PartialEq, Eq, Structural)]
pub enum Waiting {
    /// The artifact, to arrive in a file.
    Artifact,
    /// The digest of the artifact.
    Digest,
    /// A fresh keypair for the buffer.
    BufferKey,
    /// The public key of the cluster's deployer.
    DeployerKey,
    /// The public key of the program.
    ProgramKey,
    /// The program's current upgrade authority.
    ProgramInfo,
    /// The end of `program write-buffer`.
    BufferWrite,
    /// The end of `program deploy` for a new program.
    Deploy,
    /// The end of `program set-buffer-authority` or
    /// `program set-upgrade-authority`.
    AuthorityTransfer,
    /// The end of `program deploy` from a buffer.
    Upgrade,
    /// The closing report to have been shown.
    Report,
    /// Nothing: the operation is over.
    Nothing,
}

/// What the caller has to do next.
#[derive(Debug)]
pub enum Action {
    /// Fetch the artifact at `location` into a fresh temporary file.
    Fetch { location: Location },
    /// Compute size and checksum of `file` and show them.
    Digest { file: String },
    /// Generate a one-off keypair in a fresh temporary file.
    GenerateKeypair,
    /// Read the keypair file and report its public key.
    ReadPubkey { keypair: String },
    /// Run the tool and report the upgrade authority that its output names.
    Capture { command: Command },
    /// Run the tool.
    Run { command: Command },
    /// Show these lines, which sum up what was done.
    Report { lines: Vec<String> },
    /// Nothing more: the operation has succeeded.
    Finish,
    /// Nothing more: the operation has failed.
    Abort { error: Error },
}

/// An `Action` with its strings taken as sequences of characters.
pub ghost enum ActionView {
    Fetch { location: LocationView },
    Digest { file: Seq<char> },
    GenerateKeypair,
    ReadPubkey { keypair: Seq<char> },
    Capture { command: CommandView },
    Run { command: CommandView },
    Report { lines: Seq<Seq<char>> },
    Finish,
    Abort { error: Error },
}

impl View for Action {
    type V = ActionView;

    open spec fn view(&self) -> ActionView {
        match self {
            Action::Fetch { location } => ActionView::Fetch { location: location@ },
            Action::Digest { file } => ActionView::Digest { file: file@ },
            Action::GenerateKeypair => ActionView::GenerateKeypair,
            Action::ReadPubkey { keypair } => ActionView::ReadPubkey { keypair: keypair@ },
            Action::Capture { command } => ActionView::Capture { command: command@ },
            Action::Run { command } => ActionView::Run { command: command@ },
            Action::Report { lines } => ActionView::Report { lines: strings_view(lines@) },
            Action::Finish => ActionView::Finish,
            Action::Abort { error } => ActionView::Abort { error: *error },
        }
    }
}

impl ActionView {
    /// Whether the action invokes the external tool.
    pub open spec fn invokes_tool(self) -> bool {
        self is Run || self is Capture
    }

    /// Whether the action fetches, digests or generates a buffer keypair:
    /// the work that an uploaded buffer makes needless.
    pub open spec fn prepares_buffer(self) -> bool {
        self is Fetch || self is Digest || self is GenerateKeypair
    }
}

/// What has happened since the last action.
#[derive(Debug)]
pub enum Event {
    /// The artifact is in `file`.
    Fetched { file: String },
    /// The artifact has this size and checksum.
    Digested { size: u64, checksum: String },
    /// A keypair with the public key `key` is in `file`.
    KeypairGenerated { key: Pubkey, file: String },
    /// The keypair file holds the public key `key`.
    PubkeyRead { key: Pubkey },
    /// The tool's output names `authority` as the upgrade authority.
    Captured { authority: String },
    /// The action was carried out; where it was to run the tool, the
    /// tool ended with exit code 0.
    Succeeded,
    /// The action failed.
    Failed { error: Error },
}

/// An `Event` with its strings taken as sequences of characters.
pub ghost enum EventView {
    Fetched { file: Seq<char> },
    Digested { size: u64, checksum: Seq<char> },
    KeypairGenerated { key: Seq<u8>, file: Seq<char> },
    PubkeyRead { key: Seq<u8> },
    Captured { authority: Seq<char> },
    Succeeded,
    Failed { error: Error },
}

impl View for Event {
    type V = EventView;

    open spec fn view(&self) -> EventView {
        match self {
            Event::Fetched { file } => EventView::Fetched { file: file@ },
            Event::Digested { size, checksum } => EventView::Digested {
                size: *size,
                checksum: checksum@,
            },
            Event::KeypairGenerated { key, file } => EventView::KeypairGenerated {
                key: key@,
                file: file@,
            },
            Event::PubkeyRead { key } => EventView::PubkeyRead { key: key@ },
            Event::Captured { authority } => EventView::Captured { authority: authority@ },
            Event::Succeeded => EventView::Succeeded,
            Event::Failed { error } => EventView::Failed { error: *error },
        }
    }
}

/// What one invocation is about. It is filled in as the operation goes on.
#[derive(Debug)]
pub struct DeploymentIntent {
    pub cluster: Cluster,
    /// The location of the artifact; for an upgrade, possibly the key of a
    /// buffer that was uploaded before.
    pub location_or_buffer_key: String,
    /// The program: its id, or for a first deployment its keypair file.
    pub program_identity: String,
    /// The authority that the operation hands control to, once known.
    pub upgrade_authority: Option<String>,
    /// The key of the buffer that holds the code, once known.
    pub resolved_buffer_key: Option<Pubkey>,
}

/// A `DeploymentIntent` with its strings taken as sequences of characters.
pub ghost struct DeploymentIntentView {
    pub cluster: ClusterView,
    pub location_or_buffer_key: Seq<char>,
    pub program_identity: Seq<char>,
    pub upgrade_authority: Option<Seq<char>>,
    pub resolved_buffer_key: Option<Seq<u8>>,
}

/// The view of a key that may be absent.
pub open spec fn optional_key(key: Option<Pubkey>) -> Option<Seq<u8>> {
    match key {
        Some(key) => Some(key@),
        None => None,
    }
}

impl View for DeploymentIntent {
    type V = DeploymentIntentView;

    open spec fn view(&self) -> DeploymentIntentView {
        DeploymentIntentView {
            cluster: self.cluster@,
            location_or_buffer_key: self.location_or_buffer_key@,
            program_identity: self.program_identity@,
            upgrade_authority: optional_view(self.upgrade_authority),
            resolved_buffer_key: optional_key(self.resolved_buffer_key),
        }
    }
}

/// The state of one operation.
#[derive(Debug)]
pub struct Deployment {
    pub operation: Operation,
    pub stage: Stage,
    pub waiting: Waiting,
    pub intent: DeploymentIntent,
    /// What the file system says of the deployer keypair of the cluster.
    pub probe: DeployerProbe,
    /// The temporary file that holds the artifact, once fetched.
    pub program_file: Option<String>,
    /// The temporary file that holds the keypair of the buffer, once
    /// generated.
    pub buffer_kp_file: Option<String>,
    /// The public key of the program, once read.
    pub program_key: Option<Pubkey>,
    /// The checksum of the artifact, once computed.
    pub checksum: Option<String>,
}

/// A `Deployment` with its strings taken as sequences of characters.
pub ghost struct DeploymentView {
    pub operation: Operation,
    pub stage: Stage,
    pub waiting: Waiting,
    pub intent: DeploymentIntentView,
    pub probe: DeployerProbe,
    pub program_file: Option<Seq<char>>,
    pub buffer_kp_file: Option<Seq<char>>,
    pub program_key: Option<Seq<u8>>,
    pub checksum: Option<Seq<char>>,
}

impl View for Deployment {
    type V = DeploymentView;

    open spec fn view(&self) -> DeploymentView {
        DeploymentView {
            operation: self.operation,
            stage: self.stage,
            waiting: self.waiting,
            intent: self.intent@,
            probe: self.probe,
            program_file: optional_view(self.program_file),
            buffer_kp_file: optional_view(self.buffer_kp_file),
            program_key: optional_key(self.program_key),
            checksum: optional_view(self.checksum),
        }
    }
}

/// The arguments that ask for a program's description as compact JSON.
pub open spec fn program_show_args(program_id: Seq<char>) -> Seq<Seq<char>> {
    seq!["program"@, "show"@, program_id, "--output"@, "json-compact"@]
}

/// The lines that close an upload: the key of the buffer and the checksum
/// of what it holds.
pub open spec fn upload_report(buffer_key: Seq<u8>, checksum: Seq<char>) -> Seq<Seq<char>> {
    seq![
        "Buffer upload complete."@,
        "Buffer: "@ + crate::pubkey::pubkey_encode(buffer_key),
        "SHA256: "@ + checksum,
    ]
}

/// The step that a command makes where it could be built, the abort where
/// it could not.
pub open spec fn run_or_abort(
    s: DeploymentView,
    next: DeploymentView,
    command: Result<CommandView, WorkspaceError>,
) -> (DeploymentView, ActionView) {
    match command {
        Ok(command) => (next, ActionView::Run { command }),
        Err(e) => s.aborted(Error::Workspace(e)),
    }
}

/// An operation of which nothing is known yet but what it was asked for.
pub open spec fn new_deployment(
    operation: Operation,
    cluster: ClusterView,
    probe: DeployerProbe,
    location_or_buffer_key: Seq<char>,
    program_identity: Seq<char>,
) -> DeploymentView {
    DeploymentView {
        operation,
        stage: Stage::Start,
        waiting: Waiting::Nothing,
        intent: DeploymentIntentView {
            cluster,
            location_or_buffer_key,
            program_identity,
            upgrade_authority: None,
            resolved_buffer_key: None,
        },
        probe,
        program_file: None,
        buffer_kp_file: None,
        program_key: None,
        checksum: None,
    }
}

/// The actions that the machine answers when `events` arrive one after
/// the other.
pub open spec fn answers(s: DeploymentView, w: WorkspaceView, events: Seq<EventView>) -> Seq<
    ActionView,
>
    decreases events.len(),
{
    if events.len() == 0 {
        Seq::empty()
    } else {
        let (next, action) = s.step(w, events[0]);
        seq![action] + answers(next, w, events.drop_first())
    }
}

impl DeploymentView {
    /// Whether the operation is over.
    pub open spec fn is_terminal(self) -> bool {
        self.stage is Complete || self.stage is Aborted
    }

    /// The operation given up because of `error`.
    pub open spec fn aborted(self, error: Error) -> (DeploymentView, ActionView) {
        (
            DeploymentView { stage: Stage::Aborted, waiting: Waiting::Nothing, ..self },
            ActionView::Abort { error },
        )
    }

    /// The operation brought to its end.
    pub open spec fn completed(self) -> (DeploymentView, ActionView) {
        (
            DeploymentView { stage: Stage::Complete, waiting: Waiting::Nothing, ..self },
            ActionView::Finish,
        )
    }

    /// The same operation at `stage`, waiting for `waiting`.
    pub open spec fn at(self, stage: Stage, waiting: Waiting) -> DeploymentView {
        DeploymentView { stage, waiting, ..self }
    }

    /// The artifact is parsed and asked for; a malformed location aborts.
    pub open spec fn fetch_artifact(self) -> (DeploymentView, ActionView) {
        match parse_location(self.intent.location_or_buffer_key) {
            Ok(location) => (
                DeploymentView { waiting: Waiting::Artifact, ..self },
                ActionView::Fetch { location },
            ),
            Err(e) => self.aborted(Error::Parse(e)),
        }
    }

    /// The artifact has arrived: its digest is asked for.
    pub open spec fn artifact_fetched(self, file: Seq<char>) -> (DeploymentView, ActionView) {
        (
            DeploymentView {
                stage: Stage::ArtifactResolved,
                waiting: Waiting::Digest,
                program_file: Some(file),
                ..self
            },
            ActionView::Digest { file },
        )
    }

    /// The digest has arrived: the checksum is kept.
    pub open spec fn digested(self, checksum: Seq<char>, waiting: Waiting) -> DeploymentView {
        DeploymentView { waiting, checksum: Some(checksum), ..self }
    }

    /// The buffer is written from the artifact under the fresh key; the
    /// deployer signs.
    pub open spec fn write_buffer(self, w: WorkspaceView, key: Seq<u8>, file: Seq<char>) -> (
        DeploymentView,
        ActionView,
    ) {
        match self.program_file {
            Some(program_file) => run_or_abort(
                self,
                DeploymentView {
                    waiting: Waiting::BufferWrite,
                    buffer_kp_file: Some(file),
                    intent: DeploymentIntentView { resolved_buffer_key: Some(key), ..self.intent },
                    ..self
                },
                workspace_command(
                    w,
                    self.intent.cluster,
                    self.probe,
                    write_buffer_args(program_file, file),
                ),
            ),
            None => self.aborted(Error::UnexpectedEvent),
        }
    }

    /// The buffer is handed to the authority; the deployer signs.
    pub open spec fn transfer_buffer(self, w: WorkspaceView) -> (DeploymentView, ActionView) {
        match (self.intent.resolved_buffer_key, self.intent.upgrade_authority) {
            (Some(key), Some(authority)) => run_or_abort(
                self,
                self.at(Stage::BufferUploaded, Waiting::AuthorityTransfer),
                workspace_command(
                    w,
                    self.intent.cluster,
                    self.probe,
                    set_buffer_authority_args(key, authority),
                ),
            ),
            _ => self.aborted(Error::UnexpectedEvent),
        }
    }

    /// The program is replaced by the buffer; the upgrade authority signs.
    pub open spec fn upgrade_program(self, w: WorkspaceView, stage: Stage) -> (
        DeploymentView,
        ActionView,
    ) {
        match (self.intent.resolved_buffer_key, self.intent.upgrade_authority) {
            (Some(key), Some(authority)) => run_or_abort(
                self,
                self.at(stage, Waiting::Upgrade),
                signed_command(
                    w,
                    self.intent.cluster,
                    authority,
                    upgrade_args(authority, key, self.intent.program_identity),
                ),
            ),
            _ => self.aborted(Error::UnexpectedEvent),
        }
    }

    /// One step of an upload.
    pub open spec fn upload_step(self, w: WorkspaceView, e: EventView) -> (
        DeploymentView,
        ActionView,
    ) {
        match (self.waiting, e) {
            (Waiting::Artifact, EventView::Fetched { file }) => self.artifact_fetched(file),
            (Waiting::Digest, EventView::Digested { size, checksum }) => (
                self.digested(checksum, Waiting::BufferKey),
                ActionView::GenerateKeypair,
            ),
            (Waiting::BufferKey, EventView::KeypairGenerated { key, file }) => (
                DeploymentView {
                    waiting: Waiting::DeployerKey,
                    buffer_kp_file: Some(file),
                    intent: DeploymentIntentView { resolved_buffer_key: Some(key), ..self.intent },
                    ..self
                },
                ActionView::ReadPubkey { keypair: w.deployer_kp_path(self.intent.cluster) },
            ),
            (Waiting::DeployerKey, EventView::PubkeyRead { key }) => match workspace_command(
                w,
                self.intent.cluster,
                self.probe,
                program_show_args(self.intent.program_identity),
            ) {
                Ok(command) => (
                    self.at(self.stage, Waiting::ProgramInfo),
                    ActionView::Capture { command },
                ),
                Err(e) => self.aborted(Error::Workspace(e)),
            },
            (Waiting::ProgramInfo, EventView::Captured { authority }) => match (
                self.program_file,
                self.buffer_kp_file,
            ) {
                (Some(program_file), Some(buffer_kp_file)) => run_or_abort(
                    self,
                    DeploymentView {
                        waiting: Waiting::BufferWrite,
                        intent: DeploymentIntentView {
                            upgrade_authority: Some(authority),
                            ..self.intent
                        },
                        ..self
                    },
                    workspace_command(
                        w,
                        self.intent.cluster,
                        self.probe,
                        write_buffer_args(program_file, buffer_kp_file),
                    ),
                ),
                _ => self.aborted(Error::UnexpectedEvent),
            },
            (Waiting::BufferWrite, EventView::Succeeded) => self.transfer_buffer(w),
            (Waiting::AuthorityTransfer, EventView::Succeeded) => match (
                self.intent.resolved_buffer_key,
                self.checksum,
            ) {
                (Some(key), Some(checksum)) => (
                    self.at(Stage::AuthorityTransferred, Waiting::Report),
                    ActionView::Report { lines: upload_report(key, checksum) },
                ),
                _ => self.aborted(Error::UnexpectedEvent),
            },
            (Waiting::Report, EventView::Succeeded) => self.completed(),
            (_, EventView::Failed { error }) => self.aborted(error),
            _ => self.aborted(Error::UnexpectedEvent),
        }
    }

    /// One step of a first deployment.
    pub open spec fn deploy_step(self, w: WorkspaceView, e: EventView) -> (
        DeploymentView,
        ActionView,
    ) {
        match (self.waiting, e) {
            (Waiting::DeployerKey, EventView::PubkeyRead { key }) => (
                DeploymentView {
                    stage: Stage::AuthorityResolved,
                    waiting: Waiting::ProgramKey,
                    intent: DeploymentIntentView {
                        upgrade_authority: Some(crate::pubkey::pubkey_encode(key)),
                        ..self.intent
                    },
                    ..self
                },
                ActionView::ReadPubkey { keypair: self.intent.program_identity },
            ),
            (Waiting::ProgramKey, EventView::PubkeyRead { key }) => DeploymentView {
                program_key: Some(key),
                ..self
            }.fetch_artifact(),
            (Waiting::Artifact, EventView::Fetched { file }) => self.artifact_fetched(file),
            (Waiting::Digest, EventView::Digested { size, checksum }) => match self.program_file {
                Some(program_file) => run_or_abort(
                    self,
                    self.digested(checksum, Waiting::Deploy),
                    workspace_command(
                        w,
                        self.intent.cluster,
                        self.probe,
                        deploy_args(program_file, self.intent.program_identity),
                    ),
                ),
                None => self.aborted(Error::UnexpectedEvent),
            },
            (Waiting::Deploy, EventView::Succeeded) => match (
                self.program_key,
                self.intent.upgrade_authority,
            ) {
                (Some(program_key), Some(authority)) => run_or_abort(
                    self,
                    self.at(self.stage, Waiting::AuthorityTransfer),
                    signed_command(
                        w,
                        self.intent.cluster,
                        w.deployer_kp_path(self.intent.cluster),
                        set_upgrade_authority_args(program_key, authority),
                    ),
                ),
                _ => self.aborted(Error::UnexpectedEvent),
            },
            (Waiting::AuthorityTransfer, EventView::Succeeded) => self.completed(),
            (_, EventView::Failed { error }) => self.aborted(error),
            _ => self.aborted(Error::UnexpectedEvent),
        }
    }

    /// One step of an upgrade.
    pub open spec fn upgrade_step(self, w: WorkspaceView, e: EventView) -> (
        DeploymentView,
        ActionView,
    ) {
        match (self.waiting, e) {
            (Waiting::Artifact, EventView::Fetched { file }) => self.artifact_fetched(file),
            (Waiting::Digest, EventView::Digested { size, checksum }) => (
                self.digested(checksum, Waiting::BufferKey),
                ActionView::GenerateKeypair,
            ),
            (Waiting::BufferKey, EventView::KeypairGenerated { key, file }) => self.write_buffer(
                w,
                key,
                file,
            ),
            (Waiting::BufferWrite, EventView::Succeeded) => self.transfer_buffer(w),
            (Waiting::AuthorityTransfer, EventView::Succeeded) => self.upgrade_program(
                w,
                Stage::AuthorityTransferred,
            ),
            (Waiting::Upgrade, EventView::Succeeded) => self.completed(),
            (_, EventView::Failed { error }) => self.aborted(error),
            _ => self.aborted(Error::UnexpectedEvent),
        }
    }

    /// Whether what is known goes with what is waited for: the stage, and
    /// which of the authority, the buffer key and the files are there.
    /// Every operation starts this way and stays this way.
    pub open spec fn wf(self) -> bool {
        let authority = self.intent.upgrade_authority is Some;
        let key = self.intent.resolved_buffer_key is Some;
        let artifact = self.program_file is Some;
        let buffer = self.buffer_kp_file is Some;
        let program = self.program_key is Some;
        let checksum = self.checksum is Some;
        if self.is_terminal() {
            self.waiting is Nothing
        } else {
            match (self.operation, self.waiting) {
                (Operation::UploadBuffer, Waiting::Artifact) => self.stage is Start && !authority
                    && !key && !artifact && !buffer && !checksum,
                (Operation::UploadBuffer, Waiting::Digest) => self.stage is ArtifactResolved
                    && !authority && !key && artifact && !buffer && !checksum,
                (Operation::UploadBuffer, Waiting::BufferKey) => self.stage is ArtifactResolved
                    && !authority && !key && artifact && !buffer && checksum,
                (Operation::UploadBuffer, Waiting::DeployerKey) | (
                    Operation::UploadBuffer,
                    Waiting::ProgramInfo,
                ) => self.stage is ArtifactResolved && !authority && key && artifact && buffer
                    && checksum,
                (Operation::UploadBuffer, Waiting::BufferWrite) => self.stage is ArtifactResolved
                    && authority && key && artifact && buffer && checksum,
                (Operation::UploadBuffer, Waiting::AuthorityTransfer) => self.stage
                    is BufferUploaded && authority && key && artifact && buffer && checksum,
                (Operation::UploadBuffer, Waiting::Report) => self.stage is AuthorityTransferred
                    && authority && key && checksum,
                (Operation::Deploy, Waiting::DeployerKey) => self.stage is Start && !authority
                    && !program && !artifact,
                (Operation::Deploy, Waiting::ProgramKey) => self.stage is AuthorityResolved
                    && authority && !program && !artifact,
                (Operation::Deploy, Waiting::Artifact) => self.stage is AuthorityResolved
                    && authority && program && !artifact,
                (Operation::Deploy, Waiting::Digest) | (Operation::Deploy, Waiting::Deploy) | (
                    Operation::Deploy,
                    Waiting::AuthorityTransfer,
                ) => self.stage is ArtifactResolved && authority && program && artifact,
                (Operation::Upgrade, Waiting::Artifact) => self.stage is AuthorityResolved
                    && authority && !key && !artifact && !buffer,
                (Operation::Upgrade, Waiting::Digest) | (Operation::Upgrade, Waiting::BufferKey) => {
                    self.stage is ArtifactResolved && authority && !key && artifact && !buffer
                },
                (Operation::Upgrade, Waiting::BufferWrite) => self.stage is ArtifactResolved
                    && authority && key && artifact && buffer,
                (Operation::Upgrade, Waiting::AuthorityTransfer) => self.stage is BufferUploaded
                    && authority && key && artifact && buffer,
                (Operation::Upgrade, Waiting::Upgrade) => (self.stage is AuthorityTransferred
                    || self.stage is AuthorityResolved) && authority && key,
                _ => false,
            }
        }
    }

    /// One step of the machine. An operation that is over stays as it is,
    /// whatever arrives.
    pub open spec fn step(self, w: WorkspaceView, e: EventView) -> (DeploymentView, ActionView) {
        if self.stage is Complete {
            (self, ActionView::Finish)
        } else if self.stage is Aborted {
            (self, ActionView::Abort { error: Error::UnexpectedEvent })
        } else {
            match self.operation {
                Operation::UploadBuffer => self.upload_step(w, e),
                Operation::Deploy => self.deploy_step(w, e),
                Operation::Upgrade => self.upgrade_step(w, e),
            }
        }
    }
}

/// What the workspace answered to the request for a command, as the
/// outcome of an operation.
pub open spec fn command_outcome(r: Result<CommandView, WorkspaceError>) -> Result<
    CommandView,
    Error,
> {
    match r {
        Ok(command) => Ok(command),
        Err(e) => Err(Error::Workspace(e)),
    }
}

/// A command or an error, the command taken by its view.
pub open spec fn outcome_view(r: Result<Command, Error>) -> Result<CommandView, Error> {
    match r {
        Ok(command) => Ok(command@),
        Err(e) => Err(e),
    }
}

/// Turns what the workspace answered into the outcome of an operation.
pub(crate) fn lift(r: Result<Command, WorkspaceError>) -> (lifted: Result<Command, Error>)
    ensures
        outcome_view(lifted) == command_outcome(command_result_view(r)),
{
    match r {
        Ok(command) => Ok(command),
        Err(e) => Err(Error::Workspace(e)),
    }
}

/// The exit code with which an error ends the process: the tool's own
/// where the tool failed, so that callers see what the tool reported, and
/// 1 for every other error.
pub open spec fn exit_code_of(e: Error) -> i32 {
    match e {
        Error::ExternalToolFailure(code) => code,
        _ => 1,
    }
}

impl Error {
    /// The exit code with which this error ends the process.
    pub fn exit_code(&self) -> (r: i32)
        ensures
            r == exit_code_of(*self),
    {
        match self {
            Error::ExternalToolFailure(code) => *code,
            _ => 1,
        }
    }
}

/// What the operator is told about an error. `mainnet_notice` is the
/// sentence for a violation of mainnet safety, which depends on what was
/// asked for. Of a failure of the tool nothing is said: the tool has
/// reported it itself.
pub open spec fn error_message(
    w: WorkspaceView,
    cluster: ClusterView,
    probe: DeployerProbe,
    mainnet_notice: Seq<char>,
    e: Error,
) -> Seq<char> {
    match e {
        Error::Parse(e) => crate::location::location_error_message(e),
        Error::Fetch(e) => crate::location::fetch_error_message(e),
        Error::Workspace(e) => crate::workspace::workspace_error_message(w, cluster, probe, e),
        Error::MainnetSafetyViolation => mainnet_notice,
        Error::InvalidPubkey => "the upgrade authority is not a public key"@,
        Error::Keypair => "could not read keypair"@,
        Error::ToolNotStarted => "Error deploying: solana could not be run"@,
        Error::MalformedOutput => "the output of solana could not be read"@,
        Error::ExternalToolFailure(_) => ""@,
        Error::UnexpectedEvent => "the operation was told of something it did not wait for"@,
    }
}

/// The sentence for a violation of mainnet safety by `operation`.
pub open spec fn mainnet_notice(operation: Operation) -> Seq<char> {
    match operation {
        Operation::Deploy => "Must specify the --upgrade authority public key on mainnet."@,
        _ => "Must specify the --upgrade_authority_keypair on mainnet."@,
    }
}

/// Tells the operator about an error.
pub fn explain(
    workspace: &Workspace,
    cluster: &Cluster,
    probe: DeployerProbe,
    mainnet_notice: &str,
    e: Error,
) -> (r: String)
    ensures
        r@ == error_message(workspace@, cluster@, probe, mainnet_notice@, e),
{
    match e {
        Error::Parse(e) => String::from_str(e.message()),
        Error::Fetch(e) => String::from_str(e.message()),
        Error::Workspace(e) => workspace.explain(cluster, probe, e),
        Error::MainnetSafetyViolation => String::from_str(mainnet_notice),
        Error::InvalidPubkey => String::from_str("the upgrade authority is not a public key"),
        Error::Keypair => String::from_str("could not read keypair"),
        Error::ToolNotStarted => String::from_str("Error deploying: solana could not be run"),
        Error::MalformedOutput => String::from_str("the output of solana could not be read"),
        Error::ExternalToolFailure(_) => String::from_str(""),
        Error::UnexpectedEvent => String::from_str(
            "the operation was told of something it did not wait for",
        ),
    }
}

/// The lines to show when `e` arrives: the digest of the artifact for
/// every operation, and for an upload the signer and what is known of
/// the program.
pub open spec fn progress_lines(s: DeploymentView, e: EventView) -> Seq<Seq<char>> {
    if s.is_terminal() {
        Seq::empty()
    } else {
        match (s.waiting, e) {
            (Waiting::Digest, EventView::Digested { size, checksum }) => crate::utils::digest_lines(
                None,
                size,
                checksum,
            ),
            (Waiting::DeployerKey, EventView::PubkeyRead { key }) => if s.operation
                is UploadBuffer {
                seq![
                    "Uploading program buffer to cluster "@ + crate::cluster::cluster_name(
                        s.intent.cluster,
                    ) + " with signer "@ + crate::pubkey::pubkey_encode(key),
                    "Make sure to send enough lamports to this address for the deploy."@,
                ]
            } else {
                Seq::empty()
            },
            (Waiting::ProgramInfo, EventView::Captured { authority }) => match (
                s.operation,
                s.intent.resolved_buffer_key,
            ) {
                (Operation::UploadBuffer, Some(buffer)) => seq![
                    "Program ID: "@ + s.intent.program_identity,
                    "Program authority: "@ + authority,
                    "Buffer key: "@ + crate::pubkey::pubkey_encode(buffer),
                ],
                _ => Seq::empty(),
            },
            _ => Seq::empty(),
        }
    }
}

/// The heading under which an action is taken: an upload announces the
/// writing of the buffer and the handing over of its authority.
pub open spec fn heading(s: DeploymentView, a: ActionView) -> Option<Seq<char>> {
    if s.operation is UploadBuffer && a is Run {
        match s.waiting {
            Waiting::BufferWrite => Some("Writing buffer"@),
            Waiting::AuthorityTransfer => Some("Setting buffer authority"@),
            _ => None,
        }
    } else {
        None
    }
}

/// A step taken by its views.
pub open spec fn step_view(r: (Deployment, Action)) -> (DeploymentView, ActionView) {
    (r.0@, r.1@)
}

/// Builds the lines that close an upload.
fn upload_lines(buffer_key: &Pubkey, checksum: &str) -> (lines: Vec<String>)
    ensures
        strings_view(lines@) == upload_report(buffer_key@, checksum@),
{
    let mut second = String::from_str("Buffer: ");
    second.append(buffer_key.to_string().as_str());
    let mut third = String::from_str("SHA256: ");
    third.append(checksum);
    let mut lines: Vec<String> = Vec::new();
    push_str(&mut lines, "Buffer upload complete.");
    push_string(&mut lines, second);
    push_string(&mut lines, third);
    lines
}

/// Builds the arguments that ask for a program's description.
fn program_show(program_id: &str) -> (args: Vec<String>)
    ensures
        strings_view(args@) == program_show_args(program_id@),
{
    let mut args: Vec<String> = Vec::new();
    push_str(&mut args, "program");
    push_str(&mut args, "show");
    push_str(&mut args, program_id);
    push_str(&mut args, "--output");
    push_str(&mut args, "json-compact");
    args
}

impl Deployment {
    /// An operation at its start.
    pub fn new(
        operation: Operation,
        cluster: Cluster,
        probe: DeployerProbe,
        location_or_buffer_key: String,
        program_identity: String,
    ) -> (r: Deployment)
        ensures
            r@ == new_deployment(
                operation,
                cluster@,
                probe,
                location_or_buffer_key@,
                program_identity@,
            ),
    {
        Deployment {
            operation,
            stage: Stage::Start,
            waiting: Waiting::Nothing,
            intent: DeploymentIntent {
                cluster,
                location_or_buffer_key,
                program_identity,
                upgrade_authority: None,
                resolved_buffer_key: None,
            },
            probe,
            program_file: None,
            buffer_kp_file: None,
            program_key: None,
            checksum: None,
        }
    }

    /// Gives the operation up because of `error`.
    pub(crate) fn abort(self, error: Error) -> (r: (Deployment, Action))
        ensures
            step_view(r) == self@.aborted(error),
    {
        let mut s = self;
        s.stage = Stage::Aborted;
        s.waiting = Waiting::Nothing;
        (s, Action::Abort { error })
    }

    /// Brings the operation to its end.
    fn complete(self) -> (r: (Deployment, Action))
        ensures
            step_view(r) == self@.completed(),
    {
        let mut s = self;
        s.stage = Stage::Complete;
        s.waiting = Waiting::Nothing;
        (s, Action::Finish)
    }

    /// Runs `command` and waits for its end at `stage`, or aborts where
    /// the command could not be built.
    fn run(self, stage: Stage, waiting: Waiting, command: Result<Command, WorkspaceError>) -> (r: (
        Deployment,
        Action,
    ))
        ensures
            step_view(r) == run_or_abort(
                self@,
                self@.at(stage, waiting),
                command_result_view(command),
            ),
    {
        match command {
            Ok(command) => {
                let mut s = self;
                s.stage = stage;
                s.waiting = waiting;
                (s, Action::Run { command })
            },
            Err(e) => self.abort(Error::Workspace(e)),
        }
    }

    /// Parses the location and asks for the artifact.
    pub(crate) fn fetch_artifact(self) -> (r: (Deployment, Action))
        ensures
            step_view(r) == self@.fetch_artifact(),
    {
        match Location::try_from(self.intent.location_or_buffer_key.as_str()) {
            Ok(location) => {
                let mut s = self;
                s.waiting = Waiting::Artifact;
                (s, Action::Fetch { location })
            },
            Err(e) => self.abort(Error::Parse(e)),
        }
    }

    fn artifact_fetched(self, file: String) -> (r: (Deployment, Action))
        ensures
            step_view(r) == self@.artifact_fetched(file@),
    {
        let mut s = self;
        s.stage = Stage::ArtifactResolved;
        s.waiting = Waiting::Digest;
        s.program_file = Some(file.clone());
        (s, Action::Digest { file })
    }

    fn write_buffer(self, workspace: &Workspace, key: Pubkey, file: String) -> (r: (
        Deployment,
        Action,
    ))
        ensures
            step_view(r) == self@.write_buffer(workspace@, key@, file@),
    {
        let command = match &self.program_file {
            Some(program_file) => write_buffer(
                workspace,
                &self.intent.cluster,
                self.probe,
                program_file.as_str(),
                file.as_str(),
            ),
            None => {
                return self.abort(Error::UnexpectedEvent);
            },
        };
        match command {
            Ok(command) => {
                let mut s = self;
                s.waiting = Waiting::BufferWrite;
                s.buffer_kp_file = Some(file);
                s.intent.resolved_buffer_key = Some(key);
                (s, Action::Run { command })
            },
            Err(e) => self.abort(Error::Workspace(e)),
        }
    }

    fn transfer_buffer(self, workspace: &Workspace) -> (r: (Deployment, Action))
        ensures
            step_view(r) == self@.transfer_buffer(workspace@),
    {
        let command = match (&self.intent.resolved_buffer_key, &self.intent.upgrade_authority) {
            (Some(key), Some(authority)) => set_buffer_authority(
                workspace,
                &self.intent.cluster,
                self.probe,
                key,
                authority.as_str(),
            ),
            _ => {
                return self.abort(Error::UnexpectedEvent);
            },
        };
        self.run(Stage::BufferUploaded, Waiting::AuthorityTransfer, command)
    }

    /// Asks for the upgrade from the buffer, to be waited for at `stage`.
    pub(crate) fn upgrade_program(self, workspace: &Workspace, stage: Stage) -> (r: (Deployment, Action))
        ensures
            step_view(r) == self@.upgrade_program(workspace@, stage),
    {
        let command = match (&self.intent.resolved_buffer_key, &self.intent.upgrade_authority) {
            (Some(key), Some(authority)) => upgrade(
                workspace,
                &self.intent.cluster,
                authority.as_str(),
                key,
                self.intent.program_identity.as_str(),
            ),
            _ => {
                return self.abort(Error::UnexpectedEvent);
            },
        };
        self.run(stage, Waiting::Upgrade, command)
    }

    fn upload_step(self, workspace: &Workspace, event: Event) -> (r: (Deployment, Action))
        ensures
            step_view(r) == self@.upload_step(workspace@, event@),
    {
        let waiting = self.waiting;
        match event {
            Event::Failed { error } => self.abort(error),
            Event::Fetched { file } => match waiting {
                Waiting::Artifact => self.artifact_fetched(file),
                _ => self.abort(Error::UnexpectedEvent),
            },
            Event::Digested { size, checksum } => match waiting {
                Waiting::Digest => {
                    let mut s = self;
                    s.waiting = Waiting::BufferKey;
                    s.checksum = Some(checksum);
                    (s, Action::GenerateKeypair)
                },
                _ => self.abort(Error::UnexpectedEvent),
            },
            Event::KeypairGenerated { key, file } => match waiting {
                Waiting::BufferKey => {
                    let keypair = workspace.get_deployer_kp_path(&self.intent.cluster);
                    let mut s = self;
                    s.waiting = Waiting::DeployerKey;
                    s.buffer_kp_file = Some(file);
                    s.intent.resolved_buffer_key = Some(key);
                    (s, Action::ReadPubkey { keypair })
                },
                _ => self.abort(Error::UnexpectedEvent),
            },
            Event::PubkeyRead { key } => match waiting {
                Waiting::DeployerKey => {
                    let command = workspace.exec_deployer_command(
                        &self.intent.cluster,
                        self.probe,
                        program_show(self.intent.program_identity.as_str()),
                    );
                    match command {
                        Ok(command) => {
                            let mut s = self;
                            s.waiting = Waiting::ProgramInfo;
                            (s, Action::Capture { command })
                        },
                        Err(e) => self.abort(Error::Workspace(e)),
                    }
                },
                _ => self.abort(Error::UnexpectedEvent),
            },
            Event::Captured { authority } => match waiting {
                Waiting::ProgramInfo => {
                    let command = match (&self.program_file, &self.buffer_kp_file) {
                        (Some(program_file), Some(buffer_kp_file)) => write_buffer(
                            workspace,
                            &self.intent.cluster,
                            self.probe,
                            program_file.as_str(),
                            buffer_kp_file.as_str(),
                        ),
                        _ => {
                            return self.abort(Error::UnexpectedEvent);
                        },
                    };
                    match command {
                        Ok(command) => {
                            let mut s = self;
                            s.waiting = Waiting::BufferWrite;
                            s.intent.upgrade_authority = Some(authority);
                            (s, Action::Run { command })
                        },
                        Err(e) => self.abort(Error::Workspace(e)),
                    }
                },
                _ => self.abort(Error::UnexpectedEvent),
            },
            Event::Succeeded => match waiting {
                Waiting::BufferWrite => self.transfer_buffer(workspace),
                Waiting::AuthorityTransfer => {
                    let lines = match (&self.intent.resolved_buffer_key, &self.checksum) {
                        (Some(key), Some(checksum)) => upload_lines(key, checksum.as_str()),
                        _ => {
                            return self.abort(Error::UnexpectedEvent);
                        },
                    };
                    let mut s = self;
                    s.stage = Stage::AuthorityTransferred;
                    s.waiting = Waiting::Report;
                    (s, Action::Report { lines })
                },
                Waiting::Report => self.complete(),
                _ => self.abort(Error::UnexpectedEvent),
            },
        }
    }

    fn deploy_step(self, workspace: &Workspace, event: Event) -> (r: (Deployment, Action))
        ensures
            step_view(r) == self@.deploy_step(workspace@, event@),
    {
        let waiting = self.waiting;
        match event {
            Event::Failed { error } => self.abort(error),
            Event::PubkeyRead { key } => match waiting {
                Waiting::DeployerKey => {
                    let keypair = self.intent.program_identity.clone();
                    let mut s = self;
                    s.stage = Stage::AuthorityResolved;
                    s.waiting = Waiting::ProgramKey;
                    s.intent.upgrade_authority = Some(key.to_string());
                    (s, Action::ReadPubkey { keypair })
                },
                Waiting::ProgramKey => {
                    let mut s = self;
                    s.program_key = Some(key);
                    s.fetch_artifact()
                },
                _ => self.abort(Error::UnexpectedEvent),
            },
            Event::Fetched { file } => match waiting {
                Waiting::Artifact => self.artifact_fetched(file),
                _ => self.abort(Error::UnexpectedEvent),
            },
            Event::Digested { size, checksum } => match waiting {
                Waiting::Digest => {
                    let command = match &self.program_file {
                        Some(program_file) => deploy(
                            workspace,
                            &self.intent.cluster,
                            self.probe,
                            program_file.as_str(),
                            self.intent.program_identity.as_str(),
                        ),
                        None => {
                            return self.abort(Error::UnexpectedEvent);
                        },
                    };
                    match command {
                        Ok(command) => {
                            let mut s = self;
                            s.waiting = Waiting::Deploy;
                            s.checksum = Some(checksum);
                            (s, Action::Run { command })
                        },
                        Err(e) => self.abort(Error::Workspace(e)),
                    }
                },
                _ => self.abort(Error::UnexpectedEvent),
            },
            Event::Succeeded => match waiting {
                Waiting::Deploy => {
                    let command = match (&self.program_key, &self.intent.upgrade_authority) {
                        (Some(program_key), Some(authority)) => {
                            let deployer = workspace.get_deployer_kp_path(&self.intent.cluster);
                            set_upgrade_authority(
                                workspace,
                                &self.intent.cluster,
                                program_key,
                                deployer.as_str(),
                                authority.as_str(),
                            )
                        },
                        _ => {
                            return self.abort(Error::UnexpectedEvent);
                        },
                    };
                    let stage = self.stage;
                    self.run(stage, Waiting::AuthorityTransfer, command)
                },
                Waiting::AuthorityTransfer => self.complete(),
                _ => self.abort(Error::UnexpectedEvent),
            },
            _ => self.abort(Error::UnexpectedEvent),
        }
    }

    fn upgrade_step(self, workspace: &Workspace, event: Event) -> (r: (Deployment, Action))
        ensures
            step_view(r) == self@.upgrade_step(workspace@, event@),
    {
        let waiting = self.waiting;
        match event {
            Event::Failed { error } => self.abort(error),
            Event::Fetched { file } => match waiting {
                Waiting::Artifact => self.artifact_fetched(file),
                _ => self.abort(Error::UnexpectedEvent),
            },
            Event::Digested { size, checksum } => match waiting {
                Waiting::Digest => {
                    let mut s = self;
                    s.waiting = Waiting::BufferKey;
                    s.checksum = Some(checksum);
                    (s, Action::GenerateKeypair)
                },
                _ => self.abort(Error::UnexpectedEvent),
            },
            Event::KeypairGenerated { key, file } => match waiting {
                Waiting::BufferKey => self.write_buffer(workspace, key, file),
                _ => self.abort(Error::UnexpectedEvent),
            },
            Event::Succeeded => match waiting {
                Waiting::BufferWrite => self.transfer_buffer(workspace),
                Waiting::AuthorityTransfer => self.upgrade_program(
                    workspace,
                    Stage::AuthorityTransferred,
                ),
                Waiting::Upgrade => self.complete(),
                _ => self.abort(Error::UnexpectedEvent),
            },
            _ => self.abort(Error::UnexpectedEvent),
        }
    }

    /// Tells the operator why the operation was given up.
    pub fn explain(&self, workspace: &Workspace, e: Error) -> (r: String)
        ensures
            r@ == error_message(
                workspace@,
                self@.intent.cluster,
                self@.probe,
                mainnet_notice(self@.operation),
                e,
            ),
    {
        let notice = match self.operation {
            Operation::Deploy => "Must specify the --upgrade authority public key on mainnet.",
            _ => "Must specify the --upgrade_authority_keypair on mainnet.",
        };
        explain(workspace, &self.intent.cluster, self.probe, notice, e)
    }

    /// The lines to show when `event` arrives, before the step is taken.
    pub fn progress(&self, event: &Event) -> (lines: Vec<String>)
        ensures
            strings_view(lines@) == progress_lines(self@, event@),
    {
        let mut lines: Vec<String> = Vec::new();
        assert(strings_view(lines@) =~= Seq::<Seq<char>>::empty());
        match self.stage {
            Stage::Complete => {
                return lines;
            },
            Stage::Aborted => {
                return lines;
            },
            _ => {},
        }
        match event {
            Event::Digested { size, checksum } => match self.waiting {
                Waiting::Digest => crate::utils::digest_report(&None, *size, checksum.as_str()),
                _ => lines,
            },
            Event::PubkeyRead { key } => match (self.waiting, self.operation) {
                (Waiting::DeployerKey, Operation::UploadBuffer) => {
                    let mut first = String::from_str("Uploading program buffer to cluster ");
                    first.append(self.intent.cluster.name().as_str());
                    first.append(" with signer ");
                    first.append(key.to_string().as_str());
                    push_string(&mut lines, first);
                    push_str(
                        &mut lines,
                        "Make sure to send enough lamports to this address for the deploy.",
                    );
                    assert(strings_view(lines@) =~= progress_lines(self@, event@));
                    lines
                },
                _ => lines,
            },
            Event::Captured { authority } => match (
                self.waiting,
                self.operation,
                &self.intent.resolved_buffer_key,
            ) {
                (Waiting::ProgramInfo, Operation::UploadBuffer, Some(buffer)) => {
                    let mut first = String::from_str("Program ID: ");
                    first.append(self.intent.program_identity.as_str());
                    let mut second = String::from_str("Program authority: ");
                    second.append(authority.as_str());
                    let mut third = String::from_str("Buffer key: ");
                    third.append(buffer.to_string().as_str());
                    push_string(&mut lines, first);
                    push_string(&mut lines, second);
                    push_string(&mut lines, third);
                    assert(strings_view(lines@) =~= progress_lines(self@, event@));
                    lines
                },
                _ => lines,
            },
            _ => lines,
        }
    }

    /// The heading to show before `action` is taken, as lines; none for
    /// most actions. `self` is the state that the step has led to.
    pub fn announce(&self, action: &Action) -> (lines: Vec<String>)
        ensures
            strings_view(lines@) == (match heading(self@, action@) {
                Some(title) => crate::utils::header_lines(title),
                None => Seq::empty(),
            }),
    {
        let title = match (self.operation, action, self.waiting) {
            (Operation::UploadBuffer, Action::Run { .. }, Waiting::BufferWrite) => Some(
                "Writing buffer",
            ),
            (Operation::UploadBuffer, Action::Run { .. }, Waiting::AuthorityTransfer) => Some(
                "Setting buffer authority",
            ),
            _ => None,
        };
        match title {
            Some(title) => crate::utils::print_header(title),
            None => {
                let lines: Vec<String> = Vec::new();
                assert(strings_view(lines@) =~= Seq::<Seq<char>>::empty());
                lines
            },
        }
    }

    /// Takes in what has happened and says what to do next.
    pub fn step(self, workspace: &Workspace, event: Event) -> (r: (Deployment, Action))
        ensures
            step_view(r) == self@.step(workspace@, event@),
    {
        match self.stage {
            Stage::Complete => (self, Action::Finish),
            Stage::Aborted => (self, Action::Abort { error: Error::UnexpectedEvent }),
            _ => match self.operation {
                Operation::UploadBuffer => self.upload_step(workspace, event),
                Operation::Deploy => self.deploy_step(workspace, event),
                Operation::Upgrade => self.upgrade_step(workspace, event),
            },
        }
    }
}

/// The place of a stage in the order of the stages.
pub open spec fn stage_rank(stage: Stage) -> int {
    match stage {
        Stage::Start => 0,
        Stage::AuthorityResolved => 1,
        Stage::ArtifactResolved => 2,
        Stage::BufferUploaded => 3,
        Stage::AuthorityTransferred => 4,
        Stage::Complete => 5,
        Stage::Aborted => 6,
    }
}

/// Whether `e` is the event that is waited for.
pub open spec fn awaited(waiting: Waiting, e: EventView) -> bool {
    match waiting {
        Waiting::Artifact => e is Fetched,
        Waiting::Digest => e is Digested,
        Waiting::BufferKey => e is KeypairGenerated,
        Waiting::DeployerKey | Waiting::ProgramKey => e is PubkeyRead,
        Waiting::ProgramInfo => e is Captured,
        Waiting::BufferWrite
        | Waiting::Deploy
        | Waiting::AuthorityTransfer
        | Waiting::Upgrade
        | Waiting::Report => e is Succeeded,
        Waiting::Nothing => false,
    }
}

/// A step keeps what is known in line with what is waited for.
pub proof fn lemma_step_keeps_wf(s: DeploymentView, w: WorkspaceView, e: EventView)
    requires
        s.wf(),
    ensures
        s.step(w, e).0.wf(),
{
}

/// An operation never goes back to an earlier stage, and an authority or
/// a buffer key that is known stays as it is.
pub proof fn lemma_step_goes_forward(s: DeploymentView, w: WorkspaceView, e: EventView)
    requires
        s.wf(),
    ensures
        stage_rank(s.stage) <= stage_rank(s.step(w, e).0.stage),
        s.intent.upgrade_authority is Some ==> s.step(w, e).0.intent.upgrade_authority
            == s.intent.upgrade_authority,
        s.intent.resolved_buffer_key is Some ==> s.step(w, e).0.intent.resolved_buffer_key
            == s.intent.resolved_buffer_key,
{
}

/// The operation goes on whenever the event that it waits for arrives,
/// provided that the workspace holds the deployer of the cluster, the
/// configuration gives the cluster an address and the location is well
/// formed. Nothing else makes it give up.
pub proof fn lemma_awaited_event_goes_on(s: DeploymentView, w: WorkspaceView, e: EventView)
    requires
        s.wf(),
        !s.is_terminal(),
        awaited(s.waiting, e),
        w.deployer_kp_path_if_exists(s.intent.cluster, s.probe) is Ok,
        w.cluster_url(s.intent.cluster) is Some,
        parse_location(s.intent.location_or_buffer_key) is Ok,
    ensures
        !(s.step(w, e).1 is Abort),
        !(s.step(w, e).0.stage is Aborted),
{
}

/// An event other than the awaited one aborts the operation.
pub proof fn lemma_other_event_aborts(s: DeploymentView, w: WorkspaceView, e: EventView)
    requires
        s.wf(),
        !s.is_terminal(),
        !awaited(s.waiting, e),
    ensures
        s.step(w, e).0.stage is Aborted,
        s.step(w, e).1 is Abort,
{
}

/// Whether `command` runs `solana` against the address that the
/// configuration gives to `cluster`, with a keypair named to sign.
pub open spec fn targets(command: CommandView, w: WorkspaceView, cluster: ClusterView) -> bool {
    &&& command.program == "solana"@
    &&& command.args.len() >= 4
    &&& command.args[0] == "--url"@
    &&& w.cluster_url(cluster) == Some(command.args[1])
    &&& command.args[2] == "--keypair"@
}

/// Every invocation that the machine asks for has the same shape: the
/// tool is `solana`, and its first arguments name the address of the
/// cluster of the operation and the keypair that signs.
pub proof fn lemma_tool_targets_the_cluster(s: DeploymentView, w: WorkspaceView, e: EventView)
    ensures
        match s.step(w, e).1 {
            ActionView::Run { command } => targets(command, w, s.intent.cluster),
            ActionView::Capture { command } => targets(command, w, s.intent.cluster),
            _ => true,
        },
{
    let cluster = s.intent.cluster;
    assert forall|keypair: Seq<char>, args: Seq<Seq<char>>|
        signed_command(w, cluster, keypair, args) is Ok implies targets(
        #[trigger] signed_command(w, cluster, keypair, args)->Ok_0,
        w,
        cluster,
    ) by {}
    assert forall|args: Seq<Seq<char>>|
        workspace_command(w, cluster, s.probe, args) is Ok implies targets(
        #[trigger] workspace_command(w, cluster, s.probe, args)->Ok_0,
        w,
        cluster,
    ) by {}
}

/// A failure reported at any stage before the end aborts the operation
/// with the error that was reported: no later step is taken.
pub proof fn lemma_failure_aborts(s: DeploymentView, w: WorkspaceView, error: Error)
    requires
        !s.is_terminal(),
    ensures
        s.step(w, EventView::Failed { error }) == s.aborted(error),
{
}

/// An operation that is over stays as it is, and is never answered with
/// more work.
pub proof fn lemma_terminal_is_absorbing(s: DeploymentView, w: WorkspaceView, e: EventView)
    requires
        s.is_terminal(),
    ensures
        s.step(w, e).0 == s,
        s.step(w, e).1 is Finish || s.step(w, e).1 is Abort,
{
}

/// Every step leaves the operation and what it was asked for unchanged:
/// the cluster, the location and the program.
pub proof fn lemma_step_keeps_request(s: DeploymentView, w: WorkspaceView, e: EventView)
    ensures
        s.step(w, e).0.operation == s.operation,
        s.step(w, e).0.probe == s.probe,
        s.step(w, e).0.intent.cluster == s.intent.cluster,
        s.step(w, e).0.intent.location_or_buffer_key == s.intent.location_or_buffer_key,
        s.step(w, e).0.intent.program_identity == s.intent.program_identity,
{
}

/// The machine answers `Finish` or `Abort` exactly when the operation is
/// over after the step.
pub proof fn lemma_final_answers(s: DeploymentView, w: WorkspaceView, e: EventView)
    ensures
        s.step(w, e).1 is Finish <==> s.step(w, e).0.stage is Complete,
        s.step(w, e).1 is Abort <==> s.step(w, e).0.stage is Aborted,
{
}

/// Once an operation has been given up, nothing that arrives makes the
/// machine ask for the tool, or for any other work.
pub proof fn lemma_no_work_after_abort(s: DeploymentView, w: WorkspaceView, events: Seq<EventView>)
    requires
        s.stage is Aborted,
    ensures
        answers(s, w, events).len() == events.len(),
        forall|i: int| 0 <= i < events.len() ==> #[trigger] answers(s, w, events)[i] is Abort,
    decreases events.len(),
{
    if events.len() > 0 {
        lemma_no_work_after_abort(s, w, events.drop_first());
    }
}

} // verus!
