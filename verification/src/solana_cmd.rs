//! The command lines of the `solana` tool.
//!
//! Each function builds the argument list of one invocation; running it
//! is left to the caller. Nothing here passes through a shell.

use crate::cluster::{Cluster, ClusterView};
use crate::pubkey::{pubkey_encode, Pubkey};
use crate::text::{push_str, push_string, strings_view};
use crate::workspace::{
    workspace_command, DeployerProbe, Workspace, WorkspaceError, WorkspaceView,
};
use vstd::prelude::*;
use vstd::string::StringExecFns;

verus! {

/// A program and the arguments to run it with.
#[derive(Debug)]
pub struct Command {
    pub program: String,
    pub args: Vec<String>,
}

/// A `Command` with its strings taken as sequences of characters.
pub ghost struct CommandView {
    pub program: Seq<char>,
    pub args: Seq<Seq<char>>,
}

impl View for Command {
    type V = CommandView;

    open spec fn view(&self) -> CommandView {
        CommandView { program: self.program@, args: strings_view(self.args@) }
    }
}

impl CommandView {
    /// The command with `more` behind its arguments.
    pub open spec fn with_args(self, more: Seq<Seq<char>>) -> CommandView {
        CommandView { program: self.program, args: self.args + more }
    }
}

/// The `solana` tool with no arguments.
pub open spec fn solana() -> CommandView {
    CommandView { program: "solana"@, args: Seq::empty() }
}

/// The `solana` tool told which cluster to talk to and which keypair to
/// sign with.
pub open spec fn solana_at(url: Seq<char>, keypair: Seq<char>) -> CommandView {
    solana().with_args(seq!["--url"@, url, "--keypair"@, keypair])
}

impl Command {
    /// Adds one argument.
    pub fn arg(&mut self, value: &str)
        ensures
            final(self)@ == old(self)@.with_args(seq![value@]),
    {
        push_str(&mut self.args, value);
        assert(strings_view(old(self).args@).push(value@) =~= strings_view(old(self).args@)
            + seq![value@]);
    }

    /// Adds one argument, taking the string.
    pub fn arg_owned(&mut self, value: String)
        ensures
            final(self)@ == old(self)@.with_args(seq![value@]),
    {
        push_string(&mut self.args, value);
        assert(strings_view(old(self).args@).push(value@) =~= strings_view(old(self).args@)
            + seq![value@]);
    }
}

/// A command that runs `solana`, with no arguments yet.
pub fn new_solana_cmd() -> (r: Command)
    ensures
        r@ == solana(),
{
    let r = Command { program: String::from_str("solana"), args: Vec::new() };
    assert(strings_view(r.args@) =~= Seq::<Seq<char>>::empty());
    r
}

/// The arguments that hand a buffer to a new authority.
pub open spec fn set_buffer_authority_args(buffer_key: Seq<u8>, authority: Seq<char>) -> Seq<
    Seq<char>,
> {
    seq![
        "program"@,
        "set-buffer-authority"@,
        pubkey_encode(buffer_key),
        "--new-buffer-authority"@,
        authority,
    ]
}

/// The arguments that hand a program to a new upgrade authority.
pub open spec fn set_upgrade_authority_args(program_id: Seq<u8>, new_authority: Seq<char>) -> Seq<
    Seq<char>,
> {
    seq![
        "program"@,
        "set-upgrade-authority"@,
        pubkey_encode(program_id),
        "--new-upgrade-authority"@,
        new_authority,
    ]
}

/// The arguments that write a program file into a buffer.
pub open spec fn write_buffer_args(program_file: Seq<char>, buffer_kp_file: Seq<char>) -> Seq<
    Seq<char>,
> {
    seq!["program"@, "write-buffer"@, program_file, "--buffer"@, buffer_kp_file]
}

/// The arguments that deploy a program file under a program keypair.
pub open spec fn deploy_args(program_file: Seq<char>, program_kp_path: Seq<char>) -> Seq<
    Seq<char>,
> {
    seq!["program"@, "deploy"@, "--program-id"@, program_kp_path, program_file]
}

/// The arguments that replace a program by the contents of a buffer.
pub open spec fn upgrade_args(
    upgrade_authority_kp: Seq<char>,
    buffer_key: Seq<u8>,
    program_id: Seq<char>,
) -> Seq<Seq<char>> {
    seq![
        "program"@,
        "deploy"@,
        "--buffer"@,
        pubkey_encode(buffer_key),
        "--program-id"@,
        program_id,
        "--upgrade-authority"@,
        upgrade_authority_kp,
    ]
}

/// The command that `args` make when the signer is given by its keypair
/// file, or the error where the cluster has no address.
pub open spec fn signed_command(
    workspace: WorkspaceView,
    cluster: ClusterView,
    keypair: Seq<char>,
    args: Seq<Seq<char>>,
) -> Result<CommandView, WorkspaceError> {
    match workspace.cluster_url(cluster) {
        Some(url) => Ok(solana_at(url, keypair).with_args(args)),
        None => Err(WorkspaceError::UnknownCluster),
    }
}

/// A command taken by its view.
pub open spec fn command_result_view(r: Result<Command, WorkspaceError>) -> Result<
    CommandView,
    WorkspaceError,
> {
    match r {
        Ok(command) => Ok(command@),
        Err(e) => Err(e),
    }
}

/// Builds the command that runs `solana` on `cluster` with `args`, signed
/// by the keypair in the file `keypair`.
pub fn signed(workspace: &Workspace, cluster: &Cluster, keypair: &str, args: Vec<String>) -> (r:
    Result<Command, WorkspaceError>)
    ensures
        command_result_view(r) == signed_command(
            workspace@,
            cluster@,
            keypair@,
            strings_view(args@),
        ),
{
    match workspace.get_cluster_url(cluster) {
        Ok(url) => {
            let mut command = new_solana_cmd();
            command.arg("--url");
            command.arg(url);
            command.arg("--keypair");
            command.arg(keypair);
            let ghost before = command@;
            let mut args = args;
            let ghost more = strings_view(args@);
            command.args.append(&mut args);
            assert(command@.args =~= before.args + more);
            assert(before.args =~= solana_at(url@, keypair@).args);
            Ok(command)
        },
        Err(e) => Err(e),
    }
}

/// Sets the buffer authority of a buffer; the deployer of the cluster signs.
pub fn set_buffer_authority(
    workspace: &Workspace,
    cluster: &Cluster,
    probe: DeployerProbe,
    buffer_key: &Pubkey,
    authority: &str,
) -> (r: Result<Command, WorkspaceError>)
    ensures
        command_result_view(r) == workspace_command(
            workspace@,
            cluster@,
            probe,
            set_buffer_authority_args(buffer_key@, authority@),
        ),
{
    let mut args: Vec<String> = Vec::new();
    push_str(&mut args, "program");
    push_str(&mut args, "set-buffer-authority");
    push_string(&mut args, buffer_key.to_string());
    push_str(&mut args, "--new-buffer-authority");
    push_str(&mut args, authority);
    assert(strings_view(args@) =~= set_buffer_authority_args(buffer_key@, authority@));
    workspace.exec_deployer_command(cluster, probe, args)
}

/// Sets the upgrade authority of a program; the current authority signs.
pub fn set_upgrade_authority(
    workspace: &Workspace,
    cluster: &Cluster,
    program_id: &Pubkey,
    current_authority: &str,
    new_authority: &str,
) -> (r: Result<Command, WorkspaceError>)
    ensures
        command_result_view(r) == signed_command(
            workspace@,
            cluster@,
            current_authority@,
            set_upgrade_authority_args(program_id@, new_authority@),
        ),
{
    let mut args: Vec<String> = Vec::new();
    push_str(&mut args, "program");
    push_str(&mut args, "set-upgrade-authority");
    push_string(&mut args, program_id.to_string());
    push_str(&mut args, "--new-upgrade-authority");
    push_str(&mut args, new_authority);
    assert(strings_view(args@) =~= set_upgrade_authority_args(program_id@, new_authority@));
    signed(workspace, cluster, current_authority, args)
}

/// Writes a program buffer; the deployer of the cluster signs.
pub fn write_buffer(
    workspace: &Workspace,
    cluster: &Cluster,
    probe: DeployerProbe,
    program_file: &str,
    buffer_kp_file: &str,
) -> (r: Result<Command, WorkspaceError>)
    ensures
        command_result_view(r) == workspace_command(
            workspace@,
            cluster@,
            probe,
            write_buffer_args(program_file@, buffer_kp_file@),
        ),
{
    let mut args: Vec<String> = Vec::new();
    push_str(&mut args, "program");
    push_str(&mut args, "write-buffer");
    push_str(&mut args, program_file);
    push_str(&mut args, "--buffer");
    push_str(&mut args, buffer_kp_file);
    assert(strings_view(args@) =~= write_buffer_args(program_file@, buffer_kp_file@));
    workspace.exec_deployer_command(cluster, probe, args)
}

/// Deploys a program; the deployer of the cluster signs.
pub fn deploy(
    workspace: &Workspace,
    cluster: &Cluster,
    probe: DeployerProbe,
    program_file: &str,
    program_kp_path: &str,
) -> (r: Result<Command, WorkspaceError>)
    ensures
        command_result_view(r) == workspace_command(
            workspace@,
            cluster@,
            probe,
            deploy_args(program_file@, program_kp_path@),
        ),
{
    let mut args: Vec<String> = Vec::new();
    push_str(&mut args, "program");
    push_str(&mut args, "deploy");
    push_str(&mut args, "--program-id");
    push_str(&mut args, program_kp_path);
    push_str(&mut args, program_file);
    assert(strings_view(args@) =~= deploy_args(program_file@, program_kp_path@));
    workspace.exec_deployer_command(cluster, probe, args)
}

/// Upgrades a program from a buffer; the upgrade authority signs.
pub fn upgrade(
    workspace: &Workspace,
    cluster: &Cluster,
    upgrade_authority_kp: &str,
    buffer_key: &Pubkey,
    program_id: &str,
) -> (r: Result<Command, WorkspaceError>)
    ensures
        command_result_view(r) == signed_command(
            workspace@,
            cluster@,
            upgrade_authority_kp@,
            upgrade_args(upgrade_authority_kp@, buffer_key@, program_id@),
        ),
{
    let mut args: Vec<String> = Vec::new();
    push_str(&mut args, "program");
    push_str(&mut args, "deploy");
    push_str(&mut args, "--buffer");
    push_string(&mut args, buffer_key.to_string());
    push_str(&mut args, "--program-id");
    push_str(&mut args, program_id);
    push_str(&mut args, "--upgrade-authority");
    push_str(&mut args, upgrade_authority_kp);
    assert(strings_view(args@) =~= upgrade_args(upgrade_authority_kp@, buffer_key@, program_id@));
    signed(workspace, cluster, upgrade_authority_kp, args)
}

} // verus!
