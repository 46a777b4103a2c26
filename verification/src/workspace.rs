//! A workspace: the directory that holds one deployer keypair for each
//! cluster, and the configuration that goes with it.

use crate::cluster::{cluster_name, Cluster, ClusterView};
use crate::config::{Config, ConfigView, WithPath};
use crate::solana_cmd::{new_solana_cmd, solana_at, Command, CommandView};
use crate::text::strings_view;
use vstd::prelude::*;
use vstd::string::StringExecFns;

verus! {

/// Why the workspace cannot serve a request.
#[derive(Clone, Copy, Debug, PartialEq, Eq, Structural)]
pub enum WorkspaceError {
    /// No configuration file was found; the workspace has to be
    /// initialised first.
    ConfigNotFound,
    /// The deployer keypair of the cluster is absent, the file or the
    /// whole directory of the keypairs; the workspace has to be
    /// initialised first.
    SignerNotFound,
    /// The configuration maps the cluster to no address.
    UnknownCluster,
}

/// What the file system says of the deployer keypair of one cluster.
#[derive(Clone, Copy, Debug, PartialEq, Eq, Structural)]
pub struct DeployerProbe {
    /// The directory of the deployer keypairs exists.
    pub dir_exists: bool,
    /// The keypair file of the cluster exists.
    pub keypair_exists: bool,
}

/// `rel` taken from the directory `base`: an absolute `rel` stands for
/// itself, and a `/` is put between the two where `base` does not end in one.
pub open spec fn join_path(base: Seq<char>, rel: Seq<char>) -> Seq<char> {
    if rel.len() > 0 && rel[0] == '/' {
        rel
    } else if base.len() > 0 && base.last() != '/' {
        base + seq!['/'] + rel
    } else {
        base + rel
    }
}

/// Joins two paths, as in `join_path`.
pub fn path_join(base: &str, rel: &str) -> (r: String)
    ensures
        r@ == join_path(base@, rel@),
{
    let base_len: usize = base.unicode_len();
    if rel.unicode_len() > 0 && rel.get_char(0) == '/' {
        String::from_str(rel)
    } else if base_len > 0 && base.get_char(base_len - 1) != '/' {
        proof {
            reveal_strlit("/");
        }
        let mut r = String::from_str(base);
        r.append("/");
        r.append(rel);
        r
    } else {
        let mut r = String::from_str(base);
        r.append(rel);
        r
    }
}

/// A workspace directory with its configuration.
#[derive(Debug)]
pub struct Workspace {
    pub path: String,
    pub cfg: Config,
}

/// A `Workspace` with its strings taken as sequences of characters.
pub ghost struct WorkspaceView {
    pub path: Seq<char>,
    pub cfg: ConfigView,
}

impl View for Workspace {
    type V = WorkspaceView;

    open spec fn view(&self) -> WorkspaceView {
        WorkspaceView { path: self.path@, cfg: self.cfg@ }
    }
}

impl Clone for Workspace {
    fn clone(&self) -> (r: Workspace)
        ensures
            r@ == self@,
    {
        Workspace { path: self.path.clone(), cfg: self.cfg.clone() }
    }
}

impl Default for Workspace {
    fn default() -> (r: Workspace)
        ensures
            r.path@ == Seq::<char>::empty(),
            r.cfg@ == (ConfigView {
                rpc_endpoints: crate::config::default_rpc(),
                upgrade_authority_keypair: None,
            }),
    {
        Workspace { path: String::new(), cfg: Config::default() }
    }
}

impl WorkspaceView {
    /// The directory of the deployer keypairs.
    pub open spec fn deployer_dir(self) -> Seq<char> {
        join_path(self.path, "deployers/"@)
    }

    /// The keypair file of the deployer of `cluster`.
    pub open spec fn deployer_kp_path(self, cluster: ClusterView) -> Seq<char> {
        join_path(self.deployer_dir(), cluster_name(cluster) + ".json"@)
    }

    /// The keypair file of the deployer of `cluster`, where the file
    /// system holds it.
    pub open spec fn deployer_kp_path_if_exists(
        self,
        cluster: ClusterView,
        probe: DeployerProbe,
    ) -> Result<Seq<char>, WorkspaceError> {
        if probe.dir_exists && probe.keypair_exists {
            Ok(self.deployer_kp_path(cluster))
        } else {
            Err(WorkspaceError::SignerNotFound)
        }
    }

    /// The RPC address that the configuration gives to `cluster`.
    pub open spec fn cluster_url(self, cluster: ClusterView) -> Option<Seq<char>> {
        match cluster {
            ClusterView::Debug => Some(self.cfg.rpc_endpoints.debug),
            ClusterView::Testnet => Some(self.cfg.rpc_endpoints.testnet),
            ClusterView::Mainnet => Some(self.cfg.rpc_endpoints.mainnet),
            ClusterView::Devnet => Some(self.cfg.rpc_endpoints.devnet),
            ClusterView::Localnet => Some(self.cfg.rpc_endpoints.localnet),
            ClusterView::Custom(_, _) => None,
        }
    }
}

/// What the operator is told when the workspace cannot serve `cluster`.
/// Where the signer is wanting, the message names what is missing, the
/// directory of the keypairs or else the keypair file, and says that the
/// workspace may have to be initialised.
pub open spec fn workspace_error_message(
    workspace: WorkspaceView,
    cluster: ClusterView,
    probe: DeployerProbe,
    e: WorkspaceError,
) -> Seq<char> {
    match e {
        WorkspaceError::ConfigNotFound => "Goki.toml not found; please run `goki init`"@,
        WorkspaceError::SignerNotFound => if !probe.dir_exists {
            workspace.deployer_dir() + " does not exist; you may need to run `goki init`"@
        } else {
            "Deployer not found at "@ + workspace.deployer_kp_path(cluster)
                + "; you may need to run `goki init`"@
        },
        WorkspaceError::UnknownCluster => "cluster type not supported"@,
    }
}

/// The command that `args` make when the deployer of the cluster signs,
/// or the error that stands in its way. The keypair is looked for before
/// the address.
pub open spec fn workspace_command(
    workspace: WorkspaceView,
    cluster: ClusterView,
    probe: DeployerProbe,
    args: Seq<Seq<char>>,
) -> Result<CommandView, WorkspaceError> {
    match workspace.deployer_kp_path_if_exists(cluster, probe) {
        Err(e) => Err(e),
        Ok(keypair) => match workspace.cluster_url(cluster) {
            None => Err(WorkspaceError::UnknownCluster),
            Some(url) => Ok(solana_at(url, keypair).with_args(args)),
        },
    }
}

impl Workspace {
    /// The workspace at `path`, with the configuration that was found for
    /// it. Without a configuration there is no workspace.
    pub fn load(path: &str, discovered: Option<WithPath<Config>>) -> (r: Result<
        Workspace,
        WorkspaceError,
    >)
        ensures
            match discovered {
                Some(found) => r is Ok && r->Ok_0.path@ == path@ && r->Ok_0.cfg
                    == found.spec_inner(),
                None => r == Err::<Workspace, WorkspaceError>(WorkspaceError::ConfigNotFound),
            },
    {
        match discovered {
            Some(found) => Ok(Workspace { path: String::from_str(path), cfg: found.into_inner() }),
            None => Err(WorkspaceError::ConfigNotFound),
        }
    }

    /// The same workspace with the configuration found anew.
    pub fn reload(&self, discovered: Option<WithPath<Config>>) -> (r: Result<
        Workspace,
        WorkspaceError,
    >)
        ensures
            match discovered {
                Some(found) => r is Ok && r->Ok_0.path@ == self.path@ && r->Ok_0.cfg
                    == found.spec_inner(),
                None => r == Err::<Workspace, WorkspaceError>(WorkspaceError::ConfigNotFound),
            },
    {
        Workspace::load(self.path.as_str(), discovered)
    }

    /// The directory of the deployer keypairs.
    pub fn deployer_dir(&self) -> (r: String)
        ensures
            r@ == self@.deployer_dir(),
    {
        path_join(self.path.as_str(), "deployers/")
    }

    /// The keypair file of the deployer of `cluster`, whether it exists
    /// or not.
    pub fn get_deployer_kp_path(&self, cluster: &Cluster) -> (r: String)
        ensures
            r@ == self@.deployer_kp_path(cluster@),
    {
        let deployer_dir = self.deployer_dir();
        let mut file = cluster.name();
        file.append(".json");
        path_join(deployer_dir.as_str(), file.as_str())
    }

    /// The keypair file of the deployer of `cluster`, given what the file
    /// system says of it.
    pub fn get_deployer_kp_path_if_exists(&self, cluster: &Cluster, probe: DeployerProbe) -> (r:
        Result<String, WorkspaceError>)
        ensures
            match r {
                Ok(path) => self@.deployer_kp_path_if_exists(cluster@, probe) == Ok::<
                    Seq<char>,
                    WorkspaceError,
                >(path@),
                Err(e) => self@.deployer_kp_path_if_exists(cluster@, probe) == Err::<
                    Seq<char>,
                    WorkspaceError,
                >(e),
            },
    {
        if probe.dir_exists && probe.keypair_exists {
            Ok(self.get_deployer_kp_path(cluster))
        } else {
            Err(WorkspaceError::SignerNotFound)
        }
    }

    /// The message for the operator about an error that concerns
    /// `cluster`, given what the file system says of its deployer keypair.
    pub fn explain(&self, cluster: &Cluster, probe: DeployerProbe, e: WorkspaceError) -> (r:
        String)
        ensures
            r@ == workspace_error_message(self@, cluster@, probe, e),
    {
        match e {
            WorkspaceError::ConfigNotFound => String::from_str(
                "Goki.toml not found; please run `goki init`",
            ),
            WorkspaceError::SignerNotFound => {
                if !probe.dir_exists {
                    let mut r = self.deployer_dir();
                    r.append(" does not exist; you may need to run `goki init`");
                    r
                } else {
                    let mut r = String::from_str("Deployer not found at ");
                    r.append(self.get_deployer_kp_path(cluster).as_str());
                    r.append("; you may need to run `goki init`");
                    r
                }
            },
            WorkspaceError::UnknownCluster => String::from_str("cluster type not supported"),
        }
    }

    /// Gets the address that the configuration gives to `cluster`.
    pub fn get_cluster_url(&self, cluster: &Cluster) -> (r: Result<&str, WorkspaceError>)
        ensures
            match r {
                Ok(url) => self@.cluster_url(cluster@) == Some(url@),
                Err(e) => e == WorkspaceError::UnknownCluster && self@.cluster_url(cluster@)
                    is None,
            },
    {
        match cluster {
            Cluster::Debug => Ok(self.cfg.rpc_endpoints.debug.as_str()),
            Cluster::Testnet => Ok(self.cfg.rpc_endpoints.testnet.as_str()),
            Cluster::Mainnet => Ok(self.cfg.rpc_endpoints.mainnet.as_str()),
            Cluster::Devnet => Ok(self.cfg.rpc_endpoints.devnet.as_str()),
            Cluster::Localnet => Ok(self.cfg.rpc_endpoints.localnet.as_str()),
            Cluster::Custom(_, _) => Err(WorkspaceError::UnknownCluster),
        }
    }

    /// Tells `command` which cluster to talk to and that the deployer of
    /// the cluster signs. On an error the command is left as it was.
    pub fn add_cluster_args(&self, command: &mut Command, cluster: &Cluster, probe: DeployerProbe) -> (r:
        Result<(), WorkspaceError>)
        ensures
            match r {
                Ok(_) => self@.deployer_kp_path_if_exists(cluster@, probe) is Ok
                    && self@.cluster_url(cluster@) is Some && final(command)@ == old(
                    command,
                )@.with_args(
                    seq![
                        "--url"@,
                        self@.cluster_url(cluster@)->Some_0,
                        "--keypair"@,
                        self@.deployer_kp_path_if_exists(cluster@, probe)->Ok_0,
                    ],
                ),
                Err(e) => final(command)@ == old(command)@ && workspace_command(
                    self@,
                    cluster@,
                    probe,
                    Seq::empty(),
                ) == Err::<CommandView, WorkspaceError>(e),
            },
    {
        let kp_path = match self.get_deployer_kp_path_if_exists(cluster, probe) {
            Ok(path) => path,
            Err(e) => {
                return Err(e);
            },
        };
        let url = match self.get_cluster_url(cluster) {
            Ok(url) => url,
            Err(e) => {
                return Err(e);
            },
        };
        let ghost before = command@;
        command.arg("--url");
        command.arg(url);
        command.arg("--keypair");
        command.arg_owned(kp_path);
        assert(command@.args =~= before.with_args(
            seq!["--url"@, url@, "--keypair"@, kp_path@],
        ).args);
        Ok(())
    }

    /// Builds the command that runs `solana` on `cluster` with `args`,
    /// signed by the deployer of the cluster.
    pub fn exec_deployer_command(&self, cluster: &Cluster, probe: DeployerProbe, args: Vec<String>) -> (r:
        Result<Command, WorkspaceError>)
        ensures
            crate::solana_cmd::command_result_view(r) == workspace_command(
                self@,
                cluster@,
                probe,
                strings_view(args@),
            ),
    {
        let mut command = new_solana_cmd();
        match self.add_cluster_args(&mut command, cluster, probe) {
            Ok(_) => {},
            Err(e) => {
                return Err(e);
            },
        }
        let ghost before = command@;
        let mut args = args;
        let ghost more = strings_view(args@);
        command.args.append(&mut args);
        assert(command@.args =~= before.args + more);
        Ok(command)
    }
}

} // verus!
