use goki::cluster::Cluster;
use goki::config::{Config, RpcOverrides, WithPath, RPC};
use goki::solana_cmd::new_solana_cmd;
use goki::workspace::{path_join, DeployerProbe, Workspace, WorkspaceError};

const PRESENT: DeployerProbe = DeployerProbe { dir_exists: true, keypair_exists: true };

fn workspace() -> Workspace {
    Workspace { path: ".goki/".to_string(), cfg: Config::default() }
}

#[test]
fn default_endpoints_are_the_public_ones() {
    let rpc = RPC::default();
    assert_eq!(rpc.mainnet, "https://api.mainnet-beta.solana.com");
    assert_eq!(rpc.devnet, "https://api.devnet.solana.com");
    assert_eq!(rpc.testnet, "https://api.testnet.solana.com");
    assert_eq!(rpc.localnet, "http://127.0.0.1:8899");
    assert_eq!(rpc.debug, "http://34.90.18.145:8899");
    let cfg = Config::default();
    assert_eq!(cfg.rpc_endpoints.mainnet, "https://api.mainnet-beta.solana.com");
    assert_eq!(cfg.upgrade_authority_keypair, None);
    assert_eq!(cfg.clone().rpc_endpoints.debug, "http://34.90.18.145:8899");
}

#[test]
fn missing_endpoints_fall_back_to_the_default_ones() {
    let cfg = Config::from_raw(None, Some("authority.json".to_string()));
    assert_eq!(cfg.rpc_endpoints.devnet, "https://api.devnet.solana.com");
    assert_eq!(cfg.rpc_endpoints.mainnet, "https://api.mainnet-beta.solana.com");
    assert_eq!(cfg.upgrade_authority_keypair, Some("authority.json".to_string()));

    let overrides = RpcOverrides {
        mainnet: None,
        devnet: Some("http://localhost:9000".to_string()),
        testnet: None,
        localnet: Some("http://localhost:9001".to_string()),
        debug: None,
    };
    let cfg = Config::from_raw(Some(overrides), None);
    assert_eq!(cfg.rpc_endpoints.devnet, "http://localhost:9000");
    assert_eq!(cfg.rpc_endpoints.localnet, "http://localhost:9001");
    assert_eq!(cfg.rpc_endpoints.mainnet, "https://api.mainnet-beta.solana.com");
    assert_eq!(cfg.rpc_endpoints.testnet, "https://api.testnet.solana.com");
    assert_eq!(cfg.rpc_endpoints.debug, "http://34.90.18.145:8899");
    assert_eq!(cfg.upgrade_authority_keypair, None);

    let all = RpcOverrides {
        mainnet: Some("m".to_string()),
        devnet: Some("d".to_string()),
        testnet: Some("t".to_string()),
        localnet: Some("l".to_string()),
        debug: Some("g".to_string()),
    };
    let rpc = RPC::from_overrides(all);
    assert_eq!(
        (rpc.mainnet, rpc.devnet, rpc.testnet, rpc.localnet, rpc.debug),
        ("m".to_string(), "d".to_string(), "t".to_string(), "l".to_string(), "g".to_string())
    );
}

#[test]
fn configuration_file_is_found_by_its_name() {
    let names = |v: &[&str]| v.iter().map(|s| s.to_string()).collect::<Vec<_>>();
    assert_eq!(Config::discover(&names(&["src", "Goki.toml", "Cargo.toml"])), Some(1));
    assert_eq!(Config::discover(&names(&["Goki.toml", "Goki.toml"])), Some(0));
    assert_eq!(Config::discover(&names(&["goki.toml", "Goki.tom", "Goki.toml.bak"])), None);
    assert_eq!(Config::discover(&names(&[])), None);
}

#[test]
fn with_path_keeps_value_and_path() {
    let found = WithPath::new(7u32, "/work/Goki.toml".to_string());
    assert_eq!(found.path(), "/work/Goki.toml");
    assert_eq!(*found.as_ref(), 7);
    assert_eq!(found.into_inner(), 7);
}

#[test]
fn workspace_needs_a_configuration() {
    let mut cfg = Config::default();
    cfg.upgrade_authority_keypair = Some("authority.json".to_string());
    let loaded = Workspace::load(".goki/", Some(WithPath::new(cfg, "Goki.toml".to_string())));
    let loaded = loaded.expect("a configuration was given");
    assert_eq!(loaded.path, ".goki/");
    assert_eq!(loaded.cfg.upgrade_authority_keypair, Some("authority.json".to_string()));

    assert!(matches!(
        Workspace::load(".goki/", None),
        Err(WorkspaceError::ConfigNotFound)
    ));
}

#[test]
fn reload_keeps_the_path() {
    let mut cfg = Config::default();
    cfg.rpc_endpoints.devnet = "http://localhost:9000".to_string();
    let reloaded = workspace()
        .reload(Some(WithPath::new(cfg, "Goki.toml".to_string())))
        .expect("a configuration was given");
    assert_eq!(reloaded.path, ".goki/");
    assert_eq!(reloaded.cfg.rpc_endpoints.devnet, "http://localhost:9000");
    assert!(matches!(workspace().reload(None), Err(WorkspaceError::ConfigNotFound)));
}

#[test]
fn paths_are_joined_with_one_separator() {
    assert_eq!(path_join(".goki/", "deployers/"), ".goki/deployers/");
    assert_eq!(path_join(".goki", "deployers/"), ".goki/deployers/");
    assert_eq!(path_join("", "deployers/"), "deployers/");
    assert_eq!(path_join(".goki/", "/etc/keys"), "/etc/keys");
    assert_eq!(path_join("/", "a"), "/a");
    assert_eq!(path_join("a", ""), "a/");
}

#[test]
fn deployer_keypairs_are_named_after_their_cluster() {
    let w = workspace();
    assert_eq!(w.deployer_dir(), ".goki/deployers/");
    assert_eq!(w.get_deployer_kp_path(&Cluster::Devnet), ".goki/deployers/devnet.json");
    assert_eq!(w.get_deployer_kp_path(&Cluster::Testnet), ".goki/deployers/testnet.json");
    assert_eq!(w.get_deployer_kp_path(&Cluster::Mainnet), ".goki/deployers/mainnet.json");
    assert_eq!(w.get_deployer_kp_path(&Cluster::Localnet), ".goki/deployers/localnet.json");
    assert_eq!(w.get_deployer_kp_path(&Cluster::Debug), ".goki/deployers/debug.json");
    let other = Workspace { path: "/srv/ws".to_string(), cfg: Config::default() };
    assert_eq!(other.deployer_dir(), "/srv/ws/deployers/");
    assert_eq!(other.get_deployer_kp_path(&Cluster::Devnet), "/srv/ws/deployers/devnet.json");
}

#[test]
fn absent_signer_is_reported() {
    let w = workspace();
    assert_eq!(
        w.get_deployer_kp_path_if_exists(&Cluster::Devnet, PRESENT),
        Ok(".goki/deployers/devnet.json".to_string())
    );
    assert_eq!(
        w.get_deployer_kp_path_if_exists(
            &Cluster::Devnet,
            DeployerProbe { dir_exists: false, keypair_exists: false }
        ),
        Err(WorkspaceError::SignerNotFound)
    );
    assert_eq!(
        w.get_deployer_kp_path_if_exists(
            &Cluster::Devnet,
            DeployerProbe { dir_exists: false, keypair_exists: true }
        ),
        Err(WorkspaceError::SignerNotFound)
    );
    assert_eq!(
        w.get_deployer_kp_path_if_exists(
            &Cluster::Devnet,
            DeployerProbe { dir_exists: true, keypair_exists: false }
        ),
        Err(WorkspaceError::SignerNotFound)
    );
}

#[test]
fn each_named_cluster_has_an_address() {
    let mut w = workspace();
    w.cfg.rpc_endpoints.localnet = "http://localhost:9000".to_string();
    assert_eq!(w.get_cluster_url(&Cluster::Mainnet), Ok("https://api.mainnet-beta.solana.com"));
    assert_eq!(w.get_cluster_url(&Cluster::Devnet), Ok("https://api.devnet.solana.com"));
    assert_eq!(w.get_cluster_url(&Cluster::Testnet), Ok("https://api.testnet.solana.com"));
    assert_eq!(w.get_cluster_url(&Cluster::Localnet), Ok("http://localhost:9000"));
    assert_eq!(w.get_cluster_url(&Cluster::Debug), Ok("http://34.90.18.145:8899"));
    assert_eq!(
        w.get_cluster_url(&Cluster::Custom(
            "http://example.com".to_string(),
            "ws://example.com".to_string()
        )),
        Err(WorkspaceError::UnknownCluster)
    );
}

#[test]
fn cluster_arguments_name_address_and_signer() {
    let w = workspace();
    let mut command = new_solana_cmd();
    assert_eq!(command.program, "solana");
    assert!(command.args.is_empty());
    assert_eq!(w.add_cluster_args(&mut command, &Cluster::Testnet, PRESENT), Ok(()));
    assert_eq!(
        command.args,
        vec![
            "--url",
            "https://api.testnet.solana.com",
            "--keypair",
            ".goki/deployers/testnet.json"
        ]
    );
}

#[test]
fn command_is_left_alone_on_an_error() {
    let w = workspace();
    let mut command = new_solana_cmd();
    command.arg("first");
    assert_eq!(
        w.add_cluster_args(
            &mut command,
            &Cluster::Testnet,
            DeployerProbe { dir_exists: true, keypair_exists: false }
        ),
        Err(WorkspaceError::SignerNotFound)
    );
    assert_eq!(command.args, vec!["first"]);
    let custom = Cluster::Custom("http://example.com".to_string(), "ws://example.com".to_string());
    assert_eq!(
        w.add_cluster_args(&mut command, &custom, PRESENT),
        Err(WorkspaceError::UnknownCluster)
    );
    assert_eq!(command.args, vec!["first"]);
    assert_eq!(
        w.add_cluster_args(
            &mut command,
            &custom,
            DeployerProbe { dir_exists: false, keypair_exists: false }
        ),
        Err(WorkspaceError::SignerNotFound)
    );
}

#[test]
fn deployer_command_goes_on_with_the_arguments_given() {
    let w = workspace();
    let command = w
        .exec_deployer_command(
            &Cluster::Devnet,
            PRESENT,
            vec!["airdrop".to_string(), "1".to_string()],
        )
        .expect("signer and address are there");
    assert_eq!(command.program, "solana");
    assert_eq!(
        command.args,
        vec![
            "--url",
            "https://api.devnet.solana.com",
            "--keypair",
            ".goki/deployers/devnet.json",
            "airdrop",
            "1"
        ]
    );
    assert!(matches!(
        w.exec_deployer_command(
            &Cluster::Devnet,
            DeployerProbe { dir_exists: false, keypair_exists: false },
            vec![]
        ),
        Err(WorkspaceError::SignerNotFound)
    ));
}

#[test]
fn cluster_is_written_by_its_name() {
    assert_eq!(Cluster::Mainnet.name(), "mainnet");
    assert_eq!(Cluster::Testnet.name(), "testnet");
    assert_eq!(Cluster::Devnet.name(), "devnet");
    assert_eq!(Cluster::Localnet.name(), "localnet");
    assert_eq!(Cluster::Debug.name(), "debug");
    let custom = Cluster::Custom("http://example.com".to_string(), "ws://example.com".to_string());
    assert_eq!(custom.name(), "http://example.com");
    assert_eq!(custom.clone().name(), "http://example.com");
    assert!(Cluster::Mainnet.is_mainnet());
    assert!(!Cluster::Devnet.is_mainnet());
    assert!(!custom.is_mainnet());
}

#[test]
fn cluster_is_read_from_its_name() {
    assert!(matches!(Cluster::parse("mainnet"), Ok(Cluster::Mainnet)));
    assert!(matches!(Cluster::parse("testnet"), Ok(Cluster::Testnet)));
    assert!(matches!(Cluster::parse("devnet"), Ok(Cluster::Devnet)));
    assert!(matches!(Cluster::parse("localnet"), Ok(Cluster::Localnet)));
    assert!(matches!(Cluster::parse("debug"), Ok(Cluster::Debug)));
    for name in ["", "Mainnet", "mainnet ", "main", "m", "http://example.com", "devnets"] {
        assert!(matches!(Cluster::parse(name), Err(WorkspaceError::UnknownCluster)));
    }
    for cluster in [
        Cluster::Mainnet,
        Cluster::Testnet,
        Cluster::Devnet,
        Cluster::Localnet,
        Cluster::Debug,
    ] {
        assert_eq!(Cluster::parse(&cluster.name()).map(|c| c.name()), Ok(cluster.name()));
    }
}

#[test]
fn absent_signer_is_explained_with_guidance() {
    let w = workspace();
    let no_dir = DeployerProbe { dir_exists: false, keypair_exists: false };
    let no_file = DeployerProbe { dir_exists: true, keypair_exists: false };
    assert_eq!(
        w.explain(&Cluster::Devnet, no_dir, WorkspaceError::SignerNotFound),
        ".goki/deployers/ does not exist; you may need to run `goki init`"
    );
    assert_eq!(
        w.explain(&Cluster::Testnet, no_file, WorkspaceError::SignerNotFound),
        "Deployer not found at .goki/deployers/testnet.json; you may need to run `goki init`"
    );
    assert_eq!(
        w.explain(&Cluster::Devnet, PRESENT, WorkspaceError::ConfigNotFound),
        "Goki.toml not found; please run `goki init`"
    );
    assert_eq!(
        w.explain(&Cluster::Devnet, PRESENT, WorkspaceError::UnknownCluster),
        "cluster type not supported"
    );
}

#[test]
fn workspace_is_copied_with_its_configuration() {
    let mut w = workspace();
    w.cfg.upgrade_authority_keypair = Some("authority.json".to_string());
    let copy = w.clone();
    assert_eq!(copy.path, ".goki/");
    assert_eq!(copy.cfg.upgrade_authority_keypair, Some("authority.json".to_string()));
    let empty = Workspace::default();
    assert_eq!(empty.path, "");
    assert_eq!(empty.cfg.rpc_endpoints.devnet, "https://api.devnet.solana.com");
    assert_eq!(empty.deployer_dir(), "deployers/");
}

#[test]
fn optional_string_is_copied() {
    assert_eq!(
        goki::config::clone_optional(&Some("authority.json".to_string())),
        Some("authority.json".to_string())
    );
    assert_eq!(goki::config::clone_optional(&None), None);
}
