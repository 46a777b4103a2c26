use goki::cluster::Cluster;
use goki::config::{Config, WithPath};
use goki::location::{FetchRequest, LocationError};
use goki::pubkey::Pubkey;
use goki::subcommands::airdrop::Next;
use goki::subcommands::init::KeypairStep;
use goki::subcommands::{airdrop, balance, init, pull, show, transfer};
use goki::workflow::Error;
use goki::workspace::{DeployerProbe, Workspace, WorkspaceError};

const PRESENT: DeployerProbe = DeployerProbe { dir_exists: true, keypair_exists: true };
const NO_KEYPAIR: DeployerProbe = DeployerProbe { dir_exists: true, keypair_exists: false };

fn workspace() -> Workspace {
    Workspace { path: ".goki/".to_string(), cfg: Config::default() }
}

#[test]
fn airdrop_is_asked_of_the_cluster_by_the_deployer() {
    let command = airdrop::process(&workspace(), &Cluster::Devnet, PRESENT, "2")
        .expect("signer and address are there");
    assert_eq!(command.program, "solana");
    assert_eq!(
        command.args,
        vec![
            "--url",
            "https://api.devnet.solana.com",
            "--keypair",
            ".goki/deployers/devnet.json",
            "airdrop",
            "2"
        ]
    );
}

#[test]
fn airdrop_is_refused_on_mainnet() {
    for probe in [PRESENT, NO_KEYPAIR] {
        assert!(matches!(
            airdrop::process(&workspace(), &Cluster::Mainnet, probe, "1"),
            Err(Error::MainnetSafetyViolation)
        ));
    }
    assert!(matches!(
        airdrop::process(&workspace(), &Cluster::Testnet, NO_KEYPAIR, "1"),
        Err(Error::Workspace(WorkspaceError::SignerNotFound))
    ));
}

#[test]
fn airdrop_pauses_between_requests_only() {
    assert_eq!(airdrop::next(0, 3, 5000), Next::Pause { millis: 5000 });
    assert_eq!(airdrop::next(1, 3, 5000), Next::Pause { millis: 5000 });
    assert_eq!(airdrop::next(2, 3, 5000), Next::Done);
    assert_eq!(airdrop::next(0, 1, 5000), Next::Done);
    assert_eq!(airdrop::next(0, 0, 5000), Next::Done);
    assert_eq!(airdrop::next(7, 3, 5000), Next::Done);
    assert_eq!(airdrop::next(u32::MAX - 1, u32::MAX, 1), Next::Done);
    assert_eq!(airdrop::next(u32::MAX - 2, u32::MAX, 1), Next::Pause { millis: 1 });
}

#[test]
fn balance_asks_for_the_account_of_the_deployer() {
    let command = balance::process(&workspace(), &Cluster::Testnet, PRESENT)
        .expect("signer and address are there");
    assert_eq!(
        command.args,
        vec![
            "--url",
            "https://api.testnet.solana.com",
            "--keypair",
            ".goki/deployers/testnet.json",
            "account",
            ".goki/deployers/testnet.json"
        ]
    );
    assert!(matches!(
        balance::process(&workspace(), &Cluster::Testnet, NO_KEYPAIR),
        Err(Error::Workspace(WorkspaceError::SignerNotFound))
    ));
}

#[test]
fn transfer_is_signed_by_the_upgrade_authority() {
    let mut w = workspace();
    w.cfg.upgrade_authority_keypair = Some("authority.json".to_string());
    let command = transfer::process(&w, &Cluster::Devnet, NO_KEYPAIR, "deployer", "1.5")
        .expect("the authority is configured");
    assert_eq!(
        command.args,
        vec![
            "--url",
            "https://api.devnet.solana.com",
            "--keypair",
            "authority.json",
            "transfer",
            ".goki/deployers/devnet.json",
            "1.5"
        ]
    );
    let command = transfer::process(&workspace(), &Cluster::Devnet, PRESENT, "someone", "1")
        .expect("the deployer is there");
    assert_eq!(
        command.args,
        vec![
            "--url",
            "https://api.devnet.solana.com",
            "--keypair",
            ".goki/deployers/devnet.json",
            "transfer",
            "someone",
            "1"
        ]
    );
}

#[test]
fn transfer_is_refused_on_mainnet() {
    let mut w = workspace();
    w.cfg.upgrade_authority_keypair = Some("authority.json".to_string());
    assert!(matches!(
        transfer::process(&w, &Cluster::Mainnet, PRESENT, "deployer", "1"),
        Err(Error::MainnetSafetyViolation)
    ));
    assert!(matches!(
        transfer::process(&workspace(), &Cluster::Devnet, NO_KEYPAIR, "deployer", "1"),
        Err(Error::Workspace(WorkspaceError::SignerNotFound))
    ));
}

#[test]
fn deployers_are_listed_by_cluster() {
    let system = Pubkey::new_from_array([0u8; 32]);
    assert_eq!(
        show::process(true, Some(system), None, Some(system)),
        Ok(vec![
            "Deployers:".to_string(),
            "devnet: 11111111111111111111111111111111".to_string(),
            "testnet: not found".to_string(),
            "mainnet: 11111111111111111111111111111111".to_string(),
        ])
    );
    assert_eq!(
        show::process(false, Some(system), None, None),
        Err(Error::Workspace(WorkspaceError::SignerNotFound))
    );
}

#[test]
fn init_keeps_a_configuration_that_exists() {
    let mut cfg = Config::default();
    cfg.upgrade_authority_keypair = Some("authority.json".to_string());
    let (w, write) = init::process(
        ".goki/".to_string(),
        Some(WithPath::new(cfg, "Goki.toml".to_string())),
    );
    assert!(!write);
    assert_eq!(w.path, ".goki/");
    assert_eq!(w.cfg.upgrade_authority_keypair, Some("authority.json".to_string()));

    let (w, write) = init::process(".goki/".to_string(), None);
    assert!(write);
    assert_eq!(w.cfg.upgrade_authority_keypair, None);
    assert_eq!(w.cfg.rpc_endpoints.devnet, "https://api.devnet.solana.com");
}

#[test]
fn init_keeps_a_keypair_that_exists() {
    assert_eq!(init::keypair_step(true), KeypairStep::Read);
    assert_eq!(init::keypair_step(false), KeypairStep::Generate);
}

#[test]
fn init_funds_the_deployers_off_mainnet() {
    let w = workspace();
    let command = init::airdrop(&w, &Cluster::Devnet)
        .expect("devnet is funded")
        .expect("the address is there");
    assert_eq!(command.program, "solana");
    assert_eq!(
        command.args,
        vec![
            "--url",
            "https://api.devnet.solana.com",
            "--keypair",
            ".goki/deployers/devnet.json",
            "airdrop",
            "1"
        ]
    );
    assert!(init::airdrop(&w, &Cluster::Mainnet).is_none());
    let custom = Cluster::Custom("http://example.com".to_string(), "ws://x".to_string());
    assert!(matches!(
        init::airdrop(&w, &custom),
        Some(Err(WorkspaceError::UnknownCluster))
    ));
}

#[test]
fn pull_plans_request_and_sink() {
    let pull = pull::process("gh:smart_wallet:GokiProtocol/goki@0.5.2", Some("out.so".to_string()))
        .expect("the location is well formed");
    assert_eq!(pull.out, Some("out.so".to_string()));
    match pull.request {
        FetchRequest::Download { url } => assert_eq!(
            url,
            "https://github.com/GokiProtocol/goki/releases/download/v0.5.2/smart_wallet.so"
        ),
        other => panic!("unexpected request: {:?}", other),
    }
    let pull = pull::process("./a.so", None).expect("the location is well formed");
    assert_eq!(pull.out, None);
    assert!(matches!(pull.request, FetchRequest::Copy { .. }));
    assert!(matches!(
        pull::process("gh:a", None),
        Err(LocationError::InvalidGitHubRef)
    ));
}

#[test]
fn airdrop_makes_as_many_requests_as_asked() {
    assert!(airdrop::requested(0, 1));
    assert!(!airdrop::requested(1, 1));
    assert!(!airdrop::requested(0, 0));
    assert!(airdrop::requested(2, 3));
    assert!(!airdrop::requested(3, 3));
    assert!(airdrop::requested(u32::MAX - 1, u32::MAX));
    assert!(!airdrop::requested(u32::MAX, u32::MAX));
    let mut requests = 0;
    let mut pauses = 0;
    let mut i = 0;
    while airdrop::requested(i, 4) {
        requests += 1;
        if airdrop::next(i, 4, 10) == (Next::Pause { millis: 10 }) {
            pauses += 1;
        }
        i += 1;
    }
    assert_eq!((requests, pauses), (4, 3));
}

#[test]
fn refusal_to_fund_is_explained() {
    let w = workspace();
    assert_eq!(
        airdrop::explain(&w, &Cluster::Mainnet, PRESENT, Error::MainnetSafetyViolation),
        "cannot request an airdrop from mainnet"
    );
    assert_eq!(
        airdrop::explain(
            &w,
            &Cluster::Devnet,
            NO_KEYPAIR,
            Error::Workspace(WorkspaceError::SignerNotFound)
        ),
        "Deployer not found at .goki/deployers/devnet.json; you may need to run `goki init`"
    );
}

#[test]
fn transfer_with_a_configured_authority_is_still_refused_on_mainnet() {
    let mut w = workspace();
    w.cfg.upgrade_authority_keypair = Some("authority.json".to_string());
    assert!(matches!(
        transfer::process(&w, &Cluster::Mainnet, NO_KEYPAIR, "someone", "1"),
        Err(Error::MainnetSafetyViolation)
    ));
}
