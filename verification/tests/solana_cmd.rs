use goki::cluster::Cluster;
use goki::config::Config;
use goki::pubkey::Pubkey;
use goki::solana_cmd::{
    deploy, set_buffer_authority, set_upgrade_authority, signed, upgrade, write_buffer,
};
use goki::workspace::{DeployerProbe, Workspace, WorkspaceError};

const PRESENT: DeployerProbe = DeployerProbe { dir_exists: true, keypair_exists: true };
const ABSENT: DeployerProbe = DeployerProbe { dir_exists: true, keypair_exists: false };
const TOKEN: &str = "TokenkegQfeZyiNwAJbNbGKPFXCWuBvf9Ss623VQ5DA";
const SYSTEM: &str = "11111111111111111111111111111111";

fn workspace() -> Workspace {
    Workspace { path: ".goki/".to_string(), cfg: Config::default() }
}

fn key(text: &str) -> Pubkey {
    Pubkey::from_str(text).expect("the text of a key")
}

fn custom() -> Cluster {
    Cluster::Custom("http://example.com".to_string(), "ws://example.com".to_string())
}

#[test]
fn public_key_is_read_and_written_in_base_58() {
    assert_eq!(key(SYSTEM).to_bytes(), [0u8; 32]);
    assert_eq!(key(SYSTEM).to_string(), SYSTEM);
    assert_eq!(key(TOKEN).to_string(), TOKEN);
    assert_eq!(
        key(TOKEN).to_bytes(),
        [
            6, 221, 246, 225, 215, 101, 161, 147, 217, 203, 225, 70, 206, 235, 121, 172, 28, 180,
            133, 237, 95, 91, 55, 145, 58, 140, 245, 133, 126, 255, 0, 169
        ]
    );
    assert_eq!(Pubkey::new_from_array([0u8; 32]).to_string(), SYSTEM);
    let mut one = [0u8; 32];
    one[31] = 1;
    assert_eq!(
        Pubkey::new_from_array(one).to_string(),
        "11111111111111111111111111111112"
    );
}

#[test]
fn text_that_is_no_key_is_refused() {
    for text in [
        "",
        "smart_wallet",
        "./program.so",
        "gh:smart_wallet:GokiProtocol/goki@0.5.2",
        "1111111111111111111111111111111",
        "111111111111111111111111111111111",
        "TokenkegQfeZyiNwAJbNbGKPFXCWuBvf9Ss623VQ5D0",
        "TokenkegQfeZyiNwAJbNbGKPFXCWuBvf9Ss623VQ5DATokenkeg",
    ] {
        assert!(Pubkey::from_str(text).is_none(), "{}", text);
    }
}

#[test]
fn set_buffer_authority_is_signed_by_the_deployer() {
    let command = set_buffer_authority(&workspace(), &Cluster::Devnet, PRESENT, &key(TOKEN), SYSTEM)
        .expect("signer and address are there");
    assert_eq!(command.program, "solana");
    assert_eq!(
        command.args,
        vec![
            "--url",
            "https://api.devnet.solana.com",
            "--keypair",
            ".goki/deployers/devnet.json",
            "program",
            "set-buffer-authority",
            TOKEN,
            "--new-buffer-authority",
            SYSTEM
        ]
    );
    assert!(matches!(
        set_buffer_authority(&workspace(), &Cluster::Devnet, ABSENT, &key(TOKEN), SYSTEM),
        Err(WorkspaceError::SignerNotFound)
    ));
}

#[test]
fn set_upgrade_authority_is_signed_by_the_current_authority() {
    let command = set_upgrade_authority(
        &workspace(),
        &Cluster::Mainnet,
        &key(TOKEN),
        ".goki/deployers/mainnet.json",
        SYSTEM,
    )
    .expect("the address is there");
    assert_eq!(
        command.args,
        vec![
            "--url",
            "https://api.mainnet-beta.solana.com",
            "--keypair",
            ".goki/deployers/mainnet.json",
            "program",
            "set-upgrade-authority",
            TOKEN,
            "--new-upgrade-authority",
            SYSTEM
        ]
    );
    assert!(matches!(
        set_upgrade_authority(&workspace(), &custom(), &key(TOKEN), "kp.json", SYSTEM),
        Err(WorkspaceError::UnknownCluster)
    ));
}

#[test]
fn write_buffer_names_file_and_buffer() {
    let command = write_buffer(
        &workspace(),
        &Cluster::Testnet,
        PRESENT,
        "/tmp/program.so",
        "/tmp/buffer.json",
    )
    .expect("signer and address are there");
    assert_eq!(
        command.args,
        vec![
            "--url",
            "https://api.testnet.solana.com",
            "--keypair",
            ".goki/deployers/testnet.json",
            "program",
            "write-buffer",
            "/tmp/program.so",
            "--buffer",
            "/tmp/buffer.json"
        ]
    );
}

#[test]
fn deploy_names_the_program_keypair_before_the_file() {
    let command = deploy(
        &workspace(),
        &Cluster::Devnet,
        PRESENT,
        "/tmp/program.so",
        "keys/program.json",
    )
    .expect("signer and address are there");
    assert_eq!(
        command.args,
        vec![
            "--url",
            "https://api.devnet.solana.com",
            "--keypair",
            ".goki/deployers/devnet.json",
            "program",
            "deploy",
            "--program-id",
            "keys/program.json",
            "/tmp/program.so"
        ]
    );
    assert!(matches!(
        deploy(&workspace(), &custom(), PRESENT, "a", "b"),
        Err(WorkspaceError::UnknownCluster)
    ));
}

#[test]
fn upgrade_is_signed_by_the_upgrade_authority() {
    let command = upgrade(&workspace(), &Cluster::Devnet, "authority.json", &key(TOKEN), SYSTEM)
        .expect("the address is there");
    assert_eq!(
        command.args,
        vec![
            "--url",
            "https://api.devnet.solana.com",
            "--keypair",
            "authority.json",
            "program",
            "deploy",
            "--buffer",
            TOKEN,
            "--program-id",
            SYSTEM,
            "--upgrade-authority",
            "authority.json"
        ]
    );
}

#[test]
fn signed_command_takes_any_arguments() {
    let command = signed(
        &workspace(),
        &Cluster::Localnet,
        "kp.json",
        vec!["account".to_string(), "x".to_string()],
    )
    .expect("the address is there");
    assert_eq!(
        command.args,
        vec!["--url", "http://127.0.0.1:8899", "--keypair", "kp.json", "account", "x"]
    );
    let command = signed(&workspace(), &Cluster::Debug, "kp.json", vec![])
        .expect("the address is there");
    assert_eq!(
        command.args,
        vec!["--url", "http://34.90.18.145:8899", "--keypair", "kp.json"]
    );
}

#[test]
fn arguments_are_added_at_the_end() {
    let mut command = goki::solana_cmd::new_solana_cmd();
    command.arg("program");
    command.arg_owned("show".to_string());
    command.arg("");
    assert_eq!(command.program, "solana");
    assert_eq!(command.args, vec!["program", "show", ""]);
}
