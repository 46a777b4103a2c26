//! Showing the deployers of a workspace.

use crate::cluster::{cluster_name, ClusterView};
use crate::pubkey::{pubkey_encode, Pubkey};
use crate::text::{push_str, push_string, strings_view};
use crate::workflow::{optional_key, Error};
use crate::workspace::WorkspaceError;
use vstd::prelude::*;
use vstd::string::StringExecFns;

verus! {

/// The line for one cluster: its name, then the key of its deployer or
/// the remark that there is none.
pub open spec fn deployer_line(cluster: ClusterView, key: Option<Seq<u8>>) -> Seq<char> {
    cluster_name(cluster) + ": "@ + (match key {
        Some(key) => pubkey_encode(key),
        None => "not found"@,
    })
}

/// The deployers of the development, the test and the main network, in
/// this order, under a heading.
pub open spec fn deployer_lines(
    devnet: Option<Seq<u8>>,
    testnet: Option<Seq<u8>>,
    mainnet: Option<Seq<u8>>,
) -> Seq<Seq<char>> {
    seq![
        "Deployers:"@,
        deployer_line(ClusterView::Devnet, devnet),
        deployer_line(ClusterView::Testnet, testnet),
        deployer_line(ClusterView::Mainnet, mainnet),
    ]
}

fn line(name: &str, key: &Option<Pubkey>) -> (r: String)
    ensures
        r@ == name@ + ": "@ + (match optional_key(*key) {
            Some(key) => pubkey_encode(key),
            None => "not found"@,
        }),
{
    let mut r = String::from_str(name);
    r.append(": ");
    match key {
        Some(key) => r.append(key.to_string().as_str()),
        None => r.append("not found"),
    }
    r
}

/// Lists the deployers, given the key of each keypair that exists. The
/// directory of the keypairs has to exist.
pub fn process(
    deployer_dir_exists: bool,
    devnet: Option<Pubkey>,
    testnet: Option<Pubkey>,
    mainnet: Option<Pubkey>,
) -> (r: Result<Vec<String>, Error>)
    ensures
        deployer_dir_exists ==> r is Ok && strings_view(r->Ok_0@) == deployer_lines(
            optional_key(devnet),
            optional_key(testnet),
            optional_key(mainnet),
        ),
        !deployer_dir_exists ==> r is Err && r->Err_0 == Error::Workspace(
            WorkspaceError::SignerNotFound,
        ),
{
    if !deployer_dir_exists {
        return Err(Error::Workspace(WorkspaceError::SignerNotFound));
    }
    let mut lines: Vec<String> = Vec::new();
    push_str(&mut lines, "Deployers:");
    push_string(&mut lines, line("devnet", &devnet));
    push_string(&mut lines, line("testnet", &testnet));
    push_string(&mut lines, line("mainnet", &mainnet));
    Ok(lines)
}

} // verus!
