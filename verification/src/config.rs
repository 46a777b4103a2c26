//! The configuration of a workspace: the RPC address of each cluster and
//! the default keypair of the upgrade authority.

use crate::text::str_equal;
use vstd::prelude::*;
use vstd::string::StringExecFns;

verus! {

/// A value together with the path of the file that it was read from.
pub struct WithPath<T> {
    inner: T,
    path: String,
}

impl<T> WithPath<T> {
    /// The value held.
    pub closed spec fn spec_inner(&self) -> T {
        self.inner
    }

    /// The path held.
    pub closed spec fn spec_path(&self) -> String {
        self.path
    }

    /// Pairs `inner` with `path`.
    pub fn new(inner: T, path: String) -> (r: Self)
        ensures
            r.spec_inner() == inner,
            r.spec_path() == path,
    {
        Self { inner, path }
    }

    /// The path of the file.
    pub fn path(&self) -> (r: &String)
        ensures
            *r == self.spec_path(),
    {
        &self.path
    }

    /// Gives up the path and hands out the value.
    pub fn into_inner(self) -> (r: T)
        ensures
            r == self.spec_inner(),
    {
        self.inner
    }

    /// The value, borrowed.
    pub fn as_ref(&self) -> (r: &T)
        ensures
            *r == self.spec_inner(),
    {
        &self.inner
    }
}

/// The RPC address of each named cluster.
#[derive(Debug)]
pub struct RPC {
    pub mainnet: String,
    pub devnet: String,
    pub testnet: String,
    pub localnet: String,
    pub debug: String,
}

/// An `RPC` with its strings taken as sequences of characters.
pub ghost struct RPCView {
    pub mainnet: Seq<char>,
    pub devnet: Seq<char>,
    pub testnet: Seq<char>,
    pub localnet: Seq<char>,
    pub debug: Seq<char>,
}

impl View for RPC {
    type V = RPCView;

    open spec fn view(&self) -> RPCView {
        RPCView {
            mainnet: self.mainnet@,
            devnet: self.devnet@,
            testnet: self.testnet@,
            localnet: self.localnet@,
            debug: self.debug@,
        }
    }
}

/// The public endpoints that are used where the configuration names none.
pub open spec fn default_rpc() -> RPCView {
    RPCView {
        mainnet: "https://api.mainnet-beta.solana.com"@,
        devnet: "https://api.devnet.solana.com"@,
        testnet: "https://api.testnet.solana.com"@,
        localnet: "http://127.0.0.1:8899"@,
        debug: "http://34.90.18.145:8899"@,
    }
}

impl Default for RPC {
    fn default() -> (r: RPC)
        ensures
            r@ == default_rpc(),
    {
        RPC {
            mainnet: String::from_str("https://api.mainnet-beta.solana.com"),
            devnet: String::from_str("https://api.devnet.solana.com"),
            testnet: String::from_str("https://api.testnet.solana.com"),
            localnet: String::from_str("http://127.0.0.1:8899"),
            debug: String::from_str("http://34.90.18.145:8899"),
        }
    }
}

impl Clone for RPC {
    fn clone(&self) -> (r: RPC)
        ensures
            r@ == self@,
    {
        RPC {
            mainnet: self.mainnet.clone(),
            devnet: self.devnet.clone(),
            testnet: self.testnet.clone(),
            localnet: self.localnet.clone(),
            debug: self.debug.clone(),
        }
    }
}

/// The addresses that a configuration file names. A cluster that the
/// file leaves out keeps its public endpoint.
#[derive(Debug)]
pub struct RpcOverrides {
    pub mainnet: Option<String>,
    pub devnet: Option<String>,
    pub testnet: Option<String>,
    pub localnet: Option<String>,
    pub debug: Option<String>,
}

/// An `RpcOverrides` with its strings taken as sequences of characters.
pub ghost struct RpcOverridesView {
    pub mainnet: Option<Seq<char>>,
    pub devnet: Option<Seq<char>>,
    pub testnet: Option<Seq<char>>,
    pub localnet: Option<Seq<char>>,
    pub debug: Option<Seq<char>>,
}

impl View for RpcOverrides {
    type V = RpcOverridesView;

    open spec fn view(&self) -> RpcOverridesView {
        RpcOverridesView {
            mainnet: optional_view(self.mainnet),
            devnet: optional_view(self.devnet),
            testnet: optional_view(self.testnet),
            localnet: optional_view(self.localnet),
            debug: optional_view(self.debug),
        }
    }
}

/// The address given, or `default` where none is given.
pub open spec fn address_or(given: Option<Seq<char>>, default: Seq<char>) -> Seq<char> {
    match given {
        Some(address) => address,
        None => default,
    }
}

/// The addresses that a table of overrides stands for: each cluster has
/// the address that the table names, or its public endpoint. No table at
/// all names none.
pub open spec fn resolved_rpc(overrides: Option<RpcOverridesView>) -> RPCView {
    match overrides {
        None => default_rpc(),
        Some(o) => RPCView {
            mainnet: address_or(o.mainnet, default_rpc().mainnet),
            devnet: address_or(o.devnet, default_rpc().devnet),
            testnet: address_or(o.testnet, default_rpc().testnet),
            localnet: address_or(o.localnet, default_rpc().localnet),
            debug: address_or(o.debug, default_rpc().debug),
        },
    }
}

/// A table of overrides that may be absent, taken by its view.
pub open spec fn optional_overrides(o: Option<RpcOverrides>) -> Option<RpcOverridesView> {
    match o {
        Some(o) => Some(o@),
        None => None,
    }
}

fn address(given: Option<String>, default: String) -> (r: String)
    ensures
        r@ == address_or(optional_view(given), default@),
{
    match given {
        Some(address) => address,
        None => default,
    }
}

impl RPC {
    /// The addresses that `overrides` stand for.
    pub fn from_overrides(overrides: RpcOverrides) -> (r: RPC)
        ensures
            r@ == resolved_rpc(Some(overrides@)),
    {
        let default = RPC::default();
        RPC {
            mainnet: address(overrides.mainnet, default.mainnet),
            devnet: address(overrides.devnet, default.devnet),
            testnet: address(overrides.testnet, default.testnet),
            localnet: address(overrides.localnet, default.localnet),
            debug: address(overrides.debug, default.debug),
        }
    }
}

/// The view of a string that may be absent.
pub open spec fn optional_view(s: Option<String>) -> Option<Seq<char>> {
    match s {
        Some(s) => Some(s@),
        None => None,
    }
}

/// What the configuration file of a workspace says.
#[derive(Debug)]
pub struct Config {
    pub rpc_endpoints: RPC,
    /// The keypair file of the upgrade authority, where one is configured.
    pub upgrade_authority_keypair: Option<String>,
}

/// A `Config` with its strings taken as sequences of characters.
pub ghost struct ConfigView {
    pub rpc_endpoints: RPCView,
    pub upgrade_authority_keypair: Option<Seq<char>>,
}

impl View for Config {
    type V = ConfigView;

    open spec fn view(&self) -> ConfigView {
        ConfigView {
            rpc_endpoints: self.rpc_endpoints@,
            upgrade_authority_keypair: optional_view(self.upgrade_authority_keypair),
        }
    }
}

impl Default for Config {
    fn default() -> (r: Config)
        ensures
            r@ == (ConfigView { rpc_endpoints: default_rpc(), upgrade_authority_keypair: None }),
    {
        Config { rpc_endpoints: RPC::default(), upgrade_authority_keypair: None }
    }
}

/// Copies a string that may be absent.
pub fn clone_optional(s: &Option<String>) -> (r: Option<String>)
    ensures
        optional_view(r) == optional_view(*s),
{
    match s {
        Some(s) => Some(s.clone()),
        None => None,
    }
}

impl Clone for Config {
    fn clone(&self) -> (r: Config)
        ensures
            r@ == self@,
    {
        Config {
            rpc_endpoints: self.rpc_endpoints.clone(),
            upgrade_authority_keypair: clone_optional(&self.upgrade_authority_keypair),
        }
    }
}

/// The position of the first name in `names` that is `Goki.toml`, or
/// `names.len()` when there is none.
pub open spec fn config_position(names: Seq<Seq<char>>) -> int
    decreases names.len(),
{
    if names.len() == 0 {
        0
    } else if names[0] == "Goki.toml"@ {
        0
    } else {
        1 + config_position(names.drop_first())
    }
}

/// `config_position` is the least position that holds `Goki.toml`.
pub proof fn lemma_config_position(names: Seq<Seq<char>>, i: int)
    requires
        0 <= i <= names.len(),
        i < names.len() ==> names[i] == "Goki.toml"@,
        forall|j: int| 0 <= j < i ==> names[j] != "Goki.toml"@,
    ensures
        config_position(names) == i,
    decreases names.len(),
{
    if names.len() > 0 && names[0] != "Goki.toml"@ {
        let rest = names.drop_first();
        assert forall|j: int| 0 <= j < i - 1 implies rest[j] != "Goki.toml"@ by {
            assert(rest[j] == names[j + 1]);
        }
        lemma_config_position(rest, i - 1);
    }
}

impl Config {
    /// Looks for the configuration file among the entries of one
    /// directory, given by their file names in the order they were read.
    /// The search goes on in the parent directory when this one has none.
    pub fn discover(names: &Vec<String>) -> (r: Option<usize>)
        ensures
            match r {
                Some(i) => i < names@.len() && i == config_position(
                    crate::text::strings_view(names@),
                ),
                None => config_position(crate::text::strings_view(names@)) == names@.len(),
            },
    {
        let ghost views = crate::text::strings_view(names@);
        let mut i: usize = 0;
        while i < names.len()
            invariant
                i <= names@.len(),
                views == crate::text::strings_view(names@),
                forall|j: int| 0 <= j < i ==> views[j] != "Goki.toml"@,
            decreases names@.len() - i,
        {
            if str_equal(names[i].as_str(), "Goki.toml") {
                proof {
                    lemma_config_position(views, i as int);
                }
                return Some(i);
            }
            i += 1;
        }
        proof {
            lemma_config_position(views, i as int);
        }
        None
    }

    /// The configuration that a file stands for: each cluster has the
    /// address that the file names, or its public endpoint where the
    /// file names none.
    pub fn from_raw(rpc_endpoints: Option<RpcOverrides>, upgrade_authority_keypair: Option<String>) -> (r:
        Config)
        ensures
            r@ == (ConfigView {
                rpc_endpoints: resolved_rpc(optional_overrides(rpc_endpoints)),
                upgrade_authority_keypair: optional_view(upgrade_authority_keypair),
            }),
    {
        let rpc_endpoints = match rpc_endpoints {
            Some(overrides) => RPC::from_overrides(overrides),
            None => RPC::default(),
        };
        Config { rpc_endpoints, upgrade_authority_keypair }
    }
}

} // verus!
