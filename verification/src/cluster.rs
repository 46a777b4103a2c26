//! The clusters that a program can be deployed to.

use crate::text::str_equal;
use crate::workspace::WorkspaceError;
use vstd::prelude::*;
use vstd::string::StringExecFns;

verus! {

/// A named network, or one given by its addresses.
#[derive(Debug)]
pub enum Cluster {
    Testnet,
    Mainnet,
    Devnet,
    Localnet,
    Debug,
    /// A cluster known only by its RPC address and its websocket address.
    Custom(String, String),
}

/// A `Cluster` with its strings taken as sequences of characters.
pub ghost enum ClusterView {
    Testnet,
    Mainnet,
    Devnet,
    Localnet,
    Debug,
    Custom(Seq<char>, Seq<char>),
}

impl View for Cluster {
    type V = ClusterView;

    open spec fn view(&self) -> ClusterView {
        match self {
            Cluster::Testnet => ClusterView::Testnet,
            Cluster::Mainnet => ClusterView::Mainnet,
            Cluster::Devnet => ClusterView::Devnet,
            Cluster::Localnet => ClusterView::Localnet,
            Cluster::Debug => ClusterView::Debug,
            Cluster::Custom(url, ws_url) => ClusterView::Custom(url@, ws_url@),
        }
    }
}

/// The name under which a cluster is written: that of a named cluster, the
/// RPC address of any other.
pub open spec fn cluster_name(cluster: ClusterView) -> Seq<char> {
    match cluster {
        ClusterView::Testnet => "testnet"@,
        ClusterView::Mainnet => "mainnet"@,
        ClusterView::Devnet => "devnet"@,
        ClusterView::Localnet => "localnet"@,
        ClusterView::Debug => "debug"@,
        ClusterView::Custom(url, _) => url,
    }
}

/// The cluster that a name stands for: one of the five named clusters,
/// written exactly.
pub open spec fn cluster_named(name: Seq<char>) -> Option<ClusterView> {
    if name == "mainnet"@ {
        Some(ClusterView::Mainnet)
    } else if name == "testnet"@ {
        Some(ClusterView::Testnet)
    } else if name == "devnet"@ {
        Some(ClusterView::Devnet)
    } else if name == "localnet"@ {
        Some(ClusterView::Localnet)
    } else if name == "debug"@ {
        Some(ClusterView::Debug)
    } else {
        None
    }
}

impl Clone for Cluster {
    fn clone(&self) -> (r: Cluster)
        ensures
            r@ == self@,
    {
        match self {
            Cluster::Testnet => Cluster::Testnet,
            Cluster::Mainnet => Cluster::Mainnet,
            Cluster::Devnet => Cluster::Devnet,
            Cluster::Localnet => Cluster::Localnet,
            Cluster::Debug => Cluster::Debug,
            Cluster::Custom(url, ws_url) => Cluster::Custom(url.clone(), ws_url.clone()),
        }
    }
}

impl Cluster {
    /// The cluster's name, as in `cluster_name`.
    pub fn name(&self) -> (r: String)
        ensures
            r@ == cluster_name(self@),
    {
        match self {
            Cluster::Testnet => String::from_str("testnet"),
            Cluster::Mainnet => String::from_str("mainnet"),
            Cluster::Devnet => String::from_str("devnet"),
            Cluster::Localnet => String::from_str("localnet"),
            Cluster::Debug => String::from_str("debug"),
            Cluster::Custom(url, _) => url.clone(),
        }
    }

    /// The cluster of this name. A name that is none of the five is an
    /// error.
    pub fn parse(name: &str) -> (r: Result<Cluster, WorkspaceError>)
        ensures
            match r {
                Ok(cluster) => cluster_named(name@) == Some(cluster@),
                Err(e) => e == WorkspaceError::UnknownCluster && cluster_named(name@) is None,
            },
    {
        if str_equal(name, "mainnet") {
            Ok(Cluster::Mainnet)
        } else if str_equal(name, "testnet") {
            Ok(Cluster::Testnet)
        } else if str_equal(name, "devnet") {
            Ok(Cluster::Devnet)
        } else if str_equal(name, "localnet") {
            Ok(Cluster::Localnet)
        } else if str_equal(name, "debug") {
            Ok(Cluster::Debug)
        } else {
            Err(WorkspaceError::UnknownCluster)
        }
    }

    /// Whether this is the main network, where nothing is created or
    /// funded without an authority that the operator named.
    pub fn is_mainnet(&self) -> (r: bool)
        ensures
            r == (self@ is Mainnet),
    {
        match self {
            Cluster::Mainnet => true,
            _ => false,
        }
    }
}

/// The name of a named cluster stands for that cluster.
pub proof fn lemma_name_round_trip(cluster: ClusterView)
    requires
        !(cluster is Custom),
    ensures
        cluster_named(cluster_name(cluster)) == Some(cluster),
{
    reveal_strlit("mainnet");
    reveal_strlit("testnet");
    reveal_strlit("devnet");
    reveal_strlit("localnet");
    reveal_strlit("debug");
    match cluster {
        ClusterView::Testnet => {
            assert("testnet"@[0] != "mainnet"@[0]);
        },
        ClusterView::Devnet => {
            assert("devnet"@[0] != "mainnet"@[0]);
            assert("devnet"@[0] != "testnet"@[0]);
        },
        ClusterView::Localnet => {
            assert("localnet"@[0] != "mainnet"@[0]);
            assert("localnet"@[0] != "testnet"@[0]);
            assert("localnet"@[0] != "devnet"@[0]);
        },
        ClusterView::Debug => {
            assert("debug"@[0] != "mainnet"@[0]);
            assert("debug"@[0] != "testnet"@[0]);
            assert("debug"@[2] != "devnet"@[2]);
            assert("debug"@[0] != "localnet"@[0]);
        },
        _ => {},
    }
}

} // verus!
