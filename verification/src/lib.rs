//! Resolution of program artifacts and the decisions of the deployment
//! workflows that publish and upgrade on-chain programs.
//!
//! The library never touches the network, the file system or a child
//! process. It parses artifact locations, says what has to be fetched,
//! builds the argument lists of the cluster tool, and decides, step by
//! step, what a deployment does next. Every function states what it
//! returns in a contract that Verus proves.

pub mod cluster;
pub mod config;
pub mod digest;
pub mod location;
pub mod pubkey;
pub mod solana_cmd;
pub mod subcommands;
pub mod text;
pub mod utils;
pub mod workflow;
pub mod workspace;
