//! What each subcommand decides.

pub mod airdrop;
pub mod balance;
pub mod deploy;
pub mod init;
pub mod pull;
pub mod show;
pub mod transfer;
pub mod upgrade_local;
pub mod upload_program_buffer;
