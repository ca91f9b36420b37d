//! Keeps a directory of installed mod packages up to date with a remote
//! catalog: release selection, integrity checks and the install sequence are
//! verified here; network, archive and filesystem work is left to the caller.

pub mod version;
pub mod release;
pub mod integrity;
pub mod naming;
pub mod install;
pub mod orchestrator;
pub mod config;
pub mod remote;
