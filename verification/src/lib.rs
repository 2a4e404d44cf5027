//! Core logic of the Steam Box desktop client: session encryption, machine
//! identifiers, Steam directory selection, Lua plugin file naming and the
//! decisions behind each command of the user interface.

pub mod cipher;
pub mod crypto;
pub mod machine;
pub mod maintenance;
pub mod paths;
pub mod redeem;
pub mod session;
pub mod steam;
pub mod text;
