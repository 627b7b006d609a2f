//! Discovery and validation of game installations for the Simple Mod
//! Framework installer.
//!
//! The library holds the decisions of the install flow: which folders the
//! platform manifests point at, whether a folder is a genuine and not yet
//! modified installation, and which of the valid folders is installed to.
//! Reading files, the registry and the network is left to the program around
//! it, which hands the library plain values.

pub mod candidate;
pub mod discover;
pub mod eos;
pub mod install;
pub mod json;
pub mod legendary;
pub mod manual;
pub mod microsoft;
pub mod paths;
pub mod probe;
pub mod select;
pub mod steam;
pub mod text;
pub mod validate;
