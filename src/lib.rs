//! Provisioning of mobile CI/CD scaffolding: the text transformations applied to
//! template files, the overwrite policy, and the provisioning state machine.
//! The surrounding program performs the network, terminal and filesystem work
//! that the machine asks for.

pub mod platform;
pub mod text;
pub mod region;
pub mod patch;
pub mod error;
pub mod conflict;
pub mod cli;
pub mod provision;
