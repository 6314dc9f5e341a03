//! Plugin management for command-line coding agents: version comparison,
//! manifest inspection and the install/update decisions for each agent's
//! notification plugin.

pub mod text;
pub mod version;
pub mod paths;
pub mod config;
pub mod plugin;
pub mod walcode;
pub mod zeroclaw;
pub mod agents;
pub mod settings;
