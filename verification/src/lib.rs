//! Build orchestration for a smart-contract toolchain that compiles one
//! project through two backends: a reference compiler and a layer-2
//! compiler.
//!
//! The crate holds the decision logic of one build run (when to install
//! dependencies, when to reload configuration, which compilation passes to
//! run and how to configure them), the paired-artifact data model for
//! contracts compiled by both backends, and the resolvers that turn loose
//! configuration values into strict chain parameters: a normalized RPC
//! URL, a 32-byte private key, a chain identity and corrected gas bounds.

pub mod args;
pub mod bytes32;
pub mod dual;
pub mod hexstr;
pub mod orchestrator;
pub mod params;
pub mod skip;
pub mod u256;
pub mod url_port;
