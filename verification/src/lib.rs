//! Describing `nix flake show` invocations and indexing what the tool prints.
//!
//! The crate never starts a process. [`NixFlakeShowBuilder`] renders a
//! configuration into an [`Invocation`], a plain description of the command to
//! run; whoever runs it hands the outcome back, and [`FlakeInfo`] turns the
//! captured JSON into an index of artifacts by platform.

pub mod command;
pub mod error;
pub mod info;
pub mod json;
pub mod keyed;
pub mod raw;
pub mod run;
pub mod system;

pub use command::{
    flake_show, nix_cmd, Invocation, NixFlakeLogFormat, NixFlakeShowBuilder, StreamTarget,
};
pub use error::{FlakeShowError, ParseError};
pub use info::{Derivation, FlakeInfo, IndividualFlakeInfos};
pub use json::Json;
pub use raw::{FlakeAnatomyDetail, FlakeShowOutput, HighLevelFieldAnatomy};
pub use run::ToolOutput;
pub use system::{current_nix_system, current_nix_system_query};
