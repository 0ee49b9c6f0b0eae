//! Runs `composer outdated` in its machine-readable form and turns what it
//! prints into typed values.
//!
//! The library holds the decisions: the argument list handed to the tool, the
//! reading of its exit status, the UTF-8 check of its output and the schema
//! that the JSON document must match. Spawning the process is left to the
//! caller, who hands the exit status and the captured bytes to
//! [`outdated_from_output`].

pub mod decode;
pub mod invoke;
pub mod json;
pub mod model;
mod outside;
pub mod status;

pub use decode::{decode_package, decode_report};
pub use invoke::{composer_arguments, outdated_from_output, COMPOSER_PROGRAM};
pub use json::{parse_json, Json};
pub use model::{ComposerOutdatedData, ComposerOutdatedOptions, OutdatedError, PackageStatus};
pub use status::{IndicatedUpdateRequirement, UpdateRequirement};
