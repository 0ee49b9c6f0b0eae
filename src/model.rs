//! The values a run produces and the errors it can end in.
use crate::status::UpdateRequirement;
use vstd::prelude::*;

verus! {

/// Options that change how the tool is invoked.
#[derive(Debug)]
pub struct ComposerOutdatedOptions {
    /// Packages to leave out of the check, each passed on as one exclusion.
    pub ignored_packages: Vec<String>,
}

/// The decoded document: with `--locked` the tool lists every package under `locked`.
#[derive(Debug)]
pub struct ComposerOutdatedData {
    /// The packages in the order the tool printed them.
    pub locked: Vec<PackageStatus>,
}

/// One package as the tool reports it.
#[derive(Debug)]
pub struct PackageStatus {
    /// Package name.
    pub name: String,
    /// Version in use.
    pub version: String,
    /// Latest version available.
    pub latest: String,
    /// Whether an update is needed, and whether it is semver-compatible.
    pub latest_status: UpdateRequirement,
    /// Description of the package.
    pub description: String,
    /// Further notes, for instance that the package was abandoned.
    pub warning: Option<String>,
}

/// A package with its text fields as character sequences.
pub struct PackageStatusView {
    /// Package name.
    pub name: Seq<char>,
    /// Version in use.
    pub version: Seq<char>,
    /// Latest version available.
    pub latest: Seq<char>,
    /// The reported classification.
    pub latest_status: UpdateRequirement,
    /// Description of the package.
    pub description: Seq<char>,
    /// Further notes, if any.
    pub warning: Option<Seq<char>>,
}

/// The view of an optional string.
pub open spec fn opt_text(s: Option<String>) -> Option<Seq<char>> {
    match s {
        Some(t) => Some(t@),
        None => None,
    }
}

impl View for PackageStatus {
    type V = PackageStatusView;

    open spec fn view(&self) -> PackageStatusView {
        PackageStatusView {
            name: self.name@,
            version: self.version@,
            latest: self.latest@,
            latest_status: self.latest_status,
            description: self.description@,
            warning: opt_text(self.warning),
        }
    }
}

impl View for ComposerOutdatedData {
    type V = Seq<PackageStatusView>;

    open spec fn view(&self) -> Seq<PackageStatusView> {
        self.locked@.map_values(|p: PackageStatus| p@)
    }
}

/// Why a run could not be turned into a report.
#[derive(Debug)]
pub enum OutdatedError {
    /// The output was not JSON, or did not match the expected document.
    SerdeJsonError(serde_json::Error),
    /// The output was not valid UTF-8.
    Utf8Error(core::str::Utf8Error),
    /// The tool could not be run.
    StdIoError(std::io::Error),
}

} // verus!
