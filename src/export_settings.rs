use vstd::prelude::*;

verus! {

/// The kinds of export.
#[derive(Debug, Clone, Copy, PartialEq, Eq, Structural)]
pub enum Exporter {
    /// The lines of the last run, with their kinds.
    Analysis,
    /// The whole report.
    JsonReport,
    /// The locations of the problems, one per line.
    Locations,
}

/// Settings for one export.
#[derive(Debug, Clone, PartialEq, Eq)]
pub struct ExportSettings {
    pub exporter: Exporter,
    /// Whether the export runs after each run.
    pub auto: bool,
    /// Where to write, relative to the workspace root unless absolute.
    pub path: String,
    pub line_format: String,
}

} // verus!
