//! View-state vocabulary of the interactive front ends.
//!
//! The dashboards keep their own state machines; what the engine fixes is
//! the vocabulary they share: how results may be filtered and sorted, which
//! export formats exist, and the set of user actions.

use vstd::prelude::*;

verus! {

/// Which protocol's results a view shows.
#[derive(Debug, Clone, Copy, PartialEq, Eq, Structural)]
pub enum FilterMode {
    /// Both protocols.
    All,
    /// TCP only.
    TcpOnly,
    /// UDP only.
    UdpOnly,
}

/// The column a view sorts by.
#[derive(Debug, Clone, Copy, PartialEq, Eq, Structural)]
pub enum SortMode {
    /// By port number.
    Port,
    /// By process name.
    Process,
    /// By memory use.
    Memory,
    /// By process id.
    Pid,
}

/// The formats a result set can be exported in.
#[derive(Debug, Clone, Copy, PartialEq, Eq, Structural)]
pub enum ExportFormat {
    /// JSON.
    Json,
    /// Comma-separated values.
    Csv,
    /// A Markdown table.
    Markdown,
}

impl ExportFormat {
    /// The file extension of this format.
    pub fn extension(&self) -> (r: &'static str)
        ensures
            r@ == (match *self {
                ExportFormat::Json => "json"@,
                ExportFormat::Csv => "csv"@,
                ExportFormat::Markdown => "md"@,
            }),
    {
        match self {
            ExportFormat::Json => "json",
            ExportFormat::Csv => "csv",
            ExportFormat::Markdown => "md",
        }
    }

    /// The display name of this format.
    pub fn name(&self) -> (r: &'static str)
        ensures
            r@ == (match *self {
                ExportFormat::Json => "JSON"@,
                ExportFormat::Csv => "CSV"@,
                ExportFormat::Markdown => "Markdown"@,
            }),
    {
        match self {
            ExportFormat::Json => "JSON",
            ExportFormat::Csv => "CSV",
            ExportFormat::Markdown => "Markdown",
        }
    }

    /// The next format in the fixed cycle JSON, CSV, Markdown.
    pub fn cycle(&self) -> (r: ExportFormat)
        ensures
            r == (match *self {
                ExportFormat::Json => ExportFormat::Csv,
                ExportFormat::Csv => ExportFormat::Markdown,
                ExportFormat::Markdown => ExportFormat::Json,
            }),
    {
        match self {
            ExportFormat::Json => ExportFormat::Csv,
            ExportFormat::Csv => ExportFormat::Markdown,
            ExportFormat::Markdown => ExportFormat::Json,
        }
    }
}

/// One keyboard action of the dashboard.
#[derive(Debug, Clone, Copy, PartialEq, Eq, Structural)]
pub enum Action {
    /// Leave the dashboard.
    Quit,
    /// Move the selection up.
    MoveUp,
    /// Move the selection down.
    MoveDown,
    /// Jump to the first entry.
    MoveToFirst,
    /// Jump to the last entry.
    MoveToLast,
    /// Kill the selected entry's process.
    Kill,
    /// Re-enumerate.
    Refresh,
    /// Cycle the protocol filter.
    CycleFilter,
    /// Cycle the sort column.
    CycleSort,
    /// Toggle the details panel.
    ToggleDetails,
    /// Toggle the help overlay.
    ToggleHelp,
    /// Toggle the menu overlay.
    ToggleMenu,
    /// Toggle the critical-services filter.
    ToggleCritical,
    /// Toggle the container filter.
    ToggleDocker,
    /// Start a text search.
    StartSearch,
    /// Choose the menu item at this position.
    MenuSelect(usize),
    /// No action bound to the key.
    NoOp,
}

} // verus!
