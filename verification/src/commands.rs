//! The sync subcommand's arguments and the decisions read off them: the
//! date range of the run and where progress reports go.

use vstd::prelude::*;

verus! {

/// The inclusive date range a run covers, passed through to the remote API
/// verbatim: the range is caller-supplied and never validated here.
#[derive(Clone, PartialEq, Eq, Debug)]
pub struct DateRange {
    pub from: String,
    pub to: String,
}

/// Where progress milestones are rendered.
#[derive(Clone, Copy, PartialEq, Eq, Structural, Debug)]
pub enum ReportMode {
    Console,
    Slack,
}

/// The arguments of the sync subcommand: the required date bounds and the
/// optional switch onto the alternate notification channel.
#[derive(PartialEq, Eq, Debug)]
pub struct Commands {
    pub from: String,
    pub to: String,
    pub with_slack: Option<bool>,
}

impl Commands {
    /// Progress goes to the alternate notification channel exactly when the
    /// switch was given and set.
    pub fn report_mode(&self) -> (r: ReportMode)
        ensures
            (r is Slack) == (self.with_slack == Some(true)),
    {
        match self.with_slack {
            Some(true) => ReportMode::Slack,
            _ => ReportMode::Console,
        }
    }

    /// The date range of the run, taken from the arguments verbatim.
    pub fn into_range(self) -> (r: DateRange)
        ensures
            r.from == self.from,
            r.to == self.to,
    {
        DateRange { from: self.from, to: self.to }
    }
}

} // verus!
