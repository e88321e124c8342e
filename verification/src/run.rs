//! The course of one run, from the first look at the destination to the exit
//! code.

use vstd::prelude::*;
use crate::path::RelPath;
use crate::pool::{DirScanPool, FileCopyPool};

verus! {

/// How a run ended.
#[derive(Clone, Copy, Debug, PartialEq, Eq, Structural)]
pub enum Ending {
    /// Both pools have drained. Entries that could not be handled were counted
    /// as errors; they do not make the run fail.
    Completed,
    /// Only the usage was asked for, and printed.
    HelpShown,
    /// The destination directory does not exist.
    MissingDestination,
    /// The command line was in error.
    BadUsage,
}

/// The exit code for each ending.
pub open spec fn code_of(ending: Ending) -> u8 {
    match ending {
        Ending::Completed => 0,
        Ending::HelpShown => 0,
        Ending::MissingDestination => 1,
        Ending::BadUsage => 2,
    }
}

/// The exit code with which the program leaves after `ending`.
pub fn exit_code(ending: Ending) -> (code: u8)
    ensures
        code == code_of(ending),
{
    match ending {
        Ending::Completed => 0,
        Ending::HelpShown => 0,
        Ending::MissingDestination => 1,
        Ending::BadUsage => 2,
    }
}

/// Where a run stands.
#[derive(Clone, Copy, Debug, PartialEq, Eq, Structural)]
pub enum Stage {
    /// Nothing is under way yet.
    Starting,
    /// Waiting for the scan pool to drain.
    Scanning,
    /// The scan pool has drained; waiting for the copy pool to drain.
    Copying,
    /// Over.
    Ended(Ending),
}

/// The stage after a look at the two pools' counts. The copy pool is looked at
/// only once the scan pool was seen empty: scans are what fills the copy queue.
pub open spec fn stage_after(stage: Stage, scans: nat, copies: nat) -> Stage {
    match stage {
        Stage::Scanning => if scans != 0 {
            Stage::Scanning
        } else if copies != 0 {
            Stage::Copying
        } else {
            Stage::Ended(Ending::Completed)
        },
        Stage::Copying => if copies != 0 {
            Stage::Copying
        } else {
            Stage::Ended(Ending::Completed)
        },
        _ => stage,
    }
}

/// One run.
#[derive(Debug)]
pub struct Run {
    stage: Stage,
}

impl View for Run {
    type V = Stage;

    closed spec fn view(&self) -> Stage {
        self.stage
    }
}

impl Run {
    /// A run that has not started.
    pub fn new() -> (run: Run)
        ensures
            run@ == Stage::Starting,
    {
        Run { stage: Stage::Starting }
    }

    /// Where the run stands.
    pub fn stage(&self) -> (stage: Stage)
        ensures
            stage == self@,
    {
        self.stage
    }

    /// Starts the run, if it has not started and the destination exists, and
    /// gives the directory to scan first: the roots themselves, to be compared
    /// with the target. Without a destination the run is over.
    pub fn start(&mut self, target_exists: bool) -> (first: Option<RelPath>)
        ensures
            final(self)@ == (match old(self)@ {
                Stage::Starting => if target_exists {
                    Stage::Scanning
                } else {
                    Stage::Ended(Ending::MissingDestination)
                },
                stage => stage,
            }),
            match first {
                Some(path) => old(self)@ == Stage::Starting && target_exists && path@
                    == Seq::<Seq<u8>>::empty(),
                None => !(old(self)@ == Stage::Starting && target_exists),
            },
    {
        match self.stage {
            Stage::Starting => {
                if target_exists {
                    self.stage = Stage::Scanning;
                    Some(RelPath::root())
                } else {
                    self.stage = Stage::Ended(Ending::MissingDestination);
                    None
                }
            },
            _ => None,
        }
    }

    /// Looks at the pools and says where the run stands now.
    pub fn poll(&mut self, scans: &DirScanPool, copies: &FileCopyPool) -> (stage: Stage)
        ensures
            final(self)@ == stage_after(old(self)@, scans@, copies@),
            stage == final(self)@,
    {
        match self.stage {
            Stage::Scanning => {
                if scans.join() {
                    if copies.join() {
                        self.stage = Stage::Ended(Ending::Completed);
                    } else {
                        self.stage = Stage::Copying;
                    }
                }
            },
            Stage::Copying => {
                if copies.join() {
                    self.stage = Stage::Ended(Ending::Completed);
                }
            },
            _ => {},
        }
        self.stage
    }
}

/// A run completes only on a look that finds the copy pool empty, and only
/// after a look that found the scan pool empty; once it is over, it stays so.
pub proof fn lemma_completion_needs_both_drained(stage: Stage, scans: nat, copies: nat)
    ensures
        stage_after(stage, scans, copies) == Stage::Ended(Ending::Completed) && stage
            != Stage::Ended(Ending::Completed) ==> copies == 0 && (stage == Stage::Copying || (stage
            == Stage::Scanning && scans == 0)),
        stage_after(stage, scans, copies) == Stage::Copying ==> stage == Stage::Copying || (stage
            == Stage::Scanning && scans == 0),
        stage is Ended ==> stage_after(stage, scans, copies) == stage,
{
}

} // verus!
