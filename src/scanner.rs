//! The scanner handle shared by the workers of a scan: the database snapshot and the
//! cooperative cancellation flag.
use vstd::prelude::*;
use std::sync::atomic::{AtomicBool, Ordering};
use std::sync::Arc;
use crate::archive::ArchiveSnapshot;
use crate::detector::{is_first_match, reports, CheatDetector};
use crate::scan::UnitOutcome;
use crate::signature::evaluation_of;

verus! {

/// A database snapshot for one scan and the flag that cancels it.
#[derive(Clone)]
pub struct Scanner {
    detector: CheatDetector,
    cancel_flag: Arc<AtomicBool>,
}

impl Scanner {
    /// The database snapshot the scan runs against.
    pub closed spec fn snapshot(&self) -> CheatDetector {
        self.detector
    }

    /// A scanner over `detector`, not cancelled.
    pub fn new(detector: CheatDetector) -> (r: Scanner)
        ensures
            r.snapshot() == detector,
    {
        Scanner { detector, cancel_flag: Arc::new(AtomicBool::new(false)) }
    }

    /// Asks every worker of this scanner, and of its clones, to stop before its next file.
    pub fn cancel(&self) {
        self.cancel_flag.store(true, Ordering::Relaxed);
    }

    /// Whether cancellation was asked for; workers read this before each file and hand it
    /// to `unit_outcome`.
    pub fn is_cancelled(&self) -> bool {
        self.cancel_flag.load(Ordering::Relaxed)
    }

    /// The database snapshot the scan runs against.
    pub fn detector(&self) -> (r: &CheatDetector)
        ensures
            *r == self.snapshot(),
    {
        &self.detector
    }

    /// The outcome of one candidate file. `cancelled` is what the worker read from the
    /// cancellation flag before starting on the file: when it is set the file is skipped.
    /// Otherwise `snapshot` is what could be read of the archive, `None` when it could not
    /// be opened or read; an unreadable file counts as checked and clean.
    pub fn unit_outcome(
        &self,
        cancelled: bool,
        jar_path: &str,
        file_name: &str,
        snapshot: Option<ArchiveSnapshot>,
    ) -> (r: UnitOutcome)
        ensures
            cancelled <==> r is Skipped,
            !cancelled && snapshot is None ==> r is Clean,
            !cancelled ==> (snapshot matches Some(s) ==> (r is Clean <==> forall|i: int|
                0 <= i < self.snapshot()@.len() ==> !(#[trigger] evaluation_of(
                    s.entries(),
                    s.size,
                    self.snapshot()@[i].1,
                )).matched)),
            snapshot matches Some(s) ==> (r matches UnitOutcome::Threat(t) ==> exists|i: int|
                #[trigger] is_first_match(self.snapshot()@, s.entries(), s.size, i) && reports(
                    t,
                    jar_path@,
                    file_name@,
                    s.size,
                    self.snapshot()@[i].0,
                    self.snapshot()@[i].1,
                    evaluation_of(s.entries(), s.size, self.snapshot()@[i].1).signals,
                )),
    {
        if cancelled {
            return UnitOutcome::Skipped;
        }
        match snapshot {
            None => UnitOutcome::Clean,
            Some(s) => {
                let found = self.detector.check_jar_file(jar_path, file_name, &s);
                assert(self.snapshot()@ == self.detector@);
                match found {
                    Some(t) => UnitOutcome::Threat(t),
                    None => UnitOutcome::Clean,
                }
            },
        }
    }
}

} // verus!
