//! Turning saves of script files into reload messages.

use vstd::prelude::*;
use crate::ScriptMessage;

verus! {

/// What the file watcher reports.
#[derive(Debug, Clone, Copy, PartialEq, Eq, Structural)]
pub enum SaveDetectorMessage {
    Changed,
}

/// The shortest time, in milliseconds, between two changes that are both
/// reported. An editor that saves a file touches it more than once.
pub const DEBOUNCE_MILLIS: u64 = 100;

/// Holds back changes that follow a reported change too closely.
#[derive(Debug, Clone, Copy, PartialEq, Eq, Structural)]
pub struct Debounce {
    /// When the last change was reported, on the host's monotonic clock.
    pub last_event: Option<u64>,
}

/// Whether a change at `now` is reported: the first change is, and so is one
/// that comes `DEBOUNCE_MILLIS` or more after the last reported change.
pub open spec fn is_reported(last_event: Option<u64>, now: u64) -> bool {
    match last_event {
        None => true,
        Some(last) => now - last >= DEBOUNCE_MILLIS,
    }
}

impl Debounce {
    /// Nothing reported yet.
    pub fn new() -> (debounce: Self)
        ensures
            debounce.last_event is None,
    {
        Self { last_event: None }
    }

    /// Takes a change seen at `now`, in milliseconds on a monotonic clock.
    /// Tells whether the change is to be reported, and if so remembers when.
    pub fn changed(&mut self, now: u64) -> (report: bool)
        ensures
            report == is_reported(old(self).last_event, now),
            final(self).last_event == if report {
                Some(now)
            } else {
                old(self).last_event
            },
    {
        let report = match self.last_event {
            None => true,
            Some(last) => now >= last && now - last >= DEBOUNCE_MILLIS,
        };
        if report {
            self.last_event = Some(now);
        }
        report
    }
}

/// The script messages that the reported changes of one frame become: one
/// reload for each change.
pub fn tick(changes: &Vec<SaveDetectorMessage>) -> (detector_messages: Vec<ScriptMessage>)
    ensures
        detector_messages@.len() == changes@.len(),
        forall|i: int|
            0 <= i < detector_messages@.len() ==> detector_messages@[i] == ScriptMessage::Reload,
{
    let mut detector_messages: Vec<ScriptMessage> = Vec::new();
    let mut i: usize = 0;
    while i < changes.len()
        invariant
            i <= changes.len(),
            detector_messages@.len() == i,
            forall|j: int| 0 <= j < i ==> detector_messages@[j] == ScriptMessage::Reload,
        decreases changes.len() - i,
    {
        match changes[i] {
            SaveDetectorMessage::Changed => {
                detector_messages.push(ScriptMessage::Reload);
            },
        }
        i += 1;
    }
    detector_messages
}

} // verus!
