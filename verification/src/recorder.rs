//! Lines that lead nowhere and remember what was asked of them.
//!
//! A [`Recorder`] stands in for the panel where there is none: it takes every
//! action, keeps it, and can be told to refuse one of them, so that what the
//! driver does can be looked at afterwards, action by action.

use vstd::prelude::*;
use crate::outputs::Action;
use crate::outputs::Line;
use crate::outputs::Outputs;

verus! {

/// The refusal of a recorder: the line that it would not drive.
#[derive(Clone, Copy, Debug, PartialEq, Eq, Structural)]
pub struct PinFault {
    pub line: Line,
}

/// What a recorder keeps of one action: the action and whether it was taken.
#[derive(Clone, Copy, Debug, PartialEq, Eq, Structural)]
pub struct Entry {
    pub action: Action,
    pub taken: bool,
}

/// An implementation of [`Outputs`] that records instead of driving.
pub struct Recorder {
    entries: Vec<Entry>,
    refuse_at: Option<usize>,
}

impl Recorder {
    /// The entries kept so far, oldest first.
    pub closed spec fn kept(&self) -> Seq<Entry> {
        self.entries@
    }

    /// The position whose action is refused if it is a drive, if there is one.
    pub closed spec fn refusing(&self) -> Option<usize> {
        self.refuse_at
    }

    /// A recorder that takes every action.
    pub fn new() -> (recorder: Recorder)
        ensures
            recorder.kept() == Seq::<Entry>::empty(),
            recorder.refusing() is None,
    {
        Recorder { entries: Vec::new(), refuse_at: None }
    }

    /// A recorder that refuses the action at `position`, counted from 0 over all
    /// actions asked of it, if that action drives a line.
    pub fn refusing_at(position: usize) -> (recorder: Recorder)
        ensures
            recorder.kept() == Seq::<Entry>::empty(),
            recorder.refusing() == Some(position),
    {
        Recorder { entries: Vec::new(), refuse_at: Some(position) }
    }

    /// What was asked so far.
    pub fn entries(&self) -> (entries: &Vec<Entry>)
        ensures
            entries@ == self.kept(),
    {
        &self.entries
    }
}

impl Outputs for Recorder {
    type Error = PinFault;

    fn drive(&mut self, line: Line, high: bool) -> (r: Result<(), PinFault>)
        ensures
            final(self).refusing() == old(self).refusing(),
            r is Err <==> old(self).refusing() == Some(old(self).kept().len() as usize),
            r is Err ==> r == Err::<(), PinFault>(PinFault { line }),
            final(self).kept() == old(self).kept().push(
                (Entry { action: Action::Drive(line, high), taken: r is Ok }),
            ),
    {
        let taken = match self.refuse_at {
            Some(position) => position != self.entries.len(),
            None => true,
        };
        self.entries.push(Entry { action: Action::Drive(line, high), taken });
        if taken {
            Ok(())
        } else {
            Err(PinFault { line })
        }
    }

    fn delay_us(&mut self, micros: u32)
        ensures
            final(self).refusing() == old(self).refusing(),
            final(self).kept() == old(self).kept().push(
                (Entry { action: Action::DelayUs(micros), taken: true }),
            ),
    {
        self.entries.push(Entry { action: Action::DelayUs(micros), taken: true });
    }
}

} // verus!
