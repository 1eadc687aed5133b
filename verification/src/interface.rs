//! The board-side contract the display controller drives.
//!
//! One implementor bundles everything the panel protocol touches: the serial
//! byte channel, the chip-select and data/command-select lines, and the
//! blocking delay source.  The controller owns its implementor exclusively
//! for the whole session, so the trace below is the complete history of what
//! the panel observed.
//!
//! The two output lines are treated as infallible: the reference hardware
//! cannot signal a failed pin write, so pin operations carry no error path
//! here.  Only the serial channel can fail, and a failed transmit must leave
//! no byte of that transmit in the observed trace ("no partial silent
//! success").

use vstd::prelude::*;

use crate::event::{byte_events, Event, TransmitError};

verus! {

/// Serial channel, both select lines and delay source of one panel.
pub trait EpdInterface: Sized {
    /// Everything the panel has observed so far, oldest event first.
    spec fn events(&self) -> Seq<Event>;

    /// Drive chip-select inactive (high).
    fn chip_deselect(&mut self)
        ensures
            final(self).events() == old(self).events().push(Event::Deselect),
    ;

    /// Drive chip-select active (low).
    fn chip_select(&mut self)
        ensures
            final(self).events() == old(self).events().push(Event::Select),
    ;

    /// Drive data/command-select to its "command" state (low).
    fn command_mode(&mut self)
        ensures
            final(self).events() == old(self).events().push(Event::CommandMode),
    ;

    /// Drive data/command-select to its "data" state (high).
    fn data_mode(&mut self)
        ensures
            final(self).events() == old(self).events().push(Event::DataMode),
    ;

    /// Transmit `data` in order as one contiguous write.  On failure the
    /// write contributes nothing to the observed trace.
    fn transmit(&mut self, data: &[u8]) -> (r: Result<(), TransmitError>)
        ensures
            match r {
                Ok(()) => final(self).events() == old(self).events() + byte_events(data@),
                Err(_) => final(self).events() == old(self).events(),
            },
    ;

    /// Block for `ms` milliseconds.
    fn delay_ms(&mut self, ms: u32)
        ensures
            final(self).events() == old(self).events().push(Event::DelayMs(ms)),
    ;

    /// Block for `us` microseconds.
    fn delay_us(&mut self, us: u32)
        ensures
            final(self).events() == old(self).events().push(Event::DelayUs(us)),
    ;
}

} // verus!
