//! The observable history of a display session.
//!
//! The panel cannot be queried, so the only meaning a driver action has is
//! what it puts on the wires: chip-select edges, data/command-select edges,
//! bytes on the serial channel, and the waits between them.  A session is
//! specified as the sequence of these events, oldest first.

use vstd::prelude::*;

verus! {

/// One observable step at the panel's pins.
#[derive(Clone, Copy, PartialEq, Eq, Structural, Debug)]
pub enum Event {
    /// Chip-select driven inactive (high): the panel stops listening.
    Deselect,
    /// Chip-select driven active (low): the panel listens.
    Select,
    /// Data/command-select driven to its "command" state (low).
    CommandMode,
    /// Data/command-select driven to its "data" state (high).
    DataMode,
    /// One byte transmitted over the serial channel.
    Byte(u8),
    /// A blocking wait, in milliseconds.
    DelayMs(u32),
    /// A blocking wait, in microseconds.
    DelayUs(u32),
}

/// The serial channel failed to send a byte.  The session is unrecoverable:
/// a partially sent command leaves the panel in an undefined register state,
/// so no retry is attempted anywhere in this crate.
#[derive(Clone, Copy, PartialEq, Eq, Structural, Debug)]
pub struct TransmitError {
    /// Channel-specific code, passed through verbatim.
    pub code: u32,
}

/// The events of transmitting `bytes` in order over the serial channel.
pub open spec fn byte_events(bytes: Seq<u8>) -> Seq<Event> {
    Seq::new(bytes.len(), |i: int| Event::Byte(bytes[i]))
}

/// `now` extends `base` by some leading part of `script` and nothing else.
///
/// This is what is left of a scripted exchange after a transmit failure:
/// the wires saw a prefix of the script, and the driver stopped.
pub open spec fn extends_by_prefix(base: Seq<Event>, now: Seq<Event>, script: Seq<Event>) -> bool {
    exists|n: int| 0 <= n <= script.len() && now == base + script.take(n)
}

/// A failure inside one step of a larger script is a failure within the
/// script: if the wires hold `done` whole steps plus a leading `part` of the
/// step `cmd`, that is a prefix of `done + cmd + rest`.
pub proof fn lemma_step_prefix(
    base: Seq<Event>,
    done: Seq<Event>,
    part: Seq<Event>,
    cmd: Seq<Event>,
    rest: Seq<Event>,
    now: Seq<Event>,
)
    requires
        now == base + done + part,
        part == cmd.take(part.len() as int),
        part.len() <= cmd.len(),
    ensures
        extends_by_prefix(base, now, done + cmd + rest),
{
    let script = done + cmd + rest;
    let n = done.len() + part.len();
    assert(now =~= base + script.take(n as int));
    assert(0 <= n <= script.len() && now == base + script.take(n as int));
}

/// A failure inside a later stage of a script is a failure within the whole
/// script: a prefix of `sub` reached after `done` whole stages is a prefix
/// of `done + sub + rest`.
pub proof fn lemma_stage_prefix(
    base: Seq<Event>,
    done: Seq<Event>,
    sub: Seq<Event>,
    rest: Seq<Event>,
    now: Seq<Event>,
)
    requires
        extends_by_prefix(base + done, now, sub),
    ensures
        extends_by_prefix(base, now, done + sub + rest),
{
    let script = done + sub + rest;
    let n = choose|n: int| 0 <= n <= sub.len() && now == (base + done) + sub.take(n);
    assert(now =~= base + script.take(done.len() + n));
    assert(0 <= done.len() + n <= script.len() && now == base + script.take(done.len() + n));
}

} // verus!
