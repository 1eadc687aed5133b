//! An in-memory board back end that records the observed trace.
//!
//! The mock stands in for the real serial channel, select lines and timer:
//! every operation is appended to a log, and the serial channel can be
//! scripted to fail on a chosen transmit so that the error paths of the
//! protocol can be exercised.

use vstd::prelude::*;

use crate::event::{byte_events, Event, TransmitError};
use crate::interface::EpdInterface;

verus! {

/// Recording implementation of [`EpdInterface`].
pub struct MockInterface {
    /// Every event observed so far, oldest first.
    pub log: Vec<Event>,
    /// `Some(k)`: the next `k` transmits succeed and the one after fails.
    /// `None`: every transmit succeeds.  A failure is one-shot: after it
    /// fires, later transmits succeed.
    pub fail_after: Option<usize>,
    /// Error code handed back by a scripted failure.
    pub fail_code: u32,
}

impl MockInterface {
    /// A mock whose channel never fails.
    pub fn new() -> (m: MockInterface)
        ensures
            m.events() == Seq::<Event>::empty(),
            m.fail_after is None,
    {
        MockInterface { log: Vec::new(), fail_after: None, fail_code: 0 }
    }

    /// A mock whose channel completes `successes` transmits and then fails
    /// the next one with `code`.
    pub fn failing(successes: usize, code: u32) -> (m: MockInterface)
        ensures
            m.events() == Seq::<Event>::empty(),
            m.fail_after == Some(successes),
            m.fail_code == code,
    {
        MockInterface { log: Vec::new(), fail_after: Some(successes), fail_code: code }
    }
}

impl EpdInterface for MockInterface {
    open spec fn events(&self) -> Seq<Event> {
        self.log@
    }

    fn chip_deselect(&mut self) {
        self.log.push(Event::Deselect);
    }

    fn chip_select(&mut self) {
        self.log.push(Event::Select);
    }

    fn command_mode(&mut self) {
        self.log.push(Event::CommandMode);
    }

    fn data_mode(&mut self) {
        self.log.push(Event::DataMode);
    }

    fn transmit(&mut self, data: &[u8]) -> (r: Result<(), TransmitError>)
        ensures
            r is Ok <==> old(self).fail_after != Some(0usize),
            r is Err ==> r->Err_0 == (TransmitError { code: old(self).fail_code })
                && final(self).fail_after is None,
            r is Ok ==> final(self).fail_after == (match old(self).fail_after {
                Some(k) => Some((k - 1) as usize),
                None => None,
            }),
            final(self).fail_code == old(self).fail_code,
    {
        match self.fail_after {
            Some(k) => {
                if k == 0 {
                    self.fail_after = None;
                    return Err(TransmitError { code: self.fail_code });
                }
                self.fail_after = Some(k - 1);
            },
            None => {},
        }
        let ghost base = self.log@;
        let ghost armed = self.fail_after;
        let ghost code = self.fail_code;
        let mut i: usize = 0;
        while i < data.len()
            invariant
                i <= data@.len(),
                self.log@ == base + byte_events(data@.take(i as int)),
                self.fail_after == armed,
                self.fail_code == code,
            decreases data@.len() - i,
        {
            self.log.push(Event::Byte(data[i]));
            proof {
                assert(self.log@ =~= base + byte_events(data@.take(i + 1)));
            }
            i = i + 1;
        }
        proof {
            assert(data@.take(data@.len() as int) =~= data@);
        }
        Ok(())
    }

    fn delay_ms(&mut self, ms: u32) {
        self.log.push(Event::DelayMs(ms));
    }

    fn delay_us(&mut self, us: u32) {
        self.log.push(Event::DelayUs(us));
    }
}

} // verus!
