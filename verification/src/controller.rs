//! The display controller: command framing and the fixed session scripts.
//!
//! Every interaction with the panel is one `command`: an opcode byte framed
//! by the select lines, optionally followed by payload bytes.  On top of
//! that primitive sit the fixed scripts the IL0373 family needs: a power-up
//! sequence with settle delays, the two bit-plane transfers, and the
//! refresh plus power-down tail.  Each script's contract equates the
//! observed trace with a spec-level event sequence, and a transmit failure
//! leaves a prefix of that sequence on the wires and the session
//! unrecoverable.

use vstd::prelude::*;

use crate::event::{
    byte_events, extends_by_prefix, lemma_stage_prefix, lemma_step_prefix, Event, TransmitError,
};
use crate::frame::{fill_rows, new_plane, plane_len, resolution_bytes, resolution_payload, Geometry};
use crate::interface::EpdInterface;

verus! {

// Register opcodes of the IL0373-family panel controller.
pub const IL0373_PANEL_SETTING: u8 = 0x00;
pub const IL0373_POWER_SETTING: u8 = 0x01;
pub const IL0373_POWER_OFF: u8 = 0x02;
pub const IL0373_POWER_OFF_SEQUENCE: u8 = 0x03;
pub const IL0373_POWER_ON: u8 = 0x04;
pub const IL0373_POWER_ON_MEASURE: u8 = 0x05;
pub const IL0373_BOOSTER_SOFT_START: u8 = 0x06;
pub const IL0373_DEEP_SLEEP: u8 = 0x07;
pub const IL0373_DTM1: u8 = 0x10;
pub const IL0373_DATA_STOP: u8 = 0x11;
pub const IL0373_DISPLAY_REFRESH: u8 = 0x12;
pub const IL0373_DTM2: u8 = 0x13;
pub const IL0373_PLL: u8 = 0x30;
pub const IL0373_CDI: u8 = 0x50;
pub const IL0373_RESOLUTION: u8 = 0x61;
pub const IL0373_VCM_DC_SETTING: u8 = 0x82;

/// RAM bank 1: the black/white bit-plane.
pub const EPD_RAM_BW: u8 = IL0373_DTM1;

/// RAM bank 2: the red/color bit-plane.
pub const EPD_RAM_RED: u8 = IL0373_DTM2;

/// Settle time after the power-on command, in milliseconds.
pub const POWER_ON_SETTLE_MS: u32 = 200;

/// Settle time after the VCOM DC setting, in milliseconds.
pub const VCOM_SETTLE_MS: u32 = 20;

/// Settle time between the two bit-plane transfers, in milliseconds.
pub const PLANE_SETTLE_MS: u32 = 2;

/// Worst-case wait for a full refresh, in milliseconds.  No busy line is
/// wired up, so the driver waits this long instead of polling.
pub const REFRESH_WAIT_MS: u32 = 20_000;

/// Pause after parking both lines high at the start of a session, in
/// microseconds.
pub const LINE_SETTLE_US: u32 = 100;

/// Pause after the defensive power-down at the start of a session, in
/// milliseconds.
pub const RESET_SETTLE_MS: u32 = 100;

/// What the VCOM DC setting command carries during power-down.  The panel
/// family leaves this ambiguous, so both readings are offered and the
/// choice is left to hardware validation.
#[derive(Clone, Copy, PartialEq, Eq, Structural, Debug)]
pub enum VcomPolicy {
    /// Send the opcode alone, with no payload at all.
    OpcodeOnly,
    /// Send an explicit single zero payload byte.
    ZeroByte,
}

/// Where the controller stands in the fixed session protocol.  The
/// transient stages — initializing, writing a plane, refreshing — live
/// inside the script calls; between public calls the controller is in one
/// of these three states.
#[derive(Clone, Copy, PartialEq, Eq, Structural, Debug)]
pub enum Phase {
    /// The panel's charge pump is off; only a power-up may follow.
    Unpowered,
    /// Powered and configured; ready for bit-planes or a refresh.
    Ready,
    /// A transmit failed mid-command.  The panel's register state is
    /// undefined and the session is unrecoverable.
    Failed,
}

/// The payload as a spec value: `None` means the opcode goes alone.
pub open spec fn spec_payload(p: Option<&[u8]>) -> Option<Seq<u8>> {
    match p {
        Some(d) => Some(d@),
        None => None,
    }
}

/// Framing up to and including the select edge, before any byte moves.
pub open spec fn framing_prelude() -> Seq<Event> {
    seq![Event::Deselect, Event::CommandMode, Event::Select]
}

/// Framing through the accepted opcode and the switch to data mode.
pub open spec fn opcode_accepted(op: u8) -> Seq<Event> {
    framing_prelude() + seq![Event::Byte(op), Event::DataMode]
}

/// The complete trace of one successful command exchange.
pub open spec fn command_events(op: u8, payload: Option<Seq<u8>>) -> Seq<Event> {
    opcode_accepted(op) + (match payload {
        Some(p) => byte_events(p),
        None => Seq::empty(),
    }) + seq![Event::Deselect]
}

/// The power-up script: voltage rails, booster timing, power on, a settle
/// delay, panel configuration, another settle delay, and the resolution.
pub open spec fn init_events(g: Geometry) -> Seq<Event> {
    command_events(IL0373_POWER_SETTING, Some(seq![0x03u8, 0x00u8, 0x2bu8, 0x2bu8, 0x09u8]))
        + command_events(IL0373_BOOSTER_SOFT_START, Some(seq![0x17u8, 0x17u8, 0x17u8]))
        + command_events(IL0373_POWER_ON, None)
        + seq![Event::DelayMs(POWER_ON_SETTLE_MS)]
        + command_events(IL0373_PANEL_SETTING, Some(seq![0xCFu8]))
        + command_events(IL0373_CDI, Some(seq![0x37u8]))
        + command_events(IL0373_PLL, Some(seq![0x29u8]))
        + command_events(IL0373_VCM_DC_SETTING, Some(seq![0x0Au8]))
        + seq![Event::DelayMs(VCOM_SETTLE_MS)]
        + command_events(IL0373_RESOLUTION, Some(resolution_payload(g)))
}

/// The VCOM DC payload during power-down under `policy`.
pub open spec fn vcom_power_down_payload(policy: VcomPolicy) -> Option<Seq<u8>> {
    match policy {
        VcomPolicy::OpcodeOnly => None,
        VcomPolicy::ZeroByte => Some(seq![0x00u8]),
    }
}

/// The power-down script: CDI prepared for power-off, the VCOM DC setting
/// under `policy`, then power off.
pub open spec fn power_down_events(policy: VcomPolicy) -> Seq<Event> {
    command_events(IL0373_CDI, Some(seq![0x17u8]))
        + command_events(IL0373_VCM_DC_SETTING, vcom_power_down_payload(policy))
        + command_events(IL0373_POWER_OFF, None)
}

/// The framebuffer transfer: both bit-planes, with a settle delay between.
pub open spec fn frame_events(black: Seq<u8>, red: Seq<u8>) -> Seq<Event> {
    command_events(EPD_RAM_BW, Some(black)) + seq![Event::DelayMs(PLANE_SETTLE_MS)]
        + command_events(EPD_RAM_RED, Some(red))
}

/// The refresh tail: the refresh command, the worst-case wait, then the
/// power-down script.
pub open spec fn refresh_events(policy: VcomPolicy) -> Seq<Event> {
    command_events(IL0373_DISPLAY_REFRESH, None) + seq![Event::DelayMs(REFRESH_WAIT_MS)]
        + power_down_events(policy)
}

/// The geometry of the demo hardware's panel.
pub open spec fn demo_geometry() -> Geometry {
    Geometry { width: 104, height: 212 }
}

/// The demo frame's black/white plane: the first five rows drawn, the rest
/// background.
pub open spec fn demo_black_plane() -> Seq<u8> {
    Seq::new(2756, |i: int| if i < 65 { 0x00u8 } else { 0xFFu8 })
}

/// The demo frame's red plane: rows five through nine drawn, the rest
/// background.
pub open spec fn demo_red_plane() -> Seq<u8> {
    Seq::new(2756, |i: int| if 65 <= i < 130 { 0x00u8 } else { 0xFFu8 })
}

/// Everything one demo session puts on the wires: both lines parked high
/// with a pause, a defensive power-down in case the panel was left powered,
/// a settle delay, the power-up script, the demo frame's two bit-planes,
/// and the refresh with its power-down tail.
pub open spec fn session_events(policy: VcomPolicy) -> Seq<Event> {
    seq![Event::Deselect, Event::DataMode, Event::DelayUs(LINE_SETTLE_US)]
        + power_down_events(policy) + seq![Event::DelayMs(RESET_SETTLE_MS)] + init_events(
        demo_geometry(),
    ) + frame_events(demo_black_plane(), demo_red_plane()) + refresh_events(policy)
}

/// Exclusive owner of one panel's serial channel, select lines and timer.
pub struct EpdController<B: EpdInterface> {
    /// The board back end.  Nothing else may drive these lines while the
    /// controller exists.
    pub bus: B,
    /// Where the session stands.
    pub phase: Phase,
}

impl<B: EpdInterface> EpdController<B> {
    /// Take ownership of the board interface; the panel is taken to be
    /// unpowered until the first power-up script runs.
    pub fn new(bus: B) -> (c: EpdController<B>)
        ensures
            c.bus == bus,
            c.phase is Unpowered,
    {
        EpdController { bus, phase: Phase::Unpowered }
    }

    /// Send one command: the opcode byte in command mode, then the payload
    /// bytes (if any) in data mode, all under one chip-select bracket.
    ///
    /// `Some` of an empty payload and `None` differ only in intent: both
    /// transmit the opcode and no data byte, and both switch to data mode
    /// before deselecting.  On a transmit failure the error is returned
    /// verbatim and nothing further is sent, so the wires hold exactly the
    /// framing prelude (opcode refused) or the accepted opcode (payload
    /// refused).
    pub fn command(&mut self, opcode: u8, payload: Option<&[u8]>) -> (r: Result<
        (),
        TransmitError,
    >)
        ensures
            final(self).phase == old(self).phase,
            match r {
                Ok(()) => final(self).bus.events() == old(self).bus.events() + command_events(
                    opcode,
                    spec_payload(payload),
                ),
                Err(_) => final(self).bus.events() == old(self).bus.events() + framing_prelude()
                    || (payload is Some && final(self).bus.events() == old(self).bus.events()
                    + opcode_accepted(opcode)),
            },
    {
        self.bus.chip_deselect();
        self.bus.command_mode();
        self.bus.chip_select();
        let op: [u8; 1] = [opcode];
        match self.bus.transmit(op.as_slice()) {
            Ok(()) => {},
            Err(e) => {
                proof {
                    assert(self.bus.events() =~= old(self).bus.events() + framing_prelude());
                }
                return Err(e);
            },
        }
        self.bus.data_mode();
        proof {
            assert(byte_events(op@) =~= seq![Event::Byte(opcode)]);
            assert(self.bus.events() =~= old(self).bus.events() + opcode_accepted(opcode));
        }
        match payload {
            Some(data) => {
                match self.bus.transmit(data) {
                    Ok(()) => {},
                    Err(e) => {
                        return Err(e);
                    },
                }
            },
            None => {},
        }
        self.bus.chip_deselect();
        proof {
            assert(self.bus.events() =~= old(self).bus.events() + command_events(
                opcode,
                spec_payload(payload),
            ));
        }
        Ok(())
    }

    /// One command within a larger script: same exchange as [`Self::command`],
    /// with the ghost bookkeeping that places it after the `done` part of
    /// `script` and before `rest`, so that a failure is a failure of the
    /// whole script.
    fn command_step(
        &mut self,
        opcode: u8,
        payload: Option<&[u8]>,
        Ghost(base): Ghost<Seq<Event>>,
        Ghost(done): Ghost<Seq<Event>>,
        Ghost(rest): Ghost<Seq<Event>>,
        Ghost(script): Ghost<Seq<Event>>,
    ) -> (r: Result<(), TransmitError>)
        requires
            old(self).bus.events() == base + done,
            script == done + command_events(opcode, spec_payload(payload)) + rest,
        ensures
            final(self).phase == old(self).phase,
            match r {
                Ok(()) => final(self).bus.events() == base + (done + command_events(
                    opcode,
                    spec_payload(payload),
                )),
                Err(_) => extends_by_prefix(base, final(self).bus.events(), script),
            },
    {
        let ghost cmd = command_events(opcode, spec_payload(payload));
        match self.command(opcode, payload) {
            Ok(()) => {
                proof {
                    assert(self.bus.events() =~= base + (done + cmd));
                }
                Ok(())
            },
            Err(e) => {
                proof {
                    if self.bus.events() == old(self).bus.events() + framing_prelude() {
                        assert(framing_prelude() =~= cmd.take(3));
                        assert(self.bus.events() =~= base + done + framing_prelude());
                        lemma_step_prefix(
                            base,
                            done,
                            framing_prelude(),
                            cmd,
                            rest,
                            self.bus.events(),
                        );
                    } else {
                        assert(opcode_accepted(opcode) =~= cmd.take(5));
                        assert(self.bus.events() =~= base + done + opcode_accepted(opcode));
                        lemma_step_prefix(
                            base,
                            done,
                            opcode_accepted(opcode),
                            cmd,
                            rest,
                            self.bus.events(),
                        );
                    }
                }
                Err(e)
            },
        }
    }

    /// The power-down script of [`power_down_events`]: CDI prepared for
    /// power-off, the VCOM DC setting under `policy`, then power off.  Run
    /// both as the defensive reset at the start of a session and as the
    /// tail of the refresh; the phase is left to the caller.
    fn run_power_down(&mut self, policy: VcomPolicy) -> (r: Result<(), TransmitError>)
        ensures
            final(self).phase == old(self).phase,
            match r {
                Ok(()) => final(self).bus.events() == old(self).bus.events() + power_down_events(
                    policy,
                ),
                Err(_) => extends_by_prefix(
                    old(self).bus.events(),
                    final(self).bus.events(),
                    power_down_events(policy),
                ),
            },
    {
        let ghost base = self.bus.events();
        let ghost c1 = command_events(IL0373_CDI, Some(seq![0x17u8]));
        let ghost c2 = command_events(IL0373_VCM_DC_SETTING, vcom_power_down_payload(policy));
        let ghost c3 = command_events(IL0373_POWER_OFF, None);
        let ghost script = power_down_events(policy);
        let ghost mut done: Seq<Event> = Seq::empty();
        let p1: [u8; 1] = [0x17];
        proof {
            assert(base =~= base + done);
            assert(p1@ =~= seq![0x17u8]);
            assert(script =~= done + c1 + (c2 + c3));
        }
        match self.command_step(
            IL0373_CDI,
            Some(p1.as_slice()),
            Ghost(base),
            Ghost(done),
            Ghost(c2 + c3),
            Ghost(script),
        ) {
            Ok(()) => {
                proof {
                    done = done + c1;
                }
            },
            Err(e) => {
                return Err(e);
            },
        }
        proof {
            assert(script =~= done + c2 + c3);
        }
        let zero: [u8; 1] = [0x00];
        let r = match policy {
            VcomPolicy::OpcodeOnly => self.command_step(
                IL0373_VCM_DC_SETTING,
                None,
                Ghost(base),
                Ghost(done),
                Ghost(c3),
                Ghost(script),
            ),
            VcomPolicy::ZeroByte => {
                proof {
                    assert(zero@ =~= seq![0x00u8]);
                }
                self.command_step(
                    IL0373_VCM_DC_SETTING,
                    Some(zero.as_slice()),
                    Ghost(base),
                    Ghost(done),
                    Ghost(c3),
                    Ghost(script),
                )
            },
        };
        match r {
            Ok(()) => {
                proof {
                    done = done + c2;
                }
            },
            Err(e) => {
                return Err(e);
            },
        }
        proof {
            assert(script =~= done + c3 + Seq::<Event>::empty());
        }
        match self.command_step(
            IL0373_POWER_OFF,
            None,
            Ghost(base),
            Ghost(done),
            Ghost(Seq::empty()),
            Ghost(script),
        ) {
            Ok(()) => {
                proof {
                    done = done + c3;
                    assert(self.bus.events() =~= base + script);
                }
            },
            Err(e) => {
                return Err(e);
            },
        }
        Ok(())
    }

    /// Run the fixed power-up script of [`init_events`]: voltage rails,
    /// booster soft-start, power on, the power-on settle delay, panel
    /// configuration, the VCOM settle delay, then the resolution for
    /// `geom`.  On success the panel is ready for bit-planes; on a transmit
    /// failure the session is unrecoverable.
    pub fn power_up(&mut self, geom: Geometry) -> (r: Result<(), TransmitError>)
        requires
            old(self).phase is Unpowered,
        ensures
            match r {
                Ok(()) => final(self).bus.events() == old(self).bus.events() + init_events(geom)
                    && final(self).phase is Ready,
                Err(_) => extends_by_prefix(
                    old(self).bus.events(),
                    final(self).bus.events(),
                    init_events(geom),
                ) && final(self).phase is Failed,
            },
    {
        let ghost base = self.bus.events();
        let ghost c1 = command_events(
            IL0373_POWER_SETTING,
            Some(seq![0x03u8, 0x00u8, 0x2bu8, 0x2bu8, 0x09u8]),
        );
        let ghost c2 = command_events(IL0373_BOOSTER_SOFT_START, Some(seq![0x17u8, 0x17u8, 0x17u8]));
        let ghost c3 = command_events(IL0373_POWER_ON, None);
        let ghost d1 = seq![Event::DelayMs(POWER_ON_SETTLE_MS)];
        let ghost c4 = command_events(IL0373_PANEL_SETTING, Some(seq![0xCFu8]));
        let ghost c5 = command_events(IL0373_CDI, Some(seq![0x37u8]));
        let ghost c6 = command_events(IL0373_PLL, Some(seq![0x29u8]));
        let ghost c7 = command_events(IL0373_VCM_DC_SETTING, Some(seq![0x0Au8]));
        let ghost d2 = seq![Event::DelayMs(VCOM_SETTLE_MS)];
        let ghost c8 = command_events(IL0373_RESOLUTION, Some(resolution_payload(geom)));
        let ghost script = init_events(geom);
        let ghost mut done: Seq<Event> = Seq::empty();

        let rails: [u8; 5] = [0x03, 0x00, 0x2b, 0x2b, 0x09];
        proof {
            assert(base =~= base + done);
            assert(rails@ =~= seq![0x03u8, 0x00u8, 0x2bu8, 0x2bu8, 0x09u8]);
            assert(script =~= done + c1 + (c2 + c3 + d1 + c4 + c5 + c6 + c7 + d2 + c8));
        }
        match self.command_step(
            IL0373_POWER_SETTING,
            Some(rails.as_slice()),
            Ghost(base),
            Ghost(done),
            Ghost(c2 + c3 + d1 + c4 + c5 + c6 + c7 + d2 + c8),
            Ghost(script),
        ) {
            Ok(()) => {
                proof {
                    done = done + c1;
                }
            },
            Err(e) => {
                self.phase = Phase::Failed;
                return Err(e);
            },
        }

        let booster: [u8; 3] = [0x17, 0x17, 0x17];
        proof {
            assert(booster@ =~= seq![0x17u8, 0x17u8, 0x17u8]);
            assert(script =~= done + c2 + (c3 + d1 + c4 + c5 + c6 + c7 + d2 + c8));
        }
        match self.command_step(
            IL0373_BOOSTER_SOFT_START,
            Some(booster.as_slice()),
            Ghost(base),
            Ghost(done),
            Ghost(c3 + d1 + c4 + c5 + c6 + c7 + d2 + c8),
            Ghost(script),
        ) {
            Ok(()) => {
                proof {
                    done = done + c2;
                }
            },
            Err(e) => {
                self.phase = Phase::Failed;
                return Err(e);
            },
        }

        proof {
            assert(script =~= done + c3 + (d1 + c4 + c5 + c6 + c7 + d2 + c8));
        }
        match self.command_step(
            IL0373_POWER_ON,
            None,
            Ghost(base),
            Ghost(done),
            Ghost(d1 + c4 + c5 + c6 + c7 + d2 + c8),
            Ghost(script),
        ) {
            Ok(()) => {
                proof {
                    done = done + c3;
                }
            },
            Err(e) => {
                self.phase = Phase::Failed;
                return Err(e);
            },
        }

        self.bus.delay_ms(POWER_ON_SETTLE_MS);
        proof {
            assert(self.bus.events() =~= base + (done + d1));
            done = done + d1;
        }

        let mode: [u8; 1] = [0xCF];
        proof {
            assert(mode@ =~= seq![0xCFu8]);
            assert(script =~= done + c4 + (c5 + c6 + c7 + d2 + c8));
        }
        match self.command_step(
            IL0373_PANEL_SETTING,
            Some(mode.as_slice()),
            Ghost(base),
            Ghost(done),
            Ghost(c5 + c6 + c7 + d2 + c8),
            Ghost(script),
        ) {
            Ok(()) => {
                proof {
                    done = done + c4;
                }
            },
            Err(e) => {
                self.phase = Phase::Failed;
                return Err(e);
            },
        }

        let cdi: [u8; 1] = [0x37];
        proof {
            assert(cdi@ =~= seq![0x37u8]);
            assert(script =~= done + c5 + (c6 + c7 + d2 + c8));
        }
        match self.command_step(
            IL0373_CDI,
            Some(cdi.as_slice()),
            Ghost(base),
            Ghost(done),
            Ghost(c6 + c7 + d2 + c8),
            Ghost(script),
        ) {
            Ok(()) => {
                proof {
                    done = done + c5;
                }
            },
            Err(e) => {
                self.phase = Phase::Failed;
                return Err(e);
            },
        }

        let pll: [u8; 1] = [0x29];
        proof {
            assert(pll@ =~= seq![0x29u8]);
            assert(script =~= done + c6 + (c7 + d2 + c8));
        }
        match self.command_step(
            IL0373_PLL,
            Some(pll.as_slice()),
            Ghost(base),
            Ghost(done),
            Ghost(c7 + d2 + c8),
            Ghost(script),
        ) {
            Ok(()) => {
                proof {
                    done = done + c6;
                }
            },
            Err(e) => {
                self.phase = Phase::Failed;
                return Err(e);
            },
        }

        let vcom: [u8; 1] = [0x0A];
        proof {
            assert(vcom@ =~= seq![0x0Au8]);
            assert(script =~= done + c7 + (d2 + c8));
        }
        match self.command_step(
            IL0373_VCM_DC_SETTING,
            Some(vcom.as_slice()),
            Ghost(base),
            Ghost(done),
            Ghost(d2 + c8),
            Ghost(script),
        ) {
            Ok(()) => {
                proof {
                    done = done + c7;
                }
            },
            Err(e) => {
                self.phase = Phase::Failed;
                return Err(e);
            },
        }

        self.bus.delay_ms(VCOM_SETTLE_MS);
        proof {
            assert(self.bus.events() =~= base + (done + d2));
            done = done + d2;
        }

        let res = resolution_bytes(geom);
        proof {
            assert(script =~= done + c8 + Seq::<Event>::empty());
        }
        match self.command_step(
            IL0373_RESOLUTION,
            Some(res.as_slice()),
            Ghost(base),
            Ghost(done),
            Ghost(Seq::empty()),
            Ghost(script),
        ) {
            Ok(()) => {
                proof {
                    done = done + c8;
                    assert(self.bus.events() =~= base + script);
                }
            },
            Err(e) => {
                self.phase = Phase::Failed;
                return Err(e);
            },
        }

        self.phase = Phase::Ready;
        Ok(())
    }

    /// Push both bit-planes of one frame into the panel's RAM: the
    /// black/white plane into bank 1, a settle delay, then the red plane
    /// into bank 2.  Each plane must be exactly one full bit-plane for
    /// `geom`.
    pub fn write_frame(&mut self, geom: Geometry, black: &[u8], red: &[u8]) -> (r: Result<
        (),
        TransmitError,
    >)
        requires
            old(self).phase is Ready,
            black@.len() == plane_len(geom),
            red@.len() == plane_len(geom),
        ensures
            match r {
                Ok(()) => final(self).bus.events() == old(self).bus.events() + frame_events(
                    black@,
                    red@,
                ) && final(self).phase is Ready,
                Err(_) => extends_by_prefix(
                    old(self).bus.events(),
                    final(self).bus.events(),
                    frame_events(black@, red@),
                ) && final(self).phase is Failed,
            },
    {
        let ghost base = self.bus.events();
        let ghost c1 = command_events(EPD_RAM_BW, Some(black@));
        let ghost d1 = seq![Event::DelayMs(PLANE_SETTLE_MS)];
        let ghost c2 = command_events(EPD_RAM_RED, Some(red@));
        let ghost script = frame_events(black@, red@);
        let ghost mut done: Seq<Event> = Seq::empty();
        proof {
            assert(base =~= base + done);
            assert(script =~= done + c1 + (d1 + c2));
        }
        match self.command_step(
            EPD_RAM_BW,
            Some(black),
            Ghost(base),
            Ghost(done),
            Ghost(d1 + c2),
            Ghost(script),
        ) {
            Ok(()) => {
                proof {
                    done = done + c1;
                }
            },
            Err(e) => {
                self.phase = Phase::Failed;
                return Err(e);
            },
        }
        self.bus.delay_ms(PLANE_SETTLE_MS);
        proof {
            assert(self.bus.events() =~= base + (done + d1));
            done = done + d1;
            assert(script =~= done + c2 + Seq::<Event>::empty());
        }
        match self.command_step(
            EPD_RAM_RED,
            Some(red),
            Ghost(base),
            Ghost(done),
            Ghost(Seq::empty()),
            Ghost(script),
        ) {
            Ok(()) => {
                proof {
                    done = done + c2;
                    assert(self.bus.events() =~= base + script);
                }
            },
            Err(e) => {
                self.phase = Phase::Failed;
                return Err(e);
            },
        }
        Ok(())
    }

    /// Trigger the refresh, wait out the worst-case refresh time, then run
    /// the power-down script under `policy`.  No busy line is wired up, so
    /// the wait is a fixed conservative bound, not a completion signal.
    pub fn refresh_and_power_down(&mut self, policy: VcomPolicy) -> (r: Result<
        (),
        TransmitError,
    >)
        requires
            old(self).phase is Ready,
        ensures
            match r {
                Ok(()) => final(self).bus.events() == old(self).bus.events() + refresh_events(
                    policy,
                ) && final(self).phase is Unpowered,
                Err(_) => extends_by_prefix(
                    old(self).bus.events(),
                    final(self).bus.events(),
                    refresh_events(policy),
                ) && final(self).phase is Failed,
            },
    {
        let ghost base = self.bus.events();
        let ghost c1 = command_events(IL0373_DISPLAY_REFRESH, None);
        let ghost d1 = seq![Event::DelayMs(REFRESH_WAIT_MS)];
        let ghost pd = power_down_events(policy);
        let ghost script = refresh_events(policy);
        let ghost mut done: Seq<Event> = Seq::empty();
        proof {
            assert(base =~= base + done);
            assert(script =~= done + c1 + (d1 + pd));
        }
        match self.command_step(
            IL0373_DISPLAY_REFRESH,
            None,
            Ghost(base),
            Ghost(done),
            Ghost(d1 + pd),
            Ghost(script),
        ) {
            Ok(()) => {
                proof {
                    done = done + c1;
                }
            },
            Err(e) => {
                self.phase = Phase::Failed;
                return Err(e);
            },
        }
        self.bus.delay_ms(REFRESH_WAIT_MS);
        proof {
            assert(self.bus.events() =~= base + (done + d1));
            done = done + d1;
        }
        match self.run_power_down(policy) {
            Ok(()) => {
                proof {
                    assert(self.bus.events() =~= base + script);
                }
            },
            Err(e) => {
                proof {
                    lemma_stage_prefix(base, done, pd, Seq::empty(), self.bus.events());
                    assert(script =~= done + pd + Seq::<Event>::empty());
                }
                self.phase = Phase::Failed;
                return Err(e);
            },
        }
        self.phase = Phase::Unpowered;
        Ok(())
    }

    /// Run the whole demo session end to end: park the lines, reset the
    /// panel defensively, power it up as a 104 by 212 panel, push the demo
    /// frame (five black rows, then five red rows), refresh, and power back
    /// down.  On success the wires saw exactly [`session_events`]; on a
    /// transmit failure they saw a prefix of it and the session is
    /// unrecoverable.
    pub fn run_session(&mut self, policy: VcomPolicy) -> (r: Result<(), TransmitError>)
        requires
            old(self).phase is Unpowered,
        ensures
            match r {
                Ok(()) => final(self).bus.events() == old(self).bus.events() + session_events(
                    policy,
                ) && final(self).phase is Unpowered,
                Err(_) => extends_by_prefix(
                    old(self).bus.events(),
                    final(self).bus.events(),
                    session_events(policy),
                ) && final(self).phase is Failed,
            },
    {
        let ghost base = self.bus.events();
        let ghost s0 = seq![Event::Deselect, Event::DataMode, Event::DelayUs(LINE_SETTLE_US)];
        let ghost s1 = power_down_events(policy);
        let ghost d1 = seq![Event::DelayMs(RESET_SETTLE_MS)];
        let ghost s2 = init_events(demo_geometry());
        let ghost s3 = frame_events(demo_black_plane(), demo_red_plane());
        let ghost s4 = refresh_events(policy);
        let ghost script = session_events(policy);
        let ghost mut done: Seq<Event> = Seq::empty();

        self.bus.chip_deselect();
        self.bus.data_mode();
        self.bus.delay_us(LINE_SETTLE_US);
        proof {
            assert(self.bus.events() =~= base + s0);
            done = s0;
        }

        match self.run_power_down(policy) {
            Ok(()) => {
                proof {
                    assert(self.bus.events() =~= base + (done + s1));
                    done = done + s1;
                }
            },
            Err(e) => {
                proof {
                    lemma_stage_prefix(base, done, s1, d1 + s2 + s3 + s4, self.bus.events());
                    assert(script =~= done + s1 + (d1 + s2 + s3 + s4));
                }
                self.phase = Phase::Failed;
                return Err(e);
            },
        }

        self.bus.delay_ms(RESET_SETTLE_MS);
        proof {
            assert(self.bus.events() =~= base + (done + d1));
            done = done + d1;
        }

        let g = Geometry { width: 104, height: 212 };
        match self.power_up(g) {
            Ok(()) => {
                proof {
                    assert(self.bus.events() =~= base + (done + s2));
                    done = done + s2;
                }
            },
            Err(e) => {
                proof {
                    lemma_stage_prefix(base, done, s2, s3 + s4, self.bus.events());
                    assert(script =~= done + s2 + (s3 + s4));
                }
                return Err(e);
            },
        }

        let mut black = new_plane(g);
        fill_rows(&mut black, g, 0, 5);
        let mut red = new_plane(g);
        fill_rows(&mut red, g, 5, 10);
        proof {
            assert(black@ =~= demo_black_plane());
            assert(red@ =~= demo_red_plane());
        }

        match self.write_frame(g, black.as_slice(), red.as_slice()) {
            Ok(()) => {
                proof {
                    assert(self.bus.events() =~= base + (done + s3));
                    done = done + s3;
                }
            },
            Err(e) => {
                proof {
                    lemma_stage_prefix(base, done, s3, s4, self.bus.events());
                    assert(script =~= done + s3 + s4);
                }
                return Err(e);
            },
        }

        match self.refresh_and_power_down(policy) {
            Ok(()) => {
                proof {
                    assert(self.bus.events() =~= base + script);
                }
            },
            Err(e) => {
                proof {
                    lemma_stage_prefix(base, done, s4, Seq::empty(), self.bus.events());
                    assert(script =~= done + s4 + Seq::<Event>::empty());
                }
                return Err(e);
            },
        }
        Ok(())
    }
}

} // verus!
