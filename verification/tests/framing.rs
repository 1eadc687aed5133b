use fleet_clock::controller::EpdController;
use fleet_clock::event::{Event, TransmitError};
use fleet_clock::mock::MockInterface;

fn framed(opcode: u8, payload: Option<&[u8]>) -> Vec<Event> {
    let mut v = vec![
        Event::Deselect,
        Event::CommandMode,
        Event::Select,
        Event::Byte(opcode),
        Event::DataMode,
    ];
    if let Some(data) = payload {
        for &b in data {
            v.push(Event::Byte(b));
        }
    }
    v.push(Event::Deselect);
    v
}

#[test]
fn command_frames_opcode_alone() {
    let mut c = EpdController::new(MockInterface::new());
    c.command(0x12, None).unwrap();
    assert_eq!(c.bus.log, framed(0x12, None));
}

#[test]
fn command_frames_empty_payload() {
    let mut c = EpdController::new(MockInterface::new());
    c.command(0x12, Some(&[])).unwrap();
    assert_eq!(c.bus.log, framed(0x12, Some(&[])));
}

#[test]
fn command_frames_payload_bytes() {
    let mut c = EpdController::new(MockInterface::new());
    c.command(0x61, Some(&[104, 0, 212])).unwrap();
    assert_eq!(c.bus.log, framed(0x61, Some(&[104, 0, 212])));
}

#[test]
fn command_frames_long_payload() {
    let payload: Vec<u8> = (0..200u16).map(|i| (i % 251) as u8).collect();
    let mut c = EpdController::new(MockInterface::new());
    c.command(0x10, Some(payload.as_slice())).unwrap();
    assert_eq!(c.bus.log, framed(0x10, Some(payload.as_slice())));
}

#[test]
fn opcode_failure_propagates_and_stops() {
    let mut c = EpdController::new(MockInterface::failing(0, 7));
    let r = c.command(0x04, Some(&[0x17, 0x17, 0x17]));
    assert_eq!(r, Err(TransmitError { code: 7 }));
    // The channel refused the opcode: only the framing prelude was observed,
    // and no payload byte was ever attempted.
    assert_eq!(c.bus.log, vec![Event::Deselect, Event::CommandMode, Event::Select]);
    assert!(c.bus.log.iter().all(|e| !matches!(e, Event::Byte(_))));
}

#[test]
fn payload_failure_propagates_after_opcode() {
    let mut c = EpdController::new(MockInterface::failing(1, 9));
    let r = c.command(0x50, Some(&[0x37]));
    assert_eq!(r, Err(TransmitError { code: 9 }));
    // The opcode went through and the lines switched to data mode, then the
    // payload write failed and nothing more was sent.
    assert_eq!(
        c.bus.log,
        vec![
            Event::Deselect,
            Event::CommandMode,
            Event::Select,
            Event::Byte(0x50),
            Event::DataMode,
        ]
    );
}
