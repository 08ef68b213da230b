use spnav::ButtonEvent;
use spnav::ConnectFailure;
use spnav::Connection;
use spnav::Event;
use spnav::EventType;
use spnav::MotionEvent;
use spnav::OpenOutcome;
use spnav::RawButton;
use spnav::RawMotion;
use spnav::RawRecord;
use spnav::Registry;
use spnav::WaitFailure;

fn motion_record(tag: i32, x: i32, y: i32, z: i32, rx: i32, ry: i32, rz: i32, period: u32, aux: i32) -> RawRecord {
    RawRecord {
        tag,
        motion: RawMotion { x, y, z, rx, ry, rz, period, aux },
        button: RawButton { press: 0, bnum: 0 },
    }
}

fn button_record(tag: i32, press: i32, bnum: i32) -> RawRecord {
    RawRecord {
        tag,
        motion: RawMotion { x: 0, y: 0, z: 0, rx: 0, ry: 0, rz: 0, period: 0, aux: 0 },
        button: RawButton { press, bnum },
    }
}

#[test]
fn basic() -> Result<(), ()> {
    let mut registry = Registry::new();
    let c = Connection::new(&mut registry, OpenOutcome::Opened, Some(3)).map_err(|_| ())?;
    println!("{:?}", c);
    println!("{:?}", c.wait(Ok(motion_record(1, 1, 2, 3, 4, 5, 6, 7, 0))));
    Ok(())
}

#[test]
fn motion_record_decodes_to_all_axes() {
    let raw = motion_record(1, -10, 20, -30, 40, -50, 60, 16, 1234);
    match Event::decode(&raw) {
        Ok(Event::Motion(m)) => {
            assert_eq!(m, MotionEvent { x: -10, y: 20, z: -30, rx: 40, ry: -50, rz: 60, period: 16 });
        }
        other => panic!("expected a motion event, got {:?}", other),
    }
    // the auxiliary datum does not reach the result: two records that differ
    // only there decode identically
    let raw2 = motion_record(1, -10, 20, -30, 40, -50, 60, 16, -777);
    assert_eq!(Event::decode(&raw), Event::decode(&raw2));
}

#[test]
fn button_press_normalized_from_nonzero() {
    for (press_raw, press) in [(0, false), (1, true), (5, true), (-1, true)] {
        let raw = button_record(2, press_raw, 9);
        match Event::decode(&raw) {
            Ok(Event::Button(b)) => {
                assert_eq!(b, ButtonEvent { press, bnum: 9 });
            }
            other => panic!("expected a button event, got {:?}", other),
        }
    }
}

#[test]
fn unrecognized_tag_is_a_decode_failure() {
    for tag in [0, 3, -1, i32::MAX, i32::MIN] {
        let raw = button_record(tag, 1, 1);
        let err = Event::decode(&raw).expect_err("an unrecognized tag must not decode");
        assert_eq!(err.tag, tag);
    }
}

#[test]
fn wait_reports_undecodable_poll_swallows_it() {
    let mut registry = Registry::new();
    let c = Connection::new(&mut registry, OpenOutcome::Opened, Some(5)).expect("to connect");

    // an unrecognized tag: wait fails loudly, poll reports nothing pending
    let raw = button_record(0, 1, 1);
    match c.wait(Ok(raw)) {
        Err(WaitFailure::Decode(d)) => assert_eq!(d.tag, 0),
        other => panic!("expected a decode failure from wait, got {:?}", other),
    }
    assert!(c.poll(Some(raw)).is_none());

    // a transport-level failure of the blocking receive
    assert!(matches!(c.wait(Err(())), Err(WaitFailure::Receive)));
    // nothing pending
    assert!(c.poll(None).is_none());

    // a decodable record comes through both
    let good = button_record(2, 1, 4);
    assert_eq!(c.wait(Ok(good)), Ok(Event::Button(ButtonEvent { press: true, bnum: 4 })));
    assert_eq!(c.poll(Some(good)), Some(Event::Button(ButtonEvent { press: true, bnum: 4 })));
}

#[test]
fn failed_open_leaves_registry_fresh() {
    let mut registry = Registry::new();
    assert!(registry.needs_open());
    let r = Connection::new(&mut registry, OpenOutcome::OpenFailed, None);
    assert!(matches!(r, Err(ConnectFailure::Open)));
    // the count stays at zero and a second acquisition still attempts the open
    assert_eq!(registry.handle_count(), 0);
    assert!(registry.needs_open());
    // ... and succeeds when the open does
    let c = Connection::new(&mut registry, OpenOutcome::Opened, Some(8)).expect("to connect");
    assert_eq!(c.fd, 8);
    assert_eq!(registry.handle_count(), 1);
}

#[test]
fn descriptor_failure_keeps_the_acquisition() {
    let mut registry = Registry::new();
    let r = Connection::new(&mut registry, OpenOutcome::Opened, None);
    assert!(matches!(r, Err(ConnectFailure::Descriptor)));
    // the open is not rolled back: the session stays open and counted
    assert_eq!(registry.handle_count(), 1);
    assert!(!registry.needs_open());
}

#[test]
fn second_release_of_two_closes() {
    let mut registry = Registry::new();
    let a = Connection::new(&mut registry, OpenOutcome::Opened, Some(6)).expect("to connect");
    let b = Connection::new(&mut registry, OpenOutcome::AlreadyOpen, Some(6)).expect("to connect");
    assert_eq!(registry.handle_count(), 2);

    assert!(!a.release(&mut registry));
    assert_eq!(registry.handle_count(), 1);
    assert!(!registry.needs_open());

    assert!(b.release(&mut registry));
    assert_eq!(registry.handle_count(), 0);
    assert!(registry.needs_open());
}

#[test]
fn many_handles_open_once_close_once() {
    let mut registry = Registry::new();
    let mut handles: Vec<Connection> = Vec::new();
    let mut opens = 0;
    let mut closes = 0;
    for _ in 0..5 {
        let outcome = if registry.needs_open() {
            opens += 1;
            OpenOutcome::Opened
        } else {
            OpenOutcome::AlreadyOpen
        };
        handles.push(Connection::new(&mut registry, outcome, Some(11)).expect("to connect"));
    }
    assert_eq!(registry.handle_count(), 5);
    for c in handles {
        if c.release(&mut registry) {
            closes += 1;
        }
    }
    assert_eq!(registry.handle_count(), 0);
    assert_eq!((opens, closes), (1, 1));
}

#[test]
fn translation_and_rotation_projections() {
    for (x, y, z, rx, ry, rz) in [
        (0, 0, 0, 0, 0, 0),
        (-1, 2, -3, 4, -5, 6),
        (i32::MIN, i32::MAX, -7, i32::MAX, i32::MIN, 0),
    ] {
        let m = MotionEvent { x, y, z, rx, ry, rz, period: 250 };
        assert_eq!(m.t(), (x, y, z));
        assert_eq!(m.r(), (rx, ry, rz));
    }
}

#[test]
fn event_type_wire_tags() {
    assert_eq!(EventType::Any.tag(), 0);
    assert_eq!(EventType::Motion.tag(), 1);
    assert_eq!(EventType::Button.tag(), 2);
}
