//! Typed events and the codec that reads them off raw tagged records.

use vstd::prelude::*;

verus! {

/// Wire tag standing for "any kind of record": a filter sentinel used when
/// flushing pending records, never the tag of a decodable record.
pub const TAG_ANY: i32 = 0;
/// Wire tag of a motion record.
pub const TAG_MOTION: i32 = 1;
/// Wire tag of a button record.
pub const TAG_BUTTON: i32 = 2;

/// Selector for flushing pending records by kind; not a decoded event.
#[derive(Debug, Clone, Copy)]
pub enum EventType {
    Any,
    Motion,
    Button,
}

impl EventType {
    /// The wire tag this selector stands for.
    pub open spec fn tag_spec(self) -> i32 {
        match self {
            EventType::Any => TAG_ANY,
            EventType::Motion => TAG_MOTION,
            EventType::Button => TAG_BUTTON,
        }
    }

    /// The wire tag this selector stands for, for handing to the transport.
    pub fn tag(self) -> (t: i32)
        ensures
            t == self.tag_spec(),
    {
        match self {
            EventType::Any => TAG_ANY,
            EventType::Motion => TAG_MOTION,
            EventType::Button => TAG_BUTTON,
        }
    }
}

/// The motion payload of a raw record, as plain values.
#[derive(Debug, Clone, Copy, PartialEq, Eq)]
pub struct RawMotion {
    pub x: i32,
    pub y: i32,
    pub z: i32,
    pub rx: i32,
    pub ry: i32,
    pub rz: i32,
    /// milliseconds since the previous motion record
    pub period: u32,
    /// reserved auxiliary datum attached by the transport; redundant with the
    /// six axis fields, and deliberately dropped in decoding
    pub aux: i32,
}

/// The button payload of a raw record, as plain values.
#[derive(Debug, Clone, Copy, PartialEq, Eq)]
pub struct RawButton {
    /// raw press flag: non-zero means pressed, zero means released
    pub press: i32,
    pub bnum: i32,
}

/// One raw record as delivered by the transport: a tag and an untyped
/// payload.  Both payload interpretations are carried; only the one the tag
/// selects is meaningful, and decoding reads no payload before the tag is
/// recognized.
#[derive(Debug, Clone, Copy, PartialEq, Eq)]
pub struct RawRecord {
    pub tag: i32,
    pub motion: RawMotion,
    pub button: RawButton,
}

/// A motion event: six signed axis readings (translation x, y, z and rotation
/// rx, ry, rz) and the period in milliseconds since the previous motion
/// event.  Constructed only by decoding a raw record.
#[derive(Debug, Clone, Copy, PartialEq, Eq)]
pub struct MotionEvent {
    pub x: i32,
    pub y: i32,
    pub z: i32,
    pub rx: i32,
    pub ry: i32,
    pub rz: i32,
    pub period: u32,
}

impl MotionEvent {
    /// The translation triple (x, y, z).
    pub fn t(&self) -> (r: (i32, i32, i32))
        ensures
            r == (self.x, self.y, self.z),
    {
        (self.x, self.y, self.z)
    }

    /// The rotation triple (rx, ry, rz).
    pub fn r(&self) -> (r: (i32, i32, i32))
        ensures
            r == (self.rx, self.ry, self.rz),
    {
        (self.rx, self.ry, self.rz)
    }

    /// The typed motion event a raw motion payload stands for: the six axes
    /// and the period, with the reserved auxiliary datum dropped.
    pub open spec fn from_raw_spec(m: RawMotion) -> MotionEvent {
        MotionEvent { x: m.x, y: m.y, z: m.z, rx: m.rx, ry: m.ry, rz: m.rz, period: m.period }
    }

    /// Read the typed motion event off a raw motion payload.
    pub fn from_raw(m: &RawMotion) -> (e: MotionEvent)
        ensures
            e == MotionEvent::from_raw_spec(*m),
    {
        MotionEvent { x: m.x, y: m.y, z: m.z, rx: m.rx, ry: m.ry, rz: m.rz, period: m.period }
    }
}

/// A button event: whether the button was pressed (rather than released) and
/// its index.  Constructed only by decoding a raw record.
#[derive(Debug, Clone, Copy, PartialEq, Eq)]
pub struct ButtonEvent {
    pub press: bool,
    pub bnum: i32,
}

impl ButtonEvent {
    /// The typed button event a raw button payload stands for: the raw
    /// non-zero/zero press flag normalized to a boolean.
    pub open spec fn from_raw_spec(b: RawButton) -> ButtonEvent {
        ButtonEvent { press: b.press != 0, bnum: b.bnum }
    }

    /// Read the typed button event off a raw button payload.
    pub fn from_raw(b: &RawButton) -> (e: ButtonEvent)
        ensures
            e == ButtonEvent::from_raw_spec(*b),
    {
        ButtonEvent { press: b.press != 0, bnum: b.bnum }
    }
}

/// A decode failure: the record's tag is not a recognized event tag.  Carries
/// the offending tag.
#[derive(Debug, Clone, Copy, PartialEq, Eq)]
pub struct DecodeFailure {
    pub tag: i32,
}

/// A typed event: the only shape surfaced to applications.  A raw record with
/// any other tag is not representable and surfaces as a decode failure.
#[derive(Debug, Clone, Copy, PartialEq, Eq)]
pub enum Event {
    Motion(MotionEvent),
    Button(ButtonEvent),
}

/// What decoding a raw record yields: the typed event for a recognized tag,
/// the decode failure (carrying the tag) for any other tag, the "any" filter
/// sentinel included.
pub open spec fn decode_spec(raw: RawRecord) -> Result<Event, DecodeFailure> {
    if raw.tag == TAG_MOTION {
        Ok(Event::Motion(MotionEvent::from_raw_spec(raw.motion)))
    } else if raw.tag == TAG_BUTTON {
        Ok(Event::Button(ButtonEvent::from_raw_spec(raw.button)))
    } else {
        Err(DecodeFailure { tag: raw.tag })
    }
}

impl Event {
    /// Decode one raw tagged record into a typed event.  Decoding is pure and
    /// total: a recognized tag yields the matching variant built from that
    /// payload alone, and every other tag is a failure, never a default
    /// variant.
    pub fn decode(raw: &RawRecord) -> (r: Result<Event, DecodeFailure>)
        ensures
            r == decode_spec(*raw),
    {
        if raw.tag == TAG_MOTION {
            Ok(Event::Motion(MotionEvent::from_raw(&raw.motion)))
        } else if raw.tag == TAG_BUTTON {
            Ok(Event::Button(ButtonEvent::from_raw(&raw.button)))
        } else {
            Err(DecodeFailure { tag: raw.tag })
        }
    }
}

} // verus!
