//! Client-side core for a 6-degree-of-freedom input device daemon.
//!
//! Many logical connection handles are multiplexed onto one shared physical
//! session with the daemon: a registry counts the live handles and the
//! physical session is open exactly while at least one handle is live.  Raw
//! tagged records delivered by the transport are decoded into typed events,
//! with unrecognized tags rejected rather than coerced.
//!
//! The physical transport itself (the daemon socket) is outside this crate:
//! callers perform the open/close/receive primitives and hand their outcomes
//! to the functions here, which make every decision and are verified.

pub mod connection;
pub mod event;
pub mod registry;

pub use connection::Connection;
pub use connection::WaitFailure;

pub use event::ButtonEvent;
pub use event::DecodeFailure;
pub use event::Event;
pub use event::EventType;
pub use event::MotionEvent;
pub use event::RawButton;
pub use event::RawMotion;
pub use event::RawRecord;
pub use registry::ConnectFailure;
pub use registry::OpenOutcome;
pub use registry::Registry;
