//! The connection handle: the unit applications create, poll, wait on and
//! release, multiplexed with its peers onto the one shared session.

use vstd::prelude::*;

use crate::event::DecodeFailure;
use crate::event::Event;
use crate::event::RawRecord;
use crate::event::decode_spec;
use crate::registry::ConnectFailure;
use crate::registry::OpenOutcome;
use crate::registry::Registry;
use crate::registry::release_closes;

verus! {

/// Why a blocking wait failed.
#[derive(Debug, Clone, Copy, PartialEq, Eq)]
pub enum WaitFailure {
    /// the transport-level receive failed
    Receive,
    /// a record arrived, but its tag is unrecognized
    Decode(DecodeFailure),
}

/// A logical handle onto the shared physical session.  It holds the session's
/// I/O descriptor, copied at construction and read-only thereafter; many
/// handles may be live at once, all over the same session.
#[derive(Debug)]
pub struct Connection {
    pub fd: i32,
}

impl Connection {
    /// Construct a handle: one acquisition against the registry, under
    /// exclusive access.
    ///
    /// The caller performs the physical steps and hands in their outcomes:
    /// `outcome` for the open step (an open is attempted exactly when the
    /// session is closed) and `fd` for descriptor retrieval.  A failed open
    /// leaves the registry untouched and yields no handle; otherwise the
    /// acquisition is counted, and the handle carries the descriptor, or the
    /// retrieval failure is reported without rolling the acquisition back.
    pub fn new(registry: &mut Registry, outcome: OpenOutcome, fd: Option<i32>) -> (r: Result<
        Connection,
        ConnectFailure,
    >)
        requires
            old(registry).wf(),
            (outcome is AlreadyOpen) <==> old(registry).is_open(),
            old(registry).count() < usize::MAX,
        ensures
            final(registry).wf(),
            outcome is OpenFailed ==> *final(registry) == *old(registry),
            outcome is OpenFailed ==> r == Err::<Connection, ConnectFailure>(ConnectFailure::Open),
            !(outcome is OpenFailed) ==> final(registry).count() == old(registry).count() + 1,
            !(outcome is OpenFailed) ==> final(registry).is_open(),
            !(outcome is OpenFailed) ==> r == (match fd {
                Some(d) => Ok::<Connection, ConnectFailure>(Connection { fd: d }),
                None => Err::<Connection, ConnectFailure>(ConnectFailure::Descriptor),
            }),
    {
        match registry.acquire(outcome, fd) {
            Ok(d) => Ok(Connection { fd: d }),
            Err(e) => Err(e),
        }
    }

    /// Turn the outcome of one non-blocking transport poll into a typed
    /// event.  Nothing pending yields nothing; a pending record yields its
    /// decoded event, and an undecodable record also yields nothing, since to
    /// a polling caller both just mean "no new typed event right now".
    pub fn poll(&self, fetched: Option<RawRecord>) -> (r: Option<Event>)
        ensures
            r == (match fetched {
                None => None::<Event>,
                Some(raw) => (match decode_spec(raw) {
                    Ok(e) => Some(e),
                    Err(_) => None::<Event>,
                }),
            }),
    {
        match fetched {
            None => None,
            Some(raw) => match Event::decode(&raw) {
                Ok(e) => Some(e),
                Err(_) => None,
            },
        }
    }

    /// Turn the outcome of one blocking transport receive into a typed event.
    /// A transport-level failure is reported, and so is an undecodable
    /// record: a caller that blocked for an event gets a usable event or an
    /// explicit error, never silent nothing.
    pub fn wait(&self, fetched: Result<RawRecord, ()>) -> (r: Result<Event, WaitFailure>)
        ensures
            r == (match fetched {
                Err(_) => Err::<Event, WaitFailure>(WaitFailure::Receive),
                Ok(raw) => (match decode_spec(raw) {
                    Ok(e) => Ok::<Event, WaitFailure>(e),
                    Err(d) => Err::<Event, WaitFailure>(WaitFailure::Decode(d)),
                }),
            }),
    {
        match fetched {
            Err(_) => Err(WaitFailure::Receive),
            Ok(raw) => match Event::decode(&raw) {
                Ok(e) => Ok(e),
                Err(d) => Err(WaitFailure::Decode(d)),
            },
        }
    }

    /// Release this handle: one release against the registry, under exclusive
    /// access, run exactly once per successfully constructed handle.  Returns
    /// whether this was the last handle, in which case the caller must close
    /// the physical session in the same exclusive step.
    pub fn release(self, registry: &mut Registry) -> (close_now: bool)
        requires
            old(registry).wf(),
            old(registry).count() > 0,
        ensures
            final(registry).wf(),
            final(registry).count() == old(registry).count() - 1,
            close_now == release_closes(old(registry).count()),
            final(registry).is_open() == (final(registry).count() > 0),
    {
        registry.release()
    }
}

} // verus!
