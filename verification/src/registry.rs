//! The shared-session registry: a count of live handles, kept in step with
//! whether the one physical daemon session is open.

use vstd::prelude::*;

verus! {

/// What happened at the physical-open step of one acquisition.  The caller
/// consults the registry under exclusive access, attempts the physical open
/// exactly when the session is closed, and reports the outcome here.
#[derive(Debug, Clone, Copy, PartialEq, Eq)]
pub enum OpenOutcome {
    /// the session was already open, so no open was attempted
    AlreadyOpen,
    /// the session was closed, and the attempted physical open succeeded
    Opened,
    /// the session was closed, and the attempted physical open failed
    OpenFailed,
}

/// Why constructing a handle failed.
#[derive(Debug, Clone, Copy, PartialEq, Eq)]
pub enum ConnectFailure {
    /// the physical open failed; the registry was left untouched
    Open,
    /// descriptor retrieval failed after the session was (or just became)
    /// open; the acquisition stays counted and the session stays open
    Descriptor,
}

/// Whether one acquisition performed against `count` live handles opens the
/// physical session: exactly the first one does.
pub open spec fn acquire_opens(count: nat) -> bool {
    count == 0
}

/// Whether one release performed against `count` live handles closes the
/// physical session: exactly the last one does.
pub open spec fn release_closes(count: nat) -> bool {
    count == 1
}

/// How many physical opens a run of `n` successful acquisitions performs,
/// starting from `count` live handles.
pub open spec fn opens_during_acquires(count: nat, n: nat) -> nat
    decreases n,
{
    if n == 0 {
        0
    } else {
        (if acquire_opens(count) {
            1nat
        } else {
            0nat
        }) + opens_during_acquires(count + 1, (n - 1) as nat)
    }
}

/// How many physical closes a run of `n` releases performs, starting from
/// `count` live handles (a release needs a live handle, so `n <= count`).
pub open spec fn closes_during_releases(count: nat, n: nat) -> nat
    recommends
        n <= count,
    decreases n,
{
    if n == 0 {
        0
    } else {
        (if release_closes(count) {
            1nat
        } else {
            0nat
        }) + closes_during_releases((count - 1) as nat, (n - 1) as nat)
    }
}

/// Bookkeeping for the one shared physical session: how many logical handles
/// are live, and whether the physical session is open.
///
/// The registry models the critical section around the session lifecycle: a
/// caller drives it under exclusive access (`&mut`), performs the physical
/// open or close exactly when the registry says so, and updates the registry
/// in the same exclusive step, so the count and the open fact never drift
/// apart.
pub struct Registry {
    count: usize,
    open: bool,
}

impl Registry {
    /// Number of live logical handles.
    pub closed spec fn count(self) -> nat {
        self.count as nat
    }

    /// Whether the physical session is open.
    pub closed spec fn is_open(self) -> bool {
        self.open
    }

    /// The registry invariant: the physical session is open exactly while at
    /// least one handle is live.
    pub open spec fn wf(self) -> bool {
        self.is_open() <==> self.count() > 0
    }

    /// A fresh registry: no handles, session closed.
    pub fn new() -> (r: Registry)
        ensures
            r.wf(),
            r.count() == 0,
            !r.is_open(),
    {
        Registry { count: 0, open: false }
    }

    /// Whether the next acquisition must first open the physical session.
    pub fn needs_open(&self) -> (r: bool)
        ensures
            r == !self.is_open(),
            self.wf() ==> r == acquire_opens(self.count()),
    {
        !self.open
    }

    /// Number of live logical handles.
    pub fn handle_count(&self) -> (n: usize)
        ensures
            n == self.count(),
    {
        self.count
    }

    /// One acquisition, performed under exclusive access.
    ///
    /// `outcome` reports the physical-open step the caller just performed:
    /// `AlreadyOpen` exactly when the session was open, otherwise the result
    /// of the open the caller attempted.  `fd` is the outcome of descriptor
    /// retrieval (`None` when it failed); it is consulted only when the open
    /// step did not fail.
    ///
    /// A failed open leaves the registry untouched, so the next acquisition
    /// attempts the open again.  Otherwise the acquisition is counted and the
    /// descriptor is returned; a descriptor-retrieval failure after a
    /// successful open is reported as a distinct failure but does not roll
    /// back the open or the count, mirroring the physical resource's own
    /// failure semantics.
    pub fn acquire(&mut self, outcome: OpenOutcome, fd: Option<i32>) -> (r: Result<
        i32,
        ConnectFailure,
    >)
        requires
            old(self).wf(),
            (outcome is AlreadyOpen) <==> old(self).is_open(),
            old(self).count() < usize::MAX,
        ensures
            final(self).wf(),
            outcome is OpenFailed ==> *final(self) == *old(self),
            outcome is OpenFailed ==> r == Err::<i32, ConnectFailure>(ConnectFailure::Open),
            !(outcome is OpenFailed) ==> final(self).count() == old(self).count() + 1,
            !(outcome is OpenFailed) ==> final(self).is_open(),
            !(outcome is OpenFailed) ==> r == (match fd {
                Some(d) => Ok::<i32, ConnectFailure>(d),
                None => Err::<i32, ConnectFailure>(ConnectFailure::Descriptor),
            }),
    {
        match outcome {
            OpenOutcome::OpenFailed => Err(ConnectFailure::Open),
            _ => {
                self.count = self.count + 1;
                self.open = true;
                match fd {
                    Some(d) => Ok(d),
                    None => Err(ConnectFailure::Descriptor),
                }
            },
        }
    }

    /// One release, performed under exclusive access.  Returns whether this
    /// was the last live handle, in which case the caller must close the
    /// physical session in the same exclusive step.
    pub fn release(&mut self) -> (close_now: bool)
        requires
            old(self).wf(),
            old(self).count() > 0,
        ensures
            final(self).wf(),
            final(self).count() == old(self).count() - 1,
            close_now == release_closes(old(self).count()),
            final(self).is_open() == (final(self).count() > 0),
    {
        if self.count == 1 {
            self.count = 0;
            self.open = false;
            true
        } else {
            self.count = self.count - 1;
            false
        }
    }
}

/// Acquisitions made while the session is already open never open it again.
proof fn lemma_no_open_while_open(count: nat, n: nat)
    requires
        count > 0,
    ensures
        opens_during_acquires(count, n) == 0,
    decreases n,
{
    if n > 0 {
        lemma_no_open_while_open(count + 1, (n - 1) as nat);
    }
}

/// Releasing every one of `n` live handles closes the session exactly once:
/// only the last release, at one live handle, closes.
proof fn lemma_last_release_closes(n: nat)
    requires
        n >= 1,
    ensures
        closes_during_releases(n, n) == 1,
    decreases n,
{
    if n > 1 {
        lemma_last_release_closes((n - 1) as nat);
    } else {
        assert(closes_during_releases(0, 0) == 0);
    }
}

/// Any run of `n >= 1` handle constructions followed by `n` destructions,
/// starting from a fresh registry, opens the physical session exactly once
/// and closes it exactly once, whatever `n`.  Each construction and each
/// destruction is one atomic step under exclusive access to the registry, so
/// every interleaving of concurrent constructions and destructions is some
/// such run.
pub proof fn lemma_session_opened_and_closed_once(n: nat)
    requires
        n >= 1,
    ensures
        opens_during_acquires(0, n) == 1,
        closes_during_releases(n, n) == 1,
{
    lemma_no_open_while_open(1, (n - 1) as nat);
    lemma_last_release_closes(n);
}

} // verus!
