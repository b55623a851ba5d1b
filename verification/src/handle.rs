//! The terminal handle: one read-only descriptor on the controlling
//! terminal, held in a process-wide, lazily filled cell.

use vstd::prelude::*;

verus! {

/// The unrecoverable setup fault of the adapter. It is never retried: a
/// terminal that cannot be opened indicates a non-interactive or broken
/// environment that waiting will not fix, and the surrounding program treats
/// it as process-fatal.
#[derive(Clone, Copy, PartialEq, Eq, Structural, Debug)]
pub enum FatalFault {
    /// The controlling terminal could not be resolved or opened read-only.
    TerminalOpenFailed,
}

/// A read-only descriptor on the controlling terminal, together with the
/// record of whether its single close has been directed yet.
pub struct TerminalFD {
    /// The descriptor, as the operating system returned it.
    pub fd: i32,
    /// Whether [`TerminalFD::release`] has already run on this handle.
    pub released: bool,
}

/// Whether releasing `h` must close the descriptor now: only when the
/// descriptor is valid (non-negative) and no earlier release has run.
pub open spec fn close_directed(h: TerminalFD) -> bool {
    !h.released && h.fd >= 0
}

/// The handle after a release: the same descriptor, marked released.
pub open spec fn after_release(h: TerminalFD) -> TerminalFD {
    TerminalFD { released: true, ..h }
}

impl TerminalFD {
    /// A handle is well formed when it holds a descriptor that opened
    /// successfully; a failed open is never stored as a handle.
    pub open spec fn wf(self) -> bool {
        self.fd >= 0
    }

    /// Accept the outcome of one attempt to open the controlling terminal
    /// read-only. A non-negative descriptor becomes the handle; a negative
    /// outcome is the unrecoverable setup fault, and no handle is created.
    pub fn new(raw_fd: i32) -> (r: Result<TerminalFD, FatalFault>)
        ensures
            r is Ok <==> raw_fd >= 0,
            r matches Ok(h) ==> h.wf() && h.fd == raw_fd && !h.released,
            r matches Err(e) ==> e == FatalFault::TerminalOpenFailed,
    {
        if raw_fd >= 0 {
            Ok(TerminalFD { fd: raw_fd, released: false })
        } else {
            Err(FatalFault::TerminalOpenFailed)
        }
    }

    /// The raw descriptor, for registration with a readiness-notification
    /// facility. Sharing the value does not transfer ownership: only this
    /// handle may direct a close.
    pub fn raw_fd(&self) -> (r: i32)
        ensures
            r == self.fd,
    {
        self.fd
    }

    /// Decide the handle's release: report whether the descriptor must be
    /// closed now — only if it is valid and was not released before — and
    /// record that the release happened, so a close is directed at most once.
    pub fn release(&mut self) -> (do_close: bool)
        ensures
            do_close == close_directed(*old(self)),
            *final(self) == after_release(*old(self)),
    {
        let do_close = !self.released && self.fd >= 0;
        self.released = true;
        do_close
    }
}

/// Law: the descriptor is closed exactly once. The first release of a well
/// formed, not yet released handle directs the close; no release of an
/// already released handle ever directs another.
pub proof fn lemma_close_exactly_once(h: TerminalFD)
    ensures
        h.wf() && !h.released ==> close_directed(h),
        !close_directed(after_release(h)),
{
}

/// The process-wide holder of the one terminal handle: created empty, filled
/// by exactly the first installation attempt, never refilled and never
/// emptied while in use.
pub struct TerminalCell {
    /// The handle, once the first attempt has installed it.
    pub slot: Option<TerminalFD>,
}

/// One first-use attempt at the spec level: an empty holder keeps the offered
/// descriptor; a filled holder is unchanged, whatever is offered.
pub open spec fn install_outcome(slot: Option<int>, fd: int) -> Option<int> {
    if slot is Some {
        slot
    } else {
        Some(fd)
    }
}

/// A run of first-use attempts, in order, at the spec level.
pub open spec fn install_all(slot: Option<int>, fds: Seq<int>) -> Option<int>
    decreases fds.len(),
{
    if fds.len() == 0 {
        slot
    } else {
        install_all(install_outcome(slot, fds[0]), fds.drop_first())
    }
}

/// How many attempts of a run found the holder empty. Each such attempt is
/// one underlying open of the terminal: an attempt that finds the holder
/// filled reuses the held descriptor and opens nothing.
pub open spec fn opens_used(slot: Option<int>, fds: Seq<int>) -> int
    decreases fds.len(),
{
    if fds.len() == 0 {
        0
    } else {
        (if slot is None { 1int } else { 0int }) + opens_used(
            install_outcome(slot, fds[0]),
            fds.drop_first(),
        )
    }
}

impl TerminalCell {
    /// The descriptor held, if the cell is initialized.
    pub open spec fn held_fd(self) -> Option<int> {
        match self.slot {
            Some(h) => Some(h.fd as int),
            None => None,
        }
    }

    /// A held handle is well formed and not yet released: release belongs to
    /// process-wide teardown, after which the cell is gone as well.
    pub open spec fn wf(self) -> bool {
        self.slot matches Some(h) ==> h.wf() && !h.released
    }

    /// An empty holder: no terminal opened yet. The open is paid lazily, by
    /// the first invocation that needs the descriptor.
    pub fn new() -> (c: TerminalCell)
        ensures
            c.held_fd() is None,
            c.wf(),
    {
        TerminalCell { slot: None }
    }

    /// Whether the one handle exists already. A caller opens the terminal
    /// only when this is false.
    pub fn is_initialized(&self) -> (r: bool)
        ensures
            r == (self.held_fd() is Some),
    {
        self.slot.is_some()
    }

    /// One initialization attempt with a freshly opened handle. The first
    /// attempt's handle is kept for the life of the cell; a later attempt —
    /// the loser of a first-use race — changes nothing and is handed its
    /// handle back, so the caller can close that descriptor again. Either
    /// way, every caller observes the same held descriptor afterwards.
    pub fn install(&mut self, h: TerminalFD) -> (rejected: Option<TerminalFD>)
        requires
            h.wf(),
            !h.released,
        ensures
            final(self).held_fd() == install_outcome(old(self).held_fd(), h.fd as int),
            old(self).held_fd() is None ==> final(self).slot == Some(h) && rejected is None,
            old(self).held_fd() is Some ==> *final(self) == *old(self) && rejected == Some(h),
            old(self).wf() ==> final(self).wf(),
    {
        if self.slot.is_some() {
            Some(h)
        } else {
            self.slot = Some(h);
            None
        }
    }

    /// The held descriptor, for the invocations that poll it.
    pub fn fd(&self) -> (r: i32)
        requires
            self.held_fd() is Some,
        ensures
            self.held_fd() == Some(r as int),
    {
        match &self.slot {
            Some(h) => h.fd,
            None => {
                proof {
                    assert(false);
                }
                0
            },
        }
    }
}

/// Law: a holder that is already filled is stable. However many further
/// attempts run, the held descriptor never changes and no attempt opens
/// anything.
pub proof fn lemma_filled_cell_is_stable(fd: int, fds: Seq<int>)
    ensures
        install_all(Some(fd), fds) == Some(fd),
        opens_used(Some(fd), fds) == 0,
    decreases fds.len(),
{
    if fds.len() > 0 {
        assert(install_outcome(Some(fd), fds[0]) == Some(fd));
        lemma_filled_cell_is_stable(fd, fds.drop_first());
    }
}

/// Law: racing or repeated first-use still opens the terminal exactly once.
/// For any non-empty run of attempts on an empty holder, precisely the first
/// attempt opens a descriptor, and every attempt observes that identical
/// descriptor afterwards.
pub proof fn lemma_open_exactly_once(fds: Seq<int>)
    requires
        fds.len() > 0,
    ensures
        install_all(None, fds) == Some(fds[0]),
        opens_used(None, fds) == 1,
{
    assert(install_outcome(None, fds[0]) == Some(fds[0]));
    lemma_filled_cell_is_stable(fds[0], fds.drop_first());
}

} // verus!
