//! The single-shot input poller: one invocation of "get next input", from
//! construction through suspensions to the one underlying read.

use vstd::prelude::*;

verus! {

/// The phases of one invocation.
#[derive(Clone, Copy, PartialEq, Eq, Structural, Debug)]
pub enum PollPhase {
    /// Constructed, never yet polled.
    Created,
    /// Polled at least once without observing readiness; waiting for a
    /// wakeup from the readiness-notification facility.
    Suspended,
    /// The poll just made observed readiness: the one underlying read is now
    /// owed, immediately.
    ReadyObserved,
    /// The one underlying read was made and its code handed out.
    Completed,
}

/// What the scheduler must do after one poll.
#[derive(Clone, Copy, PartialEq, Eq, Structural, Debug)]
pub enum PollDirective {
    /// Register interest in future readiness and suspend. No underlying
    /// call is made.
    Suspend,
    /// Readiness was observed: make the one blocking read now, and complete
    /// with its code.
    ReadInput,
}

/// One invocation of "get next input": the descriptor it watches, the phase
/// it is in, and a count of the underlying reads it has directed.
pub struct GetchFuture {
    /// The terminal descriptor this invocation polls (a copy; the handle
    /// stays owned by the process-wide cell).
    pub fd: i32,
    /// Where in its single-shot life the invocation stands.
    pub phase: PollPhase,
    /// How many underlying reads this invocation has directed: 0 until
    /// completion, 1 from completion on, never more.
    pub reads: u64,
}

/// The directive a poll issues: the underlying read is directed exactly when
/// readiness was observed, never speculatively.
pub open spec fn directive(ready: bool) -> PollDirective {
    if ready {
        PollDirective::ReadInput
    } else {
        PollDirective::Suspend
    }
}

/// A poll at the spec level: an observed-ready poll enters `ReadyObserved`;
/// any other poll suspends. Nothing else changes — in particular, no read is
/// recorded by polling alone.
pub open spec fn polled(f: GetchFuture, ready: bool) -> GetchFuture {
    GetchFuture {
        phase: if ready {
            PollPhase::ReadyObserved
        } else {
            PollPhase::Suspended
        },
        ..f
    }
}

/// Completion at the spec level: the one read is recorded and the invocation
/// is finished for good.
pub open spec fn completed(f: GetchFuture) -> GetchFuture {
    GetchFuture { phase: PollPhase::Completed, reads: 1u64, ..f }
}

impl GetchFuture {
    /// An invocation is well formed when it watches a valid descriptor and
    /// has made exactly one read if completed, none otherwise.
    pub open spec fn wf(self) -> bool {
        &&& self.fd >= 0
        &&& self.reads == (if self.phase is Completed {
            1int
        } else {
            0int
        })
    }

    /// Whether the invocation is still pending: not yet completed, and not
    /// owing a read. A pending invocation may be cancelled freely.
    pub open spec fn is_pending(self) -> bool {
        self.phase is Created || self.phase is Suspended
    }

    /// A fresh invocation over the given terminal descriptor: nothing polled,
    /// nothing read.
    pub fn new(fd: i32) -> (f: GetchFuture)
        requires
            fd >= 0,
        ensures
            f == (GetchFuture { fd, phase: PollPhase::Created, reads: 0u64 }),
            f.wf(),
            f.is_pending(),
    {
        GetchFuture { fd, phase: PollPhase::Created, reads: 0 }
    }

    /// One poll by the scheduler, with the readiness its notification
    /// facility reported for the descriptor. The directive is to read
    /// exactly when readiness was observed; otherwise the invocation
    /// suspends, and no underlying call happens.
    pub fn poll_step(&mut self, ready: bool) -> (d: PollDirective)
        requires
            old(self).is_pending(),
        ensures
            d == directive(ready),
            d is ReadInput <==> ready,
            *final(self) == polled(*old(self), ready),
            final(self).reads == old(self).reads,
            ready ==> final(self).phase is ReadyObserved,
            !ready ==> final(self).is_pending(),
            old(self).wf() ==> final(self).wf(),
    {
        if ready {
            self.phase = PollPhase::ReadyObserved;
            PollDirective::ReadInput
        } else {
            self.phase = PollPhase::Suspended;
            PollDirective::Suspend
        }
    }

    /// Complete with the code the one underlying read returned. The code is
    /// handed back exactly as the library produced it — an ordinary
    /// character, or a negative or extended special-key code, is never
    /// reinterpreted. Only an invocation whose last poll observed readiness
    /// may complete, so the read it reports was never speculative.
    pub fn finish(&mut self, code: i32) -> (r: i32)
        requires
            old(self).phase is ReadyObserved,
            old(self).reads == 0,
        ensures
            r == code,
            *final(self) == completed(*old(self)),
            final(self).phase is Completed,
            final(self).reads == 1,
            old(self).wf() ==> final(self).wf(),
    {
        self.reads = self.reads + 1;
        self.phase = PollPhase::Completed;
        code
    }

    /// Whether the invocation has completed. A completed invocation must not
    /// be polled again.
    pub fn is_done(&self) -> (r: bool)
        ensures
            r == (self.phase is Completed),
    {
        matches!(self.phase, PollPhase::Completed)
    }
}

/// Law: no speculative read. A poll directs the underlying read exactly when
/// the readiness facility reported ready, so every read is immediately
/// preceded by an observed-ready state.
pub proof fn lemma_read_directed_iff_ready(ready: bool)
    ensures
        directive(ready) is ReadInput <==> ready,
{
}

/// A run of polls with the given readiness observations, in order, at the
/// spec level.
pub open spec fn polled_all(f: GetchFuture, readies: Seq<bool>) -> GetchFuture
    decreases readies.len(),
{
    if readies.len() == 0 {
        f
    } else {
        polled_all(polled(f, readies[0]), readies.drop_first())
    }
}

/// Law: while readiness is never observed, any number of polls leaves the
/// invocation pending — it neither completes nor errors — and directs no
/// underlying read.
pub proof fn lemma_never_ready_stays_pending(f: GetchFuture, readies: Seq<bool>)
    requires
        f.is_pending(),
        forall|i: int| 0 <= i < readies.len() ==> !readies[i],
    ensures
        polled_all(f, readies).is_pending(),
        polled_all(f, readies).reads == f.reads,
        polled_all(f, readies).fd == f.fd,
    decreases readies.len(),
{
    if readies.len() > 0 {
        let rest = readies.drop_first();
        assert(!readies[0]);
        assert forall|i: int| 0 <= i < rest.len() implies !rest[i] by {
            assert(rest[i] == readies[i + 1]);
        }
        lemma_never_ready_stays_pending(polled(f, readies[0]), rest);
    }
}

/// Law: cancellation is safe. An invocation abandoned while still pending —
/// readiness never observed — has directed no underlying read, so dropping
/// it leaves no partial effect behind.
pub proof fn lemma_cancelled_invocation_read_nothing(f: GetchFuture)
    requires
        f.wf(),
        f.is_pending(),
    ensures
        f.reads == 0,
{
}

/// The underlying reads made by a sequence of invocations together.
pub open spec fn total_reads(fs: Seq<GetchFuture>) -> int
    decreases fs.len(),
{
    if fs.len() == 0 {
        0
    } else {
        fs[0].reads + total_reads(fs.drop_first())
    }
}

/// Law: one read per completed invocation. Any sequence of completed
/// invocations has made exactly as many underlying reads as it has members —
/// each made its one read, and none made more.
pub proof fn lemma_n_invocations_n_reads(fs: Seq<GetchFuture>)
    requires
        forall|i: int| 0 <= i < fs.len() ==> fs[i].wf() && fs[i].phase is Completed,
    ensures
        total_reads(fs) == fs.len(),
    decreases fs.len(),
{
    if fs.len() > 0 {
        let rest = fs.drop_first();
        assert(fs[0].wf() && fs[0].phase is Completed);
        assert forall|i: int| 0 <= i < rest.len() implies rest[i].wf()
            && rest[i].phase is Completed by {
            assert(rest[i] == fs[i + 1]);
        }
        lemma_n_invocations_n_reads(rest);
    }
}

} // verus!
