use vstd::prelude::*;

verus! {

/// The lifecycle of one GPU buffer in the fixed swapchain pool. A slot is
/// always in exactly one of these states, so a buffer is never at once
/// being written and queued for the display.
#[derive(Clone, Copy, PartialEq, Eq, Structural, Debug)]
pub enum SlotState {
    /// Available for reacquisition as the next writable buffer.
    Free,
    /// Handed out for the current frame tick; the render engine draws into it.
    Writable,
    /// Submitted to the display subsystem by an atomic commit, awaiting
    /// the completion notification.
    Queued,
    /// The buffer currently shown on the output.
    Presented,
}

/// Acquiring a writable buffer failed: every slot is outstanding. The
/// consumer is not keeping pace; the condition is reported, never hidden.
#[derive(Clone, Copy, PartialEq, Eq, Structural, Debug)]
pub enum AcquireError {
    NoFreeSlot,
}

/// Submitting a buffer failed: the display subsystem rejected the atomic
/// commit. Surfaced to the caller, never retried automatically.
#[derive(Clone, Copy, PartialEq, Eq, Structural, Debug)]
pub enum SubmitError {
    CommitRejected,
}

/// One step of the swapchain state machine, over slot indices. These mirror
/// the four executable operations on `HardwareOutputController`, so that a
/// single induction covers every sequence of calls.
pub enum SlotOp {
    /// Hand out a free slot as the tick's writable buffer.
    Acquire { slot: int },
    /// Commit a writable slot's buffer; `accepted` is the display
    /// subsystem's verdict on the atomic commit.
    Submit { slot: int, accepted: bool },
    /// The completion notification for a queued slot arrived.
    Complete { slot: int },
    /// Return a writable slot unused (the tick was skipped).
    Release { slot: int },
}

/// Whether a step may fire in a given slot configuration.
pub open spec fn op_enabled(s: Seq<SlotState>, op: SlotOp) -> bool {
    match op {
        SlotOp::Acquire { slot } => {
            &&& 0 <= slot < s.len()
            &&& s[slot] is Free
            &&& forall|j: int| 0 <= j < s.len() ==> !(s[j] is Writable)
        },
        SlotOp::Submit { slot, accepted } => 0 <= slot < s.len() && s[slot] is Writable,
        SlotOp::Complete { slot } => 0 <= slot < s.len() && s[slot] is Queued,
        SlotOp::Release { slot } => 0 <= slot < s.len() && s[slot] is Writable,
    }
}

/// The slot configuration after a completion notification for `slot`: that
/// slot is now the one shown, and whichever slot was shown before returns
/// to the free pool.
pub open spec fn complete_step(s: Seq<SlotState>, slot: int) -> Seq<SlotState> {
    Seq::new(
        s.len(),
        |j: int|
            if j == slot {
                SlotState::Presented
            } else if s[j] is Presented {
                SlotState::Free
            } else {
                s[j]
            },
    )
}

/// The slot configuration after one step; a step that is not enabled
/// changes nothing.
pub open spec fn op_step(s: Seq<SlotState>, op: SlotOp) -> Seq<SlotState> {
    if op_enabled(s, op) {
        match op {
            SlotOp::Acquire { slot } => s.update(slot, SlotState::Writable),
            SlotOp::Submit { slot, accepted } => {
                if accepted {
                    s.update(slot, SlotState::Queued)
                } else {
                    s
                }
            },
            SlotOp::Complete { slot } => complete_step(s, slot),
            SlotOp::Release { slot } => s.update(slot, SlotState::Free),
        }
    } else {
        s
    }
}

/// The slot configuration after a whole sequence of steps.
pub open spec fn run_ops(s: Seq<SlotState>, ops: Seq<SlotOp>) -> Seq<SlotState>
    decreases ops.len(),
{
    if ops.len() == 0 {
        s
    } else {
        run_ops(op_step(s, ops[0]), ops.subrange(1, ops.len() as int))
    }
}

/// The ownership discipline of the pool: at most one slot is handed out
/// for writing, and at most one buffer is shown, at any time. Together
/// with each slot holding exactly one `SlotState` variant, this is the
/// no-aliasing guarantee on the buffers.
pub open spec fn slots_wf(s: Seq<SlotState>) -> bool {
    &&& forall|i: int, j: int|
        0 <= i < s.len() && 0 <= j < s.len() && s[i] is Writable && s[j] is Writable ==> i == j
    &&& forall|i: int, j: int|
        0 <= i < s.len() && 0 <= j < s.len() && s[i] is Presented && s[j] is Presented ==> i == j
}

/// One step preserves the ownership discipline.
pub proof fn lemma_step_preserves_wf(s: Seq<SlotState>, op: SlotOp)
    requires
        slots_wf(s),
    ensures
        slots_wf(op_step(s, op)),
{
    if op_enabled(s, op) {
        match op {
            SlotOp::Acquire { slot } => {
                assert(slots_wf(s.update(slot, SlotState::Writable)));
            },
            SlotOp::Submit { slot, accepted } => {
                if accepted {
                    assert(slots_wf(s.update(slot, SlotState::Queued)));
                }
            },
            SlotOp::Complete { slot } => {
                assert(slots_wf(complete_step(s, slot)));
            },
            SlotOp::Release { slot } => {
                assert(slots_wf(s.update(slot, SlotState::Free)));
            },
        }
    }
}

/// For every sequence of acquire, submit, completion and release steps,
/// the pool keeps its ownership discipline: no two slots are writable at
/// once and no two are shown at once; and since a slot's state is a single
/// variant, no slot is ever at once writable and queued. No interleaving
/// of the four operations can alias a buffer between the writer and the
/// display.
pub proof fn lemma_slot_discipline_all_sequences(s: Seq<SlotState>, ops: Seq<SlotOp>)
    requires
        slots_wf(s),
    ensures
        slots_wf(run_ops(s, ops)),
    decreases ops.len(),
{
    if ops.len() > 0 {
        lemma_step_preserves_wf(s, ops[0]);
        lemma_slot_discipline_all_sequences(op_step(s, ops[0]), ops.subrange(1, ops.len() as int));
    }
}

/// Two consecutive ticks never operate on the same writable slot without
/// an intervening return to `Free`: once a tick's slot is submitted and
/// accepted, the next acquire can only pick a different slot.
pub proof fn lemma_consecutive_ticks_use_distinct_slots(
    s: Seq<SlotState>,
    slot: int,
    next: int,
)
    requires
        0 <= slot < s.len(),
        s[slot] is Writable,
        op_enabled(op_step(s, SlotOp::Submit { slot, accepted: true }), SlotOp::Acquire { slot: next }),
    ensures
        next != slot,
{
}

/// Owns the swapchain: a small fixed pool of GPU buffer slots cycling
/// through `Free -> Writable -> Queued -> Presented -> Free`, the sole
/// mutator of their states. The kernel-level commits and completion
/// notifications themselves are outside work; the controller is handed
/// their outcomes as plain values and decides every transition.
pub struct HardwareOutputController {
    /// State of each slot, indexed by slot id.
    pub slots: Vec<SlotState>,
}

impl HardwareOutputController {
    /// The pool's ownership discipline (see `slots_wf`).
    pub open spec fn wf(self) -> bool {
        slots_wf(self.slots@)
    }

    pub open spec fn len(self) -> nat {
        self.slots@.len()
    }

    pub open spec fn has_writable(self) -> bool {
        exists|i: int| 0 <= i < self.slots@.len() && self.slots@[i] is Writable
    }

    /// A fresh pool of `slot_count` free slots.
    pub fn new(slot_count: usize) -> (c: HardwareOutputController)
        ensures
            c.slots@.len() == slot_count,
            forall|i: int| 0 <= i < slot_count ==> c.slots@[i] is Free,
            c.wf(),
            !c.has_writable(),
    {
        let mut slots: Vec<SlotState> = Vec::new();
        let mut i: usize = 0;
        while i < slot_count
            invariant
                i <= slot_count,
                slots@.len() == i,
                forall|j: int| 0 <= j < i ==> slots@[j] is Free,
            decreases slot_count - i,
        {
            slots.push(SlotState::Free);
            i = i + 1;
        }
        HardwareOutputController { slots }
    }

    /// Hand out the next free slot, lowest index first, as the writable
    /// buffer for the coming tick. When every slot is outstanding the call
    /// fails with `NoFreeSlot` and mutates no slot state.
    pub fn acquire_writable_buffer(&mut self) -> (r: Result<usize, AcquireError>)
        requires
            old(self).wf(),
            !old(self).has_writable(),
        ensures
            final(self).wf(),
            match r {
                Ok(slot) => {
                    &&& slot < old(self).slots@.len()
                    &&& old(self).slots@[slot as int] is Free
                    &&& forall|j: int| 0 <= j < slot ==> !(old(self).slots@[j] is Free)
                    &&& final(self).slots@ == op_step(
                        old(self).slots@,
                        SlotOp::Acquire { slot: slot as int },
                    )
                    &&& final(self).slots@ == old(self).slots@.update(
                        slot as int,
                        SlotState::Writable,
                    )
                },
                Err(e) => {
                    &&& e is NoFreeSlot
                    &&& forall|j: int|
                        0 <= j < old(self).slots@.len() ==> !(old(self).slots@[j] is Free)
                    &&& final(self).slots@ == old(self).slots@
                },
            },
    {
        let n = self.slots.len();
        let mut i: usize = 0;
        while i < n
            invariant
                n == self.slots@.len(),
                i <= n,
                self.slots@ == old(self).slots@,
                slots_wf(self.slots@),
                forall|j: int| 0 <= j < n ==> !(self.slots@[j] is Writable),
                forall|j: int| 0 <= j < i ==> !(self.slots@[j] is Free),
            decreases n - i,
        {
            if matches!(self.slots[i], SlotState::Free) {
                self.slots.set(i, SlotState::Writable);
                proof {
                    assert forall|p: int, q: int|
                        0 <= p < self.slots@.len() && 0 <= q < self.slots@.len()
                            && self.slots@[p] is Writable && self.slots@[q] is Writable implies p
                        == q by {}
                }
                return Ok(i);
            }
            i = i + 1;
        }
        Err(AcquireError::NoFreeSlot)
    }

    /// Record the outcome of the atomic commit that the embedding process
    /// issued for this writable slot's buffer. An accepted commit queues
    /// the slot; a rejected one leaves every slot exactly as it was — in
    /// particular the slot that is shown stays shown — and surfaces
    /// `CommitRejected` for the caller to decide on.
    pub fn submit(&mut self, slot: usize, commit_accepted: bool) -> (r: Result<(), SubmitError>)
        requires
            old(self).wf(),
            slot < old(self).slots@.len(),
            old(self).slots@[slot as int] is Writable,
        ensures
            final(self).wf(),
            final(self).slots@ == op_step(
                old(self).slots@,
                SlotOp::Submit { slot: slot as int, accepted: commit_accepted },
            ),
            commit_accepted ==> r is Ok && final(self).slots@ == old(self).slots@.update(
                slot as int,
                SlotState::Queued,
            ),
            !commit_accepted ==> (r matches Err(e) && e is CommitRejected && final(self).slots@
                == old(self).slots@),
    {
        if commit_accepted {
            self.slots.set(slot, SlotState::Queued);
            Ok(())
        } else {
            Err(SubmitError::CommitRejected)
        }
    }

    /// Apply the display subsystem's completion notification for a queued
    /// slot: that slot is now the one shown, and the slot shown before
    /// returns to the free pool for reacquisition.
    pub fn on_completion(&mut self, slot: usize)
        requires
            old(self).wf(),
            slot < old(self).slots@.len(),
            old(self).slots@[slot as int] is Queued,
        ensures
            final(self).wf(),
            final(self).slots@ == op_step(old(self).slots@, SlotOp::Complete { slot: slot as int }),
            final(self).slots@ == complete_step(old(self).slots@, slot as int),
            final(self).slots@[slot as int] is Presented,
    {
        let ghost s0 = self.slots@;
        let n = self.slots.len();
        let mut i: usize = 0;
        while i < n
            invariant
                n == self.slots@.len() == s0.len(),
                i <= n,
                forall|j: int| 0 <= j < i ==> self.slots@[j] == complete_step(s0, slot as int)[j],
                forall|j: int| i <= j < n ==> self.slots@[j] == s0[j],
            decreases n - i,
        {
            if i == slot {
                self.slots.set(i, SlotState::Presented);
            } else if matches!(self.slots[i], SlotState::Presented) {
                self.slots.set(i, SlotState::Free);
            }
            i = i + 1;
        }
        proof {
            assert(self.slots@ =~= complete_step(s0, slot as int));
            lemma_step_preserves_wf(s0, SlotOp::Complete { slot: slot as int });
        }
    }

    /// Return a writable slot unused: the tick was skipped (for instance
    /// the buffer could not be imported by the render engine), so the
    /// buffer goes straight back to the free pool and the display keeps
    /// showing what it shows.
    pub fn release_writable(&mut self, slot: usize)
        requires
            old(self).wf(),
            slot < old(self).slots@.len(),
            old(self).slots@[slot as int] is Writable,
        ensures
            final(self).wf(),
            final(self).slots@ == op_step(old(self).slots@, SlotOp::Release { slot: slot as int }),
            final(self).slots@ == old(self).slots@.update(slot as int, SlotState::Free),
            !final(self).has_writable(),
    {
        let ghost s0 = self.slots@;
        self.slots.set(slot, SlotState::Free);
        proof {
            assert forall|i: int|
                0 <= i < self.slots@.len() implies !(self.slots@[i] is Writable) by {
                if i != slot as int {
                    assert(s0[i] == self.slots@[i]);
                    if s0[i] is Writable {
                        assert(s0[slot as int] is Writable);
                    }
                }
            }
        }
    }
}

} // verus!
