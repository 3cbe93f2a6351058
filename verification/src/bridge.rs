use vstd::prelude::*;

verus! {

/// Identifies the externally visible texture the render engine draws into
/// during one frame tick: the swapchain slot backing it and the tick it is
/// valid for. The handle is only meaningful for that one tick.
#[derive(Clone, Copy, PartialEq, Eq, Structural, Debug)]
pub struct FrameTarget {
    pub slot: usize,
    pub tick: u64,
}

/// Drives the external render engine once per frame tick: imports the
/// tick's writable buffer as a `FrameTarget` the engine can see, has the
/// engine populate it, and hands the slot back for presentation. The
/// buffer import and the engine's update cycle are outside work; the
/// bridge owns the accounting that makes them happen exactly once per tick
/// and never concurrently.
pub struct FrameBridge {
    /// How many frame targets have been imported (one per tick begun).
    pub imports: u64,
    /// How many engine update cycles have been invoked (one per tick that
    /// reached the engine).
    pub engine_updates: u64,
    /// The slot of the tick in progress, while one is.
    pub in_progress: Option<usize>,
}

impl FrameBridge {
    /// No tick is under way.
    pub open spec fn idle(self) -> bool {
        self.in_progress is None
    }

    /// The engine is invoked at most once per imported target: ticks in
    /// progress have imported but not yet updated.
    pub open spec fn wf(self) -> bool {
        if self.idle() {
            self.engine_updates <= self.imports
        } else {
            self.engine_updates < self.imports
        }
    }

    pub fn new() -> (b: FrameBridge)
        ensures
            b.imports == 0,
            b.engine_updates == 0,
            b.idle(),
            b.wf(),
    {
        FrameBridge { imports: 0, engine_updates: 0, in_progress: None }
    }

    /// Begin the tick for a writable slot: exactly one frame-target import,
    /// and the target stays stable for the whole tick. A second tick cannot
    /// begin until this one completes or is abandoned, so ticks never run
    /// concurrently.
    pub fn begin_tick(&mut self, slot: usize) -> (target: FrameTarget)
        requires
            old(self).wf(),
            old(self).idle(),
            old(self).imports < u64::MAX,
        ensures
            final(self).wf(),
            final(self).imports == old(self).imports + 1,
            final(self).engine_updates == old(self).engine_updates,
            final(self).in_progress == Some(slot),
            target.slot == slot,
            target.tick == old(self).imports,
    {
        let target = FrameTarget { slot, tick: self.imports };
        self.imports = self.imports + 1;
        self.in_progress = Some(slot);
        target
    }

    /// The import failed (unsupported buffer format, device mismatch): the
    /// tick is abandoned before the engine ever runs, and the slot comes
    /// back so the caller can return it to the free pool. Reported, not
    /// fatal; the previously displayed buffer stays presented.
    pub fn abort_tick(&mut self) -> (slot: usize)
        requires
            old(self).wf(),
            !old(self).idle(),
        ensures
            final(self).wf(),
            final(self).idle(),
            final(self).imports == old(self).imports,
            final(self).engine_updates == old(self).engine_updates,
            Some(slot) == old(self).in_progress,
    {
        let slot = match self.in_progress {
            Some(s) => s,
            None => 0,
        };
        self.in_progress = None;
        slot
    }

    /// The engine's update cycle ran for the tick in progress — exactly
    /// once — and the slot comes back populated, ready for submission.
    pub fn complete_tick(&mut self) -> (slot: usize)
        requires
            old(self).wf(),
            !old(self).idle(),
        ensures
            final(self).wf(),
            final(self).idle(),
            final(self).imports == old(self).imports,
            final(self).engine_updates == old(self).engine_updates + 1,
            Some(slot) == old(self).in_progress,
    {
        let slot = match self.in_progress {
            Some(s) => s,
            None => 0,
        };
        self.engine_updates = self.engine_updates + 1;
        self.in_progress = None;
        slot
    }
}

/// Per tick, the engine runs exactly once on exactly one imported target:
/// a begun tick adds one import, and completing it adds one engine update;
/// in every reachable bridge state the engine has never run more often
/// than a target was imported.
pub proof fn lemma_one_import_one_update_per_tick(b: FrameBridge)
    requires
        b.wf(),
    ensures
        b.engine_updates <= b.imports,
{
}

} // verus!
