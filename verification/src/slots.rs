//! The ring of frame slots and what the scheduler knows of their fences.

use vstd::prelude::*;

verus! {

/// Number of frames that may be in flight at once.
pub const MAX_FRAMES_IN_FLIGHT: u32 = 2;

/// Raw handles of the synchronization primitives of one frame slot.
#[derive(Clone, Copy, Debug, PartialEq, Eq, Structural)]
pub struct SyncObjects {
    pub image_available_semaphore: u64,
    pub render_finished_semaphore: u64,
    pub fence: u64,
}

/// What the scheduler knows of a slot's fence.
#[derive(Clone, Copy, Debug, PartialEq, Eq, Structural)]
pub enum FenceState {
    /// Signaled and bound to no work: a wait on it returns at once.
    Signaled,
    /// Reset and bound to no work: nothing will signal it, the slot is free.
    Unsignaled,
    /// Bound to the submission of the draw cycle with this number.
    InFlight(u64),
}

/// A fixed ring of frame slots, handed out in round-robin order.
pub struct InFlightFrames {
    pub sync_objects: Vec<SyncObjects>,
    pub fences: Vec<FenceState>,
    pub current_frame: usize,
}

impl InFlightFrames {
    /// One fence state per slot, and the cursor inside the ring.
    pub open spec fn wf(&self) -> bool {
        &&& self.sync_objects@.len() > 0
        &&& self.fences@.len() == self.sync_objects@.len()
        &&& self.current_frame < self.sync_objects@.len()
    }

    /// The slot that follows `slot` in a ring of `n` slots.
    pub open spec fn successor(slot: int, n: int) -> int {
        (slot + 1) % n
    }

    /// The draw cycle `cycle` has work outstanding on the fence of `slot`.
    pub open spec fn holds(&self, cycle: u64, slot: int) -> bool {
        0 <= slot < self.fences@.len() && self.fences@[slot] == FenceState::InFlight(cycle)
    }

    /// Builds the ring over freshly created primitives: every fence starts
    /// signaled, and the first slot handed out is slot 0.
    pub fn new(sync_objects: Vec<SyncObjects>) -> (r: Self)
        requires
            sync_objects@.len() > 0,
        ensures
            r.wf(),
            r.sync_objects@ == sync_objects@,
            r.current_frame == 0,
            forall|i: int| 0 <= i < r.fences@.len() ==> r.fences@[i] == FenceState::Signaled,
    {
        let mut fences: Vec<FenceState> = Vec::new();
        let mut i: usize = 0;
        while i < sync_objects.len()
            invariant
                i <= sync_objects@.len(),
                fences@.len() == i,
                forall|j: int| 0 <= j < i ==> fences@[j] == FenceState::Signaled,
            decreases sync_objects@.len() - i,
        {
            fences.push(FenceState::Signaled);
            i += 1;
        }
        InFlightFrames { sync_objects, fences, current_frame: 0 }
    }

    /// Number of slots in the ring.
    pub fn len(&self) -> (r: usize)
        ensures
            r == self.sync_objects@.len(),
    {
        self.sync_objects.len()
    }

    /// Hands out the slot under the cursor and moves the cursor to its
    /// successor; no slot is skipped and none is changed.
    pub fn next(&mut self) -> (r: Option<SyncObjects>)
        requires
            old(self).wf(),
        ensures
            r == Some(old(self).sync_objects@[old(self).current_frame as int]),
            final(self).current_frame as int == Self::successor(
                old(self).current_frame as int,
                old(self).sync_objects@.len() as int,
            ),
            final(self).sync_objects@ == old(self).sync_objects@,
            final(self).fences@ == old(self).fences@,
            final(self).wf(),
    {
        let next: SyncObjects = self.sync_objects[self.current_frame];
        let n: usize = self.sync_objects.len();
        self.current_frame = (self.current_frame + 1) % n;
        Some(next)
    }

    /// What is known of the fence of `slot`.
    pub fn fence_state(&self, slot: usize) -> (r: FenceState)
        requires
            self.wf(),
            slot < self.fences@.len(),
        ensures
            r == self.fences@[slot as int],
    {
        self.fences[slot]
    }

    /// Records a new state for the fence of `slot` and leaves the others.
    pub fn set_fence_state(&mut self, slot: usize, state: FenceState)
        requires
            old(self).wf(),
            slot < old(self).fences@.len(),
        ensures
            final(self).fences@ == old(self).fences@.update(slot as int, state),
            final(self).sync_objects@ == old(self).sync_objects@,
            final(self).current_frame == old(self).current_frame,
            final(self).wf(),
    {
        self.fences.set(slot, state);
    }

    /// What the fences are known to be once the device has gone idle: work
    /// that was in flight has completed and signaled its fence.
    pub open spec fn after_idle(fences: Seq<FenceState>) -> Seq<FenceState> {
        Seq::new(
            fences.len(),
            |i: int|
                match fences[i] {
                    FenceState::InFlight(_) => FenceState::Signaled,
                    other => other,
                },
        )
    }

    /// Records that the device has gone idle.
    pub fn device_idle(&mut self)
        requires
            old(self).wf(),
        ensures
            final(self).fences@ == Self::after_idle(old(self).fences@),
            final(self).sync_objects@ == old(self).sync_objects@,
            final(self).current_frame == old(self).current_frame,
            final(self).wf(),
    {
        let mut i: usize = 0;
        while i < self.fences.len()
            invariant
                i <= self.fences@.len(),
                self.fences@.len() == old(self).fences@.len(),
                self.sync_objects@ == old(self).sync_objects@,
                self.current_frame == old(self).current_frame,
                forall|j: int| 0 <= j < i ==> self.fences@[j] == Self::after_idle(old(self).fences@)[j],
                forall|j: int| i <= j < self.fences@.len() ==> self.fences@[j] == old(self).fences@[j],
            decreases self.fences@.len() - i,
        {
            let state: FenceState = self.fences[i];
            match state {
                FenceState::InFlight(_) => {
                    self.fences.set(i, FenceState::Signaled);
                },
                _ => {},
            }
            i += 1;
        }
        assert(self.fences@ =~= Self::after_idle(old(self).fences@));
    }
}

/// The slot under the cursor after `k` slots were handed out, starting from `start`.
pub open spec fn slot_after(start: int, n: int, k: nat) -> int
    decreases k,
{
    if k == 0 {
        start
    } else {
        InFlightFrames::successor(slot_after(start, n, (k - 1) as nat), n)
    }
}

/// Slots are handed out in strict round-robin order: whatever the number
/// of slots, the `k`-th slot handed out after `start` is `start + k`
/// modulo their number, so none is skipped and none comes early.
pub proof fn lemma_round_robin(start: int, n: int, k: nat)
    requires
        0 <= start < n,
    ensures
        slot_after(start, n, k) == (start + k) % n,
    decreases k,
{
    if k == 0 {
        vstd::arithmetic::div_mod::lemma_small_mod(start as nat, n as nat);
    } else {
        lemma_round_robin(start, n, (k - 1) as nat);
        vstd::arithmetic::div_mod::lemma_add_mod_noop_right(1, start + k - 1, n);
    }
}

} // verus!
