use vstd::prelude::*;

verus! {

/// Number of frames that may be in flight at once; each owns one resource slot.
pub const SLOT_COUNT: usize = 2;

/// The resource slot used by frame `f`.
pub open spec fn slot_of(f: nat) -> nat {
    f % (SLOT_COUNT as nat)
}

/// The monotonically increasing frame counter of one pipeline instance.
pub struct RenderFrame {
    pub current_frame: u64,
}

impl RenderFrame {
    /// A counter at frame zero.
    pub fn new() -> (r: RenderFrame)
        ensures
            r.current_frame == 0,
    {
        RenderFrame { current_frame: 0 }
    }

    /// The in-flight slot of the current frame.
    pub fn slot_index(&self) -> (r: usize)
        ensures
            r as nat == slot_of(self.current_frame as nat),
            r < SLOT_COUNT,
    {
        (self.current_frame % (SLOT_COUNT as u64)) as usize
    }

    /// Marks the current frame as rendered.
    pub fn advance(&mut self)
        requires
            old(self).current_frame < u64::MAX,
        ensures
            final(self).current_frame == old(self).current_frame + 1,
    {
        self.current_frame = self.current_frame + 1;
    }
}

/// Frames rotate over the slots: frame `f` uses slot `f mod SLOT_COUNT`,
/// consecutive frames use different slots, and a slot comes back after
/// exactly `SLOT_COUNT` frames.
pub proof fn lemma_slot_rotation(f: nat)
    ensures
        slot_of(f) == f % (SLOT_COUNT as nat),
        slot_of(f) < SLOT_COUNT,
        slot_of(f + 1) != slot_of(f),
        slot_of(f + SLOT_COUNT as nat) == slot_of(f),
{
}

} // verus!
