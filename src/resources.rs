use vstd::prelude::*;

use crate::frame::{slot_of, RenderFrame, SLOT_COUNT};

verus! {

/// Life cycle of a resource slot.
#[derive(Clone, Copy, Debug, PartialEq, Eq, Structural)]
pub enum SlotState {
    /// Nothing of this slot is in use; its command buffer, if any, may be recorded.
    Idle,
    /// Its command buffer is being recorded for the current frame.
    Recording,
    /// Its command buffer was submitted and may still be read by the GPU.
    Submitted,
}

/// Per-frame GPU resources of one in-flight frame: a command buffer of type
/// `B` and the handle `S` of its last submission.
pub struct ResourceSlot<B, S> {
    pub state: SlotState,
    pub command_buffer: Option<B>,
    pub submission: Option<S>,
}

/// A slot holds a submission exactly when it is submitted, and a command
/// buffer only when idle.
pub open spec fn slot_wf<B, S>(slot: ResourceSlot<B, S>) -> bool {
    &&& (slot.state == SlotState::Submitted) == slot.submission is Some
    &&& slot.state != SlotState::Idle ==> slot.command_buffer is None
}

/// The steps that act on a slot during the render stage.
pub enum SlotOp<B, S> {
    /// Hand the pending submission, if any, to the wait.
    TakePending,
    /// Store the command buffer that the wait gave back.
    Recycle(Option<B>),
    /// Hand out the buffer to record into (none: a fresh one is allocated).
    BeginRecording,
    /// Store the handle of the submission just made.
    Submit(S),
}

pub open spec fn op_enabled<B, S>(slot: ResourceSlot<B, S>, op: SlotOp<B, S>) -> bool {
    match op {
        SlotOp::TakePending => true,
        SlotOp::Recycle(_) => slot.state == SlotState::Idle,
        SlotOp::BeginRecording => slot.state == SlotState::Idle,
        SlotOp::Submit(_) => slot.state == SlotState::Recording,
    }
}

/// The slot after `op`.
pub open spec fn apply_op<B, S>(slot: ResourceSlot<B, S>, op: SlotOp<B, S>) -> ResourceSlot<B, S> {
    match op {
        SlotOp::TakePending => if slot.state == SlotState::Submitted {
            ResourceSlot { state: SlotState::Idle, command_buffer: None, submission: None }
        } else {
            slot
        },
        SlotOp::Recycle(b) => ResourceSlot { command_buffer: b, ..slot },
        SlotOp::BeginRecording => ResourceSlot {
            state: SlotState::Recording,
            command_buffer: None,
            ..slot
        },
        SlotOp::Submit(s) => ResourceSlot {
            state: SlotState::Submitted,
            submission: Some(s),
            ..slot
        },
    }
}

/// The only moves of a slot: Idle to Recording, Recording to Submitted,
/// Submitted to Idle, or none.
pub open spec fn transition_ok(from: SlotState, to: SlotState) -> bool {
    ||| from == to
    ||| from == SlotState::Idle && to == SlotState::Recording
    ||| from == SlotState::Recording && to == SlotState::Submitted
    ||| from == SlotState::Submitted && to == SlotState::Idle
}

/// The slots of a newly set up pipeline.
pub open spec fn fresh_pool<B, S>() -> Seq<ResourceSlot<B, S>> {
    Seq::new(
        SLOT_COUNT as nat,
        |i: int| ResourceSlot { state: SlotState::Idle, command_buffer: None, submission: None },
    )
}

pub open spec fn pool_wf<B, S>(pool: Seq<ResourceSlot<B, S>>) -> bool {
    &&& pool.len() == SLOT_COUNT
    &&& forall|k: int| 0 <= k < pool.len() ==> slot_wf(#[trigger] pool[k])
}

pub open spec fn apply_at<B, S>(pool: Seq<ResourceSlot<B, S>>, k: int, op: SlotOp<B, S>) -> Seq<
    ResourceSlot<B, S>,
> {
    pool.update(k, apply_op(pool[k], op))
}

/// The render stage of frame `f` on the slots: wait on the slot's pending
/// submission (which gives back `recycled`), record, and submit as `sub`.
pub open spec fn render_step<B, S>(
    pool: Seq<ResourceSlot<B, S>>,
    f: nat,
    recycled: Option<B>,
    sub: S,
) -> Seq<ResourceSlot<B, S>> {
    let k = slot_of(f) as int;
    let waited = apply_at(pool, k, SlotOp::TakePending);
    let reused = if pool[k].submission is Some {
        apply_at(waited, k, SlotOp::Recycle(recycled))
    } else {
        waited
    };
    apply_at(apply_at(reused, k, SlotOp::BeginRecording), k, SlotOp::Submit(sub))
}

/// The slots after frames `0..n` were rendered, frame `i` having been given
/// back `recycled[i]` by its wait and submitted as `subs[i]`.
pub open spec fn run_frames<B, S>(n: nat, recycled: Seq<Option<B>>, subs: Seq<S>) -> Seq<
    ResourceSlot<B, S>,
>
    decreases n,
{
    if n == 0 {
        fresh_pool()
    } else {
        render_step(run_frames((n - 1) as nat, recycled, subs), (n - 1) as nat, recycled[n - 1], subs[n - 1])
    }
}

/// The GPU resources that are recycled from frame to frame: one slot per
/// in-flight frame.
pub struct RenderResources<B, S> {
    slots: Vec<ResourceSlot<B, S>>,
}

impl<B, S> View for RenderResources<B, S> {
    type V = Seq<ResourceSlot<B, S>>;

    closed spec fn view(&self) -> Seq<ResourceSlot<B, S>> {
        self.slots@
    }
}

impl<B, S> RenderResources<B, S> {
    pub open spec fn wf(&self) -> bool {
        pool_wf(self@)
    }

    /// All slots idle, with no command buffer and no submission.
    pub fn new() -> (r: RenderResources<B, S>)
        ensures
            r@ == fresh_pool::<B, S>(),
            r.wf(),
    {
        let mut slots: Vec<ResourceSlot<B, S>> = Vec::new();
        let mut i: usize = 0;
        while i < SLOT_COUNT
            invariant
                i <= SLOT_COUNT,
                slots@ == fresh_pool::<B, S>().take(i as int),
            decreases SLOT_COUNT - i,
        {
            slots.push(ResourceSlot { state: SlotState::Idle, command_buffer: None, submission: None });
            i = i + 1;
        }
        assert(slots@ =~= fresh_pool::<B, S>());
        RenderResources { slots }
    }

    /// The state of the slot of the current frame.
    pub fn state(&self, frame: &RenderFrame) -> (r: SlotState)
        requires
            self.wf(),
        ensures
            r == self@[slot_of(frame.current_frame as nat) as int].state,
    {
        self.slots[frame.slot_index()].state
    }

    /// Start of the render stage: hands out the slot's prior submission, which
    /// must be waited on before the slot is used again.
    pub fn take_pending(&mut self, frame: &RenderFrame) -> (r: Option<S>)
        requires
            old(self).wf(),
        ensures
            final(self).wf(),
            r == old(self)@[slot_of(frame.current_frame as nat) as int].submission,
            final(self)@ == apply_at(old(self)@, slot_of(frame.current_frame as nat) as int, SlotOp::TakePending),
    {
        let k = frame.slot_index();
        let slot = &mut self.slots[k];
        if slot.state == SlotState::Submitted {
            slot.state = SlotState::Idle;
            slot.command_buffer = None;
            slot.submission.take()
        } else {
            None
        }
    }

    /// Stores the command buffer that the wait on the slot's prior submission
    /// gave back.
    pub fn recycle(&mut self, frame: &RenderFrame, buffer: Option<B>)
        requires
            old(self).wf(),
            old(self)@[slot_of(frame.current_frame as nat) as int].state == SlotState::Idle,
        ensures
            final(self).wf(),
            final(self)@ == apply_at(old(self)@, slot_of(frame.current_frame as nat) as int, SlotOp::Recycle(buffer)),
    {
        let k = frame.slot_index();
        self.slots[k].command_buffer = buffer;
    }

    /// Hands out the slot's command buffer for recording; none means that a
    /// fresh one is to be allocated.
    pub fn begin_recording(&mut self, frame: &RenderFrame) -> (r: Option<B>)
        requires
            old(self).wf(),
            old(self)@[slot_of(frame.current_frame as nat) as int].state == SlotState::Idle,
        ensures
            final(self).wf(),
            r == old(self)@[slot_of(frame.current_frame as nat) as int].command_buffer,
            final(self)@ == apply_at(old(self)@, slot_of(frame.current_frame as nat) as int, SlotOp::BeginRecording),
    {
        let k = frame.slot_index();
        let slot = &mut self.slots[k];
        slot.state = SlotState::Recording;
        slot.command_buffer.take()
    }

    /// End of the render stage: records the frame's submission and moves the
    /// counter on to the next frame.
    pub fn finish_render(&mut self, frame: &mut RenderFrame, submission: S)
        requires
            old(self).wf(),
            old(self)@[slot_of(old(frame).current_frame as nat) as int].state == SlotState::Recording,
            old(frame).current_frame < u64::MAX,
        ensures
            final(self).wf(),
            final(self)@ == apply_at(old(self)@, slot_of(old(frame).current_frame as nat) as int, SlotOp::Submit(submission)),
            final(frame).current_frame == old(frame).current_frame + 1,
    {
        self.submit(frame, submission);
        frame.advance();
    }

    /// Records the submission of the slot's command buffer.
    pub fn submit(&mut self, frame: &RenderFrame, submission: S)
        requires
            old(self).wf(),
            old(self)@[slot_of(frame.current_frame as nat) as int].state == SlotState::Recording,
        ensures
            final(self).wf(),
            final(self)@ == apply_at(old(self)@, slot_of(frame.current_frame as nat) as int, SlotOp::Submit(submission)),
    {
        let k = frame.slot_index();
        let slot = &mut self.slots[k];
        slot.state = SlotState::Submitted;
        slot.submission = Some(submission);
    }
}

/// Every step keeps a slot consistent and moves it only along
/// Idle, Recording, Submitted and back to Idle.
pub proof fn lemma_slot_transitions<B, S>(slot: ResourceSlot<B, S>, op: SlotOp<B, S>)
    requires
        slot_wf(slot),
        op_enabled(slot, op),
    ensures
        slot_wf(apply_op(slot, op)),
        transition_ok(slot.state, apply_op(slot, op).state),
{
}

/// A submitted slot is never recorded again directly: it leaves the
/// submitted state only by handing its submission over to be waited on.
pub proof fn lemma_no_premature_reuse<B, S>(slot: ResourceSlot<B, S>, op: SlotOp<B, S>)
    requires
        slot_wf(slot),
        slot.state == SlotState::Submitted,
        op_enabled(slot, op),
    ensures
        apply_op(slot, op).state != SlotState::Recording,
        apply_op(slot, op).state != SlotState::Submitted ==> op is TakePending,
        op is TakePending ==> apply_op(slot, op).state == SlotState::Idle,
{
}

/// The render stage of a frame only touches the frame's own slot, which ends
/// up submitted with the frame's submission.
pub proof fn lemma_render_step<B, S>(pool: Seq<ResourceSlot<B, S>>, f: nat, recycled: Option<B>, sub: S)
    requires
        pool_wf(pool),
    ensures
        pool_wf(render_step(pool, f, recycled, sub)),
        render_step(pool, f, recycled, sub)[slot_of(f) as int].state == SlotState::Submitted,
        render_step(pool, f, recycled, sub)[slot_of(f) as int].submission == Some(sub),
        forall|j: int|
            0 <= j < SLOT_COUNT && j != slot_of(f) ==> #[trigger] render_step(pool, f, recycled, sub)[j]
                == pool[j],
{
    let k = slot_of(f) as int;
    let waited = apply_at(pool, k, SlotOp::TakePending);
    assert(pool_wf(waited));
}

/// Over any run of frames from setup, frame `n` uses slot `n mod SLOT_COUNT`
/// and, before recording, waits on exactly the submission of frame
/// `n - SLOT_COUNT`; the first `SLOT_COUNT` frames have nothing to wait on.
pub proof fn lemma_frames_wait_on_prior_submission<B, S>(n: nat, recycled: Seq<Option<B>>, subs: Seq<S>)
    requires
        n <= recycled.len(),
        n <= subs.len(),
    ensures
        pool_wf(run_frames(n, recycled, subs)),
        run_frames(n, recycled, subs)[slot_of(n) as int].submission == if n < SLOT_COUNT {
            None
        } else {
            Some(subs[n - SLOT_COUNT])
        },
        n >= 1 ==> run_frames(n, recycled, subs)[slot_of((n - 1) as nat) as int].submission == Some(
            subs[n - 1],
        ),
    decreases n,
{
    if n == 0 {
        let p = fresh_pool::<B, S>();
        assert(pool_wf(p));
    } else {
        let m = (n - 1) as nat;
        lemma_frames_wait_on_prior_submission(m, recycled, subs);
        let prev = run_frames(m, recycled, subs);
        lemma_render_step(prev, m, recycled[m as int], subs[m as int]);
        assert(slot_of(n) != slot_of(m));
        if m >= 1 {
            assert(slot_of(n) == slot_of((m - 1) as nat));
        }
    }
}

} // verus!
