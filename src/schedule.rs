use vstd::prelude::*;

use crate::command::{RenderCommand, RenderType};
use crate::prepare::draw_order;

verus! {

/// The stages of the render pipeline, in the order they run.
#[derive(Clone, Copy, Debug, PartialEq, Eq, Structural)]
pub enum PietRenderStage {
    /// Runs once, on the first tick.
    Setup,
    /// Copies renderable state from the application side.
    Extract,
    /// Turns extracted data into draw operations.
    Prepare,
    /// Uploads and submits the frame.
    Render,
    /// Drops what the frame created.
    Cleanup,
}

/// The stages of one tick; setup only on the first.
pub open spec fn tick_stages(first: bool) -> Seq<PietRenderStage> {
    let every = seq![
        PietRenderStage::Extract,
        PietRenderStage::Prepare,
        PietRenderStage::Render,
        PietRenderStage::Cleanup,
    ];
    if first {
        seq![PietRenderStage::Setup] + every
    } else {
        every
    }
}

/// Runs the stages in fixed order, setup guarded to run once.
pub struct StageScheduler {
    setup_done: bool,
}

impl StageScheduler {
    pub closed spec fn setup_done(&self) -> bool {
        self.setup_done
    }

    pub fn new() -> (r: StageScheduler)
        ensures
            !r.setup_done(),
    {
        StageScheduler { setup_done: false }
    }

    /// The stages to run for the next tick, in order.
    pub fn stages_for_tick(&mut self) -> (r: Vec<PietRenderStage>)
        ensures
            r@ == tick_stages(!old(self).setup_done()),
            final(self).setup_done(),
    {
        let mut stages: Vec<PietRenderStage> = Vec::new();
        if !self.setup_done {
            stages.push(PietRenderStage::Setup);
            self.setup_done = true;
        }
        stages.push(PietRenderStage::Extract);
        stages.push(PietRenderStage::Prepare);
        stages.push(PietRenderStage::Render);
        stages.push(PietRenderStage::Cleanup);
        assert(stages@ =~= tick_stages(!old(self).setup_done()));
        stages
    }
}

/// A tick runs every stage whatever was drawn: the first runs all five, each
/// later one extract, prepare, render and cleanup; and a frame without draw
/// commands hands the drawing context nothing.
pub proof fn lemma_empty_frame<T>(first: bool)
    ensures
        tick_stages(true) == seq![
            PietRenderStage::Setup,
            PietRenderStage::Extract,
            PietRenderStage::Prepare,
            PietRenderStage::Render,
            PietRenderStage::Cleanup,
        ],
        tick_stages(first).len() == if first { 5nat } else { 4nat },
        tick_stages(first).last() == PietRenderStage::Cleanup,
        draw_order(Seq::<RenderCommand<T>>::empty()) == Seq::<RenderType<T>>::empty(),
{
    assert(tick_stages(true) =~= seq![
        PietRenderStage::Setup,
        PietRenderStage::Extract,
        PietRenderStage::Prepare,
        PietRenderStage::Render,
        PietRenderStage::Cleanup,
    ]);
    assert(draw_order(Seq::<RenderCommand<T>>::empty()) =~= Seq::<RenderType<T>>::empty());
}

} // verus!
