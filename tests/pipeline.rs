use bevy_piet::{
    execute_render_command, prepare_frame, DrawContext, PietRenderStage, RenderCommand, RenderFrame,
    RenderLayer, RenderResources, RenderType, SlotState, StageScheduler, SLOT_COUNT,
};

fn text(s: &str, layer: RenderLayer) -> RenderCommand<(f32, f32)> {
    RenderCommand::new(RenderType::Text(s.to_string(), (0.0, 0.0)), layer)
}

fn drawn_texts(ctx: &mut DrawContext<(f32, f32)>) -> Vec<String> {
    ctx.take_ops()
        .into_iter()
        .map(|op| match op {
            RenderType::Text(s, _) => s,
            RenderType::Shape(h, _) => format!("shape{}", h),
        })
        .collect()
}

#[test]
fn layers_drawn_back_to_front() {
    let mut ctx = DrawContext::new();
    let commands = vec![
        text("A", RenderLayer::Foreground),
        text("B", RenderLayer::Background),
        text("C", RenderLayer::Middle),
    ];
    prepare_frame(&mut ctx, commands);
    assert_eq!(drawn_texts(&mut ctx), vec!["B", "C", "A"]);
}

#[test]
fn arrival_order_kept_within_layer() {
    let mut ctx = DrawContext::new();
    let commands = vec![
        text("fg", RenderLayer::Foreground),
        text("bg1", RenderLayer::Background),
        text("mid", RenderLayer::Middle),
        text("bg2", RenderLayer::Background),
    ];
    prepare_frame(&mut ctx, commands);
    assert_eq!(drawn_texts(&mut ctx), vec!["bg1", "bg2", "mid", "fg"]);
}

#[test]
fn same_input_same_order() {
    let build = || {
        vec![
            text("x", RenderLayer::Middle),
            text("y", RenderLayer::Foreground),
            text("z", RenderLayer::Background),
            text("w", RenderLayer::Middle),
        ]
    };
    let mut first = DrawContext::new();
    let mut second = DrawContext::new();
    prepare_frame(&mut first, build());
    prepare_frame(&mut second, build());
    let a = drawn_texts(&mut first);
    assert_eq!(a, vec!["z", "x", "w", "y"]);
    assert_eq!(a, drawn_texts(&mut second));
}

#[test]
fn shapes_and_text_share_the_layer_order() {
    let mut ctx = DrawContext::new();
    let commands = vec![
        text("label", RenderLayer::Foreground),
        RenderCommand::new(RenderType::Shape(7, (1.0, 2.0)), RenderLayer::Middle),
    ];
    prepare_frame(&mut ctx, commands);
    assert_eq!(drawn_texts(&mut ctx), vec!["shape7", "label"]);
}

#[test]
fn execute_appends_one_operation() {
    let mut ctx = DrawContext::new();
    execute_render_command(&mut ctx, text("one", RenderLayer::Background));
    execute_render_command(&mut ctx, text("two", RenderLayer::Foreground));
    assert_eq!(ctx.len(), 2);
    assert_eq!(drawn_texts(&mut ctx), vec!["one", "two"]);
    assert!(ctx.is_empty());
}

#[test]
fn empty_frame_runs_every_stage_and_advances_once() {
    let mut scheduler = StageScheduler::new();
    let stages = scheduler.stages_for_tick();
    assert_eq!(
        stages,
        vec![
            PietRenderStage::Setup,
            PietRenderStage::Extract,
            PietRenderStage::Prepare,
            PietRenderStage::Render,
            PietRenderStage::Cleanup,
        ]
    );
    let mut ctx: DrawContext<(f32, f32)> = DrawContext::new();
    prepare_frame(&mut ctx, Vec::new());
    assert!(ctx.is_empty());

    let mut frame = RenderFrame::new();
    let mut resources: RenderResources<u32, u32> = RenderResources::new();
    assert_eq!(resources.take_pending(&frame), None);
    assert_eq!(resources.begin_recording(&frame), None);
    resources.finish_render(&mut frame, 10);
    assert_eq!(frame.current_frame, 1);
}

#[test]
fn setup_runs_only_on_first_tick() {
    let mut scheduler = StageScheduler::new();
    assert_eq!(scheduler.stages_for_tick().len(), 5);
    let second = scheduler.stages_for_tick();
    assert_eq!(
        second,
        vec![
            PietRenderStage::Extract,
            PietRenderStage::Prepare,
            PietRenderStage::Render,
            PietRenderStage::Cleanup,
        ]
    );
}

#[test]
fn frame_counter_starts_at_zero_and_rotates_slots() {
    let mut frame = RenderFrame::new();
    assert_eq!(frame.current_frame, 0);
    let mut used = Vec::new();
    for _ in 0..5 {
        used.push(frame.slot_index());
        frame.advance();
    }
    assert_eq!(SLOT_COUNT, 2);
    assert_eq!(used, vec![0, 1, 0, 1, 0]);
    assert_eq!(frame.current_frame, 5);
}

#[test]
fn five_ticks_wait_on_the_submission_two_frames_back() {
    // command buffers and submissions are numbered by the frame that made them
    let mut frame = RenderFrame::new();
    let mut resources: RenderResources<u64, u64> = RenderResources::new();
    let mut slots = Vec::new();
    let mut waited = Vec::new();
    let mut recorded = Vec::new();
    for f in 0..5u64 {
        slots.push(frame.slot_index());
        let pending = resources.take_pending(&frame);
        waited.push(pending);
        if let Some(sub) = pending {
            // the wait gives back the buffer of the submission
            resources.recycle(&frame, Some(sub));
        }
        let buffer = resources.begin_recording(&frame).unwrap_or(100 + f);
        assert_eq!(resources.state(&frame), SlotState::Recording);
        recorded.push(buffer);
        resources.finish_render(&mut frame, buffer);
    }
    assert_eq!(slots, vec![0, 1, 0, 1, 0]);
    assert_eq!(waited, vec![None, None, Some(100), Some(101), Some(100)]);
    assert_eq!(recorded, vec![100, 101, 100, 101, 100]);
    assert_eq!(frame.current_frame, 5);
}

#[test]
fn slot_states_follow_the_cycle() {
    let mut frame = RenderFrame::new();
    let mut resources: RenderResources<u8, u8> = RenderResources::new();
    let mut states = Vec::new();
    for _ in 0..4 {
        states.push(resources.state(&frame));
        let pending = resources.take_pending(&frame);
        states.push(resources.state(&frame));
        resources.recycle(&frame, pending);
        resources.begin_recording(&frame);
        states.push(resources.state(&frame));
        resources.submit(&frame, 1);
        states.push(resources.state(&frame));
        frame.advance();
    }
    let (idle, rec, sub) = (SlotState::Idle, SlotState::Recording, SlotState::Submitted);
    assert_eq!(
        states,
        vec![
            idle, idle, rec, sub, idle, idle, rec, sub, sub, idle, rec, sub, sub, idle, rec, sub,
        ]
    );
}

#[test]
fn recycled_buffer_is_recorded_again() {
    let mut frame = RenderFrame::new();
    let mut resources: RenderResources<&str, u8> = RenderResources::new();
    resources.begin_recording(&frame);
    resources.submit(&frame, 9);
    frame.advance();
    frame.advance();
    assert_eq!(resources.state(&frame), SlotState::Submitted);
    assert_eq!(resources.take_pending(&frame), Some(9));
    assert_eq!(resources.take_pending(&frame), None);
    resources.recycle(&frame, Some("buffer"));
    assert_eq!(resources.begin_recording(&frame), Some("buffer"));
}
