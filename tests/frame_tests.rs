use wgpu_poc::frame::{plan_frame, BindingRef, Command, FramePhase, FrameRecorder, Rgba8, Target};
use wgpu_poc::pipeline::Program;

fn begin(target: Target) -> Command {
    Command::BeginPass { target, clear: Rgba8 { r: 0, g: 0, b: 255, a: 255 } }
}

fn draw() -> Command {
    Command::Draw { vertices: 6, instances: 1 }
}

fn object(i: usize) -> Command {
    Command::SetBindings { slot: 1, set: BindingRef::Object(i) }
}

fn post_process_tail() -> Vec<Command> {
    vec![
        begin(Target::Presentable),
        Command::SetPipeline(Program::PostProcess),
        Command::SetBindings { slot: 0, set: BindingRef::OffscreenTarget },
        draw(),
        Command::EndPass,
        Command::Submit,
        Command::Present,
    ]
}

#[test]
fn two_objects_are_drawn_in_order() {
    let mut expected = vec![
        Command::Acquire,
        begin(Target::Offscreen),
        Command::SetPipeline(Program::Framebuffer),
        Command::SetBindings { slot: 0, set: BindingRef::SpriteAtlas },
        object(0),
        draw(),
        object(1),
        draw(),
        Command::EndPass,
    ];
    expected.extend(post_process_tail());
    assert_eq!(plan_frame(2), expected);
}

#[test]
fn zero_objects_still_clear_and_composite() {
    let mut expected = vec![
        Command::Acquire,
        begin(Target::Offscreen),
        Command::SetPipeline(Program::Framebuffer),
        Command::SetBindings { slot: 0, set: BindingRef::SpriteAtlas },
        Command::EndPass,
    ];
    expected.extend(post_process_tail());
    let plan = plan_frame(0);
    assert_eq!(plan, expected);
    let pass1_draws = plan[..5].iter().filter(|c| matches!(c, Command::Draw { .. })).count();
    assert_eq!(pass1_draws, 0);
}

#[test]
fn post_process_comes_after_framebuffer_pass() {
    let plan = plan_frame(5);
    let fb_begin = plan.iter().position(|c| *c == begin(Target::Offscreen)).unwrap();
    let post_begin = plan.iter().position(|c| *c == begin(Target::Presentable)).unwrap();
    let submit = plan.iter().position(|c| *c == Command::Submit).unwrap();
    assert!(fb_begin < post_begin && post_begin < submit);
    let last_draw_of_pass1 = plan[..post_begin].iter().rposition(|c| *c == draw()).unwrap();
    assert!(fb_begin < last_draw_of_pass1);
    assert_eq!(plan[post_begin + 2], Command::SetBindings { slot: 0, set: BindingRef::OffscreenTarget });
    assert_eq!(plan.len(), 2 * 5 + 12);
}

#[test]
fn recorder_walks_the_phases() {
    let mut r = FrameRecorder::new();
    assert_eq!(r.phase, FramePhase::Idle);
    r.acquire();
    assert_eq!(r.phase, FramePhase::Acquired);
    r.record_framebuffer_pass(1);
    assert_eq!(r.phase, FramePhase::Pass1Recorded);
    r.record_post_process_pass();
    assert_eq!(r.phase, FramePhase::Pass2Recorded);
    r.submit();
    assert_eq!(r.phase, FramePhase::Submitted);
    r.present();
    assert_eq!(r.phase, FramePhase::Idle);
    assert_eq!(r.commands, plan_frame(1));
}
