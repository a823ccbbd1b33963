use render_core::canvas::{Effect, FrameEnd, WgpuCanvas, WgpuCanvasMsg};
use render_core::context::{Step, WgpuContext};
use render_core::controls::{ControlMsg, ControlState};
use render_core::driver::{Recovery, Verdict};
use render_core::surface::{SurfaceCapabilities, SurfaceError};

fn context() -> WgpuContext {
    let caps = SurfaceCapabilities { srgb_formats: vec![true], present_modes: 1, alpha_modes: 1 };
    WgpuContext::new(&caps, 500, 500).0
}

fn running() -> WgpuCanvas {
    let mut canvas = WgpuCanvas::create();
    canvas.update(WgpuCanvasMsg::Initializing);
    canvas.update(WgpuCanvasMsg::Initialized(context()));
    canvas
}

#[test]
fn canvas_starts_the_context_once() {
    let mut canvas = WgpuCanvas::create();
    assert!(canvas.needs_initialize());
    assert!(!canvas.has_context());
    let (redraw, effect) = canvas.update(WgpuCanvasMsg::Initializing);
    assert!(redraw);
    assert_eq!(effect, Effect::CreateContext { width: 500, height: 500 });
    assert!(!canvas.needs_initialize());
    let (redraw, effect) = canvas.update(WgpuCanvasMsg::Initialized(context()));
    assert!(redraw);
    assert_eq!(effect, Effect::StartTimer { millis: 30 });
    assert!(canvas.has_context());
    assert!(!canvas.needs_initialize());
}

#[test]
fn tick_without_context_does_nothing() {
    let mut canvas = WgpuCanvas::create();
    assert_eq!(canvas.update(WgpuCanvasMsg::Update), (false, Effect::Nothing));
    let end = canvas.present(Err(SurfaceError::OutOfMemory));
    assert_eq!(
        end,
        FrameEnd { verdict: Verdict::Continue, recovery: None, commands: vec![], steps: vec![] }
    );
}

#[test]
fn keys_steer_the_next_tick() {
    let mut canvas = running();
    assert_eq!(canvas.update(WgpuCanvasMsg::Control(ControlMsg::SUp)), (false, Effect::Nothing));
    assert_eq!(canvas.update(WgpuCanvasMsg::Control(ControlMsg::SLeft)), (false, Effect::Nothing));
    assert_eq!(
        canvas.control_state(),
        ControlState { up: true, down: false, left: true, right: false }
    );
    let (redraw, effect) = canvas.update(WgpuCanvasMsg::Update);
    assert!(redraw);
    assert_eq!(
        effect,
        Effect::Frame(vec![Step::MoveEye { forward: 1, strafe: -1 }, Step::WriteCameraUniform])
    );
    canvas.update(WgpuCanvasMsg::Control(ControlMsg::EUp));
    canvas.update(WgpuCanvasMsg::Control(ControlMsg::ELeft));
    let (_, effect) = canvas.update(WgpuCanvasMsg::Update);
    assert_eq!(
        effect,
        Effect::Frame(vec![Step::MoveEye { forward: 0, strafe: 0 }, Step::WriteCameraUniform])
    );
}

#[test]
fn frame_ends_by_what_was_acquired() {
    let mut canvas = running();
    let end = canvas.present(Ok(()));
    assert_eq!(end.verdict, Verdict::Continue);
    assert_eq!(end.recovery, None);
    assert_eq!(end.commands.len(), 9);
    assert!(end.steps.is_empty());

    let end = canvas.present(Err(SurfaceError::Lost));
    assert_eq!(end.verdict, Verdict::Continue);
    assert_eq!(end.recovery, Some(Recovery::Reconfigure));
    assert!(end.commands.is_empty());
    assert_eq!(end.steps.len(), 3);

    let end = canvas.present(Err(SurfaceError::Outdated));
    assert_eq!(end.verdict, Verdict::Continue);
    assert_eq!(end.steps.len(), 3);

    let end = canvas.present(Err(SurfaceError::Timeout));
    assert_eq!(
        end,
        FrameEnd {
            verdict: Verdict::Continue,
            recovery: Some(Recovery::Ignore),
            commands: vec![],
            steps: vec![],
        }
    );

    let end = canvas.present(Err(SurfaceError::OutOfMemory));
    assert_eq!(
        end,
        FrameEnd {
            verdict: Verdict::Terminate,
            recovery: Some(Recovery::Terminate),
            commands: vec![],
            steps: vec![],
        }
    );

    let end = canvas.present(Err(SurfaceError::Other));
    assert_eq!(end.verdict, Verdict::Terminate);
    assert_eq!(end.recovery, Some(Recovery::Terminate));

    let end = canvas.present(Ok(()));
    assert_eq!(end.commands.len(), 9);
}
