use render_core::camera::{depth_correction, Aspect, Camera, MOVE_STEP};
use render_core::context::{Step, WgpuContext};
use render_core::driver::{recovery, settle, Recovery, Verdict};
use render_core::pipeline::{Color, Command, IndexFormat};
use render_core::surface::{
    select_format, PhysicalSize, SurfaceCapabilities, SurfaceConfiguration, SurfaceError,
};

fn caps(srgb_formats: Vec<bool>) -> SurfaceCapabilities {
    SurfaceCapabilities { srgb_formats, present_modes: 2, alpha_modes: 1 }
}

fn size(width: u32, height: u32) -> PhysicalSize {
    PhysicalSize { width, height }
}

fn floats(bits: [u32; 3]) -> [f32; 3] {
    [f32::from_bits(bits[0]), f32::from_bits(bits[1]), f32::from_bits(bits[2])]
}

fn ratio(aspect: Aspect) -> f32 {
    aspect.width as f32 / aspect.height as f32
}

fn frame(index_count: u32) -> Vec<Command> {
    vec![
        Command::BeginRenderPass {
            clear: Color {
                r: 0.1f64.to_bits(),
                g: 0.2f64.to_bits(),
                b: 0.3f64.to_bits(),
                a: 1.0f64.to_bits(),
            },
        },
        Command::SetPipeline,
        Command::SetBindGroup { index: 0 },
        Command::SetVertexBuffer { slot: 0 },
        Command::SetIndexBuffer { format: IndexFormat::Uint16 },
        Command::DrawIndexed {
            first_index: 0,
            index_count,
            base_vertex: 0,
            first_instance: 0,
            instance_count: 1,
        },
        Command::EndRenderPass,
        Command::Submit,
        Command::Present,
    ]
}

#[test]
fn initial_camera_and_first_frame() {
    let (mut ctx, camera) = WgpuContext::new(&caps(vec![false, true]), 500, 500);
    assert_eq!(ratio(ctx.aspect()), 1.0);
    assert_eq!(ratio(camera.aspect), 1.0);
    assert_eq!(f32::from_bits(camera.fovy), 45.0);
    assert_eq!(f32::from_bits(camera.znear), 0.1);
    assert_eq!(f32::from_bits(camera.zfar), 100.0);
    assert_eq!(floats(camera.eye), [0.0, 1.0, 2.0]);
    assert_eq!(floats(camera.target), [0.0, 0.0, 0.0]);
    assert_eq!(floats(camera.up), [0.0, 1.0, 0.0]);
    assert_eq!(ctx.size(), size(500, 500));
    assert_eq!(ctx.mesh().indices.len(), 9);
    let commands = ctx.render(Ok(())).expect("the image was acquired");
    assert_eq!(commands, frame(9));
}

#[test]
fn initial_configuration() {
    let (ctx, _) = WgpuContext::new(&caps(vec![false, false, true, true]), 480, 640);
    let expected = SurfaceConfiguration {
        format: 2,
        width: 640,
        height: 480,
        present_mode: 0,
        alpha_mode: 0,
        desired_maximum_frame_latency: 2,
    };
    assert_eq!(ctx.config(), expected);
    assert_eq!(ctx.size(), size(640, 480));
    assert_eq!(ctx.aspect(), Aspect { width: 640, height: 480 });
}

#[test]
fn format_is_the_first_srgb_or_the_first() {
    assert_eq!(select_format(&vec![true]), 0);
    assert_eq!(select_format(&vec![false]), 0);
    assert_eq!(select_format(&vec![false, true, true]), 1);
    assert_eq!(select_format(&vec![false, false, false]), 0);
    assert_eq!(select_format(&vec![false, false, false, true]), 3);
}

#[test]
fn camera_clip_distances_are_ordered() {
    let camera = Camera::new(16, 9);
    assert!(f32::from_bits(camera.znear) > 0.0);
    assert!(f32::from_bits(camera.znear) < f32::from_bits(camera.zfar));
    assert!(camera.znear < camera.zfar);
    assert_eq!(f32::from_bits(MOVE_STEP), 0.05);
}

#[test]
fn set_aspect_changes_the_aspect_only() {
    let mut camera = Camera::new(16, 9);
    let before = camera;
    camera.set_aspect(4, 3);
    assert_eq!(camera.aspect, Aspect { width: 4, height: 3 });
    assert_eq!(camera.eye, before.eye);
    assert_eq!(camera.target, before.target);
    assert_eq!(camera.up, before.up);
    assert_eq!(camera.fovy, before.fovy);
    assert_eq!(camera.znear, before.znear);
    assert_eq!(camera.zfar, before.zfar);
}

#[test]
fn resize_takes_the_new_size() {
    let (mut ctx, _) = WgpuContext::new(&caps(vec![true]), 500, 500);
    let steps = ctx.resize(size(800, 600));
    assert_eq!(ctx.size(), size(800, 600));
    assert_eq!(ctx.config().width, 800);
    assert_eq!(ctx.config().height, 600);
    assert_eq!(ctx.config().format, 0);
    assert_eq!(ratio(ctx.aspect()), 800.0 / 600.0);
    assert_eq!(
        steps,
        vec![
            Step::ConfigureSurface(ctx.config()),
            Step::SetAspect(Aspect { width: 800, height: 600 }),
            Step::WriteCameraUniform,
        ]
    );
}

#[test]
fn resize_sequence_ends_at_the_last_size() {
    let (mut ctx, _) = WgpuContext::new(&caps(vec![true]), 500, 500);
    for (w, h) in [(640, 480), (1920, 1080), (1, 1), (300, 700)] {
        ctx.resize(size(w, h));
        assert_eq!(ctx.size(), size(w, h));
        assert_eq!(ctx.config().width, w);
        assert_eq!(ctx.config().height, h);
        assert_eq!(ratio(ctx.aspect()), w as f32 / h as f32);
    }
}

#[test]
fn resize_to_nothing_is_ignored() {
    let (mut ctx, _) = WgpuContext::new(&caps(vec![false, true]), 300, 400);
    let (unchanged, _) = WgpuContext::new(&caps(vec![false, true]), 300, 400);
    assert!(ctx.resize(size(0, 77)).is_empty());
    assert_eq!(ctx, unchanged);
    assert!(ctx.resize(size(77, 0)).is_empty());
    assert_eq!(ctx, unchanged);
    assert!(ctx.resize(size(0, 0)).is_empty());
    assert_eq!(ctx, unchanged);
    assert_eq!(ctx.size(), size(400, 300));
    assert_eq!(ctx.aspect(), Aspect { width: 400, height: 300 });
}

#[test]
fn update_moves_the_eye_then_writes() {
    let (mut ctx, _) = WgpuContext::new(&caps(vec![true]), 500, 500);
    let (unchanged, _) = WgpuContext::new(&caps(vec![true]), 500, 500);
    assert_eq!(
        ctx.update([1, 0]),
        vec![Step::MoveEye { forward: 1, strafe: 0 }, Step::WriteCameraUniform]
    );
    assert_eq!(
        ctx.update([-1, 1]),
        vec![Step::MoveEye { forward: -1, strafe: 1 }, Step::WriteCameraUniform]
    );
    assert_eq!(ctx, unchanged);
}

#[test]
fn render_hands_on_each_error() {
    let (mut ctx, _) = WgpuContext::new(&caps(vec![true]), 500, 500);
    for error in [
        SurfaceError::Timeout,
        SurfaceError::Outdated,
        SurfaceError::Lost,
        SurfaceError::OutOfMemory,
        SurfaceError::Other,
    ] {
        assert_eq!(ctx.render(Err(error)), Err(error));
    }
}

#[test]
fn render_repeats_itself() {
    let (mut ctx, _) = WgpuContext::new(&caps(vec![true]), 500, 500);
    let first = ctx.render(Ok(()));
    let second = ctx.render(Ok(()));
    assert_eq!(first, second);
    assert_eq!(first, Ok(frame(9)));
}

#[test]
fn recovery_by_error() {
    assert_eq!(recovery(SurfaceError::Lost), Recovery::Reconfigure);
    assert_eq!(recovery(SurfaceError::Outdated), Recovery::Reconfigure);
    assert_eq!(recovery(SurfaceError::Timeout), Recovery::Ignore);
    assert_eq!(recovery(SurfaceError::OutOfMemory), Recovery::Terminate);
    assert_eq!(recovery(SurfaceError::Other), Recovery::Terminate);
}

#[test]
fn lost_surface_is_configured_again_at_the_same_size() {
    let (mut ctx, _) = WgpuContext::new(&caps(vec![false, true]), 500, 500);
    ctx.resize(size(800, 600));
    let lost = ctx.render(Err(SurfaceError::Lost));
    assert_eq!(lost, Err(SurfaceError::Lost));
    let (verdict, steps) = settle(&mut ctx, Err(SurfaceError::Lost));
    assert_eq!(verdict, Verdict::Continue);
    assert_eq!(ctx.size(), size(800, 600));
    assert_eq!(ctx.config().width, 800);
    assert_eq!(ctx.config().height, 600);
    assert_eq!(
        steps,
        vec![
            Step::ConfigureSurface(ctx.config()),
            Step::SetAspect(Aspect { width: 800, height: 600 }),
            Step::WriteCameraUniform,
        ]
    );
    assert_eq!(ctx.render(Ok(())), Ok(frame(9)));
}

#[test]
fn settle_by_result() {
    let (mut ctx, _) = WgpuContext::new(&caps(vec![true]), 500, 500);
    assert_eq!(settle(&mut ctx, Ok(())), (Verdict::Continue, vec![]));
    assert_eq!(settle(&mut ctx, Err(SurfaceError::Timeout)), (Verdict::Continue, vec![]));
    assert_eq!(settle(&mut ctx, Err(SurfaceError::OutOfMemory)), (Verdict::Terminate, vec![]));
    assert_eq!(settle(&mut ctx, Err(SurfaceError::Other)), (Verdict::Terminate, vec![]));
    let (verdict, steps) = settle(&mut ctx, Err(SurfaceError::Outdated));
    assert_eq!(verdict, Verdict::Continue);
    assert_eq!(steps.len(), 3);
    assert_eq!(ctx.size(), size(500, 500));
}

#[test]
fn capabilities_flag_the_srgb_formats() {
    let formats = vec![
        wgpu::TextureFormat::Bgra8Unorm,
        wgpu::TextureFormat::Bgra8UnormSrgb,
        wgpu::TextureFormat::Rgba8UnormSrgb,
        wgpu::TextureFormat::Rgba16Float,
    ];
    let caps = SurfaceCapabilities::of(&formats, 3, 2);
    assert_eq!(caps.srgb_formats, vec![false, true, true, false]);
    assert_eq!(caps.present_modes, 3);
    assert_eq!(caps.alpha_modes, 2);
    assert_eq!(select_format(&caps.srgb_formats), 1);
    let (ctx, _) = WgpuContext::new(&caps, 10, 20);
    assert_eq!(ctx.config().format, 1);
}

#[test]
fn capabilities_without_srgb_fall_back_to_the_first() {
    let formats = vec![wgpu::TextureFormat::Bgra8Unorm, wgpu::TextureFormat::Rgba8Unorm];
    let caps = SurfaceCapabilities::of(&formats, 1, 1);
    assert_eq!(caps.srgb_formats, vec![false, false]);
    let (ctx, _) = WgpuContext::new(&caps, 10, 20);
    assert_eq!(ctx.config().format, 0);
}

#[test]
fn depth_correction_halves_the_depth_range() {
    let columns = depth_correction();
    let floats: Vec<Vec<f32>> =
        columns.iter().map(|c| c.iter().map(|e| f32::from_bits(*e)).collect()).collect();
    assert_eq!(
        floats,
        vec![
            vec![1.0, 0.0, 0.0, 0.0],
            vec![0.0, 1.0, 0.0, 0.0],
            vec![0.0, 0.0, 0.5, 0.0],
            vec![0.0, 0.0, 0.5, 1.0],
        ]
    );
    let matrix = cgmath::Matrix4::from_cols(
        cgmath::Vector4::new(floats[0][0], floats[0][1], floats[0][2], floats[0][3]),
        cgmath::Vector4::new(floats[1][0], floats[1][1], floats[1][2], floats[1][3]),
        cgmath::Vector4::new(floats[2][0], floats[2][1], floats[2][2], floats[2][3]),
        cgmath::Vector4::new(floats[3][0], floats[3][1], floats[3][2], floats[3][3]),
    );
    let near = matrix * cgmath::Vector4::new(3.0, -2.0, -4.0, 4.0);
    assert_eq!(near, cgmath::Vector4::new(3.0, -2.0, 0.0, 4.0));
    let far = matrix * cgmath::Vector4::new(3.0, -2.0, 4.0, 4.0);
    assert_eq!(far, cgmath::Vector4::new(3.0, -2.0, 4.0, 4.0));
    let middle = matrix * cgmath::Vector4::new(0.0, 0.0, 1.0, 4.0);
    assert_eq!(middle, cgmath::Vector4::new(0.0, 0.0, 2.5, 4.0));
}
