use surface_host::error::ShellError;
use surface_host::policy::{GlProfile, PixelFormatRequest};
use surface_host::surface::{
    ColorFormat, ColorType, FramebufferDescriptor, PixelFormatInfo, RenderSurface, RenderTarget,
    SurfaceOrigin, SurfaceRequest,
};
use surface_host::window::{Construction, GpuContext, Outcome, Stage, Task, Window};

fn info(width: u32, height: u32) -> PixelFormatInfo {
    PixelFormatInfo {
        multisampling: Some(4),
        stencil_bits: 8,
        physical_width: width,
        physical_height: height,
    }
}

fn good_run() -> Vec<Outcome> {
    vec![
        Outcome::WindowBuilt,
        Outcome::Activated,
        Outcome::BindingsLoaded,
        Outcome::GpuContextCreated { resource_cache_limit: 4096 },
        Outcome::DriverState { framebuffer_binding: 3, info: info(800, 600) },
        Outcome::SurfaceCreated { width: 800, height: 600 },
    ]
}

fn expected_request() -> SurfaceRequest {
    SurfaceRequest {
        target: RenderTarget {
            width: 800,
            height: 600,
            sample_count: 4,
            stencil_bits: 8,
            framebuffer: FramebufferDescriptor { fboid: 3, format: ColorFormat::Rgba8 },
        },
        origin: SurfaceOrigin::TopLeft,
        color_type: ColorType::Rgba8888,
    }
}

#[test]
fn fixed_request_is_the_stated_policy() {
    let request = PixelFormatRequest::fixed();
    assert_eq!(request.depth_bits, 0);
    assert_eq!(request.stencil_bits, 8);
    assert_eq!(request.color_bits, 24);
    assert_eq!(request.alpha_bits, 8);
    assert!(request.double_buffer);
    assert_eq!(request.profile, GlProfile::Core);
}

#[test]
fn tasks_come_in_the_order_of_construction() {
    let mut construction = Construction::begin("main", 800, 600);
    assert_eq!(construction.title(), "main");
    assert_eq!(construction.logical_size(), (800, 600));
    assert_eq!(construction.stage(), Stage::AwaitingWindow);
    let mut tasks = Vec::new();
    for outcome in good_run() {
        tasks.push(construction.task());
        construction = construction.advance(outcome);
    }
    tasks.push(construction.task());
    assert_eq!(
        tasks,
        vec![
            Task::CreateWindow { format: PixelFormatRequest::fixed() },
            Task::MakeCurrent,
            Task::LoadBindings,
            Task::CreateGpuContext,
            Task::QueryDriver,
            Task::CreateSurface { request: expected_request() },
            Task::Done,
        ]
    );
    let context = GpuContext { resource_cache_limit: 4096 };
    let surface = RenderSurface { width: 800, height: 600 };
    assert_eq!(construction.stage(), Stage::Bound { context, surface });
    let window = construction.finish().unwrap();
    assert_eq!(window.handle.title, "main");
    assert_eq!(window.context, context);
    assert_eq!(window.surface, surface);
}

#[test]
fn whole_run_gives_the_window() {
    let window = Window::new("main", 800, 600, &good_run()).unwrap();
    assert_eq!(window.handle.title, "main");
    assert_eq!(window.handle.logical_width, 800);
    assert_eq!(window.handle.logical_height, 600);
    assert_eq!(window.context.resource_cache_limit(), 4096);
    assert_eq!(window.surface.width(), 800);
    assert_eq!(window.surface.height(), 600);
}

#[test]
fn each_stage_fails_with_the_error_of_its_component() {
    let run = good_run();
    let expected = [
        ShellError::WindowCreation,
        ShellError::ContextActivation,
        ShellError::ContextActivation,
        ShellError::SurfaceBinding,
        ShellError::SurfaceBinding,
        ShellError::SurfaceBinding,
    ];
    for (stop, error) in expected.iter().enumerate() {
        // The call at `stop` is refused.
        let mut refused: Vec<Outcome> = run[..stop].to_vec();
        refused.push(Outcome::Refused);
        assert_eq!(Window::new("main", 800, 600, &refused), Err(*error));
        // Construction stops before the call at `stop` is made.
        let stopped: Vec<Outcome> = run[..stop].to_vec();
        assert_eq!(Window::new("main", 800, 600, &stopped), Err(*error));
    }
}

#[test]
fn gpu_context_before_the_window_is_refused() {
    let early = vec![Outcome::GpuContextCreated { resource_cache_limit: 4096 }];
    assert_eq!(Window::new("main", 800, 600, &early), Err(ShellError::WindowCreation));
    let construction = Construction::begin("main", 800, 600)
        .advance(Outcome::GpuContextCreated { resource_cache_limit: 4096 });
    assert_eq!(construction.stage(), Stage::Failed { error: ShellError::WindowCreation });
    assert_eq!(construction.task(), Task::Abort { error: ShellError::WindowCreation });
}

#[test]
fn gpu_context_before_activation_is_refused() {
    let early = vec![
        Outcome::WindowBuilt,
        Outcome::GpuContextCreated { resource_cache_limit: 4096 },
    ];
    assert_eq!(Window::new("main", 800, 600, &early), Err(ShellError::ContextActivation));
}

#[test]
fn surface_before_the_gpu_context_is_refused() {
    let early = vec![
        Outcome::WindowBuilt,
        Outcome::Activated,
        Outcome::BindingsLoaded,
        Outcome::SurfaceCreated { width: 800, height: 600 },
    ];
    assert_eq!(Window::new("main", 800, 600, &early), Err(ShellError::SurfaceBinding));
}

#[test]
fn bindings_are_loaded_once() {
    let twice = vec![
        Outcome::WindowBuilt,
        Outcome::Activated,
        Outcome::BindingsLoaded,
        Outcome::BindingsLoaded,
        Outcome::GpuContextCreated { resource_cache_limit: 4096 },
        Outcome::DriverState { framebuffer_binding: 3, info: info(800, 600) },
        Outcome::SurfaceCreated { width: 800, height: 600 },
    ];
    assert_eq!(Window::new("main", 800, 600, &twice), Err(ShellError::SurfaceBinding));
}

#[test]
fn bound_construction_takes_no_further_outcome() {
    let mut run = good_run();
    run.push(Outcome::SurfaceCreated { width: 800, height: 600 });
    assert_eq!(Window::new("main", 800, 600, &run), Err(ShellError::SurfaceBinding));
}

#[test]
fn failed_construction_stays_failed() {
    let mut run = vec![Outcome::Refused];
    run.extend(good_run());
    assert_eq!(Window::new("main", 800, 600, &run), Err(ShellError::WindowCreation));
    let mut stage = Stage::Failed { error: ShellError::ContextActivation };
    for outcome in good_run() {
        stage = stage.next(outcome);
        assert_eq!(stage, Stage::Failed { error: ShellError::ContextActivation });
    }
}

#[test]
fn negative_framebuffer_binding_fails_the_binding() {
    let mut run = good_run();
    run[4] = Outcome::DriverState { framebuffer_binding: -1, info: info(800, 600) };
    assert_eq!(Window::new("main", 800, 600, &run), Err(ShellError::SurfaceBinding));
}

#[test]
fn oversized_window_fails_the_binding() {
    let mut run = good_run();
    run[4] = Outcome::DriverState { framebuffer_binding: 3, info: info(2_147_483_648, 600) };
    assert_eq!(Window::new("main", 800, 600, &run), Err(ShellError::SurfaceBinding));
}

#[test]
fn mismatched_surface_is_never_bound() {
    let mut run = good_run();
    run[5] = Outcome::SurfaceCreated { width: 800, height: 601 };
    assert_eq!(Window::new("main", 800, 600, &run), Err(ShellError::SurfaceBinding));
    run[5] = Outcome::SurfaceCreated { width: 799, height: 600 };
    assert_eq!(Window::new("main", 800, 600, &run), Err(ShellError::SurfaceBinding));
}

#[test]
fn stage_errors_follow_the_component_in_turn() {
    let context = GpuContext { resource_cache_limit: 1 };
    let surface = RenderSurface { width: 1, height: 1 };
    assert_eq!(Stage::AwaitingWindow.error(), ShellError::WindowCreation);
    assert_eq!(Stage::AwaitingActivation.error(), ShellError::ContextActivation);
    assert_eq!(Stage::AwaitingBindings.error(), ShellError::ContextActivation);
    assert_eq!(Stage::AwaitingGpuContext.error(), ShellError::SurfaceBinding);
    assert_eq!(Stage::AwaitingDriverState { context }.error(), ShellError::SurfaceBinding);
    assert_eq!(
        Stage::AwaitingSurface { context, request: expected_request() }.error(),
        ShellError::SurfaceBinding
    );
    assert_eq!(Stage::Bound { context, surface }.error(), ShellError::SurfaceBinding);
    assert_eq!(
        Stage::Failed { error: ShellError::WindowCreation }.error(),
        ShellError::WindowCreation
    );
}

#[test]
fn unfinished_construction_gives_no_window() {
    let construction = Construction::begin("main", 800, 600)
        .advance(Outcome::WindowBuilt)
        .advance(Outcome::Activated);
    assert_eq!(construction.task(), Task::LoadBindings);
    assert_eq!(construction.finish(), Err(ShellError::ContextActivation));
}
