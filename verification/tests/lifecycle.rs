use gpu_bootstrap::context::{AcquisitionAction, AcquisitionEvent, GraphicsContext, PowerPreference};
use gpu_bootstrap::dispatch::{Action, Event, EventDispatcher};
use gpu_bootstrap::error::BootstrapError;
use gpu_bootstrap::pipeline::{EntryPoint, PipelineBuilder, RenderBundle, ShaderModule, ShaderStage};
use gpu_bootstrap::size::Size;
use gpu_bootstrap::surface::{
    LifecycleState, SurfaceCapabilities, SurfaceConfiguration, SurfaceId, SurfaceManager,
    SurfaceResources,
};
use wgpu::{PresentMode, TextureFormat};

fn builder() -> PipelineBuilder {
    let shader = ShaderModule::from_entry_points(vec![
        EntryPoint { stage: ShaderStage::Vertex, name: String::from("vs_main") },
        EntryPoint { stage: ShaderStage::Fragment, name: String::from("fs_main") },
    ]);
    PipelineBuilder::with_shader(shader).unwrap()
}

fn ready_context() -> GraphicsContext {
    let mut context = GraphicsContext::new(PowerPreference::default(), None);
    context.advance(AcquisitionEvent::Begin);
    context.advance(AcquisitionEvent::AdapterFound);
    context.advance(AcquisitionEvent::DeviceGranted);
    context
}

fn dispatcher() -> EventDispatcher {
    EventDispatcher::new(ready_context(), builder()).unwrap()
}

fn capabilities() -> SurfaceCapabilities {
    SurfaceCapabilities {
        formats: vec![TextureFormat::Bgra8UnormSrgb, TextureFormat::Rgba8Unorm],
        present_modes: vec![PresentMode::Fifo, PresentMode::Mailbox],
    }
}

fn bundle_for(format: TextureFormat) -> RenderBundle {
    RenderBundle {
        target_format: format,
        vertex_buffers: 0,
        depth_stencil: false,
        sample_count: 1,
        bind_group_layouts: 0,
        push_constant_ranges: 0,
    }
}

fn resources(surface: u64, width: u32, height: u32) -> SurfaceResources {
    SurfaceResources {
        surface: SurfaceId(surface),
        configuration: SurfaceConfiguration {
            format: TextureFormat::Bgra8UnormSrgb,
            present_mode: PresentMode::Fifo,
            width,
            height,
        },
        bundle: bundle_for(TextureFormat::Bgra8UnormSrgb),
    }
}

fn created(surface: u64, width: u32, height: u32) -> Event {
    Event::SurfaceCreated {
        surface: SurfaceId(surface),
        window_size: Size::new(width, height),
        capabilities: capabilities(),
    }
}

fn configured_dispatcher() -> EventDispatcher {
    let mut dispatcher = dispatcher();
    assert_eq!(dispatcher.dispatch(Event::Resumed), Action::CreateSurface);
    assert_eq!(dispatcher.dispatch(created(7, 640, 480)), Action::Initialize(resources(7, 640, 480)));
    dispatcher
}

#[test]
fn first_resume_creates_configures_and_builds_once() {
    let mut dispatcher = dispatcher();
    assert_eq!(dispatcher.surfaces().state(), LifecycleState::Uninitialized);
    assert_eq!(dispatcher.surfaces().surface(), None);
    assert_eq!(dispatcher.surfaces().render_bundle(), None);

    assert_eq!(dispatcher.dispatch(Event::Resumed), Action::CreateSurface);
    assert_eq!(dispatcher.surfaces().state(), LifecycleState::Uninitialized);

    let action = dispatcher.dispatch(created(7, 640, 480));
    assert_eq!(action, Action::Initialize(resources(7, 640, 480)));
    assert_eq!(dispatcher.surfaces().state(), LifecycleState::Configured);
    assert_eq!(dispatcher.surfaces().surface(), Some(SurfaceId(7)));
    assert_eq!(
        dispatcher.surfaces().render_bundle(),
        Some(bundle_for(TextureFormat::Bgra8UnormSrgb))
    );

    let later = [
        dispatcher.dispatch(Event::Resumed),
        dispatcher.dispatch(Event::RedrawRequested),
        dispatcher.dispatch(Event::Suspended),
        dispatcher.dispatch(Event::Resumed),
        dispatcher.dispatch(created(8, 100, 100)),
        dispatcher.dispatch(Event::Resized(Size::new(10, 10))),
    ];
    for action in later {
        assert!(!matches!(action, Action::CreateSurface | Action::Initialize(_)));
    }
    assert_eq!(dispatcher.surfaces().surface(), Some(SurfaceId(7)));
}

#[test]
fn resize_then_degenerate_resize_uses_one_by_one() {
    let mut dispatcher = configured_dispatcher();
    assert_eq!(
        dispatcher.dispatch(Event::Resized(Size::new(800, 600))),
        Action::Reconfigure(resources(7, 800, 600))
    );
    assert_eq!(
        dispatcher.surfaces().configuration().map(|c| (c.width, c.height)),
        Some((800, 600))
    );
    assert_eq!(
        dispatcher.dispatch(Event::Resized(Size::new(0, 0))),
        Action::Reconfigure(resources(7, 1, 1))
    );
    assert_eq!(dispatcher.surfaces().configuration().map(|c| (c.width, c.height)), Some((1, 1)));
    assert_eq!(dispatcher.surfaces().state(), LifecycleState::Configured);
}

#[test]
fn suspend_then_resume_reuses_surface_and_bundle() {
    let mut dispatcher = configured_dispatcher();
    let before = dispatcher.surfaces().resources();

    assert_eq!(dispatcher.dispatch(Event::Suspended), Action::Nothing);
    assert_eq!(dispatcher.surfaces().state(), LifecycleState::Suspended);
    assert_eq!(dispatcher.surfaces().resources(), before);
    assert_eq!(dispatcher.surfaces().surface(), Some(SurfaceId(7)));

    assert_eq!(dispatcher.dispatch(Event::Resumed), Action::Nothing);
    assert_eq!(dispatcher.surfaces().state(), LifecycleState::Configured);
    assert_eq!(dispatcher.surfaces().resources(), before);
    assert_eq!(dispatcher.surfaces().surface(), Some(SurfaceId(7)));
}

#[test]
fn repeated_resume_while_configured_is_idempotent() {
    let mut dispatcher = configured_dispatcher();
    let before = dispatcher.surfaces().resources();
    for _ in 0..5 {
        assert_eq!(dispatcher.dispatch(Event::Resumed), Action::Nothing);
        assert_eq!(dispatcher.surfaces().state(), LifecycleState::Configured);
        assert_eq!(dispatcher.surfaces().resources(), before);
    }
}

#[test]
fn repeated_resume_before_surface_keeps_asking_for_one() {
    let mut dispatcher = dispatcher();
    assert_eq!(dispatcher.dispatch(Event::Resumed), Action::CreateSurface);
    assert_eq!(dispatcher.dispatch(Event::Resumed), Action::CreateSurface);
    assert_eq!(dispatcher.surfaces().state(), LifecycleState::Uninitialized);
}

#[test]
fn redraw_before_configuration_draws_nothing() {
    let mut dispatcher = dispatcher();
    assert_eq!(dispatcher.dispatch(Event::RedrawRequested), Action::Nothing);
    assert_eq!(dispatcher.dispatch(Event::Resized(Size::new(300, 200))), Action::Nothing);
    assert_eq!(dispatcher.dispatch(Event::Suspended), Action::Nothing);
    assert_eq!(dispatcher.dispatch(Event::KeyboardInput), Action::Nothing);
    assert_eq!(dispatcher.dispatch(Event::Other), Action::Nothing);
    assert_eq!(dispatcher.dispatch(Event::RedrawRequested), Action::Nothing);
    assert_eq!(dispatcher.surfaces().state(), LifecycleState::Uninitialized);
    assert_eq!(dispatcher.surfaces().resources(), None);
    assert_eq!(dispatcher.surfaces().drawable(), None);
}

#[test]
fn redraw_while_configured_draws_with_held_resources() {
    let mut dispatcher = configured_dispatcher();
    assert_eq!(dispatcher.dispatch(Event::RedrawRequested), Action::Draw(resources(7, 640, 480)));
    dispatcher.dispatch(Event::Resized(Size::new(32, 0)));
    assert_eq!(dispatcher.dispatch(Event::RedrawRequested), Action::Draw(resources(7, 32, 1)));
}

#[test]
fn redraw_while_suspended_draws_nothing() {
    let mut dispatcher = configured_dispatcher();
    dispatcher.dispatch(Event::Suspended);
    assert_eq!(dispatcher.dispatch(Event::RedrawRequested), Action::Nothing);
    assert_eq!(dispatcher.surfaces().drawable(), None);
    dispatcher.dispatch(Event::Resumed);
    assert_eq!(dispatcher.dispatch(Event::RedrawRequested), Action::Draw(resources(7, 640, 480)));
}

#[test]
fn resize_while_suspended_is_ignored() {
    let mut dispatcher = configured_dispatcher();
    dispatcher.dispatch(Event::Suspended);
    assert_eq!(dispatcher.dispatch(Event::Resized(Size::new(900, 700))), Action::Nothing);
    assert_eq!(dispatcher.surfaces().resources(), Some(resources(7, 640, 480)));
    assert_eq!(dispatcher.surfaces().state(), LifecycleState::Suspended);
}

#[test]
fn resize_clamps_each_extent_separately() {
    let mut dispatcher = configured_dispatcher();
    assert_eq!(
        dispatcher.dispatch(Event::Resized(Size::new(0, 600))),
        Action::Reconfigure(resources(7, 1, 600))
    );
    assert_eq!(
        dispatcher.dispatch(Event::Resized(Size::new(800, 0))),
        Action::Reconfigure(resources(7, 800, 1))
    );
    assert_eq!(
        dispatcher.dispatch(Event::Resized(Size::new(u32::MAX, 1))),
        Action::Reconfigure(resources(7, u32::MAX, 1))
    );
}

#[test]
fn first_configuration_clamps_a_degenerate_window() {
    let mut dispatcher = dispatcher();
    dispatcher.dispatch(Event::Resumed);
    assert_eq!(dispatcher.dispatch(created(3, 0, 0)), Action::Initialize(resources(3, 1, 1)));
    assert_eq!(dispatcher.surfaces().configuration().map(|c| (c.width, c.height)), Some((1, 1)));
}

#[test]
fn surface_reported_at_startup_makes_resume_a_no_op() {
    let mut dispatcher = dispatcher();
    assert_eq!(dispatcher.dispatch(created(1, 320, 240)), Action::Initialize(resources(1, 320, 240)));
    assert_eq!(dispatcher.dispatch(Event::Resumed), Action::Nothing);
    assert_eq!(dispatcher.surfaces().surface(), Some(SurfaceId(1)));
    assert_eq!(dispatcher.surfaces().state(), LifecycleState::Configured);
}

#[test]
fn second_surface_is_not_adopted() {
    let mut dispatcher = configured_dispatcher();
    assert_eq!(dispatcher.dispatch(created(8, 10, 10)), Action::Nothing);
    assert_eq!(dispatcher.surfaces().resources(), Some(resources(7, 640, 480)));
    dispatcher.dispatch(Event::Suspended);
    assert_eq!(dispatcher.dispatch(created(9, 10, 10)), Action::Nothing);
    assert_eq!(dispatcher.surfaces().resources(), Some(resources(7, 640, 480)));
    assert_eq!(dispatcher.surfaces().state(), LifecycleState::Suspended);
}

#[test]
fn unsupported_surface_aborts_and_changes_nothing() {
    let mut dispatcher = dispatcher();
    dispatcher.dispatch(Event::Resumed);
    let no_formats = Event::SurfaceCreated {
        surface: SurfaceId(2),
        window_size: Size::new(640, 480),
        capabilities: SurfaceCapabilities { formats: vec![], present_modes: vec![PresentMode::Fifo] },
    };
    assert_eq!(dispatcher.dispatch(no_formats), Action::Abort(BootstrapError::SurfaceUnsupported));
    let no_modes = Event::SurfaceCreated {
        surface: SurfaceId(2),
        window_size: Size::new(640, 480),
        capabilities: SurfaceCapabilities {
            formats: vec![TextureFormat::Rgba8Unorm],
            present_modes: vec![],
        },
    };
    assert_eq!(dispatcher.dispatch(no_modes), Action::Abort(BootstrapError::SurfaceUnsupported));
    assert_eq!(dispatcher.surfaces().state(), LifecycleState::Uninitialized);
    assert_eq!(dispatcher.surfaces().surface(), None);
    assert_eq!(dispatcher.dispatch(Event::RedrawRequested), Action::Nothing);
}

#[test]
fn close_request_exits_in_every_state() {
    let mut fresh = dispatcher();
    assert_eq!(fresh.dispatch(Event::CloseRequested), Action::Exit);
    assert_eq!(fresh.surfaces().state(), LifecycleState::Uninitialized);

    let mut configured = configured_dispatcher();
    assert_eq!(configured.dispatch(Event::CloseRequested), Action::Exit);
    assert_eq!(configured.surfaces().resources(), Some(resources(7, 640, 480)));
    assert_eq!(configured.surfaces().state(), LifecycleState::Configured);
}

#[test]
fn suspend_before_any_surface_changes_nothing() {
    let mut dispatcher = dispatcher();
    assert_eq!(dispatcher.dispatch(Event::Suspended), Action::Nothing);
    assert_eq!(dispatcher.surfaces().state(), LifecycleState::Uninitialized);
    assert_eq!(dispatcher.dispatch(Event::Resumed), Action::CreateSurface);
}

#[test]
fn dispatcher_needs_a_ready_context() {
    let idle = GraphicsContext::new(PowerPreference::LowPower, None);
    assert!(EventDispatcher::new(idle, builder()).is_none());

    let mut waiting = GraphicsContext::new(PowerPreference::LowPower, None);
    waiting.advance(AcquisitionEvent::Begin);
    waiting.advance(AcquisitionEvent::AdapterFound);
    assert!(EventDispatcher::new(waiting, builder()).is_none());

    let mut failed = GraphicsContext::new(PowerPreference::LowPower, None);
    failed.advance(AcquisitionEvent::Begin);
    assert_eq!(
        failed.advance(AcquisitionEvent::AdapterUnavailable),
        AcquisitionAction::Abort(BootstrapError::NoCompatibleAdapter)
    );
    assert!(EventDispatcher::new(failed, builder()).is_none());

    let dispatcher = EventDispatcher::new(ready_context(), builder()).unwrap();
    assert!(dispatcher.context().is_ready());
}

#[test]
fn manager_on_resume_reports_whether_a_surface_is_needed() {
    let mut manager = SurfaceManager::new();
    assert!(manager.on_resume());
    assert_eq!(manager.state(), LifecycleState::Uninitialized);
    let outcome = manager.on_surface_created(
        SurfaceId(4),
        Size::new(1024, 768),
        &capabilities(),
        &builder(),
    );
    assert_eq!(outcome, Ok(Some(resources(4, 1024, 768))));
    assert!(!manager.on_resume());
    manager.on_suspend();
    assert_eq!(manager.state(), LifecycleState::Suspended);
    assert!(!manager.on_resume());
    assert_eq!(manager.state(), LifecycleState::Configured);
}

#[test]
fn manager_on_surface_created_covers_all_outcomes() {
    let mut manager = SurfaceManager::new();
    let empty = SurfaceCapabilities { formats: vec![], present_modes: vec![] };
    assert_eq!(
        manager.on_surface_created(SurfaceId(1), Size::new(5, 5), &empty, &builder()),
        Err(BootstrapError::SurfaceUnsupported)
    );
    assert_eq!(manager.state(), LifecycleState::Uninitialized);
    assert_eq!(
        manager.on_surface_created(SurfaceId(1), Size::new(5, 0), &capabilities(), &builder()),
        Ok(Some(resources(1, 5, 1)))
    );
    assert_eq!(
        manager.on_surface_created(SurfaceId(2), Size::new(9, 9), &capabilities(), &builder()),
        Ok(None)
    );
    assert_eq!(
        manager.on_surface_created(SurfaceId(2), Size::new(9, 9), &empty, &builder()),
        Ok(None)
    );
    assert_eq!(manager.surface(), Some(SurfaceId(1)));
}

#[test]
fn manager_on_resize_returns_the_new_resources_only_when_configured() {
    let mut manager = SurfaceManager::new();
    assert_eq!(manager.on_resize(Size::new(50, 50)), None);
    manager
        .on_surface_created(SurfaceId(6), Size::new(20, 20), &capabilities(), &builder())
        .unwrap();
    assert_eq!(manager.on_resize(Size::new(50, 0)), Some(resources(6, 50, 1)));
    assert_eq!(manager.configuration(), Some(resources(6, 50, 1).configuration));
    manager.on_suspend();
    assert_eq!(manager.on_resize(Size::new(70, 70)), None);
    assert_eq!(manager.configuration(), Some(resources(6, 50, 1).configuration));
}

#[test]
fn manager_on_close_requested_releases_nothing() {
    let mut manager = SurfaceManager::new();
    manager.on_close_requested();
    assert_eq!(manager.state(), LifecycleState::Uninitialized);
    manager
        .on_surface_created(SurfaceId(6), Size::new(20, 20), &capabilities(), &builder())
        .unwrap();
    manager.on_close_requested();
    assert_eq!(manager.state(), LifecycleState::Configured);
    assert_eq!(manager.resources(), Some(resources(6, 20, 20)));
}

#[test]
fn capabilities_pick_the_first_format_and_mode() {
    let caps = SurfaceCapabilities {
        formats: vec![TextureFormat::Rgba16Float, TextureFormat::Bgra8Unorm],
        present_modes: vec![PresentMode::Immediate, PresentMode::Fifo],
    };
    assert_eq!(
        caps.configuration_for(Size::new(1920, 1080)),
        Some(SurfaceConfiguration {
            format: TextureFormat::Rgba16Float,
            present_mode: PresentMode::Immediate,
            width: 1920,
            height: 1080,
        })
    );
    let none = SurfaceCapabilities { formats: vec![], present_modes: vec![] };
    assert_eq!(none.configuration_for(Size::new(1920, 1080)), None);
}

#[test]
fn configuration_resize_keeps_format_and_mode() {
    let configuration = SurfaceConfiguration {
        format: TextureFormat::Rgba8UnormSrgb,
        present_mode: PresentMode::Mailbox,
        width: 10,
        height: 20,
    };
    assert_eq!(configuration.size(), Size::new(10, 20));
    assert_eq!(
        configuration.resize(Size::new(0, 33)),
        SurfaceConfiguration {
            format: TextureFormat::Rgba8UnormSrgb,
            present_mode: PresentMode::Mailbox,
            width: 1,
            height: 33,
        }
    );
}
