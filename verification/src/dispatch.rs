//! Routing of the host's events: each event goes to the surface manager or to
//! the draw path, and the host is told what to carry out.
use crate::context::{AcquisitionStage, GraphicsContext};
use crate::error::BootstrapError;
use crate::pipeline::{PipelineBuilder, RenderBundle};
use crate::size::{Size, MIN_EXTENT};
use crate::surface::{
    LifecycleState, SurfaceCapabilities, SurfaceConfiguration, SurfaceId, SurfaceManager,
    SurfaceModel, SurfaceResources,
};
use vstd::prelude::*;

verus! {

/// One event of the host's stream.
#[derive(Debug)]
pub enum Event {
    /// The host allows presenting: at startup, and after every suspension.
    Resumed,
    /// The host no longer allows presenting.
    Suspended,
    /// The window's drawable area has a new size.
    Resized(Size),
    /// A key was pressed or released.
    KeyboardInput,
    /// The user asked to close the window.
    CloseRequested,
    /// The window's contents have to be drawn again.
    RedrawRequested,
    /// The host has created a surface for the window, whose drawable area has
    /// the given size, and has asked the adapter what it can present to it.
    SurfaceCreated { surface: SurfaceId, window_size: Size, capabilities: SurfaceCapabilities },
    /// Any other event of the host.
    Other,
}

impl Event {
    /// The event reports a new surface that the adapter can present to.
    pub open spec fn brings_usable_surface(self) -> bool {
        self matches Event::SurfaceCreated { capabilities, .. } && capabilities.is_supported()
    }
}

/// What the host has to carry out in answer to one event.
#[derive(Clone, Copy, Debug, PartialEq, Eq)]
pub enum Action {
    /// Nothing.
    Nothing,
    /// Create a surface for the window and report it as `Event::SurfaceCreated`.
    CreateSurface,
    /// Configure the new surface as stated, and build the render bundle as stated.
    Initialize(SurfaceResources),
    /// Configure the existing surface again, as stated. The bundle stays as it is.
    Reconfigure(SurfaceResources),
    /// Draw one frame with the stated bundle to the stated surface.
    Draw(SurfaceResources),
    /// Stop asking for further events.
    Exit,
    /// Stop: what the event reported cannot be worked with.
    Abort(BootstrapError),
}

impl Action {
    /// The configuration that the action has the host apply to a surface, if it has one applied.
    pub open spec fn applied_configuration(self) -> Option<SurfaceConfiguration> {
        match self {
            Action::Initialize(resources) => Some(resources.configuration),
            Action::Reconfigure(resources) => Some(resources.configuration),
            _ => None,
        }
    }
}

/// The surface manager after one event.
pub open spec fn step(model: SurfaceModel, event: Event) -> SurfaceModel {
    match event {
        Event::Resumed => model.resume(),
        Event::Suspended => model.suspend(),
        Event::Resized(new_size) => model.resize(new_size),
        Event::SurfaceCreated { surface, window_size, capabilities } => model.surface_created(
            surface,
            window_size,
            capabilities,
        ),
        Event::KeyboardInput => model,
        Event::CloseRequested => model,
        Event::RedrawRequested => model,
        Event::Other => model,
    }
}

/// What the host is told in answer to one event.
pub open spec fn reaction(model: SurfaceModel, event: Event) -> Action {
    match event {
        Event::Resumed => if model.wants_surface() {
            Action::CreateSurface
        } else {
            Action::Nothing
        },
        Event::Suspended => Action::Nothing,
        Event::Resized(new_size) => if model.reconfigures() {
            Action::Reconfigure(model.resources->0.resized(new_size))
        } else {
            Action::Nothing
        },
        Event::SurfaceCreated { surface, window_size, capabilities } => if model.adopts(
            capabilities,
        ) {
            Action::Initialize(SurfaceResources::first(surface, window_size, capabilities))
        } else if model.state == LifecycleState::Uninitialized {
            Action::Abort(BootstrapError::SurfaceUnsupported)
        } else {
            Action::Nothing
        },
        Event::KeyboardInput => Action::Nothing,
        Event::CloseRequested => Action::Exit,
        Event::RedrawRequested => match model.drawable() {
            Some(resources) => Action::Draw(resources),
            None => Action::Nothing,
        },
        Event::Other => Action::Nothing,
    }
}

/// The surface manager after a whole sequence of events, taken in order.
pub open spec fn run(model: SurfaceModel, events: Seq<Event>) -> SurfaceModel
    decreases events.len(),
{
    if events.len() == 0 {
        model
    } else {
        step(run(model, events.drop_last()), events.last())
    }
}

/// What the host is told in answer to each event of a sequence, in order.
pub open spec fn trace(model: SurfaceModel, events: Seq<Event>) -> Seq<Action> {
    Seq::new(events.len(), |i: int| reaction(run(model, events.take(i)), events[i]))
}

/// Routes the host's events once the graphics context is complete.
#[derive(Debug)]
pub struct EventDispatcher {
    context: GraphicsContext,
    pipelines: PipelineBuilder,
    surfaces: SurfaceManager,
}

impl View for EventDispatcher {
    type V = SurfaceModel;

    closed spec fn view(&self) -> SurfaceModel {
        self.surfaces@
    }
}

impl EventDispatcher {
    /// The graphics context that the dispatcher was made with.
    pub closed spec fn graphics(self) -> GraphicsContext {
        self.context
    }

    /// The pipeline builder that the dispatcher was made with.
    pub closed spec fn builder(self) -> PipelineBuilder {
        self.pipelines
    }

    /// A dispatcher for a window that has no surface yet.
    ///
    /// Events are dispatched only with a complete graphics context: the result
    /// is `None` exactly when the context is not ready.
    pub fn new(context: GraphicsContext, pipelines: PipelineBuilder) -> (dispatcher: Option<
        EventDispatcher,
    >)
        ensures
            dispatcher is Some <==> context.stage() == AcquisitionStage::Ready,
            dispatcher matches Some(created) ==> created@ == SurfaceModel::initial()
                && created.graphics() == context && created.builder() == pipelines,
    {
        if context.is_ready() {
            Some(EventDispatcher { context, pipelines, surfaces: SurfaceManager::new() })
        } else {
            None
        }
    }

    /// The graphics context, which no event changes.
    pub fn context(&self) -> (context: &GraphicsContext)
        ensures
            *context == self.graphics(),
    {
        &self.context
    }

    /// The pipeline builder, which no event changes.
    pub fn pipelines(&self) -> (pipelines: &PipelineBuilder)
        ensures
            *pipelines == self.builder(),
    {
        &self.pipelines
    }

    /// The surface manager that the events are routed to.
    pub fn surfaces(&self) -> (surfaces: &SurfaceManager)
        ensures
            surfaces@ == self@,
    {
        &self.surfaces
    }

    /// Handles one event and says what the host has to carry out.
    ///
    /// - `Resumed`: `CreateSurface` while no surface exists; otherwise nothing,
    ///   and a suspended surface is usable again.
    /// - `SurfaceCreated`: `Initialize` with the configuration and bundle
    ///   decided for the new surface; `Abort(SurfaceUnsupported)` while no
    ///   surface exists and the adapter cannot present to the new one;
    ///   nothing while a surface is already held.
    /// - `Suspended`: nothing; a configured surface is kept but not drawn to.
    /// - `Resized`: `Reconfigure` while the surface is configured, with each
    ///   extent of the new size raised to one; otherwise nothing.
    /// - `RedrawRequested`: `Draw` while the surface is configured; otherwise
    ///   nothing, which is no error.
    /// - `CloseRequested`: `Exit`.
    /// - `KeyboardInput` and `Other`: nothing.
    pub fn dispatch(&mut self, event: Event) -> (action: Action)
        ensures
            final(self)@ == step(old(self)@, event),
            final(self).graphics() == old(self).graphics(),
            final(self).builder() == old(self).builder(),
            action == reaction(old(self)@, event),
    {
        match event {
            Event::Resumed => {
                if self.surfaces.on_resume() {
                    Action::CreateSurface
                } else {
                    Action::Nothing
                }
            },
            Event::Suspended => {
                self.surfaces.on_suspend();
                Action::Nothing
            },
            Event::Resized(new_size) => {
                match self.surfaces.on_resize(new_size) {
                    Some(resources) => Action::Reconfigure(resources),
                    None => Action::Nothing,
                }
            },
            Event::SurfaceCreated { surface, window_size, capabilities } => {
                match self.surfaces.on_surface_created(
                    surface,
                    window_size,
                    &capabilities,
                    &self.pipelines,
                ) {
                    Ok(Some(resources)) => Action::Initialize(resources),
                    Ok(None) => Action::Nothing,
                    Err(error) => Action::Abort(error),
                }
            },
            Event::KeyboardInput => Action::Nothing,
            Event::CloseRequested => {
                self.surfaces.on_close_requested();
                Action::Exit
            },
            Event::RedrawRequested => {
                match self.surfaces.drawable() {
                    Some(resources) => Action::Draw(resources),
                    None => Action::Nothing,
                }
            },
            Event::Other => Action::Nothing,
        }
    }
}

/// Events taken in two runs, one after the other, lead where one run over all
/// of them leads.
pub proof fn lemma_run_concat(model: SurfaceModel, first: Seq<Event>, second: Seq<Event>)
    ensures
        run(model, first + second) == run(run(model, first), second),
    decreases second.len(),
{
    if second.len() == 0 {
        assert(first + second =~= first);
    } else {
        lemma_run_concat(model, first, second.drop_last());
        assert((first + second).drop_last() =~= first + second.drop_last());
        assert((first + second).last() == second.last());
    }
}

/// A run over the events up to and including one of them is a run over those
/// before it, and then that event.
pub proof fn lemma_run_through(model: SurfaceModel, events: Seq<Event>, i: int)
    requires
        0 <= i < events.len(),
    ensures
        run(model, events.take(i + 1)) == step(run(model, events.take(i)), events[i]),
{
    assert(events.take(i + 1).drop_last() =~= events.take(i));
    assert(events.take(i + 1).last() == events[i]);
}

/// Whatever arrives, a well-formed manager stays well formed: resources exist
/// exactly from the first configuration on, the configuration held has no
/// extent of zero, and the bundle held is the one built for the configured
/// color format.
pub proof fn lemma_run_preserves_wf(model: SurfaceModel, events: Seq<Event>)
    requires
        model.wf(),
    ensures
        run(model, events).wf(),
    decreases events.len(),
{
    if events.len() > 0 {
        lemma_run_preserves_wf(model, events.drop_last());
    }
}

/// Resuming is idempotent. While the surface is configured, any number of
/// `Resumed` events in a row leaves the manager exactly as it was, with the
/// same surface, the same configuration and the same bundle, and asks nothing
/// of the host.
pub proof fn lemma_resumed_while_configured_changes_nothing(model: SurfaceModel, events: Seq<Event>)
    requires
        model.state == LifecycleState::Configured,
        forall|i: int| 0 <= i < events.len() ==> events[i] is Resumed,
    ensures
        run(model, events) == model,
        forall|i: int| 0 <= i < events.len() ==> trace(model, events)[i] == Action::Nothing,
    decreases events.len(),
{
    if events.len() > 0 {
        lemma_resumed_while_configured_changes_nothing(model, events.drop_last());
    }
    assert forall|i: int| 0 <= i < events.len() implies trace(model, events)[i]
        == Action::Nothing by {
        lemma_resumed_while_configured_changes_nothing(model, events.take(i));
    }
}

/// A resize that reaches the surface reconfigures it at the new size with
/// each extent of zero replaced by one. Surface, format, presentation mode
/// and bundle stay as they were.
pub proof fn lemma_resize_clamps_each_extent(model: SurfaceModel, new_size: Size)
    requires
        model.reconfigures(),
    ensures
        reaction(model, Event::Resized(new_size)) matches Action::Reconfigure(resources) && {
            &&& step(model, Event::Resized(new_size)).resources == Some(resources)
            &&& step(model, Event::Resized(new_size)).state == LifecycleState::Configured
            &&& resources.configuration.width == (if new_size.width == 0 {
                1
            } else {
                new_size.width
            })
            &&& resources.configuration.height == (if new_size.height == 0 {
                1
            } else {
                new_size.height
            })
            &&& resources.configuration.format == model.resources->0.configuration.format
            &&& resources.configuration.present_mode
                == model.resources->0.configuration.present_mode
            &&& resources.surface == model.resources->0.surface
            &&& resources.bundle == model.resources->0.bundle
        },
{
}

/// No surface is ever configured with an extent of zero: in any run, from any
/// state, every configuration that the host is told to apply has a width and
/// a height of at least one.
pub proof fn lemma_no_zero_extent_is_configured(model: SurfaceModel, events: Seq<Event>, i: int)
    requires
        0 <= i < events.len(),
    ensures
        trace(model, events)[i].applied_configuration() matches Some(configuration) ==> {
            &&& configuration.width >= MIN_EXTENT
            &&& configuration.height >= MIN_EXTENT
            &&& run(model, events.take(i + 1)).resources matches Some(held)
            &&& held.configuration == configuration
        },
{
    lemma_run_through(model, events, i);
}

/// A suspension keeps the surface. From the configured state, `Suspended`
/// leaves surface, configuration and bundle where they are, and a `Resumed`
/// right after it restores the manager exactly; the host is asked for nothing
/// by either event: no new surface, no new configuration, no new bundle.
pub proof fn lemma_suspend_then_resume_restores(model: SurfaceModel)
    requires
        model.state == LifecycleState::Configured,
    ensures
        step(model, Event::Suspended).state == LifecycleState::Suspended,
        step(model, Event::Suspended).resources == model.resources,
        reaction(model, Event::Suspended) == Action::Nothing,
        step(step(model, Event::Suspended), Event::Resumed) == model,
        reaction(step(model, Event::Suspended), Event::Resumed) == Action::Nothing,
        model.wf() ==> (step(step(model, Event::Suspended), Event::Resumed).resources matches Some(
            held,
        ) && held.configuration.is_presentable()),
{
}

/// The bundle is never built before the surface is configured: the host is
/// told to build it only together with the first configuration of a new
/// surface, for the color format of that very configuration, and the manager
/// is then configured with exactly what the host was told.
pub proof fn lemma_bundle_is_built_with_the_first_configuration(model: SurfaceModel, event: Event)
    ensures
        reaction(model, event) matches Action::Initialize(resources) ==> {
            &&& event is SurfaceCreated
            &&& model.state == LifecycleState::Uninitialized
            &&& resources.configuration.is_presentable()
            &&& resources.bundle == RenderBundle::targeting(resources.configuration.format)
            &&& step(model, event).state == LifecycleState::Configured
            &&& step(model, event).resources == Some(resources)
        },
        !(reaction(model, event) is Initialize) ==> (step(model, event).resources matches Some(
            held,
        ) ==> model.resources matches Some(before) && held.bundle == before.bundle),
{
}

/// Nothing is drawn during a suspension.
pub proof fn lemma_nothing_is_drawn_while_suspended(model: SurfaceModel)
    requires
        model.state == LifecycleState::Suspended,
    ensures
        reaction(model, Event::RedrawRequested) == Action::Nothing,
        step(model, Event::RedrawRequested) == model,
{
}

/// A frame is drawn only with what was configured: whenever the host is told
/// to draw, the surface is configured, and it is told to draw to the surface
/// held, with the bundle held.
pub proof fn lemma_draw_uses_what_is_held(model: SurfaceModel, event: Event)
    ensures
        reaction(model, event) matches Action::Draw(resources) ==> {
            &&& event is RedrawRequested
            &&& model.state == LifecycleState::Configured
            &&& model.resources == Some(resources)
            &&& model.wf() ==> resources.bundle.target_format == resources.configuration.format
        },
{
}

/// Before the first configuration nothing is drawn. As long as no surface has
/// been reported that the adapter can present to, the manager stays as it
/// began, and no event, `RedrawRequested` included, has the host draw,
/// configure or build anything.
pub proof fn lemma_nothing_is_drawn_before_configuration(events: Seq<Event>)
    requires
        forall|j: int| 0 <= j < events.len() ==> !events[j].brings_usable_surface(),
    ensures
        run(SurfaceModel::initial(), events) == SurfaceModel::initial(),
        forall|i: int|
            0 <= i < events.len() ==> {
                let action = #[trigger] trace(SurfaceModel::initial(), events)[i];
                !(action is Draw) && !(action is Initialize) && !(action is Reconfigure)
            },
        forall|i: int|
            0 <= i < events.len() && events[i] is RedrawRequested ==> #[trigger] trace(
                SurfaceModel::initial(),
                events,
            )[i] == Action::Nothing,
    decreases events.len(),
{
    if events.len() > 0 {
        lemma_nothing_is_drawn_before_configuration(events.drop_last());
    }
    assert forall|i: int| 0 <= i < events.len() implies {
        let action = #[trigger] trace(SurfaceModel::initial(), events)[i];
        !(action is Draw) && !(action is Initialize) && !(action is Reconfigure) && (events[i] is RedrawRequested
            ==> action == Action::Nothing)
    } by {
        lemma_nothing_is_drawn_before_configuration(events.take(i));
    }
}

/// Once a surface is held it is held for good: whatever arrives afterwards,
/// the manager holds the same surface and the same bundle, and never returns
/// to the uninitialized state.
pub proof fn lemma_surface_and_bundle_are_kept(model: SurfaceModel, events: Seq<Event>)
    requires
        model.wf(),
        model.resources is Some,
    ensures
        run(model, events).state != LifecycleState::Uninitialized,
        run(model, events).resources matches Some(held) && held.surface
            == model.resources->0.surface && held.bundle == model.resources->0.bundle,
    decreases events.len(),
{
    if events.len() > 0 {
        lemma_surface_and_bundle_are_kept(model, events.drop_last());
        lemma_run_preserves_wf(model, events.drop_last());
    }
}

/// The surface is created once and the bundle is built once. After the host
/// has been told to initialize a surface, it is never again told to create
/// one or to initialize one, whatever arrives.
pub proof fn lemma_surface_is_initialized_once(
    model: SurfaceModel,
    events: Seq<Event>,
    i: int,
    j: int,
)
    requires
        model.wf(),
        0 <= i < j < events.len(),
        trace(model, events)[i] is Initialize,
    ensures
        !(trace(model, events)[j] is Initialize),
        !(trace(model, events)[j] is CreateSurface),
{
    let before = run(model, events.take(i));
    let after = run(model, events.take(i + 1));
    lemma_run_through(model, events, i);
    lemma_run_preserves_wf(model, events.take(i + 1));
    let rest = events.subrange(i + 1, j);
    lemma_run_concat(model, events.take(i + 1), rest);
    assert(events.take(i + 1) + rest =~= events.take(j));
    lemma_surface_and_bundle_are_kept(after, rest);
}

} // verus!
