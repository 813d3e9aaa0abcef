//! Acquisition of the graphics context: one adapter, then one device with
//! its queue, requested once at startup and never again.
//!
//! The requests are asynchronous and belong to the host. What is decided here
//! is which request comes next, with which parameters, and what a refusal means.
use crate::error::BootstrapError;
use crate::surface::SurfaceId;
use vstd::prelude::*;

verus! {

/// Which kind of adapter to favour.
#[derive(Clone, Copy, Debug, PartialEq, Eq, Structural)]
pub enum PowerPreference {
    /// Power usage is not considered.
    Unspecified,
    /// Favour the adapter that uses the least power.
    LowPower,
    /// Favour the adapter with the highest performance.
    HighPerformance,
}

impl Default for PowerPreference {
    fn default() -> (preference: PowerPreference)
        ensures
            preference == PowerPreference::Unspecified,
    {
        PowerPreference::Unspecified
    }
}

/// A tier of resource limits that a device is asked to provide.
#[derive(Clone, Copy, Debug, PartialEq, Eq, Structural)]
pub enum LimitTier {
    /// The lowest common tier, which constrained and embedded hosts provide too.
    DownlevelWebgl2,
    /// The tier of older native hardware.
    Downlevel,
    /// The tier of current hardware.
    Standard,
}

/// The feature set that asks for no optional feature.
pub const NO_FEATURES: u64 = 0;

/// What is asked of the backend when an adapter is requested.
#[derive(Clone, Copy, Debug, PartialEq, Eq, Structural)]
pub struct AdapterRequest {
    pub power_preference: PowerPreference,
    /// Whether a software fallback adapter is demanded. It never is.
    pub force_fallback_adapter: bool,
    /// A surface that the adapter must be able to present to, on hosts where
    /// one exists before the adapter is chosen.
    pub compatible_surface: Option<SurfaceId>,
}

/// What is asked of the adapter when the device is requested.
#[derive(Clone, Copy, Debug, PartialEq, Eq, Structural)]
pub struct DeviceRequest {
    /// The optional features demanded, as a bit set.
    pub required_features: u64,
    pub required_limits: LimitTier,
}

impl DeviceRequest {
    /// The request that every host can grant: no optional feature, and the
    /// lowest tier of limits.
    pub open spec fn portable() -> DeviceRequest {
        DeviceRequest { required_features: NO_FEATURES, required_limits: LimitTier::DownlevelWebgl2 }
    }
}

/// How far the acquisition has come.
#[derive(Clone, Copy, Debug, PartialEq, Eq, Structural)]
pub enum AcquisitionStage {
    /// Nothing has been requested yet.
    Idle,
    /// The adapter has been requested and the answer is outstanding.
    AwaitingAdapter,
    /// The device has been requested and the answer is outstanding.
    AwaitingDevice,
    /// Adapter, device and queue are bound.
    Ready,
    /// A request was refused. Nothing is tried again.
    Failed(BootstrapError),
}

/// What the host reports to the acquisition.
#[derive(Clone, Copy, Debug, PartialEq, Eq, Structural)]
pub enum AcquisitionEvent {
    /// Startup has reached the point where the context is needed.
    Begin,
    /// The backend returned an adapter.
    AdapterFound,
    /// The backend has no adapter that satisfies the request.
    AdapterUnavailable,
    /// The adapter returned a device and its queue.
    DeviceGranted,
    /// The adapter refused the device.
    DeviceRefused,
}

/// What the host has to do next.
#[derive(Clone, Copy, Debug, PartialEq, Eq, Structural)]
pub enum AcquisitionAction {
    /// Request an adapter with these parameters and report the outcome.
    RequestAdapter(AdapterRequest),
    /// Request the device with these parameters and report the outcome.
    RequestDevice(DeviceRequest),
    /// The context is complete.
    Finish,
    /// Stop: the context cannot be had.
    Abort(BootstrapError),
    /// The report does not belong to the current stage. Nothing is to be done.
    Ignore,
}

/// The stage that follows when the host reports `event` during `stage`.
pub open spec fn next_stage(stage: AcquisitionStage, event: AcquisitionEvent) -> AcquisitionStage {
    match (stage, event) {
        (AcquisitionStage::Idle, AcquisitionEvent::Begin) => AcquisitionStage::AwaitingAdapter,
        (AcquisitionStage::AwaitingAdapter, AcquisitionEvent::AdapterFound) => AcquisitionStage::AwaitingDevice,
        (AcquisitionStage::AwaitingAdapter, AcquisitionEvent::AdapterUnavailable) => AcquisitionStage::Failed(
            BootstrapError::NoCompatibleAdapter,
        ),
        (AcquisitionStage::AwaitingDevice, AcquisitionEvent::DeviceGranted) => AcquisitionStage::Ready,
        (AcquisitionStage::AwaitingDevice, AcquisitionEvent::DeviceRefused) => AcquisitionStage::Failed(
            BootstrapError::DeviceRequestFailed,
        ),
        _ => stage,
    }
}

/// What the host has to do when it reports `event` during `stage`, where
/// `request` is the adapter request of this context.
pub open spec fn next_action(
    stage: AcquisitionStage,
    event: AcquisitionEvent,
    request: AdapterRequest,
) -> AcquisitionAction {
    match (stage, event) {
        (AcquisitionStage::Idle, AcquisitionEvent::Begin) => AcquisitionAction::RequestAdapter(request),
        (AcquisitionStage::AwaitingAdapter, AcquisitionEvent::AdapterFound) => AcquisitionAction::RequestDevice(
            DeviceRequest::portable(),
        ),
        (AcquisitionStage::AwaitingAdapter, AcquisitionEvent::AdapterUnavailable) => AcquisitionAction::Abort(
            BootstrapError::NoCompatibleAdapter,
        ),
        (AcquisitionStage::AwaitingDevice, AcquisitionEvent::DeviceGranted) => AcquisitionAction::Finish,
        (AcquisitionStage::AwaitingDevice, AcquisitionEvent::DeviceRefused) => AcquisitionAction::Abort(
            BootstrapError::DeviceRequestFailed,
        ),
        _ => AcquisitionAction::Ignore,
    }
}

/// The stage after a whole sequence of reports, taken in order.
pub open spec fn stage_after(stage: AcquisitionStage, events: Seq<AcquisitionEvent>) -> AcquisitionStage
    decreases events.len(),
{
    if events.len() == 0 {
        stage
    } else {
        next_stage(stage_after(stage, events.drop_last()), events.last())
    }
}

/// What the host is told in answer to each report of a sequence, in order.
pub open spec fn actions_during(
    stage: AcquisitionStage,
    events: Seq<AcquisitionEvent>,
    request: AdapterRequest,
) -> Seq<AcquisitionAction> {
    Seq::new(
        events.len(),
        |i: int| next_action(stage_after(stage, events.take(i)), events[i], request),
    )
}

/// The acquisition of adapter, device and queue.
#[derive(Debug)]
pub struct GraphicsContext {
    stage: AcquisitionStage,
    request: AdapterRequest,
}

impl GraphicsContext {
    /// How far the acquisition has come.
    pub closed spec fn stage(self) -> AcquisitionStage {
        self.stage
    }

    /// The adapter request that this context issues.
    pub closed spec fn request(self) -> AdapterRequest {
        self.request
    }

    /// A context of which nothing has been requested yet.
    ///
    /// `compatible_surface` names the surface that the adapter must be able to
    /// present to, where the host has one before the adapter is chosen. No
    /// fallback adapter is ever demanded.
    pub fn new(power_preference: PowerPreference, compatible_surface: Option<SurfaceId>) -> (context:
        GraphicsContext)
        ensures
            context.stage() == AcquisitionStage::Idle,
            context.request() == (AdapterRequest {
                power_preference,
                force_fallback_adapter: false,
                compatible_surface,
            }),
    {
        GraphicsContext {
            stage: AcquisitionStage::Idle,
            request: AdapterRequest {
                power_preference,
                force_fallback_adapter: false,
                compatible_surface,
            },
        }
    }

    /// The current stage.
    pub fn current_stage(&self) -> (stage: AcquisitionStage)
        ensures
            stage == self.stage(),
    {
        self.stage
    }

    /// Whether adapter, device and queue are bound.
    pub fn is_ready(&self) -> (ready: bool)
        ensures
            ready == (self.stage() == AcquisitionStage::Ready),
    {
        match self.stage {
            AcquisitionStage::Ready => true,
            _ => false,
        }
    }

    /// The error that ended the acquisition, if one did.
    pub fn failure(&self) -> (error: Option<BootstrapError>)
        ensures
            error == (match self.stage() {
                AcquisitionStage::Failed(reason) => Some(reason),
                _ => None,
            }),
    {
        match self.stage {
            AcquisitionStage::Failed(reason) => Some(reason),
            _ => None,
        }
    }

    /// Takes one report from the host and says what to do next.
    ///
    /// In order: `Begin` asks for the adapter; a found adapter asks for the
    /// device, always with the portable request; a granted device finishes. A
    /// missing adapter aborts with `NoCompatibleAdapter`, a refused device with
    /// `DeviceRequestFailed`. A report that does not belong to the current
    /// stage is ignored, so nothing is ever requested a second time.
    pub fn advance(&mut self, event: AcquisitionEvent) -> (action: AcquisitionAction)
        ensures
            final(self).stage() == next_stage(old(self).stage(), event),
            final(self).request() == old(self).request(),
            action == next_action(old(self).stage(), event, old(self).request()),
    {
        match (self.stage, event) {
            (AcquisitionStage::Idle, AcquisitionEvent::Begin) => {
                self.stage = AcquisitionStage::AwaitingAdapter;
                AcquisitionAction::RequestAdapter(self.request)
            },
            (AcquisitionStage::AwaitingAdapter, AcquisitionEvent::AdapterFound) => {
                self.stage = AcquisitionStage::AwaitingDevice;
                AcquisitionAction::RequestDevice(
                    DeviceRequest {
                        required_features: NO_FEATURES,
                        required_limits: LimitTier::DownlevelWebgl2,
                    },
                )
            },
            (AcquisitionStage::AwaitingAdapter, AcquisitionEvent::AdapterUnavailable) => {
                self.stage = AcquisitionStage::Failed(BootstrapError::NoCompatibleAdapter);
                AcquisitionAction::Abort(BootstrapError::NoCompatibleAdapter)
            },
            (AcquisitionStage::AwaitingDevice, AcquisitionEvent::DeviceGranted) => {
                self.stage = AcquisitionStage::Ready;
                AcquisitionAction::Finish
            },
            (AcquisitionStage::AwaitingDevice, AcquisitionEvent::DeviceRefused) => {
                self.stage = AcquisitionStage::Failed(BootstrapError::DeviceRequestFailed);
                AcquisitionAction::Abort(BootstrapError::DeviceRequestFailed)
            },
            _ => AcquisitionAction::Ignore,
        }
    }
}

/// How many steps of the acquisition a stage has behind it. No report ever
/// lowers it.
pub open spec fn progress(stage: AcquisitionStage) -> nat {
    match stage {
        AcquisitionStage::Idle => 0,
        AcquisitionStage::AwaitingAdapter => 1,
        AcquisitionStage::AwaitingDevice => 2,
        AcquisitionStage::Ready => 3,
        AcquisitionStage::Failed(_) => 3,
    }
}

/// A context that is ready stays ready, and one that has failed stays failed,
/// whatever is reported to it; every such report is ignored. So the context is
/// acquired once and never acquired again, and a failure is never retried.
pub proof fn lemma_finished_is_final(
    stage: AcquisitionStage,
    events: Seq<AcquisitionEvent>,
    request: AdapterRequest,
)
    requires
        stage is Ready || stage is Failed,
    ensures
        stage_after(stage, events) == stage,
        forall|i: int|
            0 <= i < events.len() ==> actions_during(stage, events, request)[i]
                == AcquisitionAction::Ignore,
    decreases events.len(),
{
    if events.len() > 0 {
        lemma_finished_is_final(stage, events.drop_last(), request);
    }
    assert forall|i: int| 0 <= i < events.len() implies actions_during(stage, events, request)[i]
        == AcquisitionAction::Ignore by {
        lemma_finished_is_final(stage, events.take(i), request);
    }
}

/// Over any sequence of reports the acquisition only moves forward.
pub proof fn lemma_progress_is_monotonic(stage: AcquisitionStage, events: Seq<AcquisitionEvent>)
    ensures
        progress(stage) <= progress(stage_after(stage, events)),
    decreases events.len(),
{
    if events.len() > 0 {
        lemma_progress_is_monotonic(stage, events.drop_last());
    }
}

/// Whatever the host reports and in whatever order, the adapter is requested
/// at most once and the device is requested at most once: of two answers in
/// one run, at most one is a request of either kind.
pub proof fn lemma_requests_are_issued_once(
    stage: AcquisitionStage,
    events: Seq<AcquisitionEvent>,
    request: AdapterRequest,
    i: int,
    j: int,
)
    requires
        0 <= i < j < events.len(),
    ensures
        !(actions_during(stage, events, request)[i] is RequestAdapter && actions_during(
            stage,
            events,
            request,
        )[j] is RequestAdapter),
        !(actions_during(stage, events, request)[i] is RequestDevice && actions_during(
            stage,
            events,
            request,
        )[j] is RequestDevice),
{
    let before_i = stage_after(stage, events.take(i));
    let after_i = stage_after(stage, events.take(i + 1));
    let before_j = stage_after(stage, events.take(j));
    assert(events.take(i + 1).drop_last() =~= events.take(i));
    assert(events.take(i + 1).last() == events[i]);
    assert(after_i == next_stage(before_i, events[i]));
    let rest = events.subrange(i + 1, j);
    lemma_stage_after_concat(stage, events.take(i + 1), rest);
    assert(events.take(i + 1) + rest =~= events.take(j));
    lemma_progress_is_monotonic(after_i, rest);
}

/// Reports taken in two runs, one after the other, lead where one run over all of them leads.
pub proof fn lemma_stage_after_concat(
    stage: AcquisitionStage,
    first: Seq<AcquisitionEvent>,
    second: Seq<AcquisitionEvent>,
)
    ensures
        stage_after(stage, first + second) == stage_after(stage_after(stage, first), second),
    decreases second.len(),
{
    if second.len() == 0 {
        assert(first + second =~= first);
    } else {
        lemma_stage_after_concat(stage, first, second.drop_last());
        assert((first + second).drop_last() =~= first + second.drop_last());
        assert((first + second).last() == second.last());
    }
}

} // verus!
