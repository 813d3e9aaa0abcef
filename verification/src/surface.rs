//! The lifecycle of the presentable surface: when it is created, configured,
//! suspended and reconfigured, and what is built for it.
//!
//! The manager decides and records; the host owns the graphics objects and
//! carries out what the manager decided.
use crate::error::BootstrapError;
use crate::pipeline::{PipelineBuilder, RenderBundle};
use crate::size::{clamp_extent, Size, MIN_EXTENT};
use vstd::prelude::*;

verus! {

/// A presentation mode as the graphics backend names it. Its values are carried, never inspected.
#[verifier::external_type_specification]
#[verifier::external_body]
pub struct ExPresentMode(wgpu::PresentMode);

/// The host's name for one surface object: two names are equal exactly when
/// they stand for the same object.
#[derive(Clone, Copy, Debug, PartialEq, Eq, Structural)]
pub struct SurfaceId(pub u64);

/// Where the surface stands in its lifecycle.
#[derive(Clone, Copy, Debug, PartialEq, Eq, Structural)]
pub enum LifecycleState {
    /// No surface object exists.
    Uninitialized,
    /// The surface exists and is configured for the device; drawing is allowed.
    Configured,
    /// The surface is still held, but nothing may be drawn to it.
    Suspended,
}

/// How a surface presents frames: its color format, presentation mode and size.
#[derive(Clone, Copy, Debug, PartialEq, Eq)]
pub struct SurfaceConfiguration {
    pub format: wgpu::TextureFormat,
    pub present_mode: wgpu::PresentMode,
    pub width: u32,
    pub height: u32,
}

impl SurfaceConfiguration {
    /// Neither extent is zero, so a surface accepts the configuration.
    pub open spec fn is_presentable(self) -> bool {
        self.width >= MIN_EXTENT && self.height >= MIN_EXTENT
    }

    /// The same format and presentation mode at another size, each extent of
    /// which is raised to the minimum.
    pub open spec fn resized(self, size: Size) -> SurfaceConfiguration {
        SurfaceConfiguration {
            format: self.format,
            present_mode: self.present_mode,
            width: clamp_extent(size.width),
            height: clamp_extent(size.height),
        }
    }

    /// The configured size.
    pub fn size(&self) -> (size: Size)
        ensures
            size.width == self.width,
            size.height == self.height,
    {
        Size { width: self.width, height: self.height }
    }

    /// Recomputes the configuration for a new size. Format and presentation
    /// mode are kept; an extent of zero becomes one.
    pub fn resize(&self, size: Size) -> (configuration: SurfaceConfiguration)
        ensures
            configuration == self.resized(size),
            configuration.is_presentable(),
    {
        let clamped = size.clamp_to_drawable();
        SurfaceConfiguration {
            format: self.format,
            present_mode: self.present_mode,
            width: clamped.width,
            height: clamped.height,
        }
    }
}

/// What an adapter can present to a surface, in the adapter's order of preference.
/// Both lists are empty where the adapter cannot present to the surface at all.
#[derive(Debug)]
pub struct SurfaceCapabilities {
    pub formats: Vec<wgpu::TextureFormat>,
    pub present_modes: Vec<wgpu::PresentMode>,
}

impl SurfaceCapabilities {
    /// The adapter offers at least one format and one presentation mode.
    pub open spec fn is_supported(&self) -> bool {
        self.formats@.len() > 0 && self.present_modes@.len() > 0
    }

    /// The configuration for a window of the given size: the first format and
    /// the first presentation mode offered, at the window's size with each
    /// extent raised to the minimum.
    pub open spec fn configuration(&self, window_size: Size) -> SurfaceConfiguration
        recommends
            self.is_supported(),
    {
        SurfaceConfiguration {
            format: self.formats@[0],
            present_mode: self.present_modes@[0],
            width: clamp_extent(window_size.width),
            height: clamp_extent(window_size.height),
        }
    }

    /// Computes the configuration for a window of the given size, or nothing
    /// where the adapter cannot present to the surface.
    ///
    /// The choice is fixed: always the first format and the first
    /// presentation mode. A window of zero width or height is configured as if
    /// that extent were one.
    pub fn configuration_for(&self, window_size: Size) -> (configuration: Option<
        SurfaceConfiguration,
    >)
        ensures
            configuration == (if self.is_supported() {
                Some(self.configuration(window_size))
            } else {
                None
            }),
            configuration matches Some(chosen) ==> chosen.is_presentable(),
    {
        if self.formats.len() > 0 && self.present_modes.len() > 0 {
            let clamped = window_size.clamp_to_drawable();
            Some(
                SurfaceConfiguration {
                    format: self.formats[0],
                    present_mode: self.present_modes[0],
                    width: clamped.width,
                    height: clamped.height,
                },
            )
        } else {
            None
        }
    }
}

/// Everything that exists once the surface has been configured: the surface
/// itself, its current configuration and the render bundle built for it.
#[derive(Clone, Copy, Debug, PartialEq, Eq)]
pub struct SurfaceResources {
    pub surface: SurfaceId,
    pub configuration: SurfaceConfiguration,
    pub bundle: RenderBundle,
}

impl SurfaceResources {
    /// The configuration is presentable and the bundle is the one built for
    /// its color format.
    pub open spec fn wf(self) -> bool {
        self.configuration.is_presentable() && self.bundle == RenderBundle::targeting(
            self.configuration.format,
        )
    }

    /// What exists after a new surface has been configured for a window of the given size.
    pub open spec fn first(
        surface: SurfaceId,
        window_size: Size,
        capabilities: SurfaceCapabilities,
    ) -> SurfaceResources
        recommends
            capabilities.is_supported(),
    {
        SurfaceResources {
            surface,
            configuration: capabilities.configuration(window_size),
            bundle: RenderBundle::targeting(capabilities.formats@[0]),
        }
    }

    /// The same surface and bundle with the configuration recomputed for a new size.
    pub open spec fn resized(self, size: Size) -> SurfaceResources {
        SurfaceResources {
            surface: self.surface,
            configuration: self.configuration.resized(size),
            bundle: self.bundle,
        }
    }
}

/// The surface manager as a mathematical value.
pub struct SurfaceModel {
    pub state: LifecycleState,
    pub resources: Option<SurfaceResources>,
}

impl SurfaceModel {
    /// Before the first configuration: no surface, no configuration, no bundle.
    pub open spec fn initial() -> SurfaceModel {
        SurfaceModel { state: LifecycleState::Uninitialized, resources: None }
    }

    /// Resources exist exactly from the first configuration on, and are well formed.
    pub open spec fn wf(self) -> bool {
        match self.resources {
            Some(resources) => self.state != LifecycleState::Uninitialized && resources.wf(),
            None => self.state == LifecycleState::Uninitialized,
        }
    }

    /// A resume finds no surface, so the host has to create one.
    pub open spec fn wants_surface(self) -> bool {
        self.state == LifecycleState::Uninitialized
    }

    /// The manager after a resume: a suspended surface is usable again;
    /// nothing else changes.
    pub open spec fn resume(self) -> SurfaceModel {
        if self.state == LifecycleState::Suspended {
            SurfaceModel { state: LifecycleState::Configured, resources: self.resources }
        } else {
            self
        }
    }

    /// The manager after a suspend: a configured surface is kept but no
    /// longer drawn to; nothing else changes.
    pub open spec fn suspend(self) -> SurfaceModel {
        if self.state == LifecycleState::Configured {
            SurfaceModel { state: LifecycleState::Suspended, resources: self.resources }
        } else {
            self
        }
    }

    /// A newly created surface is taken over: there is none yet and the
    /// adapter can present to it.
    pub open spec fn adopts(self, capabilities: SurfaceCapabilities) -> bool {
        self.state == LifecycleState::Uninitialized && capabilities.is_supported()
    }

    /// The manager after the host has created a surface.
    pub open spec fn surface_created(
        self,
        surface: SurfaceId,
        window_size: Size,
        capabilities: SurfaceCapabilities,
    ) -> SurfaceModel {
        if self.adopts(capabilities) {
            SurfaceModel {
                state: LifecycleState::Configured,
                resources: Some(SurfaceResources::first(surface, window_size, capabilities)),
            }
        } else {
            self
        }
    }

    /// A resize reaches the surface: it is configured, and not suspended.
    pub open spec fn reconfigures(self) -> bool {
        self.state == LifecycleState::Configured && self.resources is Some
    }

    /// The manager after the window has been resized.
    pub open spec fn resize(self, new_size: Size) -> SurfaceModel {
        if self.reconfigures() {
            SurfaceModel {
                state: self.state,
                resources: Some(self.resources->0.resized(new_size)),
            }
        } else {
            self
        }
    }

    /// What may be drawn with: the resources, while the surface is configured
    /// and not suspended.
    pub open spec fn drawable(self) -> Option<SurfaceResources> {
        if self.state == LifecycleState::Configured {
            self.resources
        } else {
            None
        }
    }
}

/// Tracks the presentable surface through creation, configuration, suspension
/// and resizing.
#[derive(Debug)]
pub struct SurfaceManager {
    state: LifecycleState,
    resources: Option<SurfaceResources>,
}

impl View for SurfaceManager {
    type V = SurfaceModel;

    closed spec fn view(&self) -> SurfaceModel {
        SurfaceModel { state: self.state, resources: self.resources }
    }
}

impl SurfaceManager {
    #[verifier::type_invariant]
    pub open spec fn well_formed(self) -> bool {
        self@.wf()
    }

    /// A manager for which no surface exists yet.
    pub fn new() -> (manager: SurfaceManager)
        ensures
            manager@ == SurfaceModel::initial(),
    {
        SurfaceManager { state: LifecycleState::Uninitialized, resources: None }
    }

    /// The current lifecycle state.
    pub fn state(&self) -> (state: LifecycleState)
        ensures
            state == self@.state,
    {
        self.state
    }

    /// Everything that has been created so far, if anything.
    pub fn resources(&self) -> (resources: Option<SurfaceResources>)
        ensures
            resources == self@.resources,
            self@.wf(),
    {
        proof {
            use_type_invariant(self);
        }
        self.resources
    }

    /// The surface that is held, if any. It is held from its creation on,
    /// through every suspension.
    pub fn surface(&self) -> (surface: Option<SurfaceId>)
        ensures
            surface == (match self@.resources {
                Some(resources) => Some(resources.surface),
                None => None,
            }),
    {
        match self.resources {
            Some(resources) => Some(resources.surface),
            None => None,
        }
    }

    /// The configuration that the surface was last given, if any.
    pub fn configuration(&self) -> (configuration: Option<SurfaceConfiguration>)
        ensures
            configuration == (match self@.resources {
                Some(resources) => Some(resources.configuration),
                None => None,
            }),
            configuration matches Some(current) ==> current.is_presentable(),
    {
        proof {
            use_type_invariant(self);
        }
        match self.resources {
            Some(resources) => Some(resources.configuration),
            None => None,
        }
    }

    /// The render bundle, which exists from the first configuration on.
    pub fn render_bundle(&self) -> (bundle: Option<RenderBundle>)
        ensures
            bundle == (match self@.resources {
                Some(resources) => Some(resources.bundle),
                None => None,
            }),
    {
        match self.resources {
            Some(resources) => Some(resources.bundle),
            None => None,
        }
    }

    /// What a frame may be drawn with right now: the resources while the
    /// surface is configured, nothing before the first configuration and
    /// nothing during a suspension.
    pub fn drawable(&self) -> (resources: Option<SurfaceResources>)
        ensures
            resources == self@.drawable(),
            resources is Some <==> self@.state == LifecycleState::Configured,
            resources matches Some(held) ==> held.wf(),
    {
        proof {
            use_type_invariant(self);
        }
        match self.state {
            LifecycleState::Configured => self.resources,
            _ => None,
        }
    }

    /// Handles a resume. Returns whether the host must now create the surface
    /// and report it with `on_surface_created`.
    ///
    /// While the surface is configured this changes nothing; after a
    /// suspension it makes the surface that was kept usable again, without a
    /// new surface and without a new bundle.
    pub fn on_resume(&mut self) -> (create_surface: bool)
        ensures
            final(self)@ == old(self)@.resume(),
            create_surface == old(self)@.wants_surface(),
    {
        proof {
            use_type_invariant(&*self);
        }
        match self.state {
            LifecycleState::Uninitialized => true,
            LifecycleState::Configured => false,
            LifecycleState::Suspended => {
                *self = SurfaceManager {
                    state: LifecycleState::Configured,
                    resources: self.resources,
                };
                false
            },
        }
    }

    /// Takes over a surface that the host has just created for a window of the
    /// given size, and decides its configuration and render bundle.
    ///
    /// - While no surface is held and the adapter can present to the new one,
    ///   the result is `Ok(Some(..))` with what the host must now do: configure
    ///   the surface as stated and build the bundle as stated. The manager is
    ///   then `Configured`.
    /// - While no surface is held and the adapter offers no format or no
    ///   presentation mode, the result is `Err(SurfaceUnsupported)` and nothing changes.
    /// - While a surface is already held, the result is `Ok(None)` and nothing
    ///   changes: the surface that is held stays.
    pub fn on_surface_created(
        &mut self,
        surface: SurfaceId,
        window_size: Size,
        capabilities: &SurfaceCapabilities,
        pipelines: &PipelineBuilder,
    ) -> (result: Result<Option<SurfaceResources>, BootstrapError>)
        ensures
            final(self)@ == old(self)@.surface_created(surface, window_size, *capabilities),
            result == (if old(self)@.adopts(*capabilities) {
                Ok(Some(SurfaceResources::first(surface, window_size, *capabilities)))
            } else if old(self)@.state == LifecycleState::Uninitialized {
                Err(BootstrapError::SurfaceUnsupported)
            } else {
                Ok(None)
            }),
            result matches Ok(Some(created)) ==> created.wf(),
    {
        match self.state {
            LifecycleState::Uninitialized => match capabilities.configuration_for(window_size) {
                Some(configuration) => {
                    let bundle = pipelines.build(configuration.format);
                    let resources = SurfaceResources { surface, configuration, bundle };
                    *self = SurfaceManager {
                        state: LifecycleState::Configured,
                        resources: Some(resources),
                    };
                    Ok(Some(resources))
                },
                None => Err(BootstrapError::SurfaceUnsupported),
            },
            _ => Ok(None),
        }
    }

    /// Handles a suspend: a configured surface becomes `Suspended`. The
    /// surface, its configuration and the bundle are all kept.
    pub fn on_suspend(&mut self)
        ensures
            final(self)@ == old(self)@.suspend(),
            final(self)@.resources == old(self)@.resources,
    {
        proof {
            use_type_invariant(&*self);
        }
        match self.state {
            LifecycleState::Configured => {
                *self = SurfaceManager {
                    state: LifecycleState::Suspended,
                    resources: self.resources,
                };
            },
            _ => {},
        }
    }

    /// Handles a resize. While the surface is configured, returns what the
    /// host must now reconfigure the surface with: the same surface, format,
    /// presentation mode and bundle at the new size, where an extent of zero
    /// becomes one. In any other state nothing changes and nothing is returned.
    pub fn on_resize(&mut self, new_size: Size) -> (reconfigured: Option<SurfaceResources>)
        ensures
            final(self)@ == old(self)@.resize(new_size),
            reconfigured == (if old(self)@.reconfigures() {
                final(self)@.resources
            } else {
                None
            }),
            reconfigured matches Some(current) ==> current.wf(),
    {
        proof {
            use_type_invariant(&*self);
        }
        match self.drawable() {
            Some(resources) => {
                let resized = SurfaceResources {
                    surface: resources.surface,
                    configuration: resources.configuration.resize(new_size),
                    bundle: resources.bundle,
                };
                *self = SurfaceManager { state: LifecycleState::Configured, resources: Some(resized) };
                Some(resized)
            },
            None => None,
        }
    }

    /// Handles a close request. Shutting down is the dispatcher's business:
    /// the manager releases nothing and changes nothing.
    pub fn on_close_requested(&mut self)
        ensures
            final(self)@ == old(self)@,
    {
    }
}

} // verus!
