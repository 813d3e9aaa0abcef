//! The shader module and the one render pipeline that is built from it.
//!
//! Compiling the shader text is the host's work, done with its device. What
//! is decided here is whether the compiled module can be linked, and what
//! the pipeline around it looks like.
use crate::error::BootstrapError;
use vstd::prelude::*;
use vstd::string::StringExecFns;

verus! {

/// A color format as the graphics backend names it. Its values are carried, never inspected.
#[verifier::external_type_specification]
#[verifier::external_body]
pub struct ExTextureFormat(wgpu::TextureFormat);

/// The pipeline stage that an entry point serves.
#[derive(Clone, Copy, Debug, PartialEq, Eq, Structural)]
pub enum ShaderStage {
    Vertex,
    Fragment,
    Compute,
}

/// One entry point that a compiled shader module exposes.
#[derive(Debug)]
pub struct EntryPoint {
    pub stage: ShaderStage,
    pub name: String,
}

/// An entry point as a mathematical value.
pub struct EntryPointView {
    pub stage: ShaderStage,
    pub name: Seq<char>,
}

impl View for EntryPoint {
    type V = EntryPointView;

    open spec fn view(&self) -> EntryPointView {
        EntryPointView { stage: self.stage, name: self.name@ }
    }
}

/// The views of a list of entry points, in the same order.
pub open spec fn entry_point_views(points: Seq<EntryPoint>) -> Seq<EntryPointView> {
    points.map_values(|point: EntryPoint| point@)
}

/// A shader module after compilation: the entry points it exposes.
#[derive(Debug)]
pub struct ShaderModule {
    entry_points: Vec<EntryPoint>,
}

impl ShaderModule {
    /// The entry points of the module, in source order.
    pub closed spec fn entry_points(self) -> Seq<EntryPointView> {
        entry_point_views(self.entry_points@)
    }

    /// The module exposes an entry point of this name for this stage.
    pub open spec fn declares(self, stage: ShaderStage, name: Seq<char>) -> bool {
        self.entry_points().contains(EntryPointView { stage, name })
    }

    /// A module that exposes exactly the given entry points.
    pub fn from_entry_points(entry_points: Vec<EntryPoint>) -> (module: ShaderModule)
        ensures
            module.entry_points() == entry_point_views(entry_points@),
    {
        ShaderModule { entry_points }
    }

    /// The number of entry points.
    pub fn entry_point_count(&self) -> (count: usize)
        ensures
            count == self.entry_points().len(),
    {
        self.entry_points.len()
    }

    /// Whether the module exposes an entry point of this name for this stage.
    pub fn has_entry_point(&self, stage: ShaderStage, name: &str) -> (found: bool)
        ensures
            found == self.declares(stage, name@),
    {
        let wanted = String::from_str(name);
        let mut index: usize = 0;
        while index < self.entry_points.len()
            invariant
                index <= self.entry_points@.len(),
                wanted@ == name@,
                forall|k: int|
                    0 <= k < index ==> self.entry_points()[k] != (EntryPointView { stage, name: name@ }),
            decreases self.entry_points@.len() - index,
        {
            let point = &self.entry_points[index];
            if point.stage == stage && point.name == wanted {
                assert(self.entry_points()[index as int] == (EntryPointView { stage, name: name@ }));
                return true;
            }
            index += 1;
        }
        false
    }
}

/// The name under which the shader source must expose its vertex stage.
pub const VERTEX_ENTRY_POINT: &'static str = "vs_main";

/// The name under which the shader source must expose its fragment stage.
pub const FRAGMENT_ENTRY_POINT: &'static str = "fs_main";

/// What is built for one configuration of the surface: the fixed-function
/// state of the render pipeline around the two shader stages.
///
/// The pipeline draws what the vertex stage generates by itself, so it reads
/// no vertex buffer and binds no resource.
#[derive(Clone, Copy, Debug, PartialEq, Eq)]
pub struct RenderBundle {
    /// The color format of the single render target.
    pub target_format: wgpu::TextureFormat,
    /// How many vertex buffer layouts the vertex stage reads.
    pub vertex_buffers: u32,
    /// Whether a depth/stencil target is attached.
    pub depth_stencil: bool,
    /// Samples per pixel.
    pub sample_count: u32,
    /// How many bind group layouts the pipeline layout holds.
    pub bind_group_layouts: u32,
    /// How many push constant ranges the pipeline layout holds.
    pub push_constant_ranges: u32,
}

impl RenderBundle {
    /// The bundle that renders to a target of the given color format.
    pub open spec fn targeting(format: wgpu::TextureFormat) -> RenderBundle {
        RenderBundle {
            target_format: format,
            vertex_buffers: 0,
            depth_stencil: false,
            sample_count: 1,
            bind_group_layouts: 0,
            push_constant_ranges: 0,
        }
    }
}

/// Whether a list of entry points holds both stages that the pipeline links,
/// each under its fixed name.
pub open spec fn has_required_stages(points: Seq<EntryPointView>) -> bool {
    points.contains(EntryPointView { stage: ShaderStage::Vertex, name: VERTEX_ENTRY_POINT@ })
        && points.contains(
        EntryPointView { stage: ShaderStage::Fragment, name: FRAGMENT_ENTRY_POINT@ },
    )
}

/// Whether a module exposes both stages that the pipeline links.
pub open spec fn links(module: ShaderModule) -> bool {
    has_required_stages(module.entry_points())
}

/// Builds render bundles from one compiled shader module.
///
/// A builder exists only for a module that exposes both required entry
/// points, so building from it cannot fail for want of one.
#[derive(Debug)]
pub struct PipelineBuilder {
    shader: ShaderModule,
}

impl PipelineBuilder {
    #[verifier::type_invariant]
    pub closed spec fn linked(self) -> bool {
        links(self.shader)
    }

    /// The module that the builder links.
    pub closed spec fn module(self) -> ShaderModule {
        self.shader
    }

    /// Accepts a compiled module if it exposes a vertex stage and a fragment
    /// stage under the required names, and refuses it with
    /// `ShaderCompilationFailed` if either is missing.
    pub fn with_shader(shader: ShaderModule) -> (result: Result<PipelineBuilder, BootstrapError>)
        ensures
            match result {
                Ok(builder) => links(shader) && builder.module() == shader,
                Err(error) => !links(shader) && error == BootstrapError::ShaderCompilationFailed,
            },
    {
        if shader.has_entry_point(ShaderStage::Vertex, VERTEX_ENTRY_POINT)
            && shader.has_entry_point(ShaderStage::Fragment, FRAGMENT_ENTRY_POINT) {
            Ok(PipelineBuilder { shader })
        } else {
            Err(BootstrapError::ShaderCompilationFailed)
        }
    }

    /// Takes the outcome of the host's compilation: the entry points of the
    /// compiled module, or `None` where the shader text did not compile.
    ///
    /// Succeeds exactly when the text compiled and the module exposes a
    /// vertex stage and a fragment stage under the required names; the
    /// builder then links that module. Every failure is
    /// `ShaderCompilationFailed`.
    pub fn from_compilation(outcome: Option<Vec<EntryPoint>>) -> (result: Result<
        PipelineBuilder,
        BootstrapError,
    >)
        ensures
            result is Ok <==> (outcome matches Some(points) && has_required_stages(
                entry_point_views(points@),
            )),
            result matches Ok(builder) ==> builder.module().entry_points() == entry_point_views(
                outcome->0@,
            ),
            result matches Err(error) ==> error == BootstrapError::ShaderCompilationFailed,
    {
        match outcome {
            Some(points) => PipelineBuilder::with_shader(ShaderModule::from_entry_points(points)),
            None => Err(BootstrapError::ShaderCompilationFailed),
        }
    }

    /// The module that the builder links.
    pub fn shader(&self) -> (shader: &ShaderModule)
        ensures
            *shader == self.module(),
            links(*shader),
    {
        proof {
            use_type_invariant(self);
        }
        &self.shader
    }

    /// Lays down the render bundle for a target of the given color format.
    pub fn build(&self, target_format: wgpu::TextureFormat) -> (bundle: RenderBundle)
        ensures
            bundle == RenderBundle::targeting(target_format),
    {
        RenderBundle {
            target_format,
            vertex_buffers: 0,
            depth_stencil: false,
            sample_count: 1,
            bind_group_layouts: 0,
            push_constant_ranges: 0,
        }
    }
}

} // verus!
