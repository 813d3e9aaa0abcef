//! The conditions that end a bootstrap.
use vstd::prelude::*;

verus! {

/// A condition from which bootstrapping does not recover.
///
/// None of these is retried and none has a degraded mode: the caller that
/// receives one decides how to stop.
#[derive(Clone, Copy, Debug, PartialEq, Eq, Structural)]
pub enum BootstrapError {
    /// The platform refused to create the window.
    WindowCreationFailed,
    /// An embedding host has no drawable element under the expected identifier.
    DrawableElementNotFound,
    /// No graphics adapter satisfies the request.
    NoCompatibleAdapter,
    /// The adapter refused the requested device.
    DeviceRequestFailed,
    /// The adapter reports no format or no presentation mode for the surface.
    SurfaceUnsupported,
    /// The shader source does not compile, or lacks a required entry point.
    ShaderCompilationFailed,
}

impl BootstrapError {
    /// The text that `message` returns.
    pub open spec fn text(self) -> Seq<char> {
        match self {
            BootstrapError::WindowCreationFailed => "window creation failed"@,
            BootstrapError::DrawableElementNotFound => "drawable element not found"@,
            BootstrapError::NoCompatibleAdapter => "no compatible adapter"@,
            BootstrapError::DeviceRequestFailed => "device request failed"@,
            BootstrapError::SurfaceUnsupported => "surface unsupported by adapter"@,
            BootstrapError::ShaderCompilationFailed => "shader compilation failed"@,
        }
    }

    /// A short description for diagnostics.
    pub fn message(&self) -> (text: &'static str)
        ensures
            text@ == self.text(),
    {
        match self {
            BootstrapError::WindowCreationFailed => "window creation failed",
            BootstrapError::DrawableElementNotFound => "drawable element not found",
            BootstrapError::NoCompatibleAdapter => "no compatible adapter",
            BootstrapError::DeviceRequestFailed => "device request failed",
            BootstrapError::SurfaceUnsupported => "surface unsupported by adapter",
            BootstrapError::ShaderCompilationFailed => "shader compilation failed",
        }
    }
}

} // verus!
