//! The decisions behind a GPU-accelerated window: which graphics context to
//! request, when the presentable surface is created, configured, suspended
//! and reconfigured, what render pipeline is built for it, and what each event
//! of the host leads to.
//!
//! Nothing here touches a window or a GPU. The host reports what happened, as
//! plain values, and is told what to carry out.
pub mod context;
pub mod dispatch;
pub mod error;
pub mod pipeline;
pub mod size;
pub mod surface;
