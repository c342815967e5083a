//! The renderer's error taxonomy.
//!
//! Setup-phase errors are fatal: the caller reports them and exits.
//! `SurfaceOutOfDate` is the one expected, recoverable condition: the
//! current frame is skipped and the swapchain should be recreated.

use vstd::prelude::*;

verus! {

/// Which kind of acceleration structure a failed build belonged to.
#[derive(Clone, Copy, PartialEq, Eq, Structural, Debug)]
pub enum BuildStage {
    BottomLevel,
    TopLevel,
}

/// The shader stage a compile failure belongs to.
#[derive(Clone, Copy, PartialEq, Eq, Structural, Debug)]
pub enum ShaderStage {
    RayGeneration,
    PrimaryMiss,
    ClosestHit,
    ShadowMiss,
}

/// Everything that can go wrong in the renderer core.
#[derive(Clone, Copy, PartialEq, Eq, Structural, Debug)]
pub enum RenderError {
    /// No physical device offers the combined graphics+compute+present
    /// queue and the required ray-tracing extension set. Fatal: there is
    /// no fallback renderer.
    NoSuitableDevice,
    /// No memory type satisfies both the resource's type bitmask and the
    /// requested property class.
    NoCompatibleMemoryType,
    /// A buffer or image allocation failed; `usage` holds the raw usage
    /// bits of the resource for diagnosis.
    AllocationFailed { requested_bytes: u64, usage: u32 },
    /// An acceleration-structure size query or build command failed.
    /// Fatal: the scene cannot be rendered without it.
    AccelerationStructureBuildFailed { stage: BuildStage, index: usize },
    /// A shader stage failed to compile. Fatal: the pipeline is unusable.
    ShaderCompileError { shader: ShaderStage },
    /// The surface no longer matches the swapchain. Recoverable: skip the
    /// frame and recreate the swapchain.
    SurfaceOutOfDate,
    /// Presentation failed for a reason other than an out-of-date surface.
    PresentFailed,
}

impl RenderError {
    /// Whether the per-frame loop may continue after this error.
    pub open spec fn spec_recoverable(self) -> bool {
        self is SurfaceOutOfDate
    }

    /// Steady-state policy: only an out-of-date surface is survivable;
    /// every other error stops the render loop.
    pub fn is_recoverable(&self) -> (r: bool)
        ensures
            r == self.spec_recoverable(),
    {
        matches!(self, RenderError::SurfaceOutOfDate)
    }
}

} // verus!
