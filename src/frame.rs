//! Per-frame decisions: what to do once acquiring the next presentable frame
//! has succeeded or failed.
use vstd::prelude::*;
use crate::geometry::{Buffers, DrawIndexed};
use crate::surface::{SurfaceSettings, WindowSize};

verus! {

/// Bind group slot of the texture (image view and sampler).
pub const TEXTURE_GROUP: u32 = 0;

/// Bind group slot of the camera's matrix uniform.
pub const CAMERA_GROUP: u32 = 1;

/// Why the next frame could not be acquired.
#[derive(Clone, Copy, Debug, PartialEq, Eq, Structural)]
pub enum AcquireError {
    /// No frame became available in time.
    Timeout,
    /// The surface no longer matches the window and must be reconfigured.
    Outdated,
    /// The surface was lost and must be reconfigured.
    Lost,
    /// No memory is left for a new frame.
    OutOfMemory,
    /// The device is gone: every GPU resource is invalid.
    DeviceLost,
}

/// What the render loop does with this frame.
#[derive(Clone, Copy, Debug, PartialEq, Eq, Structural)]
pub enum FrameAction {
    /// Record `draw` with the texture group at `TEXTURE_GROUP` and the camera
    /// group at `CAMERA_GROUP`, submit, and present.
    Draw(DrawIndexed),
    /// Reconfigure the surface at `size` and present nothing this frame.
    Reconfigure(WindowSize),
    /// Present nothing this frame; try again next tick.
    Skip,
    /// Stop: the context must be rebuilt from scratch.
    Fatal,
}

/// The action owed for a frame whose acquisition ended with `acquired`.
pub open spec fn frame_action_spec(
    acquired: Option<AcquireError>,
    settings: SurfaceSettings,
    index_count: u32,
) -> FrameAction {
    match acquired {
        None => FrameAction::Draw(
            DrawIndexed {
                first_index: 0,
                index_end: index_count,
                base_vertex: 0,
                first_instance: 0,
                instance_end: 1,
            },
        ),
        Some(AcquireError::Outdated) | Some(AcquireError::Lost) => FrameAction::Reconfigure(
            WindowSize { width: settings.width, height: settings.height },
        ),
        Some(AcquireError::Timeout) => FrameAction::Skip,
        Some(AcquireError::OutOfMemory) | Some(AcquireError::DeviceLost) => FrameAction::Fatal,
    }
}

/// Decides the frame: draw the whole geometry once if a frame was acquired
/// (`acquired` is `None`); reconfigure at the last known size when the
/// surface is outdated or lost; skip on a timeout; stop on a lost device or
/// exhausted memory.
pub fn frame_action<B>(
    acquired: Option<AcquireError>,
    settings: &SurfaceSettings,
    buffers: &Buffers<B>,
) -> (r: FrameAction)
    ensures
        r == frame_action_spec(acquired, *settings, buffers.index_count),
{
    match acquired {
        None => FrameAction::Draw(buffers.draw_call()),
        Some(AcquireError::Outdated) | Some(AcquireError::Lost) => FrameAction::Reconfigure(
            settings.size(),
        ),
        Some(AcquireError::Timeout) => FrameAction::Skip,
        Some(AcquireError::OutOfMemory) | Some(AcquireError::DeviceLost) => FrameAction::Fatal,
    }
}

/// A frame that is drawn issues exactly the geometry's index count of
/// indexed vertices, in one instance; a surface reconfigured in its place
/// gets a non-degenerate size.
pub proof fn lemma_frame_draws_all_indices(
    acquired: Option<AcquireError>,
    settings: SurfaceSettings,
    index_count: u32,
)
    requires
        settings.wf(),
    ensures
        frame_action_spec(acquired, settings, index_count) matches FrameAction::Draw(d) ==> (
        d.index_end - d.first_index == index_count && d.instance_end - d.first_instance == 1),
        frame_action_spec(acquired, settings, index_count) matches FrameAction::Reconfigure(s) ==> (
        s.width > 0 && s.height > 0),
{
}

} // verus!
