use vstd::prelude::*;

verus! {

/// What went wrong in one capture run. Every failure is fatal to that run.
#[derive(Clone, Copy, Debug, PartialEq, Eq, Structural)]
pub enum CaptureError {
    /// No hardware GPU device could be created, or its interop form could not
    /// be bound to it.
    DeviceCreation,
    /// The capture-interop factory is unavailable, or the display or window
    /// handle could not be turned into a capturable item.
    InteropActivation,
    /// The frame pool could not be created, e.g. for an unsupported pixel format.
    FramePoolCreation,
    /// The capture session could not be created, hooked up or started.
    CaptureSession,
    /// The frame channel closed without delivering a frame.
    CaptureTimeoutOrAbort,
    /// The staging copy of the texture could not be created.
    TextureCopy,
    /// The staging texture could not be mapped, or its bytes not read out.
    TextureMap,
    /// The image sink failed to take the pixels or to flush them.
    Encode,
}

} // verus!
