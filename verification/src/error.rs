//! Error taxonomy of the rendering core.

use vstd::prelude::*;

verus! {

/// Everything that can go wrong in the rendering core.
///
/// Initialization errors (`AdapterNotFound`, `DeviceCreationFailed`,
/// `SwapChainCreationFailed`) are unrecoverable and propagate to the top
/// level. Per-frame errors (`CommandListFailure`, `PresentFailure`,
/// `FenceWaitFailure`) are logged and the frame is skipped.
#[derive(Clone, Copy, Debug, PartialEq, Eq, Structural)]
pub enum GfxError {
    /// Adapter enumeration exhausted all adapters without a usable one.
    AdapterNotFound,
    /// The device could not be created from the selected adapter.
    DeviceCreationFailed,
    /// A back-buffer resource or the chain itself could not be obtained.
    SwapChainCreationFailed,
    /// A command allocator/list reset or close failed.
    CommandListFailure,
    /// Presenting the frame failed.
    PresentFailure,
    /// Signaling or waiting on the fence failed.
    FenceWaitFailure,
}

impl GfxError {
    /// True exactly for the errors that abort initialization; the render
    /// loop treats every other error as skippable.
    pub fn is_fatal(&self) -> (r: bool)
        ensures
            r == self.spec_is_fatal(),
    {
        match self {
            GfxError::AdapterNotFound => true,
            GfxError::DeviceCreationFailed => true,
            GfxError::SwapChainCreationFailed => true,
            GfxError::CommandListFailure => false,
            GfxError::PresentFailure => false,
            GfxError::FenceWaitFailure => false,
        }
    }

    /// Which errors end the process rather than skip a frame.
    pub open spec fn spec_is_fatal(&self) -> bool {
        match self {
            GfxError::AdapterNotFound => true,
            GfxError::DeviceCreationFailed => true,
            GfxError::SwapChainCreationFailed => true,
            _ => false,
        }
    }

    /// A short diagnostic text for the logging collaborator.
    pub fn describe(&self) -> &'static str {
        match self {
            GfxError::AdapterNotFound => "no compliant graphics adapter was found",
            GfxError::DeviceCreationFailed => "failed to create the graphics device",
            GfxError::SwapChainCreationFailed => "failed to create the swap chain",
            GfxError::CommandListFailure => "failed to reset or close the command list",
            GfxError::PresentFailure => "failed to present the frame",
            GfxError::FenceWaitFailure => "failed to signal or wait on the fence",
        }
    }
}

} // verus!
