use vstd::prelude::*;

verus! {

/// Failures when a scene description lacks part of a transform.
#[derive(Debug, Clone, Copy, PartialEq, Eq, Structural)]
pub enum MappingError {
    MissingTransform,
    MissingPosition,
    MissingRotation,
    MissingScale,
}

/// Render pass creation failure; `code` is the raw `VkResult` reported by the driver.
#[derive(Debug, Clone, Copy, PartialEq, Eq, Structural)]
pub enum RenderPassError {
    CreateFailed(i32),
}

/// Errors of the swapchain layer.  Driver failures carry the raw `VkResult` code.
#[derive(Debug)]
pub enum SwapchainError {
    QueryCapabilities(i32),
    QueryFormats(i32),
    QueryPresentModes(i32),
    NoFormatsAvailable,
    CreateSwapchain(i32),
    GetImages(i32),
    CreateImageView(String),
    CreateDepthResource(String),
    CreateRenderPass(RenderPassError),
    CreateFramebuffer(String),
}

/// Top-level engine error.
#[derive(Debug)]
pub enum EngineError {
    Swapchain(SwapchainError),
    Legacy(String),
}

impl From<String> for EngineError {
    fn from(err: String) -> (res: Self) {
        EngineError::Legacy(err)
    }
}

impl vstd::std_specs::convert::FromSpecImpl<String> for EngineError {
    open spec fn obeys_from_spec() -> bool {
        true
    }

    open spec fn from_spec(v: String) -> EngineError {
        EngineError::Legacy(v)
    }
}

impl From<SwapchainError> for EngineError {
    fn from(err: SwapchainError) -> (res: Self) {
        EngineError::Swapchain(err)
    }
}

impl vstd::std_specs::convert::FromSpecImpl<SwapchainError> for EngineError {
    open spec fn obeys_from_spec() -> bool {
        true
    }

    open spec fn from_spec(v: SwapchainError) -> EngineError {
        EngineError::Swapchain(v)
    }
}

/// Builds a `Legacy` error carrying the given message.
pub fn legacy_error(msg: &str) -> (res: EngineError)
    ensures
        res matches EngineError::Legacy(s) && s@ == msg@,
{
    EngineError::Legacy(msg.to_owned())
}

} // verus!
