use vstd::prelude::*;

verus! {

/// Why creating a texture, or feeding it frames, did not succeed.
#[derive(Clone, Copy, Debug, PartialEq, Eq, Structural)]
pub enum TextureError {
    /// The main-thread run loop is not running, so no work can be handed to it.
    DispatchUnavailable,
    /// The engine handle could not be resolved to a running engine.
    EngineResolutionFailed,
    /// The engine refused to create the texture.
    TextureCreationFailed,
    /// The other end of a channel was dropped.
    ChannelClosed,
    /// The image source has no more frames.
    ImageSourceExhausted,
    /// The image source failed while producing a frame.
    ImageSourceError,
}

} // verus!
