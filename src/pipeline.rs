use vstd::prelude::*;
use crate::error::TextureError;
use crate::provider::PixelPayload;

verus! {

/// What the image source yielded when asked for its next frame.
pub enum SourceEvent {
    Frame(PixelPayload),
    Exhausted,
    Failed,
}

/// What the producer does after handling one event of the image source.
#[derive(Clone, Copy, Debug, PartialEq, Eq, Structural)]
pub enum PipelineStep {
    /// The frame is in the channel: tell the engine a new frame is ready and
    /// ask the source for the next one.
    Delivered,
    /// The pipeline is over, for the reason given.
    Stopped(TextureError),
}

/// Why the pipeline stops on `event` before anything is sent, if it does.
pub open spec fn stop_reason(event: SourceEvent) -> Option<TextureError> {
    match event {
        SourceEvent::Frame(_) => None,
        SourceEvent::Exhausted => Some(TextureError::ImageSourceExhausted),
        SourceEvent::Failed => Some(TextureError::ImageSourceError),
    }
}

/// The step that follows sending a frame: delivered, or stopped because
/// the provider's end of the channel is gone.
pub fn after_send(sent: Result<(), flume::SendError<PixelPayload>>) -> (r: PipelineStep)
    ensures
        sent is Ok ==> r == PipelineStep::Delivered,
        sent is Err ==> r == PipelineStep::Stopped(TextureError::ChannelClosed),
{
    match sent {
        Ok(()) => PipelineStep::Delivered,
        Err(_) => PipelineStep::Stopped(TextureError::ChannelClosed),
    }
}

/// Handles one event of the image source: a frame is sent into the channel,
/// blocking while the channel is full; the end or a failure of the source
/// stops the pipeline without sending anything.
pub fn produce_step(frames: &flume::Sender<PixelPayload>, event: SourceEvent) -> (r: PipelineStep)
    ensures
        stop_reason(event) is Some ==> r == PipelineStep::Stopped(stop_reason(event)->0),
        stop_reason(event) is None ==> r == PipelineStep::Delivered || r
            == PipelineStep::Stopped(TextureError::ChannelClosed),
{
    match event {
        SourceEvent::Frame(p) => after_send(frames.send(p)),
        SourceEvent::Exhausted => PipelineStep::Stopped(TextureError::ImageSourceExhausted),
        SourceEvent::Failed => PipelineStep::Stopped(TextureError::ImageSourceError),
    }
}

} // verus!
