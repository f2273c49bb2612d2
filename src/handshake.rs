use vstd::prelude::*;
use crate::error::TextureError;
use crate::registry::TextureRegistry;

verus! {

/// What the engine made of a request for a texture, on the main thread.
pub enum EngineOutcome<H> {
    /// The engine handle did not resolve to a running engine.
    Unresolved,
    /// The engine refused to create the texture.
    Rejected,
    /// The engine created the texture with this identifier and handle.
    Created(i64, H),
}

/// The answer that the main thread sends back for `outcome`.
pub open spec fn creation_reply<H>(outcome: EngineOutcome<H>) -> Result<i64, TextureError> {
    match outcome {
        EngineOutcome::Unresolved => Err(TextureError::EngineResolutionFailed),
        EngineOutcome::Rejected => Err(TextureError::TextureCreationFailed),
        EngineOutcome::Created(id, _) => Ok(id),
    }
}

/// Ends the main-thread part of texture creation: a created texture is
/// registered before its identifier is handed back; a failure leaves the
/// registry as it was and is handed back as an error.
pub fn finish_texture_creation<H>(
    registry: &mut TextureRegistry<H>,
    outcome: EngineOutcome<H>,
) -> (r: Result<i64, TextureError>)
    ensures
        r == creation_reply(outcome),
        match outcome {
            EngineOutcome::Created(id, h) => final(registry)@ == old(registry)@.insert(id, h),
            _ => final(registry)@ == old(registry)@,
        },
{
    match outcome {
        EngineOutcome::Unresolved => Err(TextureError::EngineResolutionFailed),
        EngineOutcome::Rejected => Err(TextureError::TextureCreationFailed),
        EngineOutcome::Created(id, handle) => {
            let _ = registry.insert(id, handle);
            Ok(id)
        },
    }
}

/// The answer of a texture made by a native rendering context: its
/// identifier, or a creation failure.
pub fn native_creation_reply(created: Option<i64>) -> (r: Result<i64, TextureError>)
    ensures
        created is Some ==> r == Ok::<i64, TextureError>(created->0),
        created is None ==> r == Err::<i64, TextureError>(TextureError::TextureCreationFailed),
{
    match created {
        Some(id) => Ok(id),
        None => Err(TextureError::TextureCreationFailed),
    }
}

/// What the waiting caller returns for what it received: the main thread's
/// answer, or `ChannelClosed` when the work was dropped before it answered.
pub fn reply_result(
    received: Result<Result<i64, TextureError>, flume::RecvError>,
) -> (r: Result<i64, TextureError>)
    ensures
        received is Ok ==> r == received->Ok_0,
        received is Err ==> r == Err::<i64, TextureError>(TextureError::ChannelClosed),
{
    match received {
        Ok(reply) => reply,
        Err(_) => Err(TextureError::ChannelClosed),
    }
}

/// The caller's side of the creation handshake. When the work could not be
/// handed to the main thread the caller fails at once with
/// `DispatchUnavailable` instead of waiting for an answer that never comes;
/// otherwise it waits for the answer and returns it.
pub fn await_creation(
    dispatched: bool,
    replies: &flume::Receiver<Result<i64, TextureError>>,
) -> (r: Result<i64, TextureError>)
    ensures
        !dispatched ==> r == Err::<i64, TextureError>(TextureError::DispatchUnavailable),
{
    if !dispatched {
        return Err(TextureError::DispatchUnavailable);
    }
    reply_result(replies.recv())
}

} // verus!
