use frame_texture::channel::rendezvous_channel;
use frame_texture::error::TextureError;
use frame_texture::greeting::greet;
use frame_texture::handshake::{
    await_creation, finish_texture_creation, native_creation_reply, reply_result, EngineOutcome,
};
use frame_texture::registry::TextureRegistry;

#[test]
fn stub_engine_creation_returns_its_identifier() {
    let (tx, rx) = rendezvous_channel();
    let mut registry = TextureRegistry::new();
    let reply = finish_texture_creation(&mut registry, EngineOutcome::Created(7, "handle"));
    tx.send(reply).unwrap();
    assert_eq!(await_creation(true, &rx), Ok(7));
    assert!(registry.contains(7));
    assert_eq!(registry.len(), 1);
}

#[test]
fn unavailable_dispatcher_fails_without_waiting() {
    let (_tx, rx) = rendezvous_channel::<Result<i64, TextureError>>();
    assert_eq!(await_creation(false, &rx), Err(TextureError::DispatchUnavailable));
}

#[test]
fn dropped_work_item_closes_the_handshake() {
    let (tx, rx) = rendezvous_channel::<Result<i64, TextureError>>();
    drop(tx);
    assert_eq!(await_creation(true, &rx), Err(TextureError::ChannelClosed));
}

#[test]
fn unresolved_engine_is_reported() {
    let mut registry: TextureRegistry<u8> = TextureRegistry::new();
    assert_eq!(
        finish_texture_creation(&mut registry, EngineOutcome::Unresolved),
        Err(TextureError::EngineResolutionFailed)
    );
    assert_eq!(registry.len(), 0);
}

#[test]
fn rejected_texture_is_reported() {
    let mut registry: TextureRegistry<u8> = TextureRegistry::new();
    registry.insert(1, 1);
    assert_eq!(
        finish_texture_creation(&mut registry, EngineOutcome::Rejected),
        Err(TextureError::TextureCreationFailed)
    );
    assert_eq!(registry.len(), 1);
}

#[test]
fn reply_result_passes_answers_through() {
    assert_eq!(reply_result(Ok(Ok(12))), Ok(12));
    assert_eq!(
        reply_result(Ok(Err(TextureError::TextureCreationFailed))),
        Err(TextureError::TextureCreationFailed)
    );
    assert_eq!(reply_result(Err(flume::RecvError::Disconnected)), Err(TextureError::ChannelClosed));
}

#[test]
fn native_context_reply() {
    assert_eq!(native_creation_reply(Some(55)), Ok(55));
    assert_eq!(native_creation_reply(None), Err(TextureError::TextureCreationFailed));
}

#[test]
fn greet_names_the_caller() {
    assert_eq!(greet("Tom".to_string()), "Hello, Tom!");
    assert_eq!(greet(String::new()), "Hello, !");
}
