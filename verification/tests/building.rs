use bevy_cli::builder::{build_completed, new_builder, request_build};
use bevy_cli::lint::metadata_error_message;
use bevy_cli::message::BuilderUpdate;

#[test]
fn newest_build_is_reported_once() {
    let mut state = new_builder();
    let (first, started) = request_build(&mut state);
    assert_eq!(started, BuilderUpdate::BuildStartet);
    let (second, _) = request_build(&mut state);
    assert_eq!((first, second), (1, 2));
    assert_eq!(build_completed(&mut state, first), None);
    assert_eq!(build_completed(&mut state, second), Some(BuilderUpdate::BuildFinished));
    assert_eq!(build_completed(&mut state, second), None);
    let (third, _) = request_build(&mut state);
    assert_eq!(build_completed(&mut state, third), Some(BuilderUpdate::BuildFinished));
}

#[test]
fn unreadable_metadata_message() {
    assert_eq!(
        metadata_error_message(&"`cargo metadata` exited with an error".to_string()),
        "could not read cargo metadata: `cargo metadata` exited with an error"
    );
}
