use scraptor::backend::{AcquireResult, MockDuplication, ERROR_INVALID_CALL};
use scraptor::log::CallEvent;

#[test]
fn memory_frames_are_refused_on_gpu_sessions() {
    let mut session = MockDuplication::new(false, 4, 1, 2);
    assert!(!session.push_memory_frame(8, 0, None));
    assert!(session.calls().is_empty());
}

#[test]
fn gpu_frames_are_refused_on_memory_sessions() {
    let mut session = MockDuplication::new(true, 4, 1, 2);
    assert!(!session.push_gpu_frame(None));
}

#[test]
fn gpu_frames_need_a_backed_texture() {
    let mut session = MockDuplication::new(false, 4, 1, 2);
    assert!(!session.push_gpu_frame(Some(0)));
    let texture = session.add_texture(2, 2, 0).unwrap();
    assert!(session.push_gpu_frame(Some(texture)));
}

#[test]
fn acquiring_while_held_is_out_of_protocol_order() {
    let mut session = MockDuplication::new(true, 4, 1, 2);
    assert!(session.push_memory_frame(8, 0, None));
    assert!(session.push_memory_frame(8, 1, None));
    assert!(matches!(session.acquire_next_frame(0), AcquireResult::Produced(None)));
    match session.acquire_next_frame(0) {
        AcquireResult::Fail(e) => assert_eq!(e.code, ERROR_INVALID_CALL),
        other => panic!("expected a protocol failure, got {:?}", other),
    }
    // The second acquire consumed nothing and produced nothing.
    assert_eq!(session.cursor, 1);
    let expected = vec![CallEvent::Acquire(true), CallEvent::Acquire(false)];
    assert_eq!(session.calls(), &expected);
}

#[test]
fn releasing_without_a_held_frame_fails_but_leaves_the_session_idle() {
    let mut session = MockDuplication::new(true, 4, 1, 2);
    let r = session.release_frame();
    assert_eq!(r.unwrap_err().code, ERROR_INVALID_CALL);
    assert!(!session.held);
    let expected = vec![CallEvent::Release];
    assert_eq!(session.calls(), &expected);
}

#[test]
fn exhausted_script_times_out() {
    let mut session = MockDuplication::new(true, 4, 1, 2);
    assert!(matches!(session.acquire_next_frame(16), AcquireResult::Timeout));
    assert_eq!(session.cursor, 0);
}
