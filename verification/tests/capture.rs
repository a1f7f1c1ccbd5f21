use scraptor::backend::MockDuplication;
use scraptor::driver::dxgi::capture::DxgiDisplayCapturer;
use scraptor::driver::dxgi::errors::FrameError;
use scraptor::driver::dxgi::frame::DxgiFrameData;
use scraptor::log::CallEvent;
use scraptor::topology::{DisplayScript, MockAdapter, MockFactory, OutputDesc, OutputSlot};

fn memory_session_with_frames(frames: usize) -> MockDuplication {
    let mut session = MockDuplication::new(true, 4, 1, 2);
    for i in 0..frames {
        assert!(session.push_memory_frame(8, i as u8, None));
    }
    session
}

#[test]
fn test_get_frame() {
    let mut capturer = DxgiDisplayCapturer::new(memory_session_with_frames(10));

    for _ in 0..10 {
        let frame = capturer.get_frame(16).unwrap();

        let frame_buf = frame.as_bytes(&mut capturer.session).unwrap();
        let _ = frame.dirty(&mut capturer.session);

        assert!(frame_buf.len() > 0);
    }
}

#[test]
fn get_frame_with_no_pending_frame_would_block() {
    // An exhausted script models a backend with no pending frame: the call
    // returns WouldBlock, and repeating it never transitions state
    // incorrectly.
    let mut capturer = DxgiDisplayCapturer::new(memory_session_with_frames(0));
    for _ in 0..3 {
        let r = capturer.get_frame(0);
        assert!(matches!(r, Err(FrameError::WouldBlock)));
        assert!(!capturer.has_frame);
        assert_eq!(capturer.session.cursor, 0);
    }
    // Only the acquire attempts were logged.
    let expected = vec![
        CallEvent::Acquire(false),
        CallEvent::Acquire(false),
        CallEvent::Acquire(false),
    ];
    assert_eq!(capturer.session.calls(), &expected);
}

#[test]
fn memory_frame_bytes_are_height_times_pitch() {
    let mut session = MockDuplication::new(true, 7, 1, 2);
    assert!(session.push_memory_frame(16, 0xab, None));
    let mut capturer = DxgiDisplayCapturer::new(session);
    let frame = capturer.get_frame(8).unwrap();
    let buf = frame.as_bytes(&mut capturer.session).unwrap();
    assert_eq!(buf.len(), 7 * 16);
    assert!(buf.iter().all(|b| *b == 0xab));
}

#[test]
fn acquire_failure_is_fatal_and_wrapped() {
    let mut session = memory_session_with_frames(0);
    session.push_failure(0x887a_0026);
    let mut capturer = DxgiDisplayCapturer::new(session);
    match capturer.get_frame(8) {
        Err(FrameError::AcquireFrame(e)) => assert_eq!(e.code, 0x887a_0026),
        other => panic!("expected an acquire failure, got {:?}", other),
    }
    assert!(!capturer.has_frame);
}

#[test]
fn scripted_timeout_returns_would_block() {
    let mut session = memory_session_with_frames(1);
    session.push_timeout();
    let mut capturer = DxgiDisplayCapturer::new(session);
    assert!(capturer.get_frame(8).is_ok());
    assert!(matches!(capturer.get_frame(8), Err(FrameError::WouldBlock)));
    assert!(!capturer.has_frame);
}

#[test]
fn gpu_frame_wraps_texture_without_copying() {
    let mut session = MockDuplication::new(false, 4, 7, 9);
    let texture = session.add_texture(4, 8, 0x5a).unwrap();
    assert!(session.push_gpu_frame(Some(texture)));
    let mut capturer = DxgiDisplayCapturer::new(session);
    let frame = capturer.get_frame(8).unwrap();
    match frame.into_data() {
        DxgiFrameData::DirectX(d) => {
            assert_eq!(d.device, 7);
            assert_eq!(d.context, 9);
            assert_eq!(d.texture, texture);
        },
        DxgiFrameData::Memory(_) => panic!("expected a GPU frame"),
    }
    // Acquiring copied nothing: no staging texture was created.
    assert!(capturer
        .session
        .calls()
        .iter()
        .all(|e| !matches!(e, CallEvent::CreateStaging | CallEvent::CopyResource)));
}

#[test]
fn missing_resource_despite_success_is_invariant_violation() {
    let mut session = MockDuplication::new(false, 4, 1, 2);
    assert!(session.push_gpu_frame(None));
    let mut capturer = DxgiDisplayCapturer::new(session);
    assert!(matches!(
        capturer.get_frame(8),
        Err(FrameError::InvariantViolation)
    ));
    // The frame is held nonetheless and is released by the next call.
    assert!(capturer.has_frame);
}

#[test]
fn map_failure_is_fatal_and_wrapped() {
    let mut session = MockDuplication::new(true, 4, 1, 2);
    assert!(session.push_memory_frame(8, 0, Some(0x8007_000e)));
    let mut capturer = DxgiDisplayCapturer::new(session);
    match capturer.get_frame(8) {
        Err(FrameError::Unexpected(e)) => assert_eq!(e.code, 0x8007_000e),
        other => panic!("expected a map failure, got {:?}", other),
    }
}

#[test]
fn held_frame_is_released_before_next_acquire() {
    // The call-order invariant: between any two acquires with the first
    // successful there is a release, checked on the mock call log.
    let mut capturer = DxgiDisplayCapturer::new(memory_session_with_frames(3));
    for _ in 0..3 {
        capturer.get_frame(8).unwrap();
    }
    let log = capturer.session.calls();
    let mut held = false;
    for event in log.iter() {
        match event {
            CallEvent::Acquire(produced) => {
                assert!(!held, "acquire issued while a frame was held");
                held = *produced;
            },
            CallEvent::Release => held = false,
            _ => {},
        }
    }
    let expected = vec![
        CallEvent::Acquire(true),
        CallEvent::MapDesktop,
        CallEvent::UnmapDesktop,
        CallEvent::Release,
        CallEvent::Acquire(true),
        CallEvent::MapDesktop,
        CallEvent::UnmapDesktop,
        CallEvent::Release,
        CallEvent::Acquire(true),
        CallEvent::MapDesktop,
    ];
    assert_eq!(log, &expected);
}

#[test]
fn display_frame_creates_capturer_lazily() {
    let mut session = MockDuplication::new(true, 2, 1, 2);
    assert!(session.push_memory_frame(4, 0x11, None));
    let factory = MockFactory {
        adapters: vec![MockAdapter {
            outputs: vec![OutputSlot::Good(DisplayScript {
                desc: OutputDesc {
                    name: String::from("primary"),
                    left: 0,
                    top: 0,
                    right: 640,
                    bottom: 480,
                },
                session,
            })],
        }],
    };
    let mut displays = scraptor::driver::dxgi::display::DxgiDisplays::new(factory);
    let mut display = displays.next().unwrap().unwrap();
    assert!(display.capturer.is_none());

    let frame = display.frame(8).unwrap();
    assert!(display.capturer.is_some());
    let capturer = display.capturer.as_mut().unwrap();
    let buf = frame.as_bytes(&mut capturer.session).unwrap();
    assert_eq!(buf.len(), 2 * 4);

    // A second call with nothing pending signals WouldBlock.
    assert!(matches!(
        display.frame(8),
        Err(scraptor::errors::FrameError::WouldBlock)
    ));
}
