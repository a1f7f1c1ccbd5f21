use scraptor::backend::MockDuplication;
use scraptor::driver::dx11::frame::Dx11FrameData;
use scraptor::driver::dxgi::errors::FrameError;
use scraptor::driver::dxgi::capture::DxgiDisplayCapturer;
use scraptor::driver::dxgi::frame::DxgiFrameData;
use scraptor::log::CallEvent;

fn gpu_session() -> (MockDuplication, usize) {
    let mut session = MockDuplication::new(false, 4, 1, 2);
    let texture = session.add_texture(5, 12, 0x3c).unwrap();
    assert!(session.push_gpu_frame(Some(texture)));
    (session, texture)
}

fn count(session: &MockDuplication, event: CallEvent) -> usize {
    session.calls().iter().filter(|e| **e == event).count()
}

#[test]
fn readback_returns_height_times_pitch_bytes() {
    let (mut session, texture) = gpu_session();
    let data = Dx11FrameData::new(1, 2, texture);
    let buf = data.get_bytes(&mut session).unwrap();
    assert_eq!(buf.len(), 5 * 12);
    assert!(buf.iter().all(|b| *b == 0x3c));
}

#[test]
fn each_readback_creates_one_staging_texture_and_one_copy() {
    let (mut session, texture) = gpu_session();
    let data = Dx11FrameData::new(1, 2, texture);
    assert_eq!(count(&session, CallEvent::CreateStaging), 0);
    assert_eq!(count(&session, CallEvent::CopyResource), 0);

    data.get_bytes(&mut session).unwrap();
    assert_eq!(count(&session, CallEvent::CreateStaging), 1);
    assert_eq!(count(&session, CallEvent::CopyResource), 1);

    // No caching: a second read re-copies.
    data.get_bytes(&mut session).unwrap();
    assert_eq!(count(&session, CallEvent::CreateStaging), 2);
    assert_eq!(count(&session, CallEvent::CopyResource), 2);
}

#[test]
fn acquiring_a_gpu_frame_copies_nothing_until_bytes_are_read() {
    let (session, _texture) = gpu_session();
    let mut capturer = DxgiDisplayCapturer::new(session);
    let frame = capturer.get_frame(8).unwrap();
    assert_eq!(count(&capturer.session, CallEvent::CreateStaging), 0);
    assert_eq!(count(&capturer.session, CallEvent::CopyResource), 0);

    let buf = match frame.data() {
        DxgiFrameData::DirectX(_) => frame.as_bytes(&mut capturer.session).unwrap(),
        DxgiFrameData::Memory(_) => panic!("expected a GPU frame"),
    };
    assert_eq!(buf.len(), 5 * 12);
    assert_eq!(count(&capturer.session, CallEvent::CreateStaging), 1);
    assert_eq!(count(&capturer.session, CallEvent::CopyResource), 1);
}

#[test]
fn staging_creation_failure_surfaces() {
    let (mut session, texture) = gpu_session();
    session.staging_fail = Some(0x8876_017c);
    let data = Dx11FrameData::new(1, 2, texture);
    match data.get_bytes(&mut session) {
        Err(FrameError::Unexpected(e)) => assert_eq!(e.code, 0x8876_017c),
        other => panic!("expected a staging failure, got {:?}", other),
    }
}

#[test]
fn staging_texture_missing_is_invariant_violation() {
    let (mut session, texture) = gpu_session();
    session.staging_missing = true;
    let data = Dx11FrameData::new(1, 2, texture);
    assert!(matches!(
        data.get_bytes(&mut session),
        Err(FrameError::InvariantViolation)
    ));
}

#[test]
fn staging_map_failure_surfaces() {
    let (mut session, texture) = gpu_session();
    session.staging_map_fail = Some(0x887a_0005);
    let data = Dx11FrameData::new(1, 2, texture);
    match data.get_bytes(&mut session) {
        Err(FrameError::Unexpected(e)) => assert_eq!(e.code, 0x887a_0005),
        other => panic!("expected a map failure, got {:?}", other),
    }
}

#[test]
fn unbacked_texture_handle_is_invariant_violation() {
    let (mut session, texture) = gpu_session();
    let data = Dx11FrameData::new(1, 2, texture + 100);
    assert!(matches!(
        data.get_bytes(&mut session),
        Err(FrameError::InvariantViolation)
    ));
}
