use scraptor::backend::MockDuplication;
use scraptor::driver::dx11::frame::Dx11FrameData;
use scraptor::driver::dxgi::frame::{DxgiFrame, DxgiFrameData, FrameFormat};
use scraptor::errors::FrameError;
use scraptor::rect::{DirtyRect, MovedPoint, MovedRect};
use scraptor::driver::dxgi::errors::FrameError as DriverFrameError;
use scraptor::{Frame, PixelFormat};

#[test]
fn moved_rect_round_trip_preserves_raw_values() {
    // Constructing a MovedRect from raw destination and source values and
    // reading the fields back yields the original values unchanged.
    let destination = DirtyRect::new(1, 22, 33, 4);
    let source_origin = MovedPoint::new(-5, 6);
    let moved = MovedRect::new(destination, source_origin);
    assert_eq!(moved.destination, destination);
    assert_eq!(moved.destination.top, 1);
    assert_eq!(moved.destination.right, 22);
    assert_eq!(moved.destination.bottom, 33);
    assert_eq!(moved.destination.left, 4);
    assert_eq!(moved.source_origin, source_origin);
    assert_eq!(moved.source_origin.x, -5);
    assert_eq!(moved.source_origin.y, 6);
}

#[test]
fn dxgi_frame_reports_bgra_format() {
    let frame = DxgiFrame::new(DxgiFrameData::Memory(vec![0, 1, 2, 3]));
    assert_eq!(frame.format(), FrameFormat::B8G8R8A8);
}

#[test]
fn dxgi_frame_data_round_trips() {
    let frame = DxgiFrame::new(DxgiFrameData::Memory(vec![9, 8, 7]));
    assert!(matches!(frame.data(), DxgiFrameData::Memory(_)));
    match frame.into_data() {
        DxgiFrameData::Memory(buf) => assert_eq!(buf, vec![9, 8, 7]),
        DxgiFrameData::DirectX(_) => panic!("expected memory data"),
    }
}

#[test]
fn memory_frame_as_bytes_returns_the_mapped_bytes() {
    let mut session = MockDuplication::new(true, 2, 1, 2);
    let frame = Frame::Memory { fmt: PixelFormat::Bgra, buf: vec![1, 2, 3, 4] };
    assert_eq!(frame.format(), PixelFormat::Bgra);
    let bytes = frame.as_bytes(&mut session).unwrap();
    assert_eq!(bytes, vec![1, 2, 3, 4]);
    // Reading a memory frame issues no backend call.
    assert!(session.calls().is_empty());
}

#[test]
fn texture_frame_as_bytes_reads_back_through_the_session() {
    let mut session = MockDuplication::new(false, 4, 1, 2);
    let texture = session.add_texture(3, 4, 0x77).unwrap();
    let frame = Frame::from(Dx11FrameData::new(1, 2, texture));
    assert_eq!(frame.format(), PixelFormat::Bgra);
    let bytes = frame.as_bytes(&mut session).unwrap();
    assert_eq!(bytes.len(), 3 * 4);
    assert!(bytes.iter().all(|b| *b == 0x77));
}

#[test]
fn texture_frame_errors_lift_into_library_errors() {
    let mut session = MockDuplication::new(false, 4, 1, 2);
    let texture = session.add_texture(3, 4, 0).unwrap();
    session.staging_fail = Some(0x8876_017c);
    let frame = Frame::from(Dx11FrameData::new(1, 2, texture));
    match frame.as_bytes(&mut session) {
        Err(FrameError::Dxgi(scraptor::driver::dxgi::errors::FrameError::Unexpected(e))) => {
            assert_eq!(e.code, 0x8876_017c)
        },
        other => panic!("expected a wrapped staging failure, got {:?}", other),
    }
}

#[test]
fn driver_errors_convert_to_library_errors() {
    let lifted = FrameError::from(DriverFrameError::WouldBlock);
    assert_eq!(lifted, FrameError::WouldBlock);

    let code = scraptor::backend::NativeError { code: 7 };
    let lifted = FrameError::from(DriverFrameError::AcquireFrame(code));
    assert_eq!(lifted, FrameError::Dxgi(DriverFrameError::AcquireFrame(code)));
    let lifted = FrameError::from(DriverFrameError::ReleaseFrame(code));
    assert_eq!(lifted, FrameError::Dxgi(DriverFrameError::ReleaseFrame(code)));
    let lifted = FrameError::from(DriverFrameError::Unexpected(code));
    assert_eq!(lifted, FrameError::Dxgi(DriverFrameError::Unexpected(code)));
    let lifted = FrameError::from(DriverFrameError::InvariantViolation);
    assert_eq!(lifted, FrameError::Dxgi(DriverFrameError::InvariantViolation));
}

#[test]
fn display_handle_exposes_its_ordinal() {
    let handle = scraptor::driver::DisplayHandle(3);
    assert_eq!(handle.index(), 3);
}
