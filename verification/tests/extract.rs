use scraptor::backend::{MockDuplication, MoveRect, Rect};
use scraptor::driver::dxgi::capture::DxgiDisplayCapturer;
use scraptor::driver::dxgi::frame::{DxgiFrame, DxgiFrameData};
use scraptor::log::CallEvent;

fn rect(i: i32) -> Rect {
    Rect { top: i, left: i + 1, right: i + 2, bottom: i + 3 }
}

fn frame_view() -> DxgiFrame {
    DxgiFrame::new(DxgiFrameData::Memory(Vec::new()))
}

fn held_capturer_with_dirty(n: i32) -> DxgiDisplayCapturer {
    let mut session = MockDuplication::new(true, 2, 1, 2);
    assert!(session.push_memory_frame(4, 0, None));
    let mut rects = Vec::new();
    for i in 0..n {
        rects.push(rect(i));
    }
    session.dirty_rects = rects;
    let mut capturer = DxgiDisplayCapturer::new(session);
    capturer.get_frame(8).unwrap();
    capturer
}

fn query_count(session: &MockDuplication, event: CallEvent) -> usize {
    session.calls().iter().filter(|e| **e == event).count()
}

#[test]
fn ten_dirty_rects_fit_the_default_buffer() {
    // Ten reported rectangles against the 16-entry default buffer: all ten
    // come back from a single query — the buffer never grew.
    let mut capturer = held_capturer_with_dirty(10);
    let dirty = frame_view().dirty(&mut capturer.session);
    assert_eq!(dirty.len(), 10);
    for (i, d) in dirty.iter().enumerate() {
        let i = i as i32;
        assert_eq!((d.top, d.left, d.right, d.bottom), (i, i + 1, i + 2, i + 3));
    }
    assert_eq!(query_count(&capturer.session, CallEvent::QueryDirty), 1);
}

#[test]
fn nine_thousand_dirty_rects_grow_once_and_truncate_at_the_cap() {
    // 9000 reported rectangles: the buffer grows once, and exactly
    // min(9000, 7000) entries come back.
    let mut capturer = held_capturer_with_dirty(9000);
    let dirty = frame_view().dirty(&mut capturer.session);
    assert_eq!(dirty.len(), 7000);
    assert_eq!(dirty[0].top, 0);
    assert_eq!(dirty[6999].top, 6999);
    assert_eq!(query_count(&capturer.session, CallEvent::QueryDirty), 2);
}

#[test]
fn dirty_query_failure_yields_empty() {
    let mut capturer = held_capturer_with_dirty(5);
    capturer.session.dirty_fail = Some(0x887a_0001);
    assert!(frame_view().dirty(&mut capturer.session).is_empty());
}

#[test]
fn dirty_query_without_held_frame_yields_empty() {
    let session = MockDuplication::new(true, 2, 1, 2);
    let mut capturer = DxgiDisplayCapturer::new(session);
    assert!(frame_view().dirty(&mut capturer.session).is_empty());
}

#[test]
fn moved_rects_round_trip_through_the_extractor() {
    let mut session = MockDuplication::new(true, 2, 1, 2);
    assert!(session.push_memory_frame(4, 0, None));
    session.move_rects = vec![
        MoveRect { destination: rect(40), source_x: 3, source_y: 4 },
        MoveRect { destination: rect(50), source_x: -7, source_y: 9 },
    ];
    let mut capturer = DxgiDisplayCapturer::new(session);
    capturer.get_frame(8).unwrap();
    let moved = frame_view().moved(&mut capturer.session);
    assert_eq!(moved.len(), 2);
    assert_eq!(moved[0].destination.top, 40);
    assert_eq!(moved[0].source_origin.x, 3);
    assert_eq!(moved[0].source_origin.y, 4);
    assert_eq!(moved[1].destination.left, 51);
    assert_eq!(moved[1].source_origin.x, -7);
    assert_eq!(query_count(&capturer.session, CallEvent::QueryMoved), 1);
}

#[test]
fn many_moved_rects_grow_once_and_truncate_at_the_cap() {
    let mut session = MockDuplication::new(true, 2, 1, 2);
    assert!(session.push_memory_frame(4, 0, None));
    let mut rects = Vec::new();
    for i in 0..8000 {
        rects.push(MoveRect { destination: rect(i), source_x: i, source_y: i });
    }
    session.move_rects = rects;
    let mut capturer = DxgiDisplayCapturer::new(session);
    capturer.get_frame(8).unwrap();
    let moved = frame_view().moved(&mut capturer.session);
    assert_eq!(moved.len(), 7000);
    assert_eq!(moved[6999].source_origin.x, 6999);
    assert_eq!(query_count(&capturer.session, CallEvent::QueryMoved), 2);
}

#[test]
fn moved_query_failure_yields_empty() {
    let mut session = MockDuplication::new(true, 2, 1, 2);
    assert!(session.push_memory_frame(4, 0, None));
    session.moved_fail = Some(0x887a_0001);
    let mut capturer = DxgiDisplayCapturer::new(session);
    capturer.get_frame(8).unwrap();
    assert!(frame_view().moved(&mut capturer.session).is_empty());
}
