use drawing_rooms::canvas::DrawingCanvas;
use drawing_rooms::canvas::MergeError;
use drawing_rooms::room::session_init;
use drawing_rooms::room::Room;
use drawing_rooms::room::SessionEvent;
use drawing_rooms::room::SessionOutput;

fn canvas(width: i32, height: i32, contents: Vec<i32>) -> DrawingCanvas {
    DrawingCanvas { width, height, contents }
}

#[test]
fn new_room_snapshot_is_the_initial_canvas() {
    let room = Room::new(3, canvas(2, 1, vec![4, 5]));
    assert_eq!(room.room_id(), 3);
    assert_eq!(room.version(), 0);
    let snap = room.snapshot();
    assert_eq!(snap.width, 2);
    assert_eq!(snap.height, 1);
    assert_eq!(snap.contents, vec![4, 5]);
}

#[test]
fn merge_publishes_the_new_state() {
    let mut room = Room::new(0, canvas(2, 1, vec![4, 5]));
    room.merge(&canvas(2, 1, vec![0, -1])).unwrap();
    assert_eq!(room.version(), 1);
    let (snap, v) = room.poll(0).unwrap();
    assert_eq!(v, 1);
    assert_eq!(snap.contents, vec![4, 0]);
}

#[test]
fn poll_answers_nothing_when_caught_up() {
    let mut room = Room::new(0, canvas(1, 1, vec![2]));
    assert!(room.poll(0).is_none());
    room.merge(&canvas(1, 1, vec![8])).unwrap();
    assert!(room.poll(1).is_none());
}

#[test]
fn coalescing_keeps_only_the_final_state() {
    let mut room = Room::new(0, canvas(2, 1, vec![0, 0]));
    room.merge(&canvas(2, 1, vec![1, 0])).unwrap();
    room.merge(&canvas(2, 1, vec![-1, 2])).unwrap();
    // A subscriber that slept through both merges gets one delivery,
    // holding the state after the last merge.
    let (snap, v) = room.poll(0).unwrap();
    assert_eq!(v, 2);
    assert_eq!(snap.contents, vec![0, 2]);
    assert!(room.poll(v).is_none());
}

#[test]
fn merge_failure_leaves_the_room_and_channel_alone() {
    let mut room = Room::new(0, canvas(2, 1, vec![4, 5]));
    let err = room.merge(&canvas(1, 1, vec![9])).unwrap_err();
    assert_eq!(err, MergeError::WidthMismatch { source_width: 1, target_width: 2 });
    assert_eq!(room.version(), 0);
    assert_eq!(room.snapshot().contents, vec![4, 5]);
}

#[test]
fn session_starts_with_the_canonical_frame() {
    let room = Room::new(0, canvas(2, 1, vec![7, 8]));
    let (sess, first) = session_init(&room);
    assert!(!sess.done);
    assert_eq!(sess.last_seen, 0);
    assert_eq!(first.contents, vec![7, 8]);
}

#[test]
fn writer_merge_is_seen_by_the_reader() {
    let mut room = Room::new(0, canvas(2, 1, vec![0, 0]));
    let (mut sess, _first) = session_init(&room);
    let out = sess.step(&mut room, SessionEvent::Inbound(canvas(2, 1, vec![6, 0])));
    assert!(matches!(out, SessionOutput::Continue));
    let out = sess.step(&mut room, SessionEvent::Changed);
    match out {
        SessionOutput::Deliver(snap) => assert_eq!(snap.contents, vec![6, 0]),
        _ => panic!("expected a delivery"),
    }
    // Caught up again: a further signal delivers nothing.
    let out = sess.step(&mut room, SessionEvent::Changed);
    assert!(matches!(out, SessionOutput::Continue));
}

#[test]
fn reader_coalesces_between_wakeups() {
    let mut room = Room::new(0, canvas(2, 1, vec![0, 0]));
    let (mut sess, _first) = session_init(&room);
    sess.step(&mut room, SessionEvent::Inbound(canvas(2, 1, vec![1, 0])));
    sess.step(&mut room, SessionEvent::Inbound(canvas(2, 1, vec![0, 2])));
    let out = sess.step(&mut room, SessionEvent::Changed);
    match out {
        SessionOutput::Deliver(snap) => assert_eq!(snap.contents, vec![1, 2]),
        _ => panic!("expected a delivery"),
    }
}

#[test]
fn closing_the_inbound_stream_ends_the_session() {
    let mut room = Room::new(0, canvas(1, 1, vec![0]));
    let (mut sess, _first) = session_init(&room);
    let out = sess.step(&mut room, SessionEvent::InboundClosed);
    assert!(matches!(out, SessionOutput::End));
    assert!(sess.done);
    // A finished session reacts to nothing further.
    let out = sess.step(&mut room, SessionEvent::Inbound(canvas(1, 1, vec![5])));
    assert!(matches!(out, SessionOutput::End));
    assert_eq!(room.snapshot().contents, vec![0]);
}

#[test]
fn merge_error_terminates_the_session() {
    let mut room = Room::new(0, canvas(2, 1, vec![0, 0]));
    let (mut sess, _first) = session_init(&room);
    let out = sess.step(&mut room, SessionEvent::Inbound(canvas(2, 2, vec![1, 1, 1, 1])));
    match out {
        SessionOutput::Fail(e) => {
            assert_eq!(e, MergeError::HeightMismatch { source_height: 2, target_height: 1 });
        },
        _ => panic!("expected the session to fail"),
    }
    assert!(sess.done);
    let out = sess.step(&mut room, SessionEvent::Changed);
    assert!(matches!(out, SessionOutput::End));
}
