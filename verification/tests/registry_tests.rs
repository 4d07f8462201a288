use drawing_rooms::canvas::blank;
use drawing_rooms::canvas::DrawingCanvas;
use drawing_rooms::canvas::MergeError;
use drawing_rooms::registry::get_room_or_status;
use drawing_rooms::registry::RoomDetails;
use drawing_rooms::registry::RoomError;
use drawing_rooms::registry::TestService;
use drawing_rooms::registry::ValidationError;

fn canvas(width: i32, height: i32, contents: Vec<i32>) -> DrawingCanvas {
    DrawingCanvas { width, height, contents }
}

#[test]
fn create_two_rooms_gets_dense_ids() {
    let mut svc = TestService::new();
    assert_eq!(svc.create_room(None).unwrap(), 0);
    assert_eq!(svc.create_room(None).unwrap(), 1);
    let rooms = svc.query_rooms();
    assert_eq!(
        rooms,
        vec![
            RoomDetails { id: 0, width: 50, height: 50 },
            RoomDetails { id: 1, width: 50, height: 50 },
        ]
    );
}

#[test]
fn create_room_with_initial_canvas() {
    let mut svc = TestService::new();
    let id = svc.create_room(Some(canvas(2, 2, vec![1, 2, 3, 4]))).unwrap();
    assert_eq!(id, 0);
    let pulled = svc.pull_canvas(0).unwrap();
    assert_eq!(pulled.width, 2);
    assert_eq!(pulled.height, 2);
    assert_eq!(pulled.contents, vec![1, 2, 3, 4]);
}

#[test]
fn create_room_rejects_negative_width() {
    let mut svc = TestService::new();
    let err = svc.create_room(Some(canvas(-3, 2, vec![]))).unwrap_err();
    assert_eq!(err, ValidationError::NegativeWidth { width: -3 });
    assert!(svc.query_rooms().is_empty());
}

#[test]
fn create_room_rejects_negative_height() {
    let mut svc = TestService::new();
    let err = svc.create_room(Some(canvas(3, -2, vec![]))).unwrap_err();
    assert_eq!(err, ValidationError::NegativeHeight { height: -2 });
}

#[test]
fn create_room_rejects_overflowing_size() {
    let mut svc = TestService::new();
    let err = svc
        .create_room(Some(canvas(2_000_000_000, 2_000_000_000, vec![])))
        .unwrap_err();
    assert_eq!(
        err,
        ValidationError::OverflowingSize { width: 2_000_000_000, height: 2_000_000_000 }
    );
}

#[test]
fn create_room_rejects_mismatched_size() {
    let mut svc = TestService::new();
    let err = svc.create_room(Some(canvas(2, 3, vec![0, 0, 0, 0, 0]))).unwrap_err();
    assert_eq!(
        err,
        ValidationError::MismatchedSize { width: 2, height: 3, contents_len: 5 }
    );
}

#[test]
fn pull_bootstraps_an_empty_registry() {
    let mut svc = TestService::new();
    let c = svc.pull_canvas(0).unwrap();
    assert_eq!(c.width, 50);
    assert_eq!(c.height, 50);
    assert_eq!(c.contents, vec![0; 2500]);
    let rooms = svc.query_rooms();
    assert_eq!(rooms, vec![RoomDetails { id: 0, width: 50, height: 50 }]);
}

#[test]
fn pull_missing_room_fails() {
    let mut svc = TestService::new();
    svc.create_room(None).unwrap();
    let err = svc.pull_canvas(3).unwrap_err();
    assert_eq!(err, RoomError::NoSuchRoom { room: 3 });
    let err = svc.pull_canvas(-1).unwrap_err();
    assert_eq!(err, RoomError::NoSuchRoom { room: -1 });
}

#[test]
fn upload_merges_into_the_room() {
    let mut svc = TestService::new();
    svc.create_room(Some(canvas(2, 1, vec![4, 5]))).unwrap();
    svc.upload_canvas(0, canvas(2, 1, vec![7, -1])).unwrap();
    let pulled = svc.pull_canvas(0).unwrap();
    assert_eq!(pulled.contents, vec![7, 0]);
}

#[test]
fn upload_to_missing_room_mutates_nothing() {
    let mut svc = TestService::new();
    svc.create_room(Some(canvas(1, 1, vec![3]))).unwrap();
    svc.create_room(None).unwrap();
    let err = svc.upload_canvas(5, canvas(1, 1, vec![9])).unwrap_err();
    assert_eq!(err, RoomError::NoSuchRoom { room: 5 });
    assert_eq!(svc.query_rooms().len(), 2);
    assert_eq!(svc.pull_canvas(0).unwrap().contents, vec![3]);
    assert_eq!(svc.pull_canvas(1).unwrap().contents, vec![0; 2500]);
}

#[test]
fn upload_with_wrong_dimensions_fails() {
    let mut svc = TestService::new();
    svc.create_room(None).unwrap();
    let err = svc.upload_canvas(0, canvas(2, 2, vec![0, 0, 0, 0])).unwrap_err();
    assert_eq!(
        err,
        RoomError::Dimensions(MergeError::WidthMismatch { source_width: 2, target_width: 50 })
    );
    assert_eq!(svc.pull_canvas(0).unwrap().contents, vec![0; 2500]);
}

#[test]
fn health_check_answers_ok() {
    let svc = TestService::new();
    assert_eq!(svc.health_check().status, "OK");
}

#[test]
fn get_room_or_status_hands_out_the_slot() {
    let mut rooms = vec![blank(2, 1), canvas(1, 1, vec![6])];
    let room = get_room_or_status(&mut rooms, 1).unwrap();
    room.contents[0] = 9;
    assert_eq!(rooms[1].contents, vec![9]);
}

#[test]
fn get_room_or_status_reports_a_missing_slot() {
    let mut rooms = vec![blank(2, 1)];
    let err = get_room_or_status(&mut rooms, 4).unwrap_err();
    assert_eq!(err, RoomError::NoSuchRoom { room: 4 });
}
