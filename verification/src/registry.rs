//! The multi-room registry: an append-only store of canonical canvases whose
//! ids are dense slot indices, together with the request-level operations
//! that create, list, upload into and pull from rooms.

use vstd::prelude::*;

use crate::canvas::blank;
use crate::canvas::canvas_valid;
use crate::canvas::check_invariants;
use crate::canvas::is_blank;
use crate::canvas::merged_contents;
use crate::canvas::same_canvas;
use crate::canvas::try_merge_into;
use crate::canvas::CheckInvariantsResult;
use crate::canvas::DrawingCanvas;
use crate::canvas::MergeError;

verus! {

/// Two room stores of the same length whose canvases agree slot by slot on
/// dimensions and pixels.
pub open spec fn same_rooms(a: Seq<DrawingCanvas>, b: Seq<DrawingCanvas>) -> bool {
    &&& a.len() == b.len()
    &&& forall|i: int| 0 <= i < a.len() ==> same_canvas(a[i], b[i])
}

/// Why a supplied initial canvas was rejected at room creation. Each variant
/// carries the offending values.
#[derive(Debug, PartialEq, Eq)]
pub enum ValidationError {
    NegativeWidth { width: i32 },
    NegativeHeight { height: i32 },
    OverflowingSize { width: i32, height: i32 },
    MismatchedSize { width: i32, height: i32, contents_len: usize },
}

/// Why an operation against an existing room failed: the id names no room,
/// or the uploaded canvas disagrees with the room's fixed dimensions.
#[derive(Debug, PartialEq, Eq)]
pub enum RoomError {
    NoSuchRoom { room: i32 },
    Dimensions(MergeError),
}

/// Metadata for one room, as listed to clients: its id and its fixed
/// dimensions.
#[derive(Debug, PartialEq, Eq)]
pub struct RoomDetails {
    pub id: i32,
    pub width: i32,
    pub height: i32,
}

/// A health probe's answer.
pub struct HealthCheckResponse {
    pub status: String,
}

/// The registry of rooms. Each slot holds one room's canonical canvas; a
/// room's id is its slot index, so ids are dense from zero and stable for
/// the process lifetime (the store only ever grows).
pub struct TestService {
    rooms: Vec<DrawingCanvas>,
}

impl View for TestService {
    type V = Seq<DrawingCanvas>;

    closed spec fn view(&self) -> Seq<DrawingCanvas> {
        self.rooms@
    }
}

impl TestService {
    /// Every room's canonical canvas satisfies the canvas invariants.
    pub open spec fn wf(&self) -> bool {
        forall|i: int| 0 <= i < self@.len() ==> canvas_valid(self@[i])
    }

    /// A fresh registry with no rooms.
    pub fn new() -> (r: TestService)
        ensures
            r@.len() == 0,
            r.wf(),
    {
        TestService { rooms: Vec::new() }
    }

    /// Creates a room. A supplied initial canvas must pass every invariant
    /// check; the error names the first check that failed together with the
    /// offending values, and no room is created. Without an initial canvas a
    /// blank 50 by 50 canvas is used. On success the new room's id equals
    /// the previous number of rooms.
    pub fn create_room(&mut self, initial: Option<DrawingCanvas>) -> (r: Result<
        i32,
        ValidationError,
    >)
        requires
            old(self).wf(),
            old(self)@.len() < i32::MAX,
        ensures
            final(self).wf(),
            match r {
                Ok(id) => {
                    &&& id == old(self)@.len()
                    &&& final(self)@.len() == old(self)@.len() + 1
                    &&& forall|i: int|
                        0 <= i < old(self)@.len() ==> final(self)@[i] == old(self)@[i]
                    &&& (match initial {
                        Some(c) => canvas_valid(c) && final(self)@[old(self)@.len() as int] == c,
                        None => is_blank(final(self)@[old(self)@.len() as int], 50, 50),
                    })
                },
                Err(ValidationError::NegativeWidth { width }) => {
                    &&& final(self)@ == old(self)@
                    &&& initial matches Some(c) && c.width < 1 && width == c.width
                },
                Err(ValidationError::NegativeHeight { height }) => {
                    &&& final(self)@ == old(self)@
                    &&& initial matches Some(c) && c.width >= 1 && c.height < 1 && height
                        == c.height
                },
                Err(ValidationError::OverflowingSize { width, height }) => {
                    &&& final(self)@ == old(self)@
                    &&& initial matches Some(c) && c.width >= 1 && c.height >= 1 && c.width
                        * c.height > i32::MAX && width == c.width && height == c.height
                },
                Err(ValidationError::MismatchedSize { width, height, contents_len }) => {
                    &&& final(self)@ == old(self)@
                    &&& initial matches Some(c) && c.width >= 1 && c.height >= 1 && c.width
                        * c.height <= i32::MAX && c.width * c.height != c.contents@.len() && width
                        == c.width && height == c.height && contents_len == c.contents@.len()
                },
            },
    {
        let canvas: DrawingCanvas = match initial {
            Some(canv) => {
                match check_invariants(&canv) {
                    CheckInvariantsResult::Fine => canv,
                    CheckInvariantsResult::NegativeWidth => {
                        return Err(ValidationError::NegativeWidth { width: canv.width });
                    },
                    CheckInvariantsResult::NegativeHeight => {
                        return Err(ValidationError::NegativeHeight { height: canv.height });
                    },
                    CheckInvariantsResult::OverflowingSize => {
                        return Err(
                            ValidationError::OverflowingSize {
                                width: canv.width,
                                height: canv.height,
                            },
                        );
                    },
                    CheckInvariantsResult::MismatchedSize => {
                        return Err(
                            ValidationError::MismatchedSize {
                                width: canv.width,
                                height: canv.height,
                                contents_len: canv.contents.len(),
                            },
                        );
                    },
                }
            },
            None => blank(50, 50),
        };
        self.rooms.push(canvas);
        Ok((self.rooms.len() - 1) as i32)
    }

    /// Lists every room's id and dimensions, in id order.
    pub fn query_rooms(&self) -> (r: Vec<RoomDetails>)
        requires
            self@.len() <= i32::MAX,
        ensures
            r@.len() == self@.len(),
            forall|i: int|
                0 <= i < r@.len() ==> r@[i].id == i && r@[i].width == self@[i].width
                    && r@[i].height == self@[i].height,
    {
        let mut r: Vec<RoomDetails> = Vec::new();
        let mut i: usize = 0;
        while i < self.rooms.len()
            invariant
                i <= self@.len(),
                self@.len() <= i32::MAX,
                r@.len() == i,
                forall|j: int|
                    0 <= j < i ==> r@[j].id == j && r@[j].width == self@[j].width && r@[j].height
                        == self@[j].height,
            decreases self@.len() - i,
        {
            let c = &self.rooms[i];
            r.push(RoomDetails { id: i as i32, width: c.width, height: c.height });
            i = i + 1;
        }
        r
    }

    /// Merges an uploaded canvas into the room with the given id. The room's
    /// dimensions never change; on any failure no room is mutated, and the
    /// error carries the id or the disagreeing dimension values.
    pub fn upload_canvas(&mut self, room: i32, canvas: DrawingCanvas) -> (r: Result<
        (),
        RoomError,
    >)
        requires
            old(self).wf(),
        ensures
            final(self).wf(),
            final(self)@.len() == old(self)@.len(),
            match r {
                Ok(()) => {
                    &&& 0 <= room < old(self)@.len()
                    &&& canvas.width == old(self)@[room as int].width
                    &&& canvas.height == old(self)@[room as int].height
                    &&& canvas.contents@.len() == old(self)@[room as int].contents@.len()
                    &&& final(self)@[room as int].width == old(self)@[room as int].width
                    &&& final(self)@[room as int].height == old(self)@[room as int].height
                    &&& final(self)@[room as int].contents@ == merged_contents(
                        old(self)@[room as int].contents@,
                        canvas.contents@,
                    )
                    &&& forall|i: int|
                        0 <= i < old(self)@.len() && i != room ==> final(self)@[i] == old(self)@[i]
                },
                Err(RoomError::NoSuchRoom { room: missing }) => {
                    &&& !(0 <= room < old(self)@.len())
                    &&& missing == room
                    &&& final(self)@ == old(self)@
                },
                Err(RoomError::Dimensions(e)) => {
                    &&& 0 <= room < old(self)@.len()
                    &&& same_rooms(final(self)@, old(self)@)
                    &&& (match e {
                        MergeError::WidthMismatch { source_width, target_width } => {
                            &&& canvas.width != old(self)@[room as int].width
                            &&& source_width == canvas.width
                            &&& target_width == old(self)@[room as int].width
                        },
                        MergeError::HeightMismatch { source_height, target_height } => {
                            &&& canvas.width == old(self)@[room as int].width
                            &&& canvas.height != old(self)@[room as int].height
                            &&& source_height == canvas.height
                            &&& target_height == old(self)@[room as int].height
                        },
                        MergeError::ContentsMismatch { source_len, target_width, target_height } => {
                            &&& canvas.width == old(self)@[room as int].width
                            &&& canvas.height == old(self)@[room as int].height
                            &&& canvas.contents@.len() != old(self)@[room as int].contents@.len()
                            &&& source_len == canvas.contents@.len()
                            &&& target_width == old(self)@[room as int].width
                            &&& target_height == old(self)@[room as int].height
                        },
                    })
                },
            },
    {
        if room < 0 || room as usize >= self.rooms.len() {
            return Err(RoomError::NoSuchRoom { room });
        }
        let idx: usize = room as usize;
        proof {
            let c = self@[room as int];
            assert(c.width * c.height >= 1) by (nonlinear_arith)
                requires
                    c.width >= 1,
                    c.height >= 1,
            ;
        }
        let target: &mut DrawingCanvas = &mut self.rooms[idx];
        match try_merge_into(target, &canvas) {
            Ok(()) => Ok(()),
            Err(e) => Err(RoomError::Dimensions(e)),
        }
    }

    /// Returns a value copy of a room's canonical canvas. Bootstrap rule:
    /// pulling room `0` from an empty registry first creates a blank 50 by
    /// 50 room, so the very first pull on a fresh server self-initializes
    /// instead of erroring.
    pub fn pull_canvas(&mut self, room: i32) -> (r: Result<DrawingCanvas, RoomError>)
        requires
            old(self).wf(),
        ensures
            final(self).wf(),
            match r {
                Ok(c) => {
                    if old(self)@.len() == 0 && room == 0 {
                        &&& final(self)@.len() == 1
                        &&& is_blank(final(self)@[0], 50, 50)
                        &&& same_canvas(c, final(self)@[0])
                    } else {
                        &&& 0 <= room < old(self)@.len()
                        &&& final(self)@ == old(self)@
                        &&& same_canvas(c, old(self)@[room as int])
                    }
                },
                Err(RoomError::NoSuchRoom { room: missing }) => {
                    &&& !(0 <= room < old(self)@.len())
                    &&& !(old(self)@.len() == 0 && room == 0)
                    &&& missing == room
                    &&& final(self)@ == old(self)@
                },
                Err(RoomError::Dimensions(_)) => false,
            },
    {
        if self.rooms.len() == 0 && room == 0 {
            let initial = blank(50, 50);
            let copy = initial.clone();
            self.rooms.push(initial);
            return Ok(copy);
        }
        if room < 0 || room as usize >= self.rooms.len() {
            return Err(RoomError::NoSuchRoom { room });
        }
        let idx: usize = room as usize;
        Ok(self.rooms[idx].clone())
    }

    /// Answers a health probe with the fixed status text.
    pub fn health_check(&self) -> (r: HealthCheckResponse)
        ensures
            r.status@ == "OK"@,
    {
        HealthCheckResponse { status: String::from_str("OK") }
    }
}

/// Looks a room's canonical canvas up by slot index, handing back exclusive
/// access to it, or reports that no room has that index.
pub fn get_room_or_status(rooms: &mut Vec<DrawingCanvas>, idx: usize) -> (r: Result<
    &mut DrawingCanvas,
    RoomError,
>)
    ensures
        match r {
            Ok(element) => {
                &&& idx < old(rooms)@.len()
                &&& *element == old(rooms)@[idx as int]
                &&& final(rooms)@ == old(rooms)@.update(idx as int, *final(element))
            },
            Err(e) => {
                &&& idx >= old(rooms)@.len()
                &&& e == (RoomError::NoSuchRoom { room: idx as i32 })
                &&& final(rooms)@ == old(rooms)@
            },
        },
{
    if idx < rooms.len() {
        Ok(&mut rooms[idx])
    } else {
        Err(RoomError::NoSuchRoom { room: idx as i32 })
    }
}

} // verus!
