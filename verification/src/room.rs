//! One room's streaming side: the canonical canvas behind its broadcast
//! channel, and the per-session writer/reader steps that a bidirectional
//! streaming connection runs. The channel is a single-slot latest-value
//! publisher with a version counter: subscribers observe only the newest
//! published snapshot, so deliveries coalesce but never lose the final
//! state.

use vstd::prelude::*;

use crate::canvas::canvas_valid;
use crate::canvas::merged_contents;
use crate::canvas::same_canvas;
use crate::canvas::try_merge_into;
use crate::canvas::DrawingCanvas;
use crate::canvas::MergeError;

verus! {

/// A single-slot publish mechanism: the most recently published canvas
/// snapshot, under a version counter that ticks once per publication. A
/// waiter compares the counter with the last version it saw, not a queue,
/// so a slow subscriber never accumulates a backlog.
pub struct BroadcastChannel {
    latest: DrawingCanvas,
    version: u64,
}

impl BroadcastChannel {
    /// The snapshot currently in the slot.
    pub closed spec fn latest_view(&self) -> DrawingCanvas {
        self.latest
    }

    /// How many publications the slot has seen.
    pub closed spec fn version_view(&self) -> u64 {
        self.version
    }

    /// A channel holding an initial snapshot, at version zero.
    pub fn new(initial: DrawingCanvas) -> (r: BroadcastChannel)
        ensures
            r.latest_view() == initial,
            r.version_view() == 0,
    {
        BroadcastChannel { latest: initial, version: 0 }
    }

    /// Overwrites the slot with a newer snapshot and ticks the version.
    pub fn publish(&mut self, snapshot: DrawingCanvas)
        requires
            old(self).version_view() < u64::MAX,
        ensures
            final(self).latest_view() == snapshot,
            final(self).version_view() == old(self).version_view() + 1,
    {
        self.latest = snapshot;
        self.version = self.version + 1;
    }

    /// Hands out the current snapshot if the slot has moved past what the
    /// caller last saw, together with the version the caller is now up to
    /// date with; answers nothing when the caller has already seen the
    /// newest publication.
    pub fn poll(&self, last_seen: u64) -> (r: Option<(DrawingCanvas, u64)>)
        ensures
            match r {
                Some((c, v)) => {
                    &&& self.version_view() > last_seen
                    &&& v == self.version_view()
                    &&& same_canvas(c, self.latest_view())
                },
                None => self.version_view() <= last_seen,
            },
    {
        if self.version > last_seen {
            Some((self.latest.clone(), self.version))
        } else {
            None
        }
    }
}

/// One room: a canonical canvas, exclusively owned, plus the broadcast
/// channel that fans its latest state out to streaming subscribers.
pub struct Room {
    id: i32,
    canvas: DrawingCanvas,
    channel: BroadcastChannel,
}

/// The relation a successful merge leaves between a room's states: the
/// dimensions are kept, the canonical contents are the overlay of the edit
/// onto the old contents, the channel has published exactly once more, and
/// what it published is the new canonical state.
pub open spec fn merge_applied(before: Room, after: Room, edit: DrawingCanvas) -> bool {
    &&& after.id_view() == before.id_view()
    &&& after.canvas_view().width == before.canvas_view().width
    &&& after.canvas_view().height == before.canvas_view().height
    &&& after.canvas_view().contents@ == merged_contents(
        before.canvas_view().contents@,
        edit.contents@,
    )
    &&& after.version_view() == before.version_view() + 1
    &&& same_canvas(after.published_view(), after.canvas_view())
}

/// A room whose observable state — id, canonical canvas, published snapshot
/// and version — is exactly what it was.
pub open spec fn room_unchanged(before: Room, after: Room) -> bool {
    &&& after.id_view() == before.id_view()
    &&& same_canvas(after.canvas_view(), before.canvas_view())
    &&& same_canvas(after.published_view(), before.published_view())
    &&& after.version_view() == before.version_view()
}

/// The exact circumstances under which a merge into a room fails with the
/// given error: which dimension of the edit disagreed with the room's
/// canonical canvas, and that the error carries both disagreeing values.
pub open spec fn merge_refused(before: Room, edit: DrawingCanvas, e: MergeError) -> bool {
    match e {
        MergeError::WidthMismatch { source_width, target_width } => {
            &&& edit.width != before.canvas_view().width
            &&& source_width == edit.width
            &&& target_width == before.canvas_view().width
        },
        MergeError::HeightMismatch { source_height, target_height } => {
            &&& edit.width == before.canvas_view().width
            &&& edit.height != before.canvas_view().height
            &&& source_height == edit.height
            &&& target_height == before.canvas_view().height
        },
        MergeError::ContentsMismatch { source_len, target_width, target_height } => {
            &&& edit.width == before.canvas_view().width
            &&& edit.height == before.canvas_view().height
            &&& edit.contents@.len() != before.canvas_view().contents@.len()
            &&& source_len == edit.contents@.len()
            &&& target_width == before.canvas_view().width
            &&& target_height == before.canvas_view().height
        },
    }
}

impl Room {
    /// The room's stable identifier.
    pub closed spec fn id_view(&self) -> i32 {
        self.id
    }

    /// Reads the room's stable identifier.
    pub fn room_id(&self) -> (r: i32)
        ensures
            r == self.id_view(),
    {
        self.id
    }

    /// The canonical canvas.
    pub closed spec fn canvas_view(&self) -> DrawingCanvas {
        self.canvas
    }

    /// The snapshot most recently published on the room's channel.
    pub closed spec fn published_view(&self) -> DrawingCanvas {
        self.channel.latest_view()
    }

    /// How many merges the room has published.
    pub closed spec fn version_view(&self) -> u64 {
        self.channel.version_view()
    }

    /// The canonical canvas is valid, and the channel's slot holds exactly
    /// the canonical state — every completed merge published its result
    /// before the next merge could start.
    pub open spec fn wf(&self) -> bool {
        &&& canvas_valid(self.canvas_view())
        &&& same_canvas(self.published_view(), self.canvas_view())
    }

    /// A room over a valid canvas, with that canvas as the channel's first
    /// published snapshot.
    pub fn new(id: i32, canvas: DrawingCanvas) -> (r: Room)
        requires
            canvas_valid(canvas),
        ensures
            r.wf(),
            r.id_view() == id,
            r.canvas_view() == canvas,
            r.version_view() == 0,
    {
        let snapshot = canvas.clone();
        Room { id, canvas, channel: BroadcastChannel::new(snapshot) }
    }

    /// The only mutation path into the canonical canvas: overlays an edit
    /// onto it and, on success, publishes the new canonical snapshot before
    /// any later merge can run. On failure nothing changes and the error
    /// names the disagreeing dimension values.
    pub fn merge(&mut self, edit: &DrawingCanvas) -> (r: Result<(), MergeError>)
        requires
            old(self).wf(),
            old(self).version_view() < u64::MAX,
        ensures
            final(self).wf(),
            match r {
                Ok(()) => {
                    &&& edit.width == old(self).canvas_view().width
                    &&& edit.height == old(self).canvas_view().height
                    &&& edit.contents@.len() == old(self).canvas_view().contents@.len()
                    &&& merge_applied(*old(self), *final(self), *edit)
                },
                Err(e) => {
                    &&& room_unchanged(*old(self), *final(self))
                    &&& merge_refused(*old(self), *edit, e)
                },
            },
    {
        proof {
            let c = self.canvas;
            assert(c.width * c.height >= 1) by (nonlinear_arith)
                requires
                    c.width >= 1,
                    c.height >= 1,
            ;
        }
        match try_merge_into(&mut self.canvas, edit) {
            Ok(()) => {
                let snapshot = self.canvas.clone();
                self.channel.publish(snapshot);
                Ok(())
            },
            Err(e) => Err(e),
        }
    }

    /// A value copy of the canonical canvas.
    pub fn snapshot(&self) -> (c: DrawingCanvas)
        ensures
            same_canvas(c, self.canvas_view()),
    {
        self.canvas.clone()
    }

    /// Hands out the latest published snapshot if the channel has moved
    /// past what the subscriber last saw, with the version it is now up to
    /// date with. A session touches the channel only through its room.
    pub fn poll(&self, last_seen: u64) -> (r: Option<(DrawingCanvas, u64)>)
        ensures
            match r {
                Some((c, v)) => {
                    &&& self.version_view() > last_seen
                    &&& v == self.version_view()
                    &&& same_canvas(c, self.published_view())
                },
                None => self.version_view() <= last_seen,
            },
    {
        self.channel.poll(last_seen)
    }

    /// Reads how many merges the room has published.
    pub fn version(&self) -> (r: u64)
        ensures
            r == self.version_view(),
    {
        self.channel.version
    }
}

/// What arrived at a streaming session: an edit from the client, the end of
/// the client's inbound stream, or the broadcast channel's signal that a
/// newer canonical state was published.
pub enum SessionEvent {
    Inbound(DrawingCanvas),
    InboundClosed,
    Changed,
}

/// What the transport must do after a session step: deliver a snapshot to
/// the client, keep going with nothing to send, end the session normally,
/// or end it with a merge error. `End` and `Fail` tear both loops down.
pub enum SessionOutput {
    Deliver(DrawingCanvas),
    Continue,
    End,
    Fail(MergeError),
}

/// One streaming session's state: how far the session's reader has caught
/// up with the room's published versions, and whether the session is over.
pub struct Session {
    pub last_seen: u64,
    pub done: bool,
}

/// Opens a session on a room: the session starts caught up with the room's
/// current version, and the room's canonical canvas is the first outbound
/// frame, delivered before either loop runs.
pub fn session_init(room: &Room) -> (r: (Session, DrawingCanvas))
    ensures
        r.0.done == false,
        r.0.last_seen == room.version_view(),
        same_canvas(r.1, room.canvas_view()),
{
    (Session { last_seen: room.version(), done: false }, room.snapshot())
}

impl Session {
    /// Runs one step of the session's state machine. An inbound edit is
    /// merged into the room (the writer loop); a merge failure ends the
    /// session with that error and leaves the room untouched. A channel
    /// signal re-emits the latest canonical snapshot if anything was
    /// published since the session's last delivery (the reader loop);
    /// intermediate states are coalesced away. Closing the inbound stream
    /// ends the session. A finished session reacts to nothing.
    pub fn step(&mut self, room: &mut Room, event: SessionEvent) -> (out: SessionOutput)
        requires
            old(room).wf(),
            old(room).version_view() < u64::MAX,
        ensures
            final(room).wf(),
            match out {
                SessionOutput::Deliver(c) => {
                    &&& !old(self).done
                    &&& event is Changed
                    &&& old(room).version_view() > old(self).last_seen
                    &&& room_unchanged(*old(room), *final(room))
                    &&& same_canvas(c, old(room).published_view())
                    &&& same_canvas(c, old(room).canvas_view())
                    &&& final(self).done == false
                    &&& final(self).last_seen == old(room).version_view()
                },
                SessionOutput::Continue => {
                    &&& !old(self).done
                    &&& *final(self) == *old(self)
                    &&& (match event {
                        SessionEvent::Inbound(edit) => merge_applied(
                            *old(room),
                            *final(room),
                            edit,
                        ),
                        SessionEvent::Changed => old(room).version_view() <= old(self).last_seen
                            && room_unchanged(*old(room), *final(room)),
                        SessionEvent::InboundClosed => false,
                    })
                },
                SessionOutput::End => {
                    &&& room_unchanged(*old(room), *final(room))
                    &&& old(self).done || event is InboundClosed
                    &&& final(self).last_seen == old(self).last_seen
                    &&& final(self).done == (old(self).done || event is InboundClosed)
                },
                SessionOutput::Fail(e) => {
                    &&& !old(self).done
                    &&& event matches SessionEvent::Inbound(edit) && merge_refused(
                        *old(room),
                        edit,
                        e,
                    )
                    &&& room_unchanged(*old(room), *final(room))
                    &&& final(self).done == true
                    &&& final(self).last_seen == old(self).last_seen
                },
            },
    {
        if self.done {
            return SessionOutput::End;
        }
        match event {
            SessionEvent::Inbound(edit) => {
                match room.merge(&edit) {
                    Ok(()) => SessionOutput::Continue,
                    Err(e) => {
                        self.done = true;
                        SessionOutput::Fail(e)
                    },
                }
            },
            SessionEvent::InboundClosed => {
                self.done = true;
                SessionOutput::End
            },
            SessionEvent::Changed => {
                match room.poll(self.last_seen) {
                    Some((c, v)) => {
                        self.last_seen = v;
                        SessionOutput::Deliver(c)
                    },
                    None => SessionOutput::Continue,
                }
            },
        }
    }
}

/// Law: coalescing loses no final state. However many merges a slow
/// subscriber failed to observe, once a merge has completed past what the
/// subscriber last saw, a delivery is owed (the version moved past
/// `last_seen`), and what the channel then hands out is exactly the
/// canonical state after that last merge.
pub proof fn lemma_no_lost_final_state(
    before: Room,
    after: Room,
    edit: DrawingCanvas,
    last_seen: u64,
)
    requires
        merge_applied(before, after, edit),
        last_seen <= before.version_view(),
    ensures
        after.version_view() > last_seen,
        same_canvas(after.published_view(), after.canvas_view()),
        after.published_view().contents@ == merged_contents(
            before.canvas_view().contents@,
            edit.contents@,
        ),
{
}

} // verus!
