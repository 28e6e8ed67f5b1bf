//! The registry of live dashboard connections, grouped by course.
//!
//! A room is the set of sessions that follow one course. A room exists only
//! while it has a member: it is made by the first session that joins and
//! removed with the last one that leaves. A broadcast for a course names
//! every member of that course's room once, and nobody else.

use std::collections::HashMap;
use std::collections::HashSet;
use vstd::prelude::*;
use vstd::std_specs::hash::*;
use vstd::std_specs::iter::IteratorSpec;
use vstd::string::*;

verus! {

broadcast use vstd::std_specs::hash::group_hash_axioms;

/// A session asks to join the room of a course.
pub struct Connect {
    pub course_id: u128,
    pub session_id: usize,
}

/// A session leaves the room of a course.
pub struct Disconnect {
    pub session_id: usize,
    pub course_id: u128,
}

/// The text pushed to a dashboard.
pub struct WsMessage(pub String);

/// The present count of a course has changed.
pub struct AttendanceUpdate {
    pub course_id: u128,
    pub present_count: usize,
}

/// What can be asked of the registry.
pub enum ServerMessage {
    Connect(Connect),
    Disconnect(Disconnect),
    AttendanceUpdate(AttendanceUpdate),
}

/// What the registry answers.
pub enum ServerReply {
    /// The session has joined; this is the handle of its membership.
    Joined(Disconnect),
    /// The session has left.
    Left,
    /// The update is to be handed to these sessions.
    Deliver(Vec<Outgoing>),
}

/// One message to hand to one session.
pub struct Outgoing {
    pub session_id: usize,
    pub message: WsMessage,
}

/// The value of the `type` field of a present-count update.
pub open spec fn update_kind() -> Seq<char> {
    "attendance_update"@
}

/// What `serde_json::to_string` writes for the JSON object with the two
/// members `text_key: text` and `number_key: number`.
pub uninterp spec fn json_pair_text(
    text_key: Seq<char>,
    text: Seq<char>,
    number_key: Seq<char>,
    number: u64,
) -> Seq<char>;

/// The text of a present-count update: the JSON object
/// `{"type": "attendance_update", "presentCount": n}` as `serde_json` writes it.
pub open spec fn update_text(present_count: u64) -> Seq<char> {
    json_pair_text("type"@, update_kind(), "presentCount"@, present_count)
}

/// Builds a `serde_json::Map` with a string member and a number member and
/// writes it with `serde_json::to_string`. The text depends on the four
/// arguments alone. Writing a map of strings and numbers cannot fail.
#[verifier::external_body]
pub(crate) fn json_pair(text_key: &str, text: &str, number_key: &str, number: u64) -> (out: String)
    ensures
        out@ == json_pair_text(text_key@, text@, number_key@, number),
{
    let mut members = serde_json::Map::new();
    members.insert(text_key.to_owned(), serde_json::Value::from(text));
    members.insert(number_key.to_owned(), serde_json::Value::from(number));
    serde_json::to_string(&serde_json::Value::Object(members)).unwrap_or_default()
}

/// Writes the present-count update for `present_count`.
pub fn attendance_update_message(present_count: usize) -> (message: WsMessage)
    ensures
        message.0@ == update_text(present_count as u64),
{
    WsMessage(json_pair("type", "attendance_update", "presentCount", present_count as u64))
}

/// The central registry of dashboard connections: for every course that is
/// followed, the set of sessions that follow it.
pub struct AttendanceServer {
    rooms: HashMap<u128, HashSet<usize>>,
}

impl AttendanceServer {
    /// The courses that have a room.
    pub closed spec fn courses(&self) -> Set<u128> {
        self.rooms@.dom()
    }

    /// The sessions in the room of a course; none where the course has no
    /// room.
    pub closed spec fn members(&self, course_id: u128) -> Set<usize> {
        if self.rooms@.contains_key(course_id) {
            self.rooms@[course_id]@
        } else {
            Set::empty()
        }
    }

    /// There are finitely many rooms, each with finitely many members and
    /// none without a member.
    pub closed spec fn wf(&self) -> bool {
        &&& self.rooms@.dom().finite()
        &&& forall|course_id: u128| #[trigger]
            self.rooms@.contains_key(course_id) ==> self.rooms@[course_id]@.finite()
                && self.rooms@[course_id]@.len() > 0
    }

    /// A course has a room exactly when it has a member, and rooms and
    /// members are finitely many.
    pub proof fn lemma_rooms(&self, course_id: u128)
        requires
            self.wf(),
        ensures
            self.courses().finite(),
            self.members(course_id).finite(),
            self.courses().contains(course_id) <==> self.members(course_id).len() > 0,
    {
        assert(self.rooms@.contains_key(course_id) <==> self.rooms@.dom().contains(course_id));
    }

    /// A registry without rooms.
    pub fn new() -> (server: Self)
        ensures
            server.wf(),
            server.courses() == Set::<u128>::empty(),
            forall|course_id: u128| server.members(course_id) == Set::<usize>::empty(),
    {
        let server = AttendanceServer { rooms: HashMap::new() };
        assert(server.rooms@.dom() =~= Set::<u128>::empty());
        server
    }

    /// Number of rooms.
    pub fn room_count(&self) -> (n: usize)
        ensures
            n == self.courses().len(),
    {
        self.rooms.len()
    }

    /// Number of sessions in the room of a course; zero where it has none.
    pub fn room_size(&self, course_id: u128) -> (n: usize)
        ensures
            n == self.members(course_id).len(),
    {
        match self.rooms.get(&course_id) {
            Some(room) => room.len(),
            None => 0,
        }
    }

    /// Tells whether the session is in the room of the course.
    pub fn is_member(&self, course_id: u128, session_id: usize) -> (member: bool)
        ensures
            member == self.members(course_id).contains(session_id),
    {
        match self.rooms.get(&course_id) {
            Some(room) => room.contains(&session_id),
            None => false,
        }
    }

    /// Registers a session in the room of its course, making the room where
    /// there is none. A session that is already a member stays one. The
    /// result is the handle of the membership: what the session hands in to
    /// leave the room again.
    pub fn connect(&mut self, msg: Connect) -> (handle: Disconnect)
        requires
            old(self).wf(),
        ensures
            final(self).wf(),
            handle.session_id == msg.session_id,
            handle.course_id == msg.course_id,
            final(self).members(msg.course_id) == old(self).members(msg.course_id).insert(
                msg.session_id,
            ),
            forall|other: u128|
                other != msg.course_id ==> final(self).members(other) == old(self).members(other),
            final(self).courses() == old(self).courses().insert(msg.course_id),
    {
        let handle = Disconnect { session_id: msg.session_id, course_id: msg.course_id };
        let mut room: HashSet<usize> = match self.rooms.remove(&msg.course_id) {
            Some(room) => room,
            None => HashSet::new(),
        };
        room.insert(msg.session_id);
        self.rooms.insert(msg.course_id, room);
        proof {
            assert(self.rooms@.dom() =~= old(self).rooms@.dom().insert(msg.course_id));
            assert(self.rooms@[msg.course_id]@ =~= old(self).members(msg.course_id).insert(
                msg.session_id,
            ));
            assert forall|course_id: u128| #[trigger]
                self.rooms@.contains_key(course_id) implies self.rooms@[course_id]@.finite()
                && self.rooms@[course_id]@.len() > 0 by {
                if course_id != msg.course_id {
                    assert(old(self).rooms@.contains_key(course_id));
                    assert(self.rooms@[course_id] == old(self).rooms@[course_id]);
                } else {
                    old(self).lemma_rooms(msg.course_id);
                }
            }
            assert forall|other: u128| other != msg.course_id implies self.members(other) == old(self).members(other) by {
                assert(self.rooms@.contains_key(other) == old(self).rooms@.contains_key(other));
            }
        }
        handle
    }

    /// Takes a session out of the room of its course and removes the room
    /// when that leaves it empty. A session that is not a member changes
    /// nothing.
    pub fn disconnect(&mut self, msg: Disconnect)
        requires
            old(self).wf(),
        ensures
            final(self).wf(),
            final(self).members(msg.course_id) == old(self).members(msg.course_id).remove(
                msg.session_id,
            ),
            !final(self).members(msg.course_id).contains(msg.session_id),
            forall|other: u128|
                other != msg.course_id ==> final(self).members(other) == old(self).members(other),
            final(self).courses() == if final(self).members(msg.course_id).len() == 0 {
                old(self).courses().remove(msg.course_id)
            } else {
                old(self).courses()
            },
    {
        proof {
            old(self).lemma_rooms(msg.course_id);
        }
        match self.rooms.remove(&msg.course_id) {
            None => {
                proof {
                    assert(self.rooms@ =~= old(self).rooms@);
                    assert(old(self).members(msg.course_id).remove(msg.session_id)
                        =~= Set::<usize>::empty());
                    assert(self.rooms@.dom() =~= old(self).rooms@.dom().remove(msg.course_id));
                }
            },
            Some(room) => {
                let mut room = room;
                let ghost held = room@;
                room.remove(&msg.session_id);
                let ghost left = room@;
                proof {
                    assert(left == held.remove(msg.session_id));
                    assert(left.finite());
                }
                if room.len() == 0 {
                    proof {
                        assert(left.len() == 0);
                        left.lemma_len0_is_empty();
                        assert(left =~= Set::<usize>::empty());
                        assert(self.rooms@.dom() =~= old(self).rooms@.dom().remove(
                            msg.course_id,
                        ));
                    }
                } else {
                    self.rooms.insert(msg.course_id, room);
                    proof {
                        assert(self.rooms@.dom() =~= old(self).rooms@.dom());
                    }
                }
                proof {
                    assert forall|course_id: u128| #[trigger]
                        self.rooms@.contains_key(course_id) implies self.rooms@[course_id]@.finite()
                        && self.rooms@[course_id]@.len() > 0 by {
                        if course_id != msg.course_id {
                            assert(old(self).rooms@.contains_key(course_id));
                            assert(self.rooms@[course_id] == old(self).rooms@[course_id]);
                        }
                    }
                }
            },
        }
        proof {
            assert forall|other: u128| other != msg.course_id implies self.members(other) == old(self).members(other) by {
                assert(self.rooms@.contains_key(other) == old(self).rooms@.contains_key(other));
            }
        }
    }

    /// Takes one message and does what it asks: a connect joins the session
    /// to the room of its course, a disconnect takes it out, and an update
    /// lists the messages for the dashboards of the course and changes
    /// nothing.
    pub fn handle(&mut self, msg: ServerMessage) -> (reply: ServerReply)
        requires
            old(self).wf(),
        ensures
            final(self).wf(),
            match msg {
                ServerMessage::Connect(request) => {
                    &&& reply is Joined
                    &&& reply->Joined_0.session_id == request.session_id
                    &&& reply->Joined_0.course_id == request.course_id
                    &&& final(self).members(request.course_id) == old(self).members(
                        request.course_id,
                    ).insert(request.session_id)
                    &&& forall|other: u128|
                        other != request.course_id ==> final(self).members(other) == old(self).members(other)
                    &&& final(self).courses() == old(self).courses().insert(request.course_id)
                },
                ServerMessage::Disconnect(notice) => {
                    &&& reply is Left
                    &&& final(self).members(notice.course_id) == old(self).members(
                        notice.course_id,
                    ).remove(notice.session_id)
                    &&& forall|other: u128|
                        other != notice.course_id ==> final(self).members(other) == old(self).members(other)
                    &&& final(self).courses() == if final(self).members(notice.course_id).len()
                        == 0 {
                        old(self).courses().remove(notice.course_id)
                    } else {
                        old(self).courses()
                    }
                },
                ServerMessage::AttendanceUpdate(update) => {
                    &&& reply is Deliver
                    &&& *final(self) == *old(self)
                    &&& fan_out(
                        reply->Deliver_0@,
                        old(self).members(update.course_id),
                        update_text(update.present_count as u64),
                    )
                },
            },
    {
        match msg {
            ServerMessage::Connect(request) => ServerReply::Joined(self.connect(request)),
            ServerMessage::Disconnect(notice) => {
                self.disconnect(notice);
                ServerReply::Left
            },
            ServerMessage::AttendanceUpdate(update) => ServerReply::Deliver(
                self.attendance_update(update),
            ),
        }
    }

    /// Lists, for a broadcast to a course, one message per member of its
    /// room, in the order the room is walked, which is left open. A course
    /// without a room yields nothing.
    pub fn send_message(&self, course_id: u128, message: &str) -> (out: Vec<Outgoing>)
        requires
            self.wf(),
        ensures
            fan_out(out@, self.members(course_id), message@),
    {
        let mut out: Vec<Outgoing> = Vec::new();
        match self.rooms.get(&course_id) {
            None => {
                assert(self.members(course_id).len() == 0);
            },
            Some(room) => {
                let ghost all = spec_hash_keys_iter(room).remaining().unref();
                proof {
                    axiom_spec_hash_keys_iter(room);
                    assert(room@ == self.members(course_id));
                    assert forall|i: int, j: int|
                        0 <= i < all.len() && 0 <= j < all.len() && i != j implies all[i]
                        != all[j] by {
                        let walked = spec_hash_keys_iter(room).remaining();
                        assert(walked[i] != walked[j]);
                    }
                }
                for session in it: room.iter()
                    invariant
                        it.seq().unref() == all,
                        out@.len() == it.index(),
                        forall|k: int|
                            0 <= k < out@.len() ==> (#[trigger] out@[k]).session_id == all[k]
                                && out@[k].message.0@ == message@,
                {
                    out.push(
                        Outgoing { session_id: *session, message: WsMessage(message.to_owned()) },
                    );
                }
                proof {
                    assert forall|i: int| 0 <= i < out@.len() implies self.members(course_id).contains((#[trigger] out@[i]).session_id) by {
                        assert(all.to_set().contains(all[i]));
                    }
                    assert forall|s: usize| self.members(course_id).contains(s) implies exists|
                        i: int,
                    | 0 <= i < out@.len() && (#[trigger] out@[i]).session_id == s by {
                        assert(all.to_set().contains(s));
                        let i = choose|i: int| 0 <= i < all.len() && all[i] == s;
                        assert(out@[i].session_id == s);
                    }
                }
            },
        }
        out
    }

    /// Lists the messages that tell every dashboard of a course its new
    /// present count.
    pub fn attendance_update(&self, msg: AttendanceUpdate) -> (out: Vec<Outgoing>)
        requires
            self.wf(),
        ensures
            fan_out(out@, self.members(msg.course_id), update_text(msg.present_count as u64)),
    {
        let message = attendance_update_message(msg.present_count);
        self.send_message(msg.course_id, message.0.as_str())
    }
}

/// `out` carries `text` to each of `members` once, and to nobody else.
pub open spec fn fan_out(out: Seq<Outgoing>, members: Set<usize>, text: Seq<char>) -> bool {
    &&& out.len() == members.len()
    &&& forall|i: int|
        0 <= i < out.len() ==> members.contains((#[trigger] out[i]).session_id) && out[i].message.0@
            == text
    &&& forall|i: int, j: int|
        0 <= i < j < out.len() ==> (#[trigger] out[i]).session_id != (#[trigger] out[j]).session_id
    &&& forall|s: usize|
        members.contains(s) ==> exists|i: int|
            0 <= i < out.len() && (#[trigger] out[i]).session_id == s
}

} // verus!
