//! The life of one dashboard connection.
//!
//! A connection starts out connecting, joins the room of its course, and is
//! from then on active or idle: idle once a ping has gone out, active again
//! when the client answers. It ends disconnected, by the client's wish, by a
//! protocol error, or because the client stayed silent for the length of the
//! timeout. A session that is disconnected stays so.
//!
//! A joined session is checked one interval after the last check, and in any
//! case at the instant its timeout runs out, so that a silent client is gone
//! no later than the timeout after its last sign of life.
//!
//! Instants are milliseconds on any clock that does not run backwards.

use crate::ws_server::attendance_update_message;
use crate::ws_server::update_text;
use crate::ws_server::Connect;
use crate::ws_server::Disconnect;
use crate::ws_server::WsMessage;
use vstd::prelude::*;

verus! {

/// Milliseconds between two pings.
pub const HEARTBEAT_INTERVAL: i64 = 5_000;

/// Milliseconds of silence at which a client counts as gone.
pub const CLIENT_TIMEOUT: i64 = 10_000;

/// Where a connection stands.
#[derive(Clone, Copy, Debug, PartialEq, Eq, Structural)]
pub enum SessionState {
    /// The join request is on its way.
    Connecting,
    /// Joined, and heard from since the last ping.
    Active,
    /// Joined, with a ping unanswered.
    Idle,
    /// Gone for good.
    Disconnected,
}

/// Why a client closed the connection.
pub struct CloseReason {
    pub code: u16,
    pub description: Option<String>,
}

/// What arrived from the client.
pub enum Frame {
    Ping(Vec<u8>),
    Pong(Vec<u8>),
    Text(String),
    Binary(Vec<u8>),
    Close(Option<CloseReason>),
    Continuation,
    Nop,
    /// The stream broke the protocol.
    ProtocolError,
}

/// What the connection is to do.
pub enum SessionAction {
    /// Nothing.
    Idle,
    /// Send a ping with an empty payload.
    Ping,
    /// Answer a ping with the same payload.
    Pong(Vec<u8>),
    /// Send a text to the client.
    Text(String),
    /// Answer the client's close and stop.
    Close(Option<CloseReason>),
    /// Tell the registry the session has left, and stop.
    Leave(Disconnect),
    /// Stop.
    Stop,
}

/// The client has been silent for the length of the timeout, or longer.
pub open spec fn timed_out(last_heard: i64, now: i64) -> bool {
    now - last_heard >= CLIENT_TIMEOUT
}

/// The instant at which a session that was checked at `now` is to be
/// checked next: one interval later, but for a joined session no later than
/// the instant its timeout runs out.
pub open spec fn next_check_due(joined: bool, last_heard: i64, now: i64) -> int {
    if joined && last_heard + CLIENT_TIMEOUT < now + HEARTBEAT_INTERVAL {
        last_heard + CLIENT_TIMEOUT
    } else {
        now + HEARTBEAT_INTERVAL
    }
}

/// One dashboard connection.
pub struct WsSession {
    /// The session's number, unique among live sessions.
    pub id: usize,
    /// The instant the client was last heard from.
    pub hb: i64,
    /// The course the dashboard follows.
    pub course_id: u128,
    /// Where the connection stands.
    pub state: SessionState,
}

impl WsSession {
    /// Joined: active or idle.
    pub open spec fn is_joined(&self) -> bool {
        self.state == SessionState::Active || self.state == SessionState::Idle
    }

    /// A connection that has just been accepted, at the instant `now`.
    pub fn new(id: usize, course_id: u128, now: i64) -> (session: Self)
        ensures
            session.id == id,
            session.course_id == course_id,
            session.hb == now,
            session.state == SessionState::Connecting,
    {
        WsSession { id, hb: now, course_id, state: SessionState::Connecting }
    }

    /// The request with which the session joins the room of its course.
    pub fn started(&self) -> (request: Connect)
        ensures
            request.course_id == self.course_id,
            request.session_id == self.id,
    {
        Connect { course_id: self.course_id, session_id: self.id }
    }

    /// Takes the registry's answer to the join request. A count means the
    /// session has joined: it becomes active and the count goes to the client
    /// as its first update. No answer means the registry is gone: the session
    /// stops.
    pub fn connected(&mut self, answer: Option<usize>) -> (action: SessionAction)
        ensures
            final(self).id == old(self).id,
            final(self).course_id == old(self).course_id,
            final(self).hb == old(self).hb,
            old(self).state != SessionState::Connecting ==> final(self).state == old(self).state
                && action is Idle,
            old(self).state == SessionState::Connecting ==> match answer {
                Some(count) => final(self).state == SessionState::Active && action is Text
                    && action->Text_0@ == update_text(count as u64),
                None => final(self).state == SessionState::Disconnected && action is Stop,
            },
    {
        match self.state {
            SessionState::Connecting => match answer {
                Some(count) => {
                    self.state = SessionState::Active;
                    SessionAction::Text(attendance_update_message(count).0)
                },
                None => {
                    self.state = SessionState::Disconnected;
                    SessionAction::Stop
                },
            },
            _ => SessionAction::Idle,
        }
    }

    /// Tells whether the client has been silent for the length of the
    /// timeout, or longer.
    pub fn is_timed_out(&self, now: i64) -> (late: bool)
        ensures
            late == timed_out(self.hb, now),
    {
        now as i128 - self.hb as i128 >= CLIENT_TIMEOUT as i128
    }

    /// The instant of the next check after a check at `now`: one interval
    /// later, but for a joined session no later than the instant its timeout
    /// runs out. An instant beyond the end of the clock is given as the end
    /// of the clock.
    pub fn next_check(&self, now: i64) -> (due: i64)
        ensures
            due == if next_check_due(self.is_joined(), self.hb, now) > i64::MAX {
                i64::MAX as int
            } else {
                next_check_due(self.is_joined(), self.hb, now)
            },
            self.is_joined() && self.hb + CLIENT_TIMEOUT <= i64::MAX ==> due <= self.hb
                + CLIENT_TIMEOUT,
    {
        let joined = match self.state {
            SessionState::Active | SessionState::Idle => true,
            _ => false,
        };
        let later: i128 = now as i128 + HEARTBEAT_INTERVAL as i128;
        let deadline: i128 = self.hb as i128 + CLIENT_TIMEOUT as i128;
        let due: i128 = if joined && deadline < later {
            deadline
        } else {
            later
        };
        if due > i64::MAX as i128 {
            i64::MAX
        } else {
            due as i64
        }
    }

    /// The check. A joined session whose client has been silent for the
    /// length of the timeout leaves its room and stops; any other joined
    /// session is pinged and counts as idle until the client answers.
    pub fn heartbeat(&mut self, now: i64) -> (action: SessionAction)
        ensures
            final(self).id == old(self).id,
            final(self).course_id == old(self).course_id,
            final(self).hb == old(self).hb,
            !old(self).is_joined() ==> final(self).state == old(self).state && action is Idle,
            old(self).is_joined() && timed_out(old(self).hb, now) ==> final(self).state
                == SessionState::Disconnected && action is Leave && action->Leave_0.session_id
                == old(self).id && action->Leave_0.course_id == old(self).course_id,
            old(self).is_joined() && !timed_out(old(self).hb, now) ==> final(self).state
                == SessionState::Idle && action is Ping,
    {
        match self.state {
            SessionState::Active | SessionState::Idle => {
                if self.is_timed_out(now) {
                    self.state = SessionState::Disconnected;
                    SessionAction::Leave(
                        Disconnect { session_id: self.id, course_id: self.course_id },
                    )
                } else {
                    self.state = SessionState::Idle;
                    SessionAction::Ping
                }
            },
            _ => SessionAction::Idle,
        }
    }

    /// Takes a frame from the client at the instant `now`. A ping or a pong
    /// is a sign of life: the instant is noted and a joined session is active
    /// again; a ping is answered in kind. Text, binary and continuation frames
    /// are ignored. A close is answered and ends the session, as does a
    /// protocol error. A disconnected session ignores everything.
    pub fn handle(&mut self, frame: Frame, now: i64) -> (action: SessionAction)
        ensures
            final(self).id == old(self).id,
            final(self).course_id == old(self).course_id,
            old(self).state == SessionState::Disconnected ==> *final(self) == *old(self)
                && action is Idle,
            old(self).state != SessionState::Disconnected ==> match frame {
                Frame::Ping(payload) => final(self).hb == now && final(self).state == heard(
                    old(self).state,
                ) && action is Pong && action->Pong_0@ == payload@,
                Frame::Pong(_) => final(self).hb == now && final(self).state == heard(
                    old(self).state,
                ) && action is Idle,
                Frame::Close(reason) => final(self).hb == old(self).hb && final(self).state
                    == SessionState::Disconnected && action is Close && action->Close_0 == reason,
                Frame::ProtocolError => final(self).hb == old(self).hb && final(self).state
                    == SessionState::Disconnected && action is Stop,
                _ => *final(self) == *old(self) && action is Idle,
            },
    {
        match self.state {
            SessionState::Disconnected => SessionAction::Idle,
            _ => match frame {
                Frame::Ping(payload) => {
                    self.hb = now;
                    self.state = revive(self.state);
                    SessionAction::Pong(payload)
                },
                Frame::Pong(_) => {
                    self.hb = now;
                    self.state = revive(self.state);
                    SessionAction::Idle
                },
                Frame::Close(reason) => {
                    self.state = SessionState::Disconnected;
                    SessionAction::Close(reason)
                },
                Frame::ProtocolError => {
                    self.state = SessionState::Disconnected;
                    SessionAction::Stop
                },
                Frame::Text(_) => SessionAction::Idle,
                Frame::Binary(_) => SessionAction::Idle,
                Frame::Continuation => SessionAction::Idle,
                Frame::Nop => SessionAction::Idle,
            },
        }
    }

    /// Hands a broadcast on to the client. A session that is not joined
    /// sends nothing.
    pub fn deliver(&self, message: WsMessage) -> (action: SessionAction)
        ensures
            self.is_joined() ==> action is Text && action->Text_0@ == message.0@,
            !self.is_joined() ==> action is Idle,
    {
        match self.state {
            SessionState::Active | SessionState::Idle => SessionAction::Text(message.0),
            _ => SessionAction::Idle,
        }
    }

    /// The session is stopping: it is disconnected from now on, and the
    /// registry is to be told that it has left.
    pub fn stopping(&mut self) -> (notice: Disconnect)
        ensures
            final(self).id == old(self).id,
            final(self).course_id == old(self).course_id,
            final(self).hb == old(self).hb,
            final(self).state == SessionState::Disconnected,
            notice.session_id == old(self).id,
            notice.course_id == old(self).course_id,
    {
        self.state = SessionState::Disconnected;
        Disconnect { session_id: self.id, course_id: self.course_id }
    }
}

/// The state after a sign of life: a joined session is active; a session
/// that is still connecting stays so.
pub open spec fn heard(state: SessionState) -> SessionState {
    match state {
        SessionState::Idle => SessionState::Active,
        other => other,
    }
}

fn revive(state: SessionState) -> (next: SessionState)
    ensures
        next == heard(state),
{
    match state {
        SessionState::Idle => SessionState::Active,
        other => other,
    }
}

/// Hands out session numbers, counting up from one. Every registry has its
/// own.
pub struct SessionIds {
    next: usize,
}

impl SessionIds {
    /// The number that will be handed out next.
    pub closed spec fn upcoming(&self) -> usize {
        self.next
    }

    /// A counter that starts at one.
    pub fn new() -> (ids: Self)
        ensures
            ids.upcoming() == 1,
    {
        SessionIds { next: 1 }
    }

    /// Hands out the next number. The numbers handed out never repeat until
    /// the counter wraps around after the largest one.
    pub fn next_id(&mut self) -> (id: usize)
        ensures
            id == old(self).upcoming(),
            final(self).upcoming() == if old(self).upcoming() == usize::MAX {
                0
            } else {
                (old(self).upcoming() + 1) as usize
            },
    {
        let id = self.next;
        self.next = if id == usize::MAX {
            0
        } else {
            id + 1
        };
        id
    }
}

} // verus!
