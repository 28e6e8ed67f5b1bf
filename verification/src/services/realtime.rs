//! A second registry of dashboard clients, by client name.
//!
//! Clients are kept per course in the order they registered. A client that
//! registers twice is listed twice; unregistering takes out every listing
//! of the name. A course whose clients have all left keeps an empty list.

use crate::services::storage::random_id;
use crate::ids::format_uuid;
use crate::ids::uuid_text;
use crate::text::eq_text;
use crate::ws::Frame;
use crate::ws::SessionAction;
use std::collections::HashMap;
use vstd::prelude::*;
use vstd::std_specs::hash::*;
use vstd::string::*;

verus! {

broadcast use vstd::std_specs::hash::group_hash_axioms;

/// A text sent to, or received from, a dashboard client.
pub struct WebSocketMessage(pub String);

/// A list of names without any listing of `name`.
pub open spec fn without(names: Seq<Seq<char>>, name: Seq<char>) -> Seq<Seq<char>>
    decreases names.len(),
{
    if names.len() == 0 {
        names
    } else if names.last() == name {
        without(names.drop_last(), name)
    } else {
        without(names.drop_last(), name).push(names.last())
    }
}

/// The names in a list of clients.
pub open spec fn names_of(clients: Seq<String>) -> Seq<Seq<char>> {
    clients.map_values(|client: String| client@)
}

/// The clients of each course.
pub struct RealtimeService {
    clients: HashMap<u128, Vec<String>>,
}

impl RealtimeService {
    /// The names registered for a course, in the order they registered;
    /// empty where none ever did.
    pub closed spec fn clients(&self, course_id: u128) -> Seq<Seq<char>> {
        if self.clients@.contains_key(course_id) {
            names_of(self.clients@[course_id]@)
        } else {
            Seq::empty()
        }
    }

    /// A registry without clients.
    pub fn new() -> (service: Self)
        ensures
            forall|course_id: u128| service.clients(course_id) == Seq::<Seq<char>>::empty(),
    {
        RealtimeService { clients: HashMap::new() }
    }

    /// Registers a client for a course, at the end of its list.
    pub fn register(&mut self, course_id: u128, client_id: String)
        ensures
            final(self).clients(course_id) == old(self).clients(course_id).push(client_id@),
            forall|other: u128|
                other != course_id ==> final(self).clients(other) == old(self).clients(other),
    {
        let ghost name = client_id@;
        let mut list: Vec<String> = match self.clients.remove(&course_id) {
            Some(list) => list,
            None => Vec::new(),
        };
        let ghost held = names_of(list@);
        list.push(client_id);
        assert(names_of(list@) =~= held.push(name));
        self.clients.insert(course_id, list);
        proof {
            assert(held =~= old(self).clients(course_id));
            assert forall|other: u128| other != course_id implies self.clients(other) == old(self).clients(other) by {
                assert(self.clients@.contains_key(other) == old(self).clients@.contains_key(other));
            }
        }
    }

    /// Takes every listing of a client out of the list of a course.
    pub fn unregister(&mut self, course_id: u128, client_id: &str)
        ensures
            final(self).clients(course_id) == without(old(self).clients(course_id), client_id@),
            forall|other: u128|
                other != course_id ==> final(self).clients(other) == old(self).clients(other),
    {
        match self.clients.remove(&course_id) {
            None => {
                assert(self.clients@ =~= old(self).clients@);
            },
            Some(list) => {
                let ghost held = names_of(list@);
                let mut kept: Vec<String> = Vec::new();
                let mut k: usize = 0;
                proof {
                    assert(held.subrange(0, 0) =~= Seq::<Seq<char>>::empty());
                    assert(names_of(kept@) =~= Seq::<Seq<char>>::empty());
                }
                while k < list.len()
                    invariant
                        k <= list@.len(),
                        held == names_of(list@),
                        names_of(kept@) == without(held.subrange(0, k as int), client_id@),
                    decreases list@.len() - k,
                {
                    let ghost listed = names_of(kept@);
                    proof {
                        let more = held.subrange(0, k + 1);
                        assert(more.drop_last() =~= held.subrange(0, k as int));
                        assert(more.last() == list@[k as int]@);
                    }
                    if !eq_text(list[k].as_str(), client_id) {
                        kept.push(list[k].clone());
                        assert(names_of(kept@) =~= listed.push(list@[k as int]@));
                    }
                    k += 1;
                }
                proof {
                    assert(held.subrange(0, k as int) =~= held);
                }
                self.clients.insert(course_id, kept);
            },
        }
        proof {
            assert forall|other: u128| other != course_id implies self.clients(other) == old(self).clients(other) by {
                assert(self.clients@.contains_key(other) == old(self).clients@.contains_key(other));
            }
        }
    }

    /// Lists, for a broadcast to a course, the name of every registered
    /// client with the message for it, in the order they registered.
    pub fn broadcast(&self, course_id: u128, message: &str) -> (out: Vec<(String, WebSocketMessage)>)
        ensures
            out@.len() == self.clients(course_id).len(),
            forall|i: int|
                0 <= i < out@.len() ==> (#[trigger] out@[i]).0@ == self.clients(course_id)[i]
                    && out@[i].1.0@ == message@,
    {
        let mut out: Vec<(String, WebSocketMessage)> = Vec::new();
        match self.clients.get(&course_id) {
            None => {},
            Some(clients) => {
                let mut k: usize = 0;
                while k < clients.len()
                    invariant
                        k <= clients@.len(),
                        out@.len() == k,
                        forall|j: int|
                            0 <= j < k ==> (#[trigger] out@[j]).0@ == clients@[j]@ && out@[j].1.0@
                                == message@,
                    decreases clients@.len() - k,
                {
                    out.push((clients[k].clone(), WebSocketMessage(message.to_owned())));
                    k += 1;
                }
            },
        }
        out
    }

    /// Number of clients registered for a course.
    pub fn get_connected_count(&self, course_id: u128) -> (count: usize)
        ensures
            count == self.clients(course_id).len(),
    {
        match self.clients.get(&course_id) {
            Some(clients) => clients.len(),
            None => 0,
        }
    }
}

/// One dashboard client of the second registry.
pub struct WebSocketSession {
    pub course_id: u128,
    pub client_id: String,
}

impl WebSocketSession {
    /// A session for a course under a given client name.
    pub fn with_client_id(course_id: u128, client_id: String) -> (session: Self)
        ensures
            session.course_id == course_id,
            session.client_id@ == client_id@,
    {
        WebSocketSession { course_id, client_id }
    }

    /// A session for a course under a fresh random name: a UUID in its
    /// hyphenated form.
    pub fn new(course_id: u128) -> (session: Self)
        ensures
            session.course_id == course_id,
            exists|id: u128| session.client_id@ == #[trigger] uuid_text(id),
    {
        let id = random_id();
        let client_id = format_uuid(id);
        assert(client_id@ == uuid_text(id));
        WebSocketSession { course_id, client_id }
    }

    /// Takes a frame from the client: a ping is answered in kind, a text is
    /// sent back as it came, a close is answered; everything else is ignored.
    pub fn handle(&self, frame: Frame) -> (action: SessionAction)
        ensures
            match frame {
                Frame::Ping(payload) => action is Pong && action->Pong_0@ == payload@,
                Frame::Text(text) => action is Text && action->Text_0@ == text@,
                Frame::Close(reason) => action is Close && action->Close_0 == reason,
                _ => action is Idle,
            },
    {
        match frame {
            Frame::Ping(payload) => SessionAction::Pong(payload),
            Frame::Text(text) => SessionAction::Text(text),
            Frame::Close(reason) => SessionAction::Close(reason),
            _ => SessionAction::Idle,
        }
    }

    /// The session has started: it registers with the registry.
    pub fn started(&self, service: &mut RealtimeService)
        ensures
            final(service).clients(self.course_id) == old(service).clients(self.course_id).push(
                self.client_id@,
            ),
            forall|other: u128|
                other != self.course_id ==> final(service).clients(other) == old(service).clients(
                    other,
                ),
    {
        service.register(self.course_id, self.client_id.clone());
    }

    /// The session is stopping: it leaves the registry.
    pub fn stopping(&self, service: &mut RealtimeService)
        ensures
            final(service).clients(self.course_id) == without(
                old(service).clients(self.course_id),
                self.client_id@,
            ),
            forall|other: u128|
                other != self.course_id ==> final(service).clients(other) == old(service).clients(
                    other,
                ),
    {
        service.unregister(self.course_id, self.client_id.as_str());
    }
}

} // verus!
