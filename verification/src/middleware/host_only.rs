//! The guard in front of the administrative routes: only the host machine
//! may use them.

use crate::text::eq_text;
use crate::text::starts_with;
use vstd::prelude::*;
use vstd::string::*;

verus! {

/// The text names the host machine: `127.0.0.1`, `::1`, or anything that
/// begins with `localhost`.
pub open spec fn names_host(remote: Seq<char>) -> bool {
    remote == "127.0.0.1"@ || remote == "::1"@ || ("localhost"@.len() <= remote.len()
        && remote.subrange(0, "localhost"@.len() as int) == "localhost"@)
}

/// A request may pass when its remote address is known and names the host.
pub open spec fn may_pass(remote: Option<Seq<char>>) -> bool {
    match remote {
        Some(text) => names_host(text),
        None => false,
    }
}

/// The machine-readable reason sent with a refusal.
pub open spec fn forbidden_code() -> Seq<char> {
    "forbidden"@
}

/// The sentence sent with a refusal.
pub open spec fn forbidden_message() -> Seq<char> {
    "This administrative resource is only accessible from the host machine."@
}

/// What the guard decides for a request.
pub enum Access {
    /// Hand the request to the wrapped service.
    Forward,
    /// Answer "forbidden" with this reason and sentence.
    Forbidden { error: String, message: String },
}

/// Marks a group of routes as open to the host machine only.
pub struct HostOnly;

/// A service behind the host-only guard.
pub struct HostOnlyMiddleware<S> {
    pub service: S,
}

impl HostOnly {
    /// Puts a service behind the guard.
    pub fn new_transform<S>(&self, service: S) -> (guarded: HostOnlyMiddleware<S>)
        ensures
            guarded.service == service,
    {
        HostOnlyMiddleware { service }
    }

    /// Tells whether a request from `remote` comes from the host machine.
    pub fn is_host(remote: Option<&str>) -> (local: bool)
        ensures
            local == may_pass(
                match remote {
                    Some(text) => Some(text@),
                    None => None,
                },
            ),
    {
        match remote {
            Some(text) => eq_text(text, "127.0.0.1") || eq_text(text, "::1") || starts_with(
                text,
                "localhost",
            ),
            None => false,
        }
    }
}

impl<S> HostOnlyMiddleware<S> {
    /// Decides on a request from `remote`: forward it when it comes from
    /// the host machine, refuse it otherwise.
    pub fn call(&self, remote: Option<&str>) -> (access: Access)
        ensures
            may_pass(
                match remote {
                    Some(text) => Some(text@),
                    None => None,
                },
            ) ==> access is Forward,
            !may_pass(
                match remote {
                    Some(text) => Some(text@),
                    None => None,
                },
            ) ==> access is Forbidden && access->error@ == forbidden_code() && access->message@
                == forbidden_message(),
    {
        if HostOnly::is_host(remote) {
            Access::Forward
        } else {
            Access::Forbidden {
                error: String::from_str("forbidden"),
                message: String::from_str(
                    "This administrative resource is only accessible from the host machine.",
                ),
            }
        }
    }
}

} // verus!
