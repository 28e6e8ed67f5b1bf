//! The link to a Moodle server.
//!
//! Nothing is sent yet: an export reports whether there would be anything
//! to send, and the roster is a fixed sample.

use crate::db::attendance::AttendanceRecord;
use crate::errors::AppError;
use crate::errors::ErrorView;
use vstd::prelude::*;
use vstd::string::*;

verus! {

/// The sentence sent when the link has not been set up.
pub open spec fn not_configured_message() -> Seq<char> {
    "Moodle integration not configured"@
}

/// Where the Moodle server is and how to sign in to it.
pub struct MoodleService {
    pub base_url: Option<String>,
    pub token: Option<String>,
}

impl MoodleService {
    /// A link that has not been set up.
    pub fn new() -> (service: Self)
        ensures
            service.base_url is None,
            service.token is None,
    {
        MoodleService { base_url: None, token: None }
    }

    /// Sets up the link.
    pub fn configure(&mut self, base_url: String, token: String)
        ensures
            final(self).base_url is Some,
            final(self).base_url->Some_0@ == base_url@,
            final(self).token is Some,
            final(self).token->Some_0@ == token@,
    {
        self.base_url = Some(base_url);
        self.token = Some(token);
    }

    /// Tells whether the link has been set up.
    pub fn is_configured(&self) -> (ready: bool)
        ensures
            ready == (self.base_url is Some && self.token is Some),
    {
        self.base_url.is_some() && self.token.is_some()
    }

    /// Reports whether the records of a course hold anything to export.
    /// Without a link that has been set up there is no export.
    pub fn export_attendance(&self, records: &Vec<AttendanceRecord>) -> (r: Result<bool, AppError>)
        ensures
            if self.base_url is Some && self.token is Some {
                r is Ok && r->Ok_0 == (records@.len() > 0)
            } else {
                r is Err && r->Err_0@ == ErrorView::BadClientData(not_configured_message())
            },
    {
        if !self.is_configured() {
            return Err(
                AppError::BadClientData(String::from_str("Moodle integration not configured")),
            );
        }
        Ok(records.len() > 0)
    }

    /// The roster of a Moodle course: for now two sample students, each
    /// with identifier and name.
    pub fn sync_student_roster(&self) -> (r: Result<Vec<(String, String)>, AppError>)
        ensures
            if self.base_url is Some && self.token is Some {
                r is Ok && r->Ok_0@.len() == 2 && r->Ok_0@[0].0@ == "12345"@ && r->Ok_0@[0].1@
                    == "John Doe"@ && r->Ok_0@[1].0@ == "67890"@ && r->Ok_0@[1].1@
                    == "Jane Smith"@
            } else {
                r is Err && r->Err_0@ == ErrorView::BadClientData(not_configured_message())
            },
    {
        if !self.is_configured() {
            return Err(
                AppError::BadClientData(String::from_str("Moodle integration not configured")),
            );
        }
        let mut roster: Vec<(String, String)> = Vec::new();
        roster.push((String::from_str("12345"), String::from_str("John Doe")));
        roster.push((String::from_str("67890"), String::from_str("Jane Smith")));
        Ok(roster)
    }
}

} // verus!
