//! Device claims: at most one submission per device, course and day.
//!
//! A claim is the triple of course, originating address and calendar day. The
//! table holds each triple at most once. Claiming is a single insert that is
//! refused when the triple is already there: the refusal itself is the signal
//! "already submitted", with no separate look-up before it.

use crate::errors::AppError;
use crate::errors::ErrorView;
use crate::text::eq_text;
use vstd::prelude::*;
use vstd::string::*;

verus! {

/// One row: a device that was used for a course on a day.
pub struct DeviceSubmission {
    pub course_id: u128,
    pub ip_address: String,
    pub submission_date: i64,
}

/// A claim as plain values.
pub struct DeviceClaim {
    pub course_id: u128,
    pub ip_address: Seq<char>,
    pub submission_date: i64,
}

impl View for DeviceSubmission {
    type V = DeviceClaim;

    open spec fn view(&self) -> DeviceClaim {
        DeviceClaim {
            course_id: self.course_id,
            ip_address: self.ip_address@,
            submission_date: self.submission_date,
        }
    }
}

/// What an attempt to claim a device came to.
#[derive(Clone, Copy, Debug, PartialEq, Eq, Structural)]
pub enum ClaimOutcome {
    /// The triple was free and is now taken.
    Claimed,
    /// The triple was taken before.
    AlreadyClaimed,
}

/// The sentence sent to a client whose device was already used.
pub open spec fn device_conflict_message() -> Seq<char> {
    "This device has already been used to mark attendance for this course today."@
}

/// The claims made so far.
pub struct DeviceSubmissions {
    rows: Vec<DeviceSubmission>,
}

impl View for DeviceSubmissions {
    type V = Set<DeviceClaim>;

    /// The set of triples that are taken.
    closed spec fn view(&self) -> Set<DeviceClaim> {
        self.claims().to_set()
    }
}

impl DeviceSubmissions {
    /// The rows as claims, in the order they were made.
    pub closed spec fn claims(&self) -> Seq<DeviceClaim> {
        self.rows@.map_values(|row: DeviceSubmission| row@)
    }

    /// No triple is held twice.
    pub closed spec fn wf(&self) -> bool {
        self.claims().no_duplicates()
    }

    /// An empty table.
    pub fn new() -> (table: Self)
        ensures
            table.wf(),
            table@ == Set::<DeviceClaim>::empty(),
    {
        let table = DeviceSubmissions { rows: Vec::new() };
        assert(table.claims() =~= Seq::<DeviceClaim>::empty());
        assert(table@ =~= Set::<DeviceClaim>::empty());
        table
    }

    /// The set of claims is finite and, in a well-formed table, as large as the
    /// number of rows.
    pub proof fn lemma_finite(&self)
        ensures
            self@.finite(),
            self.wf() ==> self@.len() == self.claims().len(),
    {
        vstd::seq_lib::seq_to_set_is_finite(self.claims());
        if self.wf() {
            self.claims().unique_seq_to_set();
        }
    }

    /// Number of claims held.
    pub fn len(&self) -> (n: usize)
        requires
            self.wf(),
        ensures
            n == self@.len(),
    {
        proof {
            self.lemma_finite();
        }
        self.rows.len()
    }

    /// Tells whether the device was already used for the course on the day.
    pub fn check_device_submission_today(&self, course_id: u128, ip_address: &str, today: i64) -> (used:
        bool)
        ensures
            used == self@.contains(
                DeviceClaim { course_id, ip_address: ip_address@, submission_date: today },
            ),
    {
        let ghost key = DeviceClaim { course_id, ip_address: ip_address@, submission_date: today };
        let mut i: usize = 0;
        while i < self.rows.len()
            invariant
                i <= self.rows@.len(),
                key == (DeviceClaim { course_id, ip_address: ip_address@, submission_date: today }),
                forall|j: int| 0 <= j < i ==> self.claims()[j] != key,
            decreases self.rows@.len() - i,
        {
            let row = &self.rows[i];
            if row.course_id == course_id && row.submission_date == today && eq_text(
                row.ip_address.as_str(),
                ip_address,
            ) {
                assert(self.claims()[i as int] == key);
                assert(self.claims().contains(key));
                return true;
            }
            i += 1;
        }
        assert(!self.claims().contains(key));
        false
    }

    /// Claims the device for the course on the day. Exactly one of any number
    /// of attempts on the same triple is `Claimed`; the table changes only
    /// then, by that one triple.
    pub fn claim_device(&mut self, course_id: u128, ip_address: &str, today: i64) -> (outcome:
        ClaimOutcome)
        requires
            old(self).wf(),
        ensures
            final(self).wf(),
            outcome == claim_outcome(
                old(self)@,
                DeviceClaim { course_id, ip_address: ip_address@, submission_date: today },
            ),
            final(self)@ == old(self)@.insert(
                DeviceClaim { course_id, ip_address: ip_address@, submission_date: today },
            ),
    {
        let ghost key = DeviceClaim { course_id, ip_address: ip_address@, submission_date: today };
        if self.check_device_submission_today(course_id, ip_address, today) {
            assert(self@.insert(key) =~= self@);
            return ClaimOutcome::AlreadyClaimed;
        }
        let ghost before = self.claims();
        self.rows.push(
            DeviceSubmission {
                course_id,
                ip_address: ip_address.to_owned(),
                submission_date: today,
            },
        );
        proof {
            assert(self.claims() =~= before.push(key));
            before.lemma_push_to_set_commute(key);
            assert(!before.contains(key));
            assert forall|i: int, j: int|
                0 <= i < self.claims().len() && 0 <= j < self.claims().len() && i
                    != j implies self.claims()[i] != self.claims()[j] by {
                if i < before.len() && j < before.len() {
                    assert(before[i] != before[j]);
                } else if i < before.len() {
                    assert(before.contains(before[i]));
                } else {
                    assert(before.contains(before[j]));
                }
            }
        }
        ClaimOutcome::Claimed
    }

    /// Records the device for the course on the day, or reports a conflict
    /// where it was recorded before. A duplicate is a conflict, never a storage
    /// error.
    pub fn record_device_submission(&mut self, course_id: u128, ip_address: &str, today: i64) -> (r:
        Result<(), AppError>)
        requires
            old(self).wf(),
        ensures
            final(self).wf(),
            final(self)@ == old(self)@.insert(
                DeviceClaim { course_id, ip_address: ip_address@, submission_date: today },
            ),
            match claim_outcome(
                old(self)@,
                DeviceClaim { course_id, ip_address: ip_address@, submission_date: today },
            ) {
                ClaimOutcome::Claimed => r is Ok,
                ClaimOutcome::AlreadyClaimed => r is Err && r->Err_0@ == ErrorView::Conflict(
                    device_conflict_message(),
                ),
            },
    {
        claim_result(self.claim_device(course_id, ip_address, today))
    }
}

/// What claiming `key` comes to when `taken` are the claims made before.
pub open spec fn claim_outcome(taken: Set<DeviceClaim>, key: DeviceClaim) -> ClaimOutcome {
    if taken.contains(key) {
        ClaimOutcome::AlreadyClaimed
    } else {
        ClaimOutcome::Claimed
    }
}

/// Turns the outcome of a claim into the result handed to the caller: a
/// refused claim is a conflict with a sentence for the client.
pub fn claim_result(outcome: ClaimOutcome) -> (r: Result<(), AppError>)
    ensures
        match outcome {
            ClaimOutcome::Claimed => r is Ok,
            ClaimOutcome::AlreadyClaimed => r is Err && r->Err_0@ == ErrorView::Conflict(
                device_conflict_message(),
            ),
        },
{
    match outcome {
        ClaimOutcome::Claimed => Ok(()),
        ClaimOutcome::AlreadyClaimed => Err(
            AppError::Conflict(
                String::from_str(
                    "This device has already been used to mark attendance for this course today.",
                ),
            ),
        ),
    }
}

} // verus!
