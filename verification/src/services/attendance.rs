//! Submissions carried through from receipt to broadcast.
//!
//! The service owns the tables and the registry and walks a submission
//! through its steps against them: what [`advance`] asks for is done at once
//! and its reply handed back, until the path ends.

use crate::clock::utc_now_millis;
use crate::clock::CLOCK_END;
use crate::clock::day_of;
use crate::codes::verdict;
use crate::codes::verdict_error;
use crate::codes::CodeDetailsView;
use crate::codes::CodeVerdict;
use crate::db::attendance::present_count;
use crate::db::attendance::students_present;
use crate::db::attendance::table_full_message;
use crate::db::attendance::RecordView;
use crate::db::device_submissions::device_conflict_message;
use crate::db::device_submissions::DeviceClaim;
use crate::db::Database;
use crate::errors::AppError;
use crate::errors::DatabaseFault;
use crate::errors::ErrorView;
use crate::models::attendance::AttendanceResponse;
use crate::models::attendance::ResponseView;
use crate::models::attendance::Submission;
use crate::models::attendance::SubmissionView;
use crate::submission::advance;
use crate::submission::answer_view;
use crate::submission::begin;
use crate::submission::state_after_verdict;
use crate::submission::student_conflict_message;
use crate::submission::success_message;
use crate::submission::unexpected_reply_message;
use crate::submission::Command;
use crate::submission::Reply;
use crate::submission::SubmissionState;
use crate::ws_server::attendance_update_message;
use crate::ws_server::fan_out;
use crate::ws_server::update_text;
use crate::ws_server::AttendanceServer;
use crate::ws_server::AttendanceUpdate;
use crate::ws_server::Connect;
use crate::ws_server::Disconnect;
use crate::ws_server::Outgoing;
use vstd::prelude::*;
use vstd::string::*;

verus! {

/// The device claim that a submission makes on the day of `now`.
pub open spec fn claim_of(s: SubmissionView, now: i64) -> DeviceClaim {
    DeviceClaim {
        course_id: s.course_id,
        ip_address: s.ip_address,
        submission_date: day_of(now) as i64,
    }
}

/// The record that a submission adds as row number `id`: stamped with the
/// instant of the submission, with the code as it was typed and the address
/// it came from.
pub open spec fn record_of(s: SubmissionView, now: i64, id: int) -> RecordView {
    RecordView {
        id: id as i64,
        course_id: s.course_id,
        student_name: s.student_name,
        student_id: s.student_id,
        timestamp: now,
        submitted_code: s.confirmation_code,
        ip_address: Some(s.ip_address),
    }
}

/// Where the path of a submission ends, given what the tables held when it
/// arrived.
pub open spec fn outcome(
    details: CodeDetailsView,
    claims: Set<DeviceClaim>,
    records: Seq<RecordView>,
    s: SubmissionView,
    now: i64,
) -> SubmissionState {
    let v = verdict(details, s.confirmation_code, now);
    if v != CodeVerdict::Valid {
        state_after_verdict(v)
    } else if claims.contains(claim_of(s, now)) {
        SubmissionState::RejectedDeviceDuplicate
    } else if students_present(records, s.course_id, day_of(now) as i64).contains(s.student_id) {
        SubmissionState::RejectedStudentDuplicate
    } else if records.len() >= i64::MAX {
        SubmissionState::Failed
    } else {
        SubmissionState::Completed
    }
}

/// The answer the client gets for each way the path can end.
pub open spec fn answer_for(end: SubmissionState, s: SubmissionView) -> Result<
    ResponseView,
    ErrorView,
> {
    match end {
        SubmissionState::Completed => Ok(
            ResponseView { message: success_message(), student_name: s.student_name },
        ),
        SubmissionState::RejectedInvalidCode => Err(ErrorView::InvalidCode),
        SubmissionState::RejectedExpiredCode => Err(ErrorView::ExpiredCode),
        SubmissionState::RejectedNotFound => Err(
            verdict_error(CodeVerdict::CourseNotFound, s.course_id)->Some_0,
        ),
        SubmissionState::RejectedDeviceDuplicate => Err(
            ErrorView::Conflict(device_conflict_message()),
        ),
        SubmissionState::RejectedStudentDuplicate => Err(
            ErrorView::Conflict(student_conflict_message(s.student_id)),
        ),
        _ => Err(ErrorView::InternalError(table_full_message())),
    }
}

/// The claims held once the submission has been dealt with: the device is
/// claimed as soon as the code is accepted, whatever follows.
pub open spec fn claims_after(
    details: CodeDetailsView,
    claims: Set<DeviceClaim>,
    s: SubmissionView,
    now: i64,
) -> Set<DeviceClaim> {
    if verdict(details, s.confirmation_code, now) == CodeVerdict::Valid {
        claims.insert(claim_of(s, now))
    } else {
        claims
    }
}

/// The records held once the submission has been dealt with: one more where
/// it was completed, the same otherwise.
pub open spec fn records_after(
    end: SubmissionState,
    records: Seq<RecordView>,
    s: SubmissionView,
    now: i64,
) -> Seq<RecordView> {
    if end == SubmissionState::Completed {
        records.push(record_of(s, now, records.len() as int + 1))
    } else {
        records
    }
}

/// The service went from `before` to `after` by carrying the submission
/// `s`, made at `now`, through its steps, and `done` is how it ended.
pub open spec fn carried_through(
    before: AttendanceService,
    after: AttendanceService,
    s: SubmissionView,
    now: i64,
    done: Submitted,
) -> bool {
    let details = before.db.courses.details(s.course_id);
    &&& after.server == before.server
    &&& after.db.courses == before.db.courses
    &&& done.state == outcome(details, before.db.devices@, before.db.attendance@, s, now)
    &&& answer_view(done.answer) == answer_for(done.state, s)
    &&& after.db.devices@ == claims_after(details, before.db.devices@, s, now)
    &&& after.db.attendance@ == records_after(done.state, before.db.attendance@, s, now)
    &&& done.state == SubmissionState::Completed ==> fan_out(
        done.deliveries@,
        after.server.members(s.course_id),
        update_text(present_count(after.db.attendance@, s.course_id, day_of(now) as i64) as u64),
    )
    &&& done.state != SubmissionState::Completed ==> done.deliveries@.len() == 0
}

/// How a submission ended.
pub struct Submitted {
    /// The state the path ended in.
    pub state: SubmissionState,
    /// The answer for the client.
    pub answer: Result<AttendanceResponse, AppError>,
    /// The messages for the dashboards of the course.
    pub deliveries: Vec<Outgoing>,
}

/// The tables and the registry, with the rules that tie them together.
pub struct AttendanceService {
    pub db: Database,
    pub server: AttendanceServer,
}

impl AttendanceService {
    /// The tables and the registry are well formed.
    pub open spec fn wf(&self) -> bool {
        self.db.wf() && self.server.wf()
    }

    /// A service over the given tables and registry.
    pub fn new(db: Database, server: AttendanceServer) -> (service: Self)
        ensures
            service.db == db,
            service.server == server,
    {
        AttendanceService { db, server }
    }

    /// Counts the distinct students present for a course on the day.
    pub fn count_present_students(&self, course_id: u128, today: i64) -> (count: usize)
        ensures
            count == present_count(self.db.attendance@, course_id, today),
    {
        self.db.attendance.fetch_todays_attendance_count(course_id, today)
    }

    /// Lists the messages that tell the dashboards of a course the count of
    /// students present on the day.
    pub fn broadcast_attendance_update(&self, course_id: u128, today: i64) -> (out: Vec<Outgoing>)
        requires
            self.wf(),
        ensures
            fan_out(
                out@,
                self.server.members(course_id),
                update_text(present_count(self.db.attendance@, course_id, today) as u64),
            ),
    {
        let present_count = self.count_present_students(course_id, today);
        self.server.attendance_update(AttendanceUpdate { course_id, present_count })
    }

    /// Carries a submission through its steps at the current instant. The
    /// record it adds is stamped with the server's clock, never with anything
    /// the client sent. The instant is whatever the clock gave: the submission
    /// is carried through as [`AttendanceService::submit_attendance_at`] does
    /// for some instant on the clock.
    pub fn submit_attendance(&mut self, submission: &Submission) -> (done: Submitted)
        requires
            old(self).wf(),
        ensures
            final(self).wf(),
            exists|now: i64|
                0 <= now < CLOCK_END && #[trigger] carried_through(
                    *old(self),
                    *final(self),
                    submission@,
                    now,
                    done,
                ),
    {
        let now = utc_now_millis();
        let done = self.submit_attendance_at(submission, now);
        assert(carried_through(*old(self), *self, submission@, now, done));
        done
    }

    /// Lets a dashboard join the room of its course and writes its first
    /// update: the count of students present on the day, as it stands at that
    /// moment, so that a dashboard that joins late does not start from zero.
    pub fn join(&mut self, msg: Connect, today: i64) -> (first: Outgoing)
        requires
            old(self).wf(),
        ensures
            final(self).wf(),
            final(self).db == old(self).db,
            final(self).server.members(msg.course_id) == old(self).server.members(
                msg.course_id,
            ).insert(msg.session_id),
            forall|other: u128|
                other != msg.course_id ==> final(self).server.members(other) == old(self).server.members(other),
            first.session_id == msg.session_id,
            first.message.0@ == update_text(
                present_count(old(self).db.attendance@, msg.course_id, today) as u64,
            ),
    {
        let session_id = msg.session_id;
        let course_id = msg.course_id;
        self.server.connect(msg);
        let present_count = self.db.attendance.fetch_todays_attendance_count(course_id, today);
        Outgoing { session_id, message: attendance_update_message(present_count) }
    }

    /// Takes a dashboard out of the room of its course.
    pub fn leave(&mut self, msg: Disconnect)
        requires
            old(self).wf(),
        ensures
            final(self).wf(),
            final(self).db == old(self).db,
            final(self).server.members(msg.course_id) == old(self).server.members(
                msg.course_id,
            ).remove(msg.session_id),
            !final(self).server.members(msg.course_id).contains(msg.session_id),
            forall|other: u128|
                other != msg.course_id ==> final(self).server.members(other) == old(self).server.members(other),
    {
        self.server.disconnect(msg);
    }

    /// Carries a submission made at the instant `now` through its steps.
    ///
    /// The path ends where [`outcome`] says. The device is claimed exactly
    /// when the code is accepted; a record is added exactly when the path
    /// completes; the dashboards of the course are told the new count exactly
    /// then, and the count includes the record just added.
    pub fn submit_attendance_at(&mut self, submission: &Submission, now: i64) -> (done: Submitted)
        requires
            old(self).wf(),
        ensures
            final(self).wf(),
            carried_through(*old(self), *final(self), submission@, now, done),
    {
        let (state, command) = begin(submission);
        let details = match command {
            Command::FetchCode { course_id } => self.db.courses.fetch_course_code_details(
                course_id,
            ),
            _ => {
                return Submitted { state, answer: stray(), deliveries: Vec::new() };
            },
        };
        let (state, command) = advance(state, submission, now, Reply::Code(details));
        let claimed = match command {
            Command::ClaimDevice { course_id, ip_address, day } => self.db.devices.claim_device(
                course_id,
                ip_address.as_str(),
                day,
            ),
            Command::Finish(answer) => {
                return Submitted { state, answer, deliveries: Vec::new() };
            },
            _ => {
                return Submitted { state, answer: stray(), deliveries: Vec::new() };
            },
        };
        let (state, command) = advance(state, submission, now, Reply::Claim(claimed));
        let seen = match command {
            Command::CheckStudent {
                course_id,
                student_id,
                day,
            } => self.db.attendance.check_student_attendance_today(
                course_id,
                student_id.as_str(),
                day,
            ),
            Command::Finish(answer) => {
                assert(self.db.devices@.insert(claim_of(submission@, now)) =~= self.db.devices@);
                return Submitted { state, answer, deliveries: Vec::new() };
            },
            _ => {
                return Submitted { state, answer: stray(), deliveries: Vec::new() };
            },
        };
        let (state, command) = advance(state, submission, now, Reply::StudentSeen(seen));
        let inserted = match command {
            Command::Record {
                course_id,
                student_name,
                student_id,
                submitted_code,
                ip_address,
                timestamp,
            } => self.db.attendance.record_attendance(
                course_id,
                student_name.as_str(),
                student_id.as_str(),
                submitted_code.as_str(),
                Some(ip_address.as_str()),
                timestamp,
            ),
            Command::Finish(answer) => {
                return Submitted { state, answer, deliveries: Vec::new() };
            },
            _ => {
                return Submitted { state, answer: stray(), deliveries: Vec::new() };
            },
        };
        let reply = match inserted {
            Ok(record) => Reply::Recorded(record),
            Err(_) => Reply::Failed(
                DatabaseFault::Other(
                    String::from_str("Attendance table cannot take another record"),
                ),
            ),
        };
        let (state, command) = advance(state, submission, now, reply);
        let count = match command {
            Command::CountToday {
                course_id,
                day,
            } => self.db.attendance.fetch_todays_attendance_count(course_id, day),
            Command::Finish(answer) => {
                return Submitted { state, answer, deliveries: Vec::new() };
            },
            _ => {
                return Submitted { state, answer: stray(), deliveries: Vec::new() };
            },
        };
        let (state, command) = advance(state, submission, now, Reply::Count(count));
        let deliveries = match command {
            Command::Broadcast { course_id, present_count } => self.server.attendance_update(
                AttendanceUpdate { course_id, present_count },
            ),
            Command::Finish(answer) => {
                return Submitted { state, answer, deliveries: Vec::new() };
            },
            _ => {
                return Submitted { state, answer: stray(), deliveries: Vec::new() };
            },
        };
        let (state, command) = advance(state, submission, now, Reply::Delivered);
        match command {
            Command::Finish(answer) => Submitted { state, answer, deliveries },
            _ => Submitted { state, answer: stray(), deliveries },
        }
    }
}

/// The answer for a command that the rules never give at that step.
fn stray() -> (answer: Result<AttendanceResponse, AppError>)
    ensures
        answer_view(answer) == Err::<ResponseView, ErrorView>(
            ErrorView::InternalError(unexpected_reply_message()),
        ),
{
    Err(
        AppError::InternalError(
            String::from_str("Unexpected reply for this step of the submission"),
        ),
    )
}

} // verus!
