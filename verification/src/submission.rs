//! The path of one submission, step by step.
//!
//! A submission is received, its code is checked, its device is claimed, its
//! student is checked, it is recorded, the new count is broadcast, and it is
//! complete. The steps run in that order and every failure ends the path at
//! once: a submission whose code is refused never claims a device, and one
//! that is refused as a duplicate never adds a record.
//!
//! The rules do not touch storage themselves. [`advance`] takes what the
//! caller observed at the last step and answers with the next state and the
//! next thing to do; the caller does it and comes back with the reply.

use crate::clock::day_index;
use crate::clock::day_of;
use crate::codes::check_code;
use crate::codes::verdict;
use crate::codes::verdict_error;
use crate::codes::verdict_result;
use crate::codes::CodeDetails;
use crate::codes::CodeDetailsView;
use crate::codes::CodeVerdict;
use crate::db::attendance::AttendanceRecord;
use crate::db::attendance::RecordView;
use crate::db::device_submissions::claim_result;
use crate::db::device_submissions::device_conflict_message;
use crate::db::device_submissions::ClaimOutcome;
use crate::errors::database_error;
use crate::errors::AppError;
use crate::errors::DatabaseFault;
use crate::errors::ErrorView;
use crate::errors::FaultView;
use crate::ids::parse_uuid;
use crate::ids::parsed_uuid;
use crate::models::attendance::AttendanceResponse;
use crate::models::attendance::ResponseView;
use crate::models::attendance::Submission;
use crate::models::attendance::SubmissionView;
use crate::models::attendance::SubmitAttendancePayload;
use vstd::prelude::*;
use vstd::string::*;

verus! {

/// Where a submission stands.
#[derive(Clone, Copy, Debug, PartialEq, Eq, Structural)]
pub enum SubmissionState {
    Received,
    CodeChecked,
    DeviceClaimed,
    StudentChecked,
    Recorded,
    Broadcasted,
    Completed,
    RejectedInvalidCode,
    RejectedExpiredCode,
    RejectedDeviceDuplicate,
    RejectedStudentDuplicate,
    RejectedNotFound,
    /// Storage failed, or a reply did not belong to the step.
    Failed,
}

impl SubmissionState {
    /// The path has ended: complete, rejected or failed.
    pub open spec fn is_terminal(&self) -> bool {
        match self {
            SubmissionState::Received => false,
            SubmissionState::CodeChecked => false,
            SubmissionState::DeviceClaimed => false,
            SubmissionState::StudentChecked => false,
            SubmissionState::Recorded => false,
            SubmissionState::Broadcasted => false,
            _ => true,
        }
    }

    /// Tells whether the path has ended.
    pub fn finished(&self) -> (done: bool)
        ensures
            done == self.is_terminal(),
    {
        match self {
            SubmissionState::Received => false,
            SubmissionState::CodeChecked => false,
            SubmissionState::DeviceClaimed => false,
            SubmissionState::StudentChecked => false,
            SubmissionState::Recorded => false,
            SubmissionState::Broadcasted => false,
            _ => true,
        }
    }
}

/// What the caller is to do next.
pub enum Command {
    /// Read what the store knows of the course's code.
    FetchCode { course_id: u128 },
    /// Insert the device claim; a refusal by the uniqueness constraint is the
    /// reply `AlreadyClaimed`.
    ClaimDevice { course_id: u128, ip_address: String, day: i64 },
    /// Tell whether the student has a record for the course on the day.
    CheckStudent { course_id: u128, student_id: String, day: i64 },
    /// Insert one attendance record.
    Record {
        course_id: u128,
        student_name: String,
        student_id: String,
        submitted_code: String,
        ip_address: String,
        timestamp: i64,
    },
    /// Count the distinct students present for the course on the day.
    CountToday { course_id: u128, day: i64 },
    /// Tell the dashboards of the course the new count.
    Broadcast { course_id: u128, present_count: usize },
    /// Answer the client; the path has ended.
    Finish(Result<AttendanceResponse, AppError>),
}

/// A [`Command`] as plain values.
pub enum CommandView {
    FetchCode { course_id: u128 },
    ClaimDevice { course_id: u128, ip_address: Seq<char>, day: i64 },
    CheckStudent { course_id: u128, student_id: Seq<char>, day: i64 },
    Record {
        course_id: u128,
        student_name: Seq<char>,
        student_id: Seq<char>,
        submitted_code: Seq<char>,
        ip_address: Seq<char>,
        timestamp: i64,
    },
    CountToday { course_id: u128, day: i64 },
    Broadcast { course_id: u128, present_count: usize },
    Finish(Result<ResponseView, ErrorView>),
}

/// The answer to a client as plain values.
pub open spec fn answer_view(answer: Result<AttendanceResponse, AppError>) -> Result<
    ResponseView,
    ErrorView,
> {
    match answer {
        Ok(response) => Ok(response@),
        Err(error) => Err(error@),
    }
}

impl View for Command {
    type V = CommandView;

    open spec fn view(&self) -> CommandView {
        match self {
            Command::FetchCode { course_id } => CommandView::FetchCode { course_id: *course_id },
            Command::ClaimDevice { course_id, ip_address, day } => CommandView::ClaimDevice {
                course_id: *course_id,
                ip_address: ip_address@,
                day: *day,
            },
            Command::CheckStudent { course_id, student_id, day } => CommandView::CheckStudent {
                course_id: *course_id,
                student_id: student_id@,
                day: *day,
            },
            Command::Record {
                course_id,
                student_name,
                student_id,
                submitted_code,
                ip_address,
                timestamp,
            } => CommandView::Record {
                course_id: *course_id,
                student_name: student_name@,
                student_id: student_id@,
                submitted_code: submitted_code@,
                ip_address: ip_address@,
                timestamp: *timestamp,
            },
            Command::CountToday { course_id, day } => CommandView::CountToday {
                course_id: *course_id,
                day: *day,
            },
            Command::Broadcast { course_id, present_count } => CommandView::Broadcast {
                course_id: *course_id,
                present_count: *present_count,
            },
            Command::Finish(answer) => CommandView::Finish(answer_view(*answer)),
        }
    }
}

/// What the caller observed when it did what it was told.
pub enum Reply {
    /// What the store knows of the course's code.
    Code(CodeDetails),
    /// Whether the device claim was inserted or refused.
    Claim(ClaimOutcome),
    /// Whether the student already has a record today.
    StudentSeen(bool),
    /// The record as it was inserted.
    Recorded(AttendanceRecord),
    /// The count of distinct students present today.
    Count(usize),
    /// The broadcast was handed to the registry.
    Delivered,
    /// Storage failed.
    Failed(DatabaseFault),
}

/// A [`Reply`] as plain values.
pub enum ReplyView {
    Code(CodeDetailsView),
    Claim(ClaimOutcome),
    StudentSeen(bool),
    Recorded(RecordView),
    Count(usize),
    Delivered,
    Failed(FaultView),
}

impl View for Reply {
    type V = ReplyView;

    open spec fn view(&self) -> ReplyView {
        match self {
            Reply::Code(details) => ReplyView::Code(details@),
            Reply::Claim(outcome) => ReplyView::Claim(*outcome),
            Reply::StudentSeen(seen) => ReplyView::StudentSeen(*seen),
            Reply::Recorded(record) => ReplyView::Recorded(record@),
            Reply::Count(count) => ReplyView::Count(*count),
            Reply::Delivered => ReplyView::Delivered,
            Reply::Failed(fault) => ReplyView::Failed(fault@),
        }
    }
}

/// The sentence sent with an accepted submission.
pub open spec fn success_message() -> Seq<char> {
    "Attendance recorded successfully!"@
}

/// The sentence sent to a student who was already marked present.
pub open spec fn student_conflict_message(student_id: Seq<char>) -> Seq<char> {
    "Student ID '"@ + student_id
        + "' has already been marked present for this course today."@
}

/// The sentence sent when the course identifier is not a UUID.
pub open spec fn bad_course_id_message() -> Seq<char> {
    "Invalid course_id format in payload. Expected UUID."@
}

/// The sentence kept for the log when a reply does not belong to the step.
pub open spec fn unexpected_reply_message() -> Seq<char> {
    "Unexpected reply for this step of the submission"@
}

/// The state reached from `Received` once the code has been judged.
pub open spec fn state_after_verdict(v: CodeVerdict) -> SubmissionState {
    match v {
        CodeVerdict::Valid => SubmissionState::CodeChecked,
        CodeVerdict::InvalidCode => SubmissionState::RejectedInvalidCode,
        CodeVerdict::ExpiredCode => SubmissionState::RejectedExpiredCode,
        CodeVerdict::CourseNotFound => SubmissionState::RejectedNotFound,
    }
}

/// The transition: from a state and the reply to the step just done, the
/// next state and the next thing to do.
pub open spec fn step(state: SubmissionState, s: SubmissionView, now: i64, reply: ReplyView) -> (
    SubmissionState,
    CommandView,
) {
    let misuse = (
        if state.is_terminal() {
            state
        } else {
            SubmissionState::Failed
        },
        CommandView::Finish(Err(ErrorView::InternalError(unexpected_reply_message()))),
    );
    if state.is_terminal() {
        misuse
    } else {
        match (state, reply) {
            (_, ReplyView::Failed(fault)) => (
                SubmissionState::Failed,
                CommandView::Finish(Err(database_error(fault))),
            ),
            (SubmissionState::Received, ReplyView::Code(details)) => {
                let v = verdict(details, s.confirmation_code, now);
                match verdict_error(v, s.course_id) {
                    None => (
                        SubmissionState::CodeChecked,
                        CommandView::ClaimDevice {
                            course_id: s.course_id,
                            ip_address: s.ip_address,
                            day: day_of(now) as i64,
                        },
                    ),
                    Some(error) => (state_after_verdict(v), CommandView::Finish(Err(error))),
                }
            },
            (SubmissionState::CodeChecked, ReplyView::Claim(outcome)) => match outcome {
                ClaimOutcome::Claimed => (
                    SubmissionState::DeviceClaimed,
                    CommandView::CheckStudent {
                        course_id: s.course_id,
                        student_id: s.student_id,
                        day: day_of(now) as i64,
                    },
                ),
                ClaimOutcome::AlreadyClaimed => (
                    SubmissionState::RejectedDeviceDuplicate,
                    CommandView::Finish(Err(ErrorView::Conflict(device_conflict_message()))),
                ),
            },
            (SubmissionState::DeviceClaimed, ReplyView::StudentSeen(seen)) => if seen {
                (
                    SubmissionState::RejectedStudentDuplicate,
                    CommandView::Finish(
                        Err(ErrorView::Conflict(student_conflict_message(s.student_id))),
                    ),
                )
            } else {
                (
                    SubmissionState::StudentChecked,
                    CommandView::Record {
                        course_id: s.course_id,
                        student_name: s.student_name,
                        student_id: s.student_id,
                        submitted_code: s.confirmation_code,
                        ip_address: s.ip_address,
                        timestamp: now,
                    },
                )
            },
            (SubmissionState::StudentChecked, ReplyView::Recorded(record)) => (
                SubmissionState::Recorded,
                CommandView::CountToday { course_id: s.course_id, day: day_of(now) as i64 },
            ),
            (SubmissionState::Recorded, ReplyView::Count(count)) => (
                SubmissionState::Broadcasted,
                CommandView::Broadcast { course_id: s.course_id, present_count: count },
            ),
            (SubmissionState::Broadcasted, ReplyView::Delivered) => (
                SubmissionState::Completed,
                CommandView::Finish(
                    Ok(ResponseView { message: success_message(), student_name: s.student_name }),
                ),
            ),
            _ => misuse,
        }
    }
}

/// Reads the course identifier of a payload and pairs the payload with the
/// address it came from. A course identifier that is not a UUID is bad input.
pub fn receive(payload: &SubmitAttendancePayload, ip_address: &str) -> (r: Result<
    Submission,
    AppError,
>)
    ensures
        match parsed_uuid(payload.course_id@) {
            Some(course_id) => r is Ok && r->Ok_0@ == (SubmissionView {
                course_id,
                student_name: payload.student_name@,
                student_id: payload.student_id@,
                confirmation_code: payload.confirmation_code@,
                ip_address: ip_address@,
            }),
            None => r is Err && r->Err_0@ == ErrorView::BadClientData(bad_course_id_message()),
        },
{
    match parse_uuid(payload.course_id.as_str()) {
        Some(course_id) => Ok(
            Submission {
                course_id,
                student_name: payload.student_name.clone(),
                student_id: payload.student_id.clone(),
                confirmation_code: payload.confirmation_code.clone(),
                ip_address: ip_address.to_owned(),
            },
        ),
        None => Err(
            AppError::BadClientData(
                String::from_str("Invalid course_id format in payload. Expected UUID."),
            ),
        ),
    }
}

/// The first thing to do for a submission that was received: read the code
/// of its course.
pub fn begin(submission: &Submission) -> (start: (SubmissionState, Command))
    ensures
        start.0 == SubmissionState::Received,
        start.1@ == (CommandView::FetchCode { course_id: submission.course_id }),
{
    (SubmissionState::Received, Command::FetchCode { course_id: submission.course_id })
}

fn misuse(state: SubmissionState) -> (next: (SubmissionState, Command))
    ensures
        next.0 == if state.is_terminal() {
            state
        } else {
            SubmissionState::Failed
        },
        next.1@ == CommandView::Finish(Err(ErrorView::InternalError(unexpected_reply_message()))),
{
    let to = if state.finished() {
        state
    } else {
        SubmissionState::Failed
    };
    (
        to,
        Command::Finish(
            Err(
                AppError::InternalError(
                    String::from_str("Unexpected reply for this step of the submission"),
                ),
            ),
        ),
    )
}

/// Takes the reply to the step just done and answers with the next state and
/// the next thing to do. A reply that does not belong to the step, or any
/// reply after the path has ended, ends in an internal error.
pub fn advance(state: SubmissionState, submission: &Submission, now: i64, reply: Reply) -> (next: (
    SubmissionState,
    Command,
))
    ensures
        (next.0, next.1@) == step(state, submission@, now, reply@),
{
    if state.finished() {
        return misuse(state);
    }
    match reply {
        Reply::Failed(fault) => (
            SubmissionState::Failed,
            Command::Finish(Err(AppError::from_database(fault))),
        ),
        Reply::Code(details) => match state {
            SubmissionState::Received => {
                let v = check_code(&details, submission.confirmation_code.as_str(), now);
                match verdict_result(v, submission.course_id) {
                    Ok(_) => (
                        SubmissionState::CodeChecked,
                        Command::ClaimDevice {
                            course_id: submission.course_id,
                            ip_address: submission.ip_address.clone(),
                            day: day_index(now),
                        },
                    ),
                    Err(error) => {
                        let to = match v {
                            CodeVerdict::Valid => SubmissionState::CodeChecked,
                            CodeVerdict::InvalidCode => SubmissionState::RejectedInvalidCode,
                            CodeVerdict::ExpiredCode => SubmissionState::RejectedExpiredCode,
                            CodeVerdict::CourseNotFound => SubmissionState::RejectedNotFound,
                        };
                        (to, Command::Finish(Err(error)))
                    },
                }
            },
            _ => misuse(state),
        },
        Reply::Claim(outcome) => match state {
            SubmissionState::CodeChecked => match claim_result(outcome) {
                Ok(_) => (
                    SubmissionState::DeviceClaimed,
                    Command::CheckStudent {
                        course_id: submission.course_id,
                        student_id: submission.student_id.clone(),
                        day: day_index(now),
                    },
                ),
                Err(error) => (SubmissionState::RejectedDeviceDuplicate, Command::Finish(Err(error))),
            },
            _ => misuse(state),
        },
        Reply::StudentSeen(seen) => match state {
            SubmissionState::DeviceClaimed => {
                if seen {
                    let message = String::from_str("Student ID '").concat(
                        submission.student_id.as_str(),
                    ).concat("' has already been marked present for this course today.");
                    (
                        SubmissionState::RejectedStudentDuplicate,
                        Command::Finish(Err(AppError::Conflict(message))),
                    )
                } else {
                    (
                        SubmissionState::StudentChecked,
                        Command::Record {
                            course_id: submission.course_id,
                            student_name: submission.student_name.clone(),
                            student_id: submission.student_id.clone(),
                            submitted_code: submission.confirmation_code.clone(),
                            ip_address: submission.ip_address.clone(),
                            timestamp: now,
                        },
                    )
                }
            },
            _ => misuse(state),
        },
        Reply::Recorded(_) => match state {
            SubmissionState::StudentChecked => (
                SubmissionState::Recorded,
                Command::CountToday { course_id: submission.course_id, day: day_index(now) },
            ),
            _ => misuse(state),
        },
        Reply::Count(count) => match state {
            SubmissionState::Recorded => (
                SubmissionState::Broadcasted,
                Command::Broadcast { course_id: submission.course_id, present_count: count },
            ),
            _ => misuse(state),
        },
        Reply::Delivered => match state {
            SubmissionState::Broadcasted => (
                SubmissionState::Completed,
                Command::Finish(
                    Ok(
                        AttendanceResponse {
                            message: String::from_str("Attendance recorded successfully!"),
                            student_name: submission.student_name.clone(),
                        },
                    ),
                ),
            ),
            _ => misuse(state),
        },
    }
}

/// What a finished insert of a device claim means for the path: success is
/// `Claimed`, a refusal by the uniqueness constraint is `AlreadyClaimed`, and
/// any other failure is a storage failure.
pub fn claim_reply(inserted: Result<(), DatabaseFault>) -> (reply: Reply)
    ensures
        reply@ == match inserted {
            Ok(_) => ReplyView::Claim(ClaimOutcome::Claimed),
            Err(DatabaseFault::UniqueViolation) => ReplyView::Claim(ClaimOutcome::AlreadyClaimed),
            Err(fault) => ReplyView::Failed(fault@),
        },
{
    match inserted {
        Ok(_) => Reply::Claim(ClaimOutcome::Claimed),
        Err(fault) => match fault {
            DatabaseFault::UniqueViolation => Reply::Claim(ClaimOutcome::AlreadyClaimed),
            other => Reply::Failed(other),
        },
    }
}

/// The address a submission is filed under when the connection gave none.
pub fn client_address(remote: Option<&str>) -> (address: String)
    ensures
        address@ == match remote {
            Some(text) => text@,
            None => "unknown"@,
        },
{
    match remote {
        Some(text) => text.to_owned(),
        None => String::from_str("unknown"),
    }
}

} // verus!
