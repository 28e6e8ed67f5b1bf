//! What a student sends to be marked present, and what comes back.

use vstd::prelude::*;

verus! {

/// The body of a submission as it arrives: every field is text, the course
/// identifier included.
pub struct SubmitAttendancePayload {
    pub course_id: String,
    pub student_name: String,
    pub student_id: String,
    pub confirmation_code: String,
}

/// The answer to a submission that was accepted.
pub struct AttendanceResponse {
    pub message: String,
    pub student_name: String,
}

/// An [`AttendanceResponse`] as plain text.
pub struct ResponseView {
    pub message: Seq<char>,
    pub student_name: Seq<char>,
}

impl View for AttendanceResponse {
    type V = ResponseView;

    open spec fn view(&self) -> ResponseView {
        ResponseView { message: self.message@, student_name: self.student_name@ }
    }
}

/// A submission whose course identifier has been read, together with the
/// address it came from.
pub struct Submission {
    pub course_id: u128,
    pub student_name: String,
    pub student_id: String,
    pub confirmation_code: String,
    pub ip_address: String,
}

/// A [`Submission`] as plain values.
pub struct SubmissionView {
    pub course_id: u128,
    pub student_name: Seq<char>,
    pub student_id: Seq<char>,
    pub confirmation_code: Seq<char>,
    pub ip_address: Seq<char>,
}

impl View for Submission {
    type V = SubmissionView;

    open spec fn view(&self) -> SubmissionView {
        SubmissionView {
            course_id: self.course_id,
            student_name: self.student_name@,
            student_id: self.student_id@,
            confirmation_code: self.confirmation_code@,
            ip_address: self.ip_address@,
        }
    }
}

} // verus!
