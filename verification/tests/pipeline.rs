use attendance_core::codes::ActiveCode;
use attendance_core::codes::CodeDetails;
use attendance_core::db::attendance::AttendanceRecord;
use attendance_core::db::device_submissions::ClaimOutcome;
use attendance_core::db::Database;
use attendance_core::errors::AppError;
use attendance_core::errors::DatabaseFault;
use attendance_core::models::attendance::Submission;
use attendance_core::models::attendance::SubmitAttendancePayload;
use attendance_core::services::attendance::AttendanceService;
use attendance_core::submission::advance;
use attendance_core::submission::begin;
use attendance_core::submission::claim_reply;
use attendance_core::submission::client_address;
use attendance_core::submission::receive;
use attendance_core::submission::Command;
use attendance_core::submission::Reply;
use attendance_core::submission::SubmissionState;
use attendance_core::ws_server::AttendanceServer;
use attendance_core::ws_server::Connect;
use attendance_core::ws_server::Disconnect;

const C1: u128 = 0x550e8400_e29b_41d4_a716_446655440000;

const C2: u128 = 0x550e8400_e29b_41d4_a716_446655440001;

const T: i64 = 1_700_000_000_000;

fn submission(course_id: u128, name: &str, id: &str, code: &str, ip: &str) -> Submission {
    Submission {
        course_id,
        student_name: name.to_string(),
        student_id: id.to_string(),
        confirmation_code: code.to_string(),
        ip_address: ip.to_string(),
    }
}

fn service_with_code(code: &str, expires_at: i64) -> AttendanceService {
    let mut db = Database::new();
    db.courses.add_course(C1);
    db.courses.add_course(C2);
    db.courses.update_confirmation_code(C1, code, expires_at);
    db.courses.update_confirmation_code(C2, "OTHER1", expires_at);
    AttendanceService::new(db, AttendanceServer::new())
}

fn today(now: i64) -> i64 {
    now.div_euclid(86_400_000)
}

#[test]
fn end_to_end_scenario() {
    let mut service = service_with_code("Z9Q2KP", T + 300_000);
    service.join(Connect { course_id: C1, session_id: 1 }, today(T));
    service.join(Connect { course_id: C1, session_id: 2 }, today(T));
    service.join(Connect { course_id: C2, session_id: 3 }, today(T));

    let first = service.submit_attendance_at(
        &submission(C1, "Alice", "s1", "z9q2kp", "10.0.0.5"),
        T + 10_000,
    );
    assert_eq!(first.state, SubmissionState::Completed);
    let response = first.answer.ok().unwrap();
    assert_eq!(response.message, "Attendance recorded successfully!");
    assert_eq!(response.student_name, "Alice");
    assert_eq!(service.count_present_students(C1, today(T)), 1);
    assert_eq!(first.deliveries.len(), 2);
    let mut reached: Vec<usize> = first.deliveries.iter().map(|d| d.session_id).collect();
    reached.sort();
    assert_eq!(reached, vec![1, 2]);
    for delivery in first.deliveries.iter() {
        let parsed: serde_json::Value = serde_json::from_str(&delivery.message.0).unwrap();
        assert_eq!(parsed["type"], "attendance_update");
        assert_eq!(parsed["presentCount"], 1);
    }

    let again = service.submit_attendance_at(
        &submission(C1, "Alice", "s1", "Z9Q2KP", "10.0.0.5"),
        T + 20_000,
    );
    assert!(matches!(again.answer, Err(AppError::Conflict(_))));
    assert_eq!(again.deliveries.len(), 0);

    let other = service.submit_attendance_at(
        &submission(C1, "Bob", "s2", "Z9Q2KP", "10.0.0.5"),
        T + 30_000,
    );
    assert_eq!(other.state, SubmissionState::RejectedDeviceDuplicate);
    match other.answer {
        Err(AppError::Conflict(message)) => assert_eq!(
            message,
            "This device has already been used to mark attendance for this course today."
        ),
        _ => panic!("a used device must be a conflict"),
    }
    assert_eq!(service.count_present_students(C1, today(T)), 1);
    assert_eq!(service.db.attendance.len(), 1);
}

#[test]
fn same_student_from_another_device_is_a_conflict() {
    let mut service = service_with_code("Z9Q2KP", T + 300_000);
    let first = service.submit_attendance_at(&submission(C1, "Alice", "s1", "Z9Q2KP", "10.0.0.5"), T);
    assert_eq!(first.state, SubmissionState::Completed);
    let second =
        service.submit_attendance_at(&submission(C1, "Alice", "s1", "Z9Q2KP", "10.0.0.6"), T + 1);
    assert_eq!(second.state, SubmissionState::RejectedStudentDuplicate);
    match second.answer {
        Err(AppError::Conflict(message)) => assert_eq!(
            message,
            "Student ID 's1' has already been marked present for this course today."
        ),
        _ => panic!("a second submission of a student must be a conflict"),
    }
    assert_eq!(service.db.attendance.len(), 1);
    assert_eq!(service.count_present_students(C1, today(T)), 1);
    // The device of the refused attempt is spent all the same.
    assert!(service.db.devices.check_device_submission_today(C1, "10.0.0.6", today(T)));
}

#[test]
fn same_student_may_come_back_the_next_day() {
    let mut service = service_with_code("Z9Q2KP", i64::MAX);
    let first = service.submit_attendance_at(&submission(C1, "Alice", "s1", "Z9Q2KP", "10.0.0.5"), T);
    assert_eq!(first.state, SubmissionState::Completed);
    let next_day = T + 86_400_000;
    let second = service.submit_attendance_at(
        &submission(C1, "Alice", "s1", "Z9Q2KP", "10.0.0.5"),
        next_day,
    );
    assert_eq!(second.state, SubmissionState::Completed);
    assert_eq!(service.count_present_students(C1, today(T)), 1);
    assert_eq!(service.count_present_students(C1, today(next_day)), 1);
}

#[test]
fn count_follows_distinct_students() {
    let mut service = service_with_code("Z9Q2KP", T + 300_000);
    service.join(Connect { course_id: C1, session_id: 1 }, today(T));
    for k in 0..25usize {
        let id = format!("s{}", k);
        let ip = format!("10.0.1.{}", k);
        let done = service.submit_attendance_at(
            &submission(C1, "Student", &id, "Z9Q2KP", &ip),
            T + k as i64,
        );
        assert_eq!(done.state, SubmissionState::Completed);
        assert_eq!(service.count_present_students(C1, today(T)), k + 1);
        assert_eq!(done.deliveries.len(), 1);
        let parsed: serde_json::Value =
            serde_json::from_str(&done.deliveries[0].message.0).unwrap();
        assert_eq!(parsed["presentCount"], (k + 1) as u64);
        let refused = service.submit_attendance_at(
            &submission(C1, "Student", &id, "Z9Q2KP", &ip),
            T + k as i64,
        );
        assert!(matches!(refused.answer, Err(AppError::Conflict(_))));
        assert_eq!(service.count_present_students(C1, today(T)), k + 1);
    }
    assert_eq!(service.count_present_students(C2, today(T)), 0);
}

#[test]
fn a_refused_code_claims_no_device_and_adds_no_record() {
    let mut service = service_with_code("Z9Q2KP", T + 300_000);
    service.join(Connect { course_id: C1, session_id: 1 }, today(T));
    let wrong = service.submit_attendance_at(&submission(C1, "Alice", "s1", "NOPE00", "10.0.0.5"), T);
    assert_eq!(wrong.state, SubmissionState::RejectedInvalidCode);
    assert!(matches!(wrong.answer, Err(AppError::InvalidCode)));
    let late = service.submit_attendance_at(
        &submission(C1, "Alice", "s1", "Z9Q2KP", "10.0.0.5"),
        T + 300_000,
    );
    assert_eq!(late.state, SubmissionState::RejectedExpiredCode);
    assert!(matches!(late.answer, Err(AppError::ExpiredCode)));
    let nowhere = service.submit_attendance_at(&submission(77, "Alice", "s1", "Z9Q2KP", "10.0.0.5"), T);
    assert_eq!(nowhere.state, SubmissionState::RejectedNotFound);
    assert!(matches!(nowhere.answer, Err(AppError::NotFound(_))));
    assert_eq!(wrong.deliveries.len() + late.deliveries.len() + nowhere.deliveries.len(), 0);
    assert_eq!(service.db.devices.len(), 0);
    assert_eq!(service.db.attendance.len(), 0);
    let good = service.submit_attendance_at(&submission(C1, "Alice", "s1", "Z9Q2KP", "10.0.0.5"), T);
    assert_eq!(good.state, SubmissionState::Completed);
}

#[test]
fn the_code_of_another_course_is_of_no_use() {
    let mut service = service_with_code("Z9Q2KP", T + 300_000);
    let done = service.submit_attendance_at(&submission(C1, "Alice", "s1", "OTHER1", "10.0.0.5"), T);
    assert_eq!(done.state, SubmissionState::RejectedInvalidCode);
    let done = service.submit_attendance_at(&submission(C2, "Alice", "s1", "other1", "10.0.0.5"), T);
    assert_eq!(done.state, SubmissionState::Completed);
}

#[test]
fn a_dashboard_that_joins_late_sees_the_count() {
    let mut service = service_with_code("Z9Q2KP", T + 300_000);
    service.submit_attendance_at(&submission(C1, "Alice", "s1", "Z9Q2KP", "10.0.0.5"), T);
    service.submit_attendance_at(&submission(C1, "Bob", "s2", "Z9Q2KP", "10.0.0.6"), T);
    let first = service.join(Connect { course_id: C1, session_id: 9 }, today(T));
    assert_eq!(first.session_id, 9);
    assert_eq!(first.message.0, "{\"presentCount\":2,\"type\":\"attendance_update\"}");
    let out = service.broadcast_attendance_update(C1, today(T));
    assert_eq!(out.len(), 1);
    assert_eq!(out[0].message.0, "{\"presentCount\":2,\"type\":\"attendance_update\"}");
    service.leave(Disconnect { session_id: 9, course_id: C1 });
    assert_eq!(service.broadcast_attendance_update(C1, today(T)).len(), 0);
}

#[test]
fn a_submission_succeeds_without_any_dashboard() {
    let mut service = service_with_code("Z9Q2KP", T + 300_000);
    let done = service.submit_attendance_at(&submission(C1, "Alice", "s1", "Z9Q2KP", "10.0.0.5"), T);
    assert_eq!(done.state, SubmissionState::Completed);
    assert_eq!(done.deliveries.len(), 0);
}

#[test]
fn after_a_rotation_only_the_new_code_counts() {
    let mut service = service_with_code("FIRST1", T + 300_000);
    service.db.courses.update_confirmation_code(C1, "SECOND", T + 600_000);
    let old = service.submit_attendance_at(&submission(C1, "Alice", "s1", "FIRST1", "10.0.0.5"), T);
    assert_eq!(old.state, SubmissionState::RejectedInvalidCode);
    let new = service.submit_attendance_at(&submission(C1, "Alice", "s1", "second", "10.0.0.5"), T);
    assert_eq!(new.state, SubmissionState::Completed);
}

#[test]
fn the_steps_come_in_order() {
    let s = submission(C1, "Alice", "s1", "z9q2kp", "10.0.0.5");
    let now = T + 10_000;
    let (state, command) = begin(&s);
    assert_eq!(state, SubmissionState::Received);
    assert!(matches!(command, Command::FetchCode { course_id } if course_id == C1));
    let code = CodeDetails::Active(ActiveCode { code: "Z9Q2KP".to_string(), expires_at: T + 300_000 });
    let (state, command) = advance(state, &s, now, Reply::Code(code));
    assert_eq!(state, SubmissionState::CodeChecked);
    match command {
        Command::ClaimDevice { course_id, ip_address, day } => {
            assert_eq!(course_id, C1);
            assert_eq!(ip_address, "10.0.0.5");
            assert_eq!(day, today(now));
        },
        _ => panic!("the device is claimed after the code"),
    }
    let (state, command) = advance(state, &s, now, Reply::Claim(ClaimOutcome::Claimed));
    assert_eq!(state, SubmissionState::DeviceClaimed);
    match command {
        Command::CheckStudent { course_id, student_id, day } => {
            assert_eq!(course_id, C1);
            assert_eq!(student_id, "s1");
            assert_eq!(day, today(now));
        },
        _ => panic!("the student is checked after the device"),
    }
    let (state, command) = advance(state, &s, now, Reply::StudentSeen(false));
    assert_eq!(state, SubmissionState::StudentChecked);
    match command {
        Command::Record {
            course_id,
            student_name,
            student_id,
            submitted_code,
            ip_address,
            timestamp,
        } => {
            assert_eq!(course_id, C1);
            assert_eq!(student_name, "Alice");
            assert_eq!(student_id, "s1");
            assert_eq!(submitted_code, "z9q2kp");
            assert_eq!(ip_address, "10.0.0.5");
            assert_eq!(timestamp, now);
        },
        _ => panic!("the record is made after the student check"),
    }
    let record = AttendanceRecord {
        id: 1,
        course_id: C1,
        student_name: "Alice".to_string(),
        student_id: "s1".to_string(),
        timestamp: now,
        submitted_code: "z9q2kp".to_string(),
        ip_address: Some("10.0.0.5".to_string()),
    };
    let (state, command) = advance(state, &s, now, Reply::Recorded(record));
    assert_eq!(state, SubmissionState::Recorded);
    assert!(matches!(command, Command::CountToday { course_id, day } if course_id == C1 && day == today(now)));
    let (state, command) = advance(state, &s, now, Reply::Count(4));
    assert_eq!(state, SubmissionState::Broadcasted);
    assert!(matches!(command, Command::Broadcast { course_id, present_count } if course_id == C1 && present_count == 4));
    let (state, command) = advance(state, &s, now, Reply::Delivered);
    assert_eq!(state, SubmissionState::Completed);
    assert!(state.finished());
    match command {
        Command::Finish(Ok(response)) => {
            assert_eq!(response.message, "Attendance recorded successfully!");
            assert_eq!(response.student_name, "Alice");
        },
        _ => panic!("a completed submission is answered with success"),
    }
}

#[test]
fn every_failure_ends_the_path() {
    let s = submission(C1, "Alice", "s1", "z9q2kp", "10.0.0.5");
    let (state, command) =
        advance(SubmissionState::Received, &s, T, Reply::Code(CodeDetails::UnknownCourse));
    assert_eq!(state, SubmissionState::RejectedNotFound);
    assert!(matches!(command, Command::Finish(Err(AppError::NotFound(_)))));
    let (state, command) =
        advance(SubmissionState::Received, &s, T, Reply::Code(CodeDetails::NeverGenerated));
    assert_eq!(state, SubmissionState::RejectedInvalidCode);
    assert!(matches!(command, Command::Finish(Err(AppError::InvalidCode))));
    let (state, command) = advance(
        SubmissionState::CodeChecked,
        &s,
        T,
        Reply::Claim(ClaimOutcome::AlreadyClaimed),
    );
    assert_eq!(state, SubmissionState::RejectedDeviceDuplicate);
    assert!(matches!(command, Command::Finish(Err(AppError::Conflict(_)))));
    let (state, command) = advance(SubmissionState::DeviceClaimed, &s, T, Reply::StudentSeen(true));
    assert_eq!(state, SubmissionState::RejectedStudentDuplicate);
    assert!(matches!(command, Command::Finish(Err(AppError::Conflict(_)))));
    assert!(state.finished());
}

#[test]
fn storage_failures_end_in_an_internal_error() {
    let s = submission(C1, "Alice", "s1", "z9q2kp", "10.0.0.5");
    for state in [
        SubmissionState::Received,
        SubmissionState::CodeChecked,
        SubmissionState::DeviceClaimed,
        SubmissionState::StudentChecked,
        SubmissionState::Recorded,
    ] {
        let fault = DatabaseFault::Other("disk full".to_string());
        let (next, command) = advance(state, &s, T, Reply::Failed(fault));
        assert_eq!(next, SubmissionState::Failed);
        match command {
            Command::Finish(Err(error)) => {
                assert_eq!(error.status_code(), 500);
                assert_eq!(error.client_message(), "An unexpected error occurred.");
            },
            _ => panic!("a storage failure ends the path"),
        }
    }
}

#[test]
fn a_reply_out_of_turn_ends_in_an_internal_error() {
    let s = submission(C1, "Alice", "s1", "z9q2kp", "10.0.0.5");
    let (state, command) = advance(SubmissionState::Received, &s, T, Reply::Count(3));
    assert_eq!(state, SubmissionState::Failed);
    assert!(matches!(command, Command::Finish(Err(AppError::InternalError(_)))));
    let (state, command) = advance(SubmissionState::Recorded, &s, T, Reply::Delivered);
    assert_eq!(state, SubmissionState::Failed);
    assert!(matches!(command, Command::Finish(Err(AppError::InternalError(_)))));
    let (state, command) = advance(SubmissionState::Completed, &s, T, Reply::Delivered);
    assert_eq!(state, SubmissionState::Completed);
    assert!(matches!(command, Command::Finish(Err(AppError::InternalError(_)))));
    let (state, _) = advance(SubmissionState::RejectedInvalidCode, &s, T, Reply::Count(1));
    assert_eq!(state, SubmissionState::RejectedInvalidCode);
}

#[test]
fn a_unique_violation_on_the_claim_is_a_duplicate_not_a_failure() {
    assert!(matches!(claim_reply(Ok(())), Reply::Claim(ClaimOutcome::Claimed)));
    assert!(matches!(
        claim_reply(Err(DatabaseFault::UniqueViolation)),
        Reply::Claim(ClaimOutcome::AlreadyClaimed)
    ));
    assert!(matches!(
        claim_reply(Err(DatabaseFault::RowNotFound)),
        Reply::Failed(DatabaseFault::RowNotFound)
    ));
    assert!(matches!(
        claim_reply(Err(DatabaseFault::Other("x".to_string()))),
        Reply::Failed(DatabaseFault::Other(_))
    ));
}

#[test]
fn a_payload_is_received_when_its_course_is_a_uuid() {
    let payload = SubmitAttendancePayload {
        course_id: "550e8400-e29b-41d4-a716-446655440000".to_string(),
        student_name: "Alice".to_string(),
        student_id: "s1".to_string(),
        confirmation_code: "z9q2kp".to_string(),
    };
    let s = receive(&payload, "10.0.0.5").ok().unwrap();
    assert_eq!(s.course_id, C1);
    assert_eq!(s.student_name, "Alice");
    assert_eq!(s.student_id, "s1");
    assert_eq!(s.confirmation_code, "z9q2kp");
    assert_eq!(s.ip_address, "10.0.0.5");
    let bad = SubmitAttendancePayload {
        course_id: "not-a-uuid".to_string(),
        student_name: "Alice".to_string(),
        student_id: "s1".to_string(),
        confirmation_code: "z9q2kp".to_string(),
    };
    match receive(&bad, "10.0.0.5") {
        Err(AppError::BadClientData(message)) => {
            assert_eq!(message, "Invalid course_id format in payload. Expected UUID.")
        },
        _ => panic!("a course id that is no uuid is bad input"),
    }
}

#[test]
fn a_request_without_address_is_filed_under_unknown() {
    assert_eq!(client_address(Some("10.0.0.5")), "10.0.0.5");
    assert_eq!(client_address(None), "unknown");
}

#[test]
fn records_are_stamped_by_the_server_clock() {
    let mut service = service_with_code("Z9Q2KP", i64::MAX);
    let done = service.submit_attendance(&submission(C1, "Alice", "s1", "Z9Q2KP", "10.0.0.5"));
    assert_eq!(done.state, SubmissionState::Completed);
    let records = service.db.attendance.fetch_attendance_for_course(C1);
    assert_eq!(records.len(), 1);
    assert!(records[0].timestamp > 1_600_000_000_000);
    assert_eq!(records[0].submitted_code, "Z9Q2KP");
    assert_eq!(records[0].ip_address.as_deref(), Some("10.0.0.5"));
    let again = service.submit_attendance(&submission(C1, "Alice", "s1", "Z9Q2KP", "10.0.0.6"));
    assert!(matches!(again.answer, Err(AppError::Conflict(_))) || again.state == SubmissionState::Completed);
}
