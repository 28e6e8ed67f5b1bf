use attendance_core::db::attendance::AttendanceRecord;
use attendance_core::db::attendance::AttendanceRecords;
use attendance_core::db::preferences::get_current_course_id;
use attendance_core::db::preferences::next_current_course;
use attendance_core::db::preferences::plan_seed;
use attendance_core::db::preferences::set_current_course_id;
use attendance_core::db::preferences::SeedAction;
use attendance_core::errors::AppError;
use attendance_core::ids::course_id_text;
use attendance_core::models::course::json_to_vec_string;
use attendance_core::models::course::vec_string_to_json;
use attendance_core::models::course::Course;
use attendance_core::models::course::CourseApiResponse;
use attendance_core::services::auth::bearer_token;
use attendance_core::services::auth::AuthService;
use attendance_core::services::export::export_filename;
use attendance_core::services::export::export_rows;
use attendance_core::services::export::replace_spaces;
use attendance_core::services::export::ExportService;
use attendance_core::services::moodle::MoodleService;
use attendance_core::services::qrcode::render_modules;
use attendance_core::services::qrcode::QrCodeService;
use attendance_core::services::realtime::WebSocketSession;
use attendance_core::services::statistics::generate_weekly_report;
use attendance_core::services::statistics::StatisticsService;
use attendance_core::services::statistics::weekday_from_monday;
use attendance_core::text::to_hex;
use attendance_core::ws::Frame;
use attendance_core::ws::SessionAction;
use attendance_core::utils::network::get_local_network_range;
use attendance_core::utils::network::is_ip_in_cidr;
use attendance_core::utils::network::prefix_of;
use attendance_core::utils::network::IpAddr;
use attendance_core::utils::network::Ipv4Addr;
use attendance_core::utils::network::Ipv6Addr;

const COURSE: u128 = 0x550e8400_e29b_41d4_a716_446655440000;

fn record(id: i64, name: &str, student: &str, timestamp: i64) -> AttendanceRecord {
    AttendanceRecord {
        id,
        course_id: COURSE,
        student_name: name.to_string(),
        student_id: student.to_string(),
        timestamp,
        submitted_code: "Z9Q2KP".to_string(),
        ip_address: None,
    }
}

#[test]
fn accounts_are_registered_once_and_signed_in_by_password() {
    let mut auth = AuthService::new();
    let hash = bcrypt::hash("correct horse", 4).unwrap();
    let user = auth.register_with("prof", hash.clone(), 7, 1_000).ok().unwrap();
    assert_eq!(user.id, 7);
    assert_eq!(user.username, "prof");
    assert_eq!(user.password_hash, hash);
    assert_eq!(user.created_at, 1_000);
    match auth.register_with("prof", hash.clone(), 8, 2_000) {
        Err(AppError::Conflict(message)) => assert_eq!(message, "Username already exists"),
        _ => panic!("a taken name must be refused"),
    }
    assert_eq!(auth.authenticate("prof", "correct horse").unwrap().id, 7);
    assert!(auth.authenticate("prof", "wrong horse").is_none());
    assert!(auth.authenticate("nobody", "correct horse").is_none());
    assert!(auth.authenticate("Prof", "correct horse").is_none());
}

#[test]
fn a_registered_password_is_accepted_afterwards() {
    let mut auth = AuthService::new();
    let user = auth.register("prof", "s3cret").ok().unwrap();
    assert_eq!(user.username, "prof");
    assert_ne!(user.password_hash, "s3cret");
    assert!(user.created_at > 1_600_000_000_000);
    assert!(matches!(auth.register("prof", "other"), Err(AppError::Conflict(_))));
    let found = auth.authenticate("prof", "s3cret").unwrap();
    assert_eq!(found.id, user.id);
    assert!(auth.authenticate("prof", "S3cret").is_none());
}

#[test]
fn a_password_is_changed_only_with_the_current_one() {
    let mut auth = AuthService::new();
    let old = bcrypt::hash("old", 4).unwrap();
    let new = bcrypt::hash("new", 4).unwrap();
    auth.register_with("prof", old, 7, 0).ok().unwrap();
    assert!(!auth.change_password_with(7, "wrong", new.clone()));
    assert!(!auth.change_password_with(8, "old", new.clone()));
    assert!(auth.authenticate("prof", "old").is_some());
    assert!(auth.change_password_with(7, "old", new));
    assert!(auth.authenticate("prof", "old").is_none());
    assert!(auth.authenticate("prof", "new").is_some());
    assert!(auth.change_password(7, "new", "newer").ok().unwrap());
    assert!(auth.authenticate("prof", "newer").is_some());
    assert!(!auth.change_password(7, "new", "newest").ok().unwrap());
}

#[test]
fn a_hash_that_cannot_be_read_accepts_nothing() {
    let mut auth = AuthService::new();
    auth.register_with("prof", "not a hash".to_string(), 7, 0).ok().unwrap();
    assert!(auth.authenticate("prof", "not a hash").is_none());
    assert!(auth.authenticate("prof", "").is_none());
}

#[test]
fn claims_name_the_user_for_a_day() {
    let mut auth = AuthService::new();
    let hash = bcrypt::hash("pw", 4).unwrap();
    let user = auth.register_with("prof", hash, COURSE, 0).ok().unwrap();
    let claims = AuthService::claims_for(&user, 1_700_000_000).unwrap();
    assert_eq!(claims.sub, "550e8400-e29b-41d4-a716-446655440000");
    assert_eq!(claims.exp - claims.iat, 86_400);
}

#[test]
fn the_token_follows_the_bearer_scheme() {
    assert_eq!(bearer_token("Bearer abc.def").as_deref(), Some("abc.def"));
    assert_eq!(bearer_token("Bearer ").as_deref(), Some(""));
    assert_eq!(bearer_token("Bearer Bearer abc").as_deref(), Some("abc"));
    assert_eq!(bearer_token("bearer abc"), None);
    assert_eq!(bearer_token("Basic abc"), None);
    assert_eq!(bearer_token("Bearer"), None);
    assert_eq!(bearer_token(""), None);
}

#[test]
fn the_sheet_has_a_header_and_a_row_per_record() {
    let records = vec![
        record(1, "Alice", "s1", 1_700_000_000_000),
        record(2, "Bob, Jr.", "s2", 1_700_000_060_000),
    ];
    let rows = export_rows(&records, "Linear Algebra", COURSE);
    assert_eq!(rows.len(), 3);
    assert_eq!(rows[0], vec!["Timestamp", "Student Name", "Student ID", "Course Name", "Course ID"]);
    assert_eq!(
        rows[1],
        vec![
            "2023-11-14 22:13:20",
            "Alice",
            "s1",
            "Linear Algebra",
            "550e8400-e29b-41d4-a716-446655440000"
        ]
    );
    assert_eq!(rows[2][0], "2023-11-14 22:14:20");
    assert_eq!(rows[2][1], "Bob, Jr.");
    let out_of_range = export_rows(&vec![record(1, "A", "s", i64::MAX)], "X", COURSE);
    assert_eq!(out_of_range[1][0], "");
}

#[test]
fn the_sheet_is_written_as_csv() {
    let records = vec![
        record(1, "Alice", "s1", 1_700_000_000_000),
        record(2, "Bob, Jr.", "s2", 1_700_000_060_000),
    ];
    let bytes = ExportService::new().export_attendance_csv(&records, "Algebra", COURSE).ok().unwrap();
    let text = String::from_utf8(bytes).unwrap();
    let lines: Vec<&str> = text.lines().collect();
    assert_eq!(lines.len(), 3);
    assert_eq!(lines[0], "Timestamp,Student Name,Student ID,Course Name,Course ID");
    assert_eq!(
        lines[1],
        "2023-11-14 22:13:20,Alice,s1,Algebra,550e8400-e29b-41d4-a716-446655440000"
    );
    assert!(lines[2].contains("\"Bob, Jr.\""));
    let empty = ExportService::new().export_attendance_csv(&Vec::new(), "Algebra", COURSE);
    assert_eq!(
        String::from_utf8(empty.ok().unwrap()).unwrap(),
        "Timestamp,Student Name,Student ID,Course Name,Course ID\n"
    );
}

#[test]
fn the_sheet_is_named_after_course_and_date() {
    assert_eq!(replace_spaces("Linear Algebra II"), "Linear_Algebra_II");
    assert_eq!(replace_spaces(""), "");
    assert_eq!(
        export_filename("Linear Algebra II", "2024-03-01"),
        "attendance_linear_algebra_ii_2024-03-01.csv"
    );
    assert_eq!(export_filename("ÄNALYSIS", "d"), "attendance_änalysis_d.csv");
}

#[test]
fn weekdays_count_from_monday() {
    assert_eq!(weekday_from_monday(0), 3);
    assert_eq!(weekday_from_monday(1), 4);
    assert_eq!(weekday_from_monday(3), 6);
    assert_eq!(weekday_from_monday(4), 0);
    assert_eq!(weekday_from_monday(-1), 2);
    assert_eq!(weekday_from_monday(-3), 0);
    assert_eq!(weekday_from_monday(-4), 6);
    assert_eq!(weekday_from_monday(19_675), 1);
    for day in -30i64..30 {
        assert_eq!(weekday_from_monday(day) as i64, (day + 3).rem_euclid(7));
    }
    assert_eq!(weekday_from_monday(i64::MAX) as i128, (i64::MAX as i128 + 3).rem_euclid(7));
    assert_eq!(weekday_from_monday(i64::MIN) as i128, (i64::MIN as i128 + 3).rem_euclid(7));
}

#[test]
fn the_weekly_report_counts_records_and_students() {
    let day: i64 = 86_400_000;
    let monday: i64 = 19_674;
    let mut records = AttendanceRecords::new();
    records.record_attendance(COURSE, "Alice", "s1", "Z9Q2KP", None, monday * day + 5).ok().unwrap();
    records.record_attendance(COURSE, "Bob", "s2", "Z9Q2KP", None, monday * day + 6).ok().unwrap();
    records.record_attendance(COURSE, "Alice", "s1", "Z9Q2KP", None, (monday + 2) * day).ok().unwrap();
    records.record_attendance(COURSE, "Carol", "s3", "Z9Q2KP", None, (monday + 6) * day + day - 1).ok().unwrap();
    records.record_attendance(COURSE, "Dave", "s4", "Z9Q2KP", None, (monday + 7) * day).ok().unwrap();
    records.record_attendance(COURSE, "Erin", "s5", "Z9Q2KP", None, monday * day - 1).ok().unwrap();
    records.record_attendance(9, "Frank", "s6", "Z9Q2KP", None, monday * day + 5).ok().unwrap();
    let report = generate_weekly_report(&records, COURSE, (monday + 1) * day + 12);
    assert_eq!(report.week_start, monday);
    assert_eq!(report.week_end, monday + 7);
    assert_eq!(report.total_records, 4);
    assert_eq!(report.unique_students, 3);
    assert_eq!(report.daily_counts, vec![2, 0, 1, 0, 0, 0, 1]);
    let empty = generate_weekly_report(&AttendanceRecords::new(), COURSE, 0);
    assert_eq!(empty.week_start, -3);
    assert_eq!(empty.total_records, 0);
    assert_eq!(empty.daily_counts, vec![0; 7]);
}

#[test]
fn the_moodle_link_must_be_set_up() {
    let mut moodle = MoodleService::new();
    assert!(!moodle.is_configured());
    assert!(moodle.export_attendance(&Vec::new()).is_err());
    assert!(moodle.sync_student_roster().is_err());
    moodle.configure("https://moodle.example".to_string(), "token".to_string());
    assert!(moodle.is_configured());
    assert!(!moodle.export_attendance(&Vec::new()).ok().unwrap());
    assert!(moodle.export_attendance(&vec![record(1, "A", "s", 0)]).ok().unwrap());
    let roster = moodle.sync_student_roster().ok().unwrap();
    assert_eq!(
        roster,
        vec![
            ("12345".to_string(), "John Doe".to_string()),
            ("67890".to_string(), "Jane Smith".to_string())
        ]
    );
}

#[test]
fn modules_are_drawn_as_squares_of_pixels() {
    let dark = vec![true, false, false, true];
    let pixels = render_modules(&dark, 2, 2).unwrap();
    assert_eq!(
        pixels,
        vec![0, 0, 255, 255, 0, 0, 255, 255, 255, 255, 0, 0, 255, 255, 0, 0]
    );
    assert_eq!(render_modules(&dark, 2, 1).unwrap(), vec![0, 255, 255, 0]);
    assert!(render_modules(&dark, 3, 2).is_none());
    assert!(render_modules(&dark, 2, 0).is_none());
    assert!(render_modules(&Vec::new(), 0, 2).is_none());
    assert!(render_modules(&dark, 2, usize::MAX).is_none());
}

#[test]
fn the_qr_code_is_a_png_of_six_pixels_per_module() {
    let service = QrCodeService::new();
    let url = service.attendance_url("http://192.168.1.20:8080", COURSE);
    let file = service.generate_qr(&url).ok().unwrap();
    assert_eq!(&file[..8], &[0x89, b'P', b'N', b'G', 0x0d, 0x0a, 0x1a, 0x0a]);
    let width = u32::from_be_bytes([file[16], file[17], file[18], file[19]]);
    let height = u32::from_be_bytes([file[20], file[21], file[22], file[23]]);
    assert_eq!(width, height);
    assert_eq!(width % 6, 0);
    assert_eq!((width / 6 - 17) % 4, 0);
    let too_long = "x".repeat(10_000);
    assert!(matches!(service.generate_qr(&too_long), Err(AppError::InternalError(_))));
}

#[test]
fn the_current_course_is_stored_as_text() {
    let preference = set_current_course_id(COURSE);
    assert_eq!(preference.key, "current_course_id");
    assert_eq!(preference.value, "550e8400-e29b-41d4-a716-446655440000");
    assert_eq!(get_current_course_id(Some(&preference.value)).ok().unwrap(), Some(COURSE));
    assert_eq!(get_current_course_id(Some("")).ok().unwrap(), None);
    assert_eq!(get_current_course_id(None).ok().unwrap(), None);
    match get_current_course_id(Some("garbage")) {
        Err(AppError::InternalError(message)) => {
            assert_eq!(message, "Invalid UUID stored for current_course_id")
        },
        _ => panic!("a stored value that is no uuid is an internal error"),
    }
}

#[test]
fn deleting_the_current_course_moves_on_to_another() {
    assert_eq!(next_current_course(&vec![1, 2, 3], 1), Some(2));
    assert_eq!(next_current_course(&vec![1, 2, 3], 2), Some(1));
    assert_eq!(next_current_course(&vec![1], 1), None);
    assert_eq!(next_current_course(&Vec::new(), 1), None);
    assert_eq!(next_current_course(&vec![1, 1, 5], 1), Some(5));
}

#[test]
fn start_up_makes_sure_a_current_course_exists() {
    assert_eq!(plan_seed(&Vec::new(), None), SeedAction::SeedDefault);
    assert_eq!(plan_seed(&Vec::new(), Some(4)), SeedAction::SeedDefault);
    assert_eq!(plan_seed(&vec![1, 2], Some(2)), SeedAction::Keep);
    assert_eq!(plan_seed(&vec![1, 2], Some(3)), SeedAction::MakeCurrent(1));
    assert_eq!(plan_seed(&vec![1, 2], None), SeedAction::MakeCurrent(1));
}

#[test]
fn sections_are_kept_as_a_json_array() {
    let sections = vec!["000".to_string(), "0\"1".to_string()];
    let json = vec_string_to_json(&sections);
    assert_eq!(json, "[\"000\",\"0\\\"1\"]");
    assert_eq!(json_to_vec_string(&json), sections);
    assert_eq!(vec_string_to_json(&Vec::new()), "[]");
    assert_eq!(json_to_vec_string("[]"), Vec::<String>::new());
    assert_eq!(json_to_vec_string("{\"a\":1}"), Vec::<String>::new());
    assert_eq!(json_to_vec_string("[1,2]"), Vec::<String>::new());
    assert_eq!(json_to_vec_string("oops"), Vec::<String>::new());
}

#[test]
fn a_course_is_shown_without_its_code() {
    let course = Course {
        id: COURSE,
        name: "Algebra".to_string(),
        section_number: "001".to_string(),
        sections: vec!["000".to_string()],
        professor_name: "Prof. Doe".to_string(),
        office_hours: "MWF".to_string(),
        news: "Welcome!".to_string(),
        total_students: 25,
        logo_path: "/logo.png".to_string(),
        confirmation_code: Some("ABC123".to_string()),
        confirmation_code_expires_at: Some(5),
        created_at: 1,
        updated_at: 2,
    };
    let shown = CourseApiResponse::from_course(course);
    assert_eq!(shown.id, "550e8400-e29b-41d4-a716-446655440000");
    assert_eq!(shown.name, "Algebra");
    assert_eq!(shown.sections, vec!["000".to_string()]);
    assert_eq!(shown.total_students, 25);
    assert_eq!(shown.created_at, 1);
    assert_eq!(shown.updated_at, 2);
}

#[test]
fn numbers_are_written_in_hexadecimal() {
    assert_eq!(to_hex(0), "0");
    assert_eq!(to_hex(9), "9");
    assert_eq!(to_hex(10), "a");
    assert_eq!(to_hex(255), "ff");
    assert_eq!(to_hex(0xfe80), "fe80");
    assert_eq!(to_hex(u64::MAX), "ffffffffffffffff");
}

#[test]
fn the_local_network_is_told_by_the_beginning_of_the_address() {
    let v4 = IpAddr::V4(Ipv4Addr { a: 192, b: 168, c: 1, d: 20 });
    let v6 = IpAddr::V6(Ipv6Addr {
        g0: 0xfd00,
        g1: 0,
        g2: 0xab,
        g3: 1,
        g4: 0,
        g5: 0,
        g6: 0,
        g7: 9,
    });
    assert_eq!(prefix_of(&v4), "192.168.1");
    assert_eq!(prefix_of(&v6), "fd00:0:ab:1");
    assert_eq!(get_local_network_range(&v4), "192.168.1.0/24");
    assert_eq!(get_local_network_range(&v6), "fd00:0:ab:1::/64");
    assert!(is_ip_in_cidr(&v4, "192.168.1.0/24"));
    assert!(!is_ip_in_cidr(&v4, "192.168.2.0/24"));
    assert!(is_ip_in_cidr(&v4, "192.168.10.0/24"));
    assert!(is_ip_in_cidr(&v6, "fd00:0:ab:1::/64"));
    assert!(!is_ip_in_cidr(&v6, "fd00::/64"));
}

#[test]
fn identifiers_are_written_digit_by_digit() {
    assert_eq!(
        course_id_text(0x0123456789abcdef_fedcba9876543210),
        "01234567-89ab-cdef-fedc-ba9876543210"
    );
    assert_eq!(course_id_text(1), "00000000-0000-0000-0000-000000000001");
    assert_eq!(course_id_text(u128::MAX), "ffffffff-ffff-ffff-ffff-ffffffffffff");
    assert_eq!(course_id_text(0xA << 124), "a0000000-0000-0000-0000-000000000000");
}

#[test]
fn the_statistics_service_draws_up_the_weekly_report() {
    let mut records = AttendanceRecords::new();
    records.record_attendance(COURSE, "Alice", "s1", "Z9Q2KP", None, 0).ok().unwrap();
    records.record_attendance(COURSE, "Alice", "s1", "Z9Q2KP", None, 1).ok().unwrap();
    let report = StatisticsService::new().generate_weekly_report(&records, COURSE, 0);
    assert_eq!(report.week_start, -3);
    assert_eq!(report.week_end, 4);
    assert_eq!(report.total_records, 2);
    assert_eq!(report.unique_students, 1);
    assert_eq!(report.daily_counts, vec![0, 0, 0, 2, 0, 0, 0]);
}

#[test]
fn the_records_of_a_course_are_listed_in_order() {
    let mut records = AttendanceRecords::new();
    records.record_attendance(COURSE, "Alice", "s1", "Z9Q2KP", None, 5).ok().unwrap();
    records.record_attendance(9, "Bob", "s2", "Z9Q2KP", None, 6).ok().unwrap();
    records.record_attendance(COURSE, "Carol", "s3", "Z9Q2KP", None, 4).ok().unwrap();
    let found = records.fetch_attendance_for_course(COURSE);
    assert_eq!(found.len(), 2);
    assert_eq!(found[0].id, 1);
    assert_eq!(found[0].student_name, "Alice");
    assert_eq!(found[1].id, 3);
    assert_eq!(found[1].student_id, "s3");
    assert_eq!(found[1].timestamp, 4);
    assert_eq!(records.fetch_attendance_for_course(10).len(), 0);
}

#[test]
fn a_client_session_echoes_text() {
    let session = WebSocketSession::with_client_id(7, "me".to_string());
    match session.handle(Frame::Text("hello".to_string())) {
        SessionAction::Text(text) => assert_eq!(text, "hello"),
        _ => panic!("a text is sent back"),
    }
    match session.handle(Frame::Ping(vec![9])) {
        SessionAction::Pong(payload) => assert_eq!(payload, vec![9]),
        _ => panic!("a ping is answered"),
    }
    assert!(matches!(session.handle(Frame::Close(None)), SessionAction::Close(None)));
    assert!(matches!(session.handle(Frame::Pong(vec![9])), SessionAction::Idle));
    assert!(matches!(session.handle(Frame::Binary(vec![9])), SessionAction::Idle));
}

#[test]
fn a_change_that_is_not_due_changes_nothing_and_hashes_nothing() {
    let mut auth = AuthService::new();
    assert!(!auth.change_password(7, "old", "new").ok().unwrap());
    let old = bcrypt::hash("old", 4).unwrap();
    auth.register_with("prof", old, 7, 0).ok().unwrap();
    assert!(!auth.change_password(7, "wrong", "new").ok().unwrap());
    assert!(!auth.change_password(8, "old", "new").ok().unwrap());
    assert!(auth.authenticate("prof", "old").is_some());
    assert!(auth.authenticate("prof", "new").is_none());
    assert!(auth.change_password(7, "old", "new").ok().unwrap());
    assert!(auth.authenticate("prof", "new").is_some());
    assert!(auth.authenticate("prof", "old").is_none());
}
