use attendance_core::auth::LoginResponse;
use attendance_core::clock::day_index;
use attendance_core::config::Config;
use attendance_core::config::ConfigError;
use attendance_core::config::Environment;
use attendance_core::errors::AppError;
use attendance_core::errors::DatabaseFault;
use attendance_core::errors::OptionExt;
use attendance_core::ids::course_id_text;
use attendance_core::ids::parse_course_id;
use attendance_core::middleware::host_only::Access;
use attendance_core::middleware::host_only::HostOnly;
use attendance_core::middleware::rate_limit::decide;
use attendance_core::middleware::rate_limit::ClientTracker;
use attendance_core::middleware::rate_limit::RateLimiter;
use attendance_core::middleware::rate_limit::RateLimiterConfig;
use attendance_core::models::course::Course;
use attendance_core::models::preferences::Preference;
use attendance_core::models::user::Claims;
use attendance_core::services::qrcode::QrCodeService;
use attendance_core::services::realtime::RealtimeService;
use attendance_core::services::realtime::WebSocketSession;
use attendance_core::services::storage::accept_chunk;
use attendance_core::services::storage::course_of_upload;
use attendance_core::services::storage::CourseHeader;
use attendance_core::services::storage::file_name;
use attendance_core::services::storage::is_valid_image;
use attendance_core::services::storage::last_segment;
use attendance_core::services::storage::logo_extension;
use attendance_core::services::storage::logo_extension_for;
use attendance_core::services::storage::StorageService;
use attendance_core::text::eq_ignore_ascii_case;
use attendance_core::text::eq_text;
use attendance_core::text::parse_decimal;
use attendance_core::text::starts_with;
use attendance_core::text::to_decimal;
use attendance_core::text::to_upper;
use attendance_core::text::to_ascii_uppercase;
use attendance_core::utils::error::Error;
use attendance_core::utils::get_server_url;
use attendance_core::utils::network::address_key;
use attendance_core::utils::network::build_local_url;
use attendance_core::utils::network::get_local_hostname;
use attendance_core::utils::network::is_local_ip;
use attendance_core::utils::network::is_localhost;
use attendance_core::utils::network::IpAddr;
use attendance_core::utils::network::Ipv4Addr;
use attendance_core::utils::network::Ipv6Addr;

fn all_errors() -> Vec<AppError> {
    vec![
        AppError::SqlxError(DatabaseFault::RowNotFound),
        AppError::SqlxError(DatabaseFault::UniqueViolation),
        AppError::SqlxError(DatabaseFault::Other("table locked".to_string())),
        AppError::MultipartError("broken boundary".to_string()),
        AppError::ImageError("bad header".to_string()),
        AppError::NotFound("Course 7".to_string()),
        AppError::BadClientData("no id".to_string()),
        AppError::InvalidCode,
        AppError::ExpiredCode,
        AppError::Conflict("taken".to_string()),
        AppError::CsvIntoInnerError("flush".to_string()),
        AppError::BlockingError("cancelled".to_string()),
        AppError::InternalError("secret detail".to_string()),
    ]
}

#[test]
fn every_error_has_its_status() {
    let statuses: Vec<u16> = all_errors().iter().map(|e| e.status_code()).collect();
    assert_eq!(statuses, vec![404, 409, 500, 400, 500, 404, 400, 400, 400, 409, 500, 500, 500]);
}

#[test]
fn every_error_has_its_code() {
    let codes: Vec<String> = all_errors().iter().map(|e| e.error_code()).collect();
    assert_eq!(
        codes,
        vec![
            "internal_error",
            "internal_error",
            "internal_error",
            "upload_error",
            "internal_error",
            "not_found",
            "bad_request",
            "invalid_code",
            "expired_code",
            "conflict",
            "internal_error",
            "internal_error",
            "internal_error",
        ]
    );
}

#[test]
fn internal_detail_does_not_reach_the_client() {
    for error in all_errors() {
        let message = error.client_message();
        assert!(!message.contains("secret detail"));
        assert!(!message.contains("table locked"));
        assert!(!message.contains("bad header"));
        assert!(!message.contains("cancelled"));
        assert!(!message.contains("flush"));
    }
    assert_eq!(
        AppError::InternalError("secret detail".to_string()).client_message(),
        "An unexpected error occurred."
    );
    assert_eq!(AppError::InvalidCode.client_message(), "Invalid confirmation code.");
    assert_eq!(AppError::ExpiredCode.client_message(), "Confirmation code has expired.");
    assert_eq!(AppError::Conflict("taken".to_string()).client_message(), "taken");
    assert_eq!(AppError::NotFound("Course 7".to_string()).client_message(), "Course 7");
}

#[test]
fn errors_are_described_for_the_log() {
    assert_eq!(AppError::NotFound("Course 7".to_string()).describe(), "Not Found: Course 7");
    assert_eq!(AppError::BadClientData("no id".to_string()).describe(), "Invalid Input: no id");
    assert_eq!(AppError::InvalidCode.describe(), "Invalid Confirmation Code");
    assert_eq!(AppError::ExpiredCode.describe(), "Expired Confirmation Code");
    assert_eq!(AppError::Conflict("taken".to_string()).describe(), "Conflict: taken");
    assert_eq!(AppError::InternalError("x".to_string()).describe(), "Internal Server Error");
    assert_eq!(
        AppError::SqlxError(DatabaseFault::Other("table locked".to_string())).describe(),
        "Database Error: table locked"
    );
    assert_eq!(AppError::MultipartError("m".to_string()).describe(), "Multipart Error: m");
    assert_eq!(AppError::ImageError("i".to_string()).describe(), "Image Error: i");
    assert_eq!(AppError::CsvIntoInnerError("c".to_string()).describe(), "CSV Generation Error: c");
    assert_eq!(AppError::BlockingError("b".to_string()).describe(), "Blocking Task Error: b");
}

#[test]
fn storage_failures_get_their_domain_meaning() {
    match AppError::from_database(DatabaseFault::UniqueViolation) {
        AppError::Conflict(message) => assert_eq!(message, "Resource already exists."),
        _ => panic!("a unique violation is a conflict"),
    }
    match AppError::from_database(DatabaseFault::RowNotFound) {
        AppError::NotFound(message) => assert_eq!(message, "Database row not found."),
        _ => panic!("a missing row is not found"),
    }
    match AppError::from_database(DatabaseFault::Other("boom".to_string())) {
        AppError::InternalError(detail) => assert_eq!(detail, "boom"),
        _ => panic!("anything else is internal"),
    }
}

#[test]
fn nothing_found_becomes_not_found() {
    assert_eq!(Some(5).ok_or_not_found("Course with ID 7").ok().unwrap(), 5);
    let missing: Option<i32> = None;
    match missing.ok_or_not_found("Course with ID 7") {
        Err(AppError::NotFound(message)) => assert_eq!(message, "Course with ID 7 not found"),
        _ => panic!("nothing found must be reported as not found"),
    }
}

#[test]
fn administrative_failures_have_status_and_code() {
    let cases: Vec<(Error, u16, &str, &str)> = vec![
        (Error::Auth("a".to_string()), 401, "AUTH_ERROR", "Authentication error: a"),
        (Error::Database("d".to_string()), 500, "DB_ERROR", "Database error: d"),
        (Error::validation("v".to_string()), 400, "VALIDATION_ERROR", "Validation error: v"),
        (Error::not_found("n".to_string()), 404, "NOT_FOUND", "Not found: n"),
        (Error::Forbidden("f".to_string()), 403, "FORBIDDEN", "Forbidden: f"),
        (Error::Conflict("c".to_string()), 409, "CONFLICT", "Conflict: c"),
        (Error::RateLimit, 429, "RATE_LIMIT", "Rate limit exceeded"),
        (Error::Internal("i".to_string()), 500, "INTERNAL_ERROR", "Internal server error: i"),
        (
            Error::ExternalService("e".to_string()),
            502,
            "EXTERNAL_SERVICE_ERROR",
            "External service error: e",
        ),
        (Error::Upload("u".to_string()), 400, "UPLOAD_ERROR", "File upload error: u"),
        (Error::Other("o".to_string()), 500, "UNKNOWN_ERROR", "o"),
        (Error::from_token_error("t"), 401, "AUTH_ERROR", "Authentication error: JWT error: t"),
        (Error::from_io_error("x"), 500, "INTERNAL_ERROR", "Internal server error: IO error: x"),
        (Error::from_json_error("j"), 500, "INTERNAL_ERROR", "Internal server error: JSON error: j"),
    ];
    for (error, status, code, message) in cases {
        assert_eq!(error.status_code(), status);
        assert_eq!(error.error_code(), code);
        assert_eq!(error.message(), message);
    }
}

#[test]
fn course_ids_are_read_and_written_as_uuids() {
    let id = parse_course_id("550e8400-e29b-41d4-a716-446655440000").unwrap();
    assert_eq!(id, 0x550e8400_e29b_41d4_a716_446655440000);
    assert_eq!(parse_course_id("550E8400E29B41D4A716446655440000"), Some(id));
    assert_eq!(parse_course_id("not-a-uuid"), None);
    assert_eq!(parse_course_id(""), None);
    assert_eq!(course_id_text(id), "550e8400-e29b-41d4-a716-446655440000");
    assert_eq!(course_id_text(0), "00000000-0000-0000-0000-000000000000");
    assert_eq!(parse_course_id(&course_id_text(u128::MAX)), Some(u128::MAX));
}

#[test]
fn days_are_counted_from_the_epoch() {
    assert_eq!(day_index(0), 0);
    assert_eq!(day_index(86_399_999), 0);
    assert_eq!(day_index(86_400_000), 1);
    assert_eq!(day_index(-1), -1);
    assert_eq!(day_index(-86_400_000), -1);
    assert_eq!(day_index(-86_400_001), -2);
    assert_eq!(day_index(1_700_000_000_000), 19_675);
    assert_eq!(day_index(i64::MAX), i64::MAX.div_euclid(86_400_000));
    assert_eq!(day_index(i64::MIN), i64::MIN.div_euclid(86_400_000));
}

#[test]
fn upper_case_touches_ascii_letters_only() {
    assert_eq!(to_upper('a'), 'A');
    assert_eq!(to_upper('z'), 'Z');
    assert_eq!(to_upper('A'), 'A');
    assert_eq!(to_upper('5'), '5');
    assert_eq!(to_upper('ä'), 'ä');
    assert_eq!(to_upper('`'), '`');
    assert_eq!(to_upper('{'), '{');
    assert_eq!(to_ascii_uppercase("ab3De6-ä"), "AB3DE6-ä");
    assert_eq!(to_ascii_uppercase(""), "");
}

#[test]
fn texts_are_compared_with_and_without_case() {
    assert!(eq_ignore_ascii_case("Image", "iMAGE"));
    assert!(!eq_ignore_ascii_case("image", "images"));
    assert!(!eq_ignore_ascii_case("straße", "STRASSE"));
    assert!(eq_text("abc", "abc"));
    assert!(!eq_text("abc", "abC"));
    assert!(!eq_text("abc", "ab"));
    assert!(starts_with("localhost:3000", "localhost"));
    assert!(starts_with("localhost", "localhost"));
    assert!(!starts_with("local", "localhost"));
    assert!(!starts_with("xlocalhost", "localhost"));
    assert!(starts_with("anything", ""));
}

#[test]
fn numbers_are_written_and_read_in_decimal() {
    assert_eq!(to_decimal(0), "0");
    assert_eq!(to_decimal(7), "7");
    assert_eq!(to_decimal(10), "10");
    assert_eq!(to_decimal(8080), "8080");
    assert_eq!(to_decimal(u64::MAX), "18446744073709551615");
    assert_eq!(parse_decimal("8080", 65_535), Some(8080));
    assert_eq!(parse_decimal("+8080", 65_535), Some(8080));
    assert_eq!(parse_decimal("65535", 65_535), Some(65_535));
    assert_eq!(parse_decimal("65536", 65_535), None);
    assert_eq!(parse_decimal("0008", 65_535), Some(8));
    assert_eq!(parse_decimal("", 65_535), None);
    assert_eq!(parse_decimal("+", 65_535), None);
    assert_eq!(parse_decimal("-1", 65_535), None);
    assert_eq!(parse_decimal("12a", 65_535), None);
    assert_eq!(parse_decimal(" 12", 65_535), None);
    assert_eq!(parse_decimal("++1", 65_535), None);
    assert_eq!(parse_decimal("18446744073709551615", u64::MAX), Some(u64::MAX));
    assert_eq!(parse_decimal("18446744073709551616", u64::MAX), None);
    assert_eq!(parse_decimal("99999999999999999999999", u64::MAX), None);
    for n in [0u64, 1, 9, 10, 99, 100, 12_345, u64::MAX] {
        assert_eq!(parse_decimal(&to_decimal(n), u64::MAX), Some(n));
    }
}

fn environment() -> Environment {
    Environment {
        database_url: Some("sqlite://attendance.db".to_string()),
        server_host: Some("0.0.0.0".to_string()),
        server_port: Some("8080".to_string()),
        frontend_build_path: Some("../web-ui/out".to_string()),
        base_url: Some("https://attend.example".to_string()),
        confirmation_code_duration_seconds: Some("300".to_string()),
    }
}

#[test]
fn settings_are_read_from_the_environment() {
    let config = Config::from_env(environment()).ok().unwrap();
    assert_eq!(config.database_url, "sqlite://attendance.db");
    assert_eq!(config.server_host, "0.0.0.0");
    assert_eq!(config.server_port, 8080);
    assert_eq!(config.frontend_build_path, "../web-ui/out");
    assert_eq!(config.base_url.as_deref(), Some("https://attend.example"));
    assert_eq!(config.confirmation_code_duration, 300);
    assert_eq!(config.code_validity_millis(), Some(300_000));
}

#[test]
fn settings_have_defaults_for_host_and_base_url() {
    let mut env = environment();
    env.server_host = None;
    env.base_url = Some(String::new());
    let config = Config::from_env(env).ok().unwrap();
    assert_eq!(config.server_host, "127.0.0.1");
    assert!(config.base_url.is_none());
    let mut env = environment();
    env.base_url = None;
    assert!(Config::from_env(env).ok().unwrap().base_url.is_none());
}

#[test]
fn the_first_missing_or_malformed_setting_is_reported() {
    let mut env = environment();
    env.database_url = None;
    env.server_port = None;
    assert_eq!(Config::from_env(env).err(), Some(ConfigError::DatabaseUrlMissing));
    let mut env = environment();
    env.server_port = None;
    assert_eq!(Config::from_env(env).err(), Some(ConfigError::ServerPortMissing));
    let mut env = environment();
    env.server_port = Some("70000".to_string());
    assert_eq!(Config::from_env(env).err(), Some(ConfigError::ServerPortInvalid));
    let mut env = environment();
    env.frontend_build_path = None;
    assert_eq!(Config::from_env(env).err(), Some(ConfigError::FrontendBuildPathMissing));
    let mut env = environment();
    env.confirmation_code_duration_seconds = None;
    assert_eq!(Config::from_env(env).err(), Some(ConfigError::CodeDurationMissing));
    let mut env = environment();
    env.confirmation_code_duration_seconds = Some("five".to_string());
    assert_eq!(Config::from_env(env).err(), Some(ConfigError::CodeDurationInvalid));
    assert_eq!(ConfigError::DatabaseUrlMissing.describe(), "DATABASE_URL must be set");
    assert_eq!(
        ConfigError::ServerPortInvalid.describe(),
        "SERVER_PORT must be a valid u16 number"
    );
    let mut env = environment();
    env.confirmation_code_duration_seconds = Some("18446744073709551615".to_string());
    assert_eq!(Config::from_env(env).ok().unwrap().code_validity_millis(), None);
}

#[test]
fn the_server_url_follows_the_settings() {
    let mut config = Config::from_env(environment()).ok().unwrap();
    assert_eq!(get_server_url(&config, None).as_deref(), Some("https://attend.example"));
    config.base_url = None;
    assert_eq!(
        get_server_url(&config, Some("192.168.1.20")).as_deref(),
        Some("http://192.168.1.20:8080")
    );
    assert_eq!(get_server_url(&config, None), None);
    config.server_host = "127.0.0.1".to_string();
    assert_eq!(get_server_url(&config, None).as_deref(), Some("http://localhost:8080"));
    config.server_host = "10.1.2.3".to_string();
    config.server_port = 80;
    assert_eq!(get_server_url(&config, Some("x")).as_deref(), Some("http://10.1.2.3:80"));
}

fn v4(a: u8, b: u8, c: u8, d: u8) -> IpAddr {
    IpAddr::V4(Ipv4Addr { a, b, c, d })
}

fn v6(groups: [u16; 8]) -> IpAddr {
    IpAddr::V6(Ipv6Addr {
        g0: groups[0],
        g1: groups[1],
        g2: groups[2],
        g3: groups[3],
        g4: groups[4],
        g5: groups[5],
        g6: groups[6],
        g7: groups[7],
    })
}

#[test]
fn local_addresses_are_told_from_others() {
    for (ip, local) in [
        (v4(10, 0, 0, 5), true),
        (v4(172, 16, 0, 1), true),
        (v4(172, 31, 255, 255), true),
        (v4(172, 15, 0, 1), false),
        (v4(172, 32, 0, 1), false),
        (v4(192, 168, 1, 1), true),
        (v4(192, 169, 1, 1), false),
        (v4(127, 0, 0, 1), true),
        (v4(169, 254, 3, 4), true),
        (v4(169, 253, 3, 4), false),
        (v4(8, 8, 8, 8), false),
        (v6([0, 0, 0, 0, 0, 0, 0, 1]), true),
        (v6([0, 0, 0, 0, 0, 0, 0, 2]), false),
        (v6([0xfc00, 0, 0, 0, 0, 0, 0, 1]), true),
        (v6([0xfdff, 1, 2, 3, 4, 5, 6, 7]), true),
        (v6([0xfe80, 0, 0, 0, 0, 0, 0, 1]), false),
        (v6([0x2001, 0xdb8, 0, 0, 0, 0, 0, 1]), false),
    ] {
        assert_eq!(is_local_ip(&ip), local);
    }
    assert!(is_localhost(&v4(127, 0, 0, 1)));
    assert!(is_localhost(&v4(127, 9, 9, 9)));
    assert!(!is_localhost(&v4(10, 0, 0, 1)));
    assert!(is_localhost(&v6([0, 0, 0, 0, 0, 0, 0, 1])));
    assert!(!is_localhost(&v6([1, 0, 0, 0, 0, 0, 0, 1])));
    assert_eq!(get_local_hostname().ok().unwrap(), "localhost");
    assert_eq!(build_local_url("192.168.1.20", 8080, "/attendance"), "http://192.168.1.20:8080/attendance");
}

#[test]
fn only_the_host_machine_passes() {
    assert!(HostOnly::is_host(Some("127.0.0.1")));
    assert!(HostOnly::is_host(Some("::1")));
    assert!(HostOnly::is_host(Some("localhost")));
    assert!(HostOnly::is_host(Some("localhost:4000")));
    assert!(!HostOnly::is_host(Some("127.0.0.2")));
    assert!(!HostOnly::is_host(Some("10.0.0.5")));
    assert!(!HostOnly::is_host(Some("")));
    assert!(!HostOnly::is_host(None));
    let guarded = HostOnly.new_transform(5u8);
    assert_eq!(guarded.service, 5);
    assert!(matches!(guarded.call(Some("127.0.0.1")), Access::Forward));
    match guarded.call(Some("10.0.0.5")) {
        Access::Forbidden { error, message } => {
            assert_eq!(error, "forbidden");
            assert_eq!(
                message,
                "This administrative resource is only accessible from the host machine."
            );
        },
        _ => panic!("a remote address must be refused"),
    }
}

#[test]
fn requests_pass_until_the_limit_is_reached() {
    let config = RateLimiterConfig { requests_per_minute: 3, burst_size: 1 };
    let mut limiter = RateLimiter::new(config);
    assert!(limiter.check(address_key(&v4(10, 0, 0, 5)), 0));
    assert!(limiter.check(address_key(&v4(10, 0, 0, 5)), 10));
    assert!(limiter.check(address_key(&v4(10, 0, 0, 5)), 20));
    assert!(!limiter.check(address_key(&v4(10, 0, 0, 5)), 30));
    assert!(!limiter.check(address_key(&v4(10, 0, 0, 5)), 60_030));
    assert!(limiter.check(address_key(&v4(10, 0, 0, 5)), 120_031));
    assert!(limiter.check(address_key(&v4(10, 0, 0, 6)), 30));
}

#[test]
fn the_burst_passes_whatever_the_limit() {
    let config = RateLimiterConfig { requests_per_minute: 0, burst_size: 2 };
    let mut limiter = RateLimiter::new(config);
    assert!(limiter.check(7, 0));
    assert!(limiter.check(7, 1));
    assert!(!limiter.check(7, 2));
    let defaults = RateLimiterConfig::default();
    assert_eq!(defaults.requests_per_minute, 60);
    assert_eq!(defaults.burst_size, 5);
}

#[test]
fn a_decision_counts_the_request() {
    let config = RateLimiterConfig { requests_per_minute: 2, burst_size: 0 };
    let (tracker, passes) = decide(None, &config, 5);
    assert!(passes);
    assert_eq!(tracker, ClientTracker { last_request: 5, requests_in_window: 1 });
    let (tracker, passes) = decide(Some(tracker), &config, 60_005);
    assert!(passes);
    assert_eq!(tracker, ClientTracker { last_request: 60_005, requests_in_window: 2 });
    let (tracker, passes) = decide(Some(tracker), &config, 60_006);
    assert!(!passes);
    assert_eq!(tracker.requests_in_window, 3);
    let (tracker, passes) = decide(Some(tracker), &config, 120_007);
    assert!(passes);
    assert_eq!(tracker.requests_in_window, 1);
    let full = ClientTracker { last_request: 0, requests_in_window: usize::MAX };
    let (tracker, passes) = decide(Some(full), &config, 1);
    assert!(!passes);
    assert_eq!(tracker.requests_in_window, usize::MAX);
}

#[test]
fn stale_clients_are_forgotten() {
    let config = RateLimiterConfig { requests_per_minute: 1, burst_size: 0 };
    let mut limiter = RateLimiter::new(config);
    assert!(limiter.check(1, 0));
    assert!(limiter.check(2, 50_000));
    assert_eq!(limiter.len(), 2);
    limiter.cleanup(60_000);
    assert_eq!(limiter.len(), 1);
    assert!(limiter.check(1, 60_001));
    assert!(!limiter.check(2, 60_002));
}

#[test]
fn logos_must_be_images_of_a_known_kind() {
    assert_eq!(logo_extension("image", "jpeg").as_deref(), Some("jpg"));
    assert_eq!(logo_extension("image", "png").as_deref(), Some("png"));
    assert_eq!(logo_extension("IMAGE", "gif").as_deref(), Some("gif"));
    assert_eq!(logo_extension("image", "webp").as_deref(), Some("webp"));
    assert_eq!(logo_extension("image", "svg"), None);
    assert_eq!(logo_extension("text", "png"), None);
    assert!(is_valid_image("image", "png"));
    assert!(!is_valid_image("application", "pdf"));
    assert_eq!(logo_extension_for("image/png").as_deref(), Some("png"));
    assert_eq!(logo_extension_for("image/jpeg; q=0.8").as_deref(), Some("jpg"));
    assert_eq!(logo_extension_for("text/plain"), None);
    assert_eq!(logo_extension_for("not a content type"), None);
}

#[test]
fn stored_files_get_fresh_names() {
    let storage = StorageService::new("uploads".to_string(), "/uploads".to_string());
    let first = storage.name_for_file("notes.final.TXT");
    let second = storage.name_for_file("notes.final.TXT");
    assert!(first.ends_with(".TXT"));
    assert_eq!(first.len(), 36 + 4);
    assert_ne!(first, second);
    assert!(parse_course_id(&first[..36]).is_some());
    assert!(storage.name_for_file("README").ends_with(".bin"));
    assert!(storage.name_for_file(".hidden").ends_with(".bin"));
    let logo = storage.name_for_logo("image", "jpeg").unwrap();
    assert!(logo.starts_with("university-logo-"));
    assert!(logo.ends_with(".jpg"));
    assert!(storage.name_for_logo("image", "bmp").is_none());
    assert_eq!(storage.public_url("a.png"), "/uploads/a.png");
    assert_eq!(storage.file_path("a.png"), "uploads/a.png");
    assert_eq!(file_name("logo-", 0, "png"), "logo-00000000-0000-0000-0000-000000000000.png");
}

#[test]
fn uploads_are_limited_in_size() {
    assert_eq!(accept_chunk(0, 10), Some(10));
    assert_eq!(accept_chunk(2_097_152 - 10, 10), Some(2_097_152));
    assert_eq!(accept_chunk(2_097_152 - 10, 11), None);
    assert_eq!(accept_chunk(0, usize::MAX), None);
    assert_eq!(accept_chunk(usize::MAX, usize::MAX), None);
}

#[test]
fn the_last_segment_of_a_url_is_the_file_name() {
    assert_eq!(last_segment("/uploads/logos/a.png"), "a.png");
    assert_eq!(last_segment("a.png"), "a.png");
    assert_eq!(last_segment("/uploads/"), "");
    assert_eq!(last_segment(""), "");
    assert_eq!(last_segment("ä/ö"), "ö");
}

#[test]
fn the_qr_code_leads_to_the_attendance_page() {
    let service = QrCodeService::new();
    assert_eq!(
        service.attendance_url("http://192.168.1.20:8080", 0x550e8400_e29b_41d4_a716_446655440000),
        "http://192.168.1.20:8080/attendance?course=550e8400-e29b-41d4-a716-446655440000"
    );
}

#[test]
fn clients_register_and_unregister_by_name() {
    let mut service = RealtimeService::new();
    assert_eq!(service.get_connected_count(1), 0);
    service.register(1, "a".to_string());
    service.register(1, "b".to_string());
    service.register(1, "a".to_string());
    service.register(2, "c".to_string());
    assert_eq!(service.get_connected_count(1), 3);
    let out = service.broadcast(1, "hello");
    assert_eq!(out.iter().map(|o| o.0.as_str()).collect::<Vec<_>>(), vec!["a", "b", "a"]);
    assert!(out.iter().all(|o| o.1 .0 == "hello"));
    service.unregister(1, "a");
    assert_eq!(service.get_connected_count(1), 1);
    assert_eq!(service.broadcast(1, "x")[0].0, "b");
    service.unregister(1, "zzz");
    service.unregister(3, "a");
    assert_eq!(service.get_connected_count(1), 1);
    assert_eq!(service.get_connected_count(2), 1);
    assert_eq!(service.broadcast(9, "x").len(), 0);
}

#[test]
fn a_client_session_registers_itself() {
    let mut service = RealtimeService::new();
    let session = WebSocketSession::new(7);
    assert_eq!(session.course_id, 7);
    assert!(parse_course_id(&session.client_id).is_some());
    assert_ne!(WebSocketSession::new(7).client_id, session.client_id);
    session.started(&mut service);
    assert_eq!(service.get_connected_count(7), 1);
    session.stopping(&mut service);
    assert_eq!(service.get_connected_count(7), 0);
    let named = WebSocketSession::with_client_id(7, "me".to_string());
    assert_eq!(named.client_id, "me");
}

#[test]
fn sign_in_tells_nothing_about_which_part_was_wrong() {
    let unknown = LoginResponse::decide(false, false, None);
    let wrong = LoginResponse::decide(true, false, Some("t".to_string()));
    assert!(!unknown.success && !wrong.success);
    assert_eq!(unknown.message, wrong.message);
    assert_eq!(unknown.message, "Invalid username or password");
    assert!(unknown.token.is_none() && wrong.token.is_none());
    let good = LoginResponse::decide(true, true, Some("t".to_string()));
    assert!(good.success);
    assert_eq!(good.message, "Login successful");
    assert_eq!(good.token.as_deref(), Some("t"));
    assert!(!LoginResponse::decide(true, true, None).success);
}

#[test]
fn tokens_are_good_for_a_day() {
    let claims = Claims::issue("user-1".to_string(), 1_700_000_000).unwrap();
    assert_eq!(claims.sub, "user-1");
    assert_eq!(claims.iat, 1_700_000_000);
    assert_eq!(claims.exp, 1_700_086_400);
    assert!(Claims::issue("user-1".to_string(), usize::MAX).is_none());
}

#[test]
fn the_current_course_is_a_preference() {
    let preference = Preference::current_course("550e8400".to_string());
    assert_eq!(preference.key, "current_course_id");
    assert_eq!(preference.current_course_text(), Some("550e8400"));
    assert_eq!(Preference::current_course(String::new()).current_course_text(), None);
    let other = Preference { key: "theme".to_string(), value: "dark".to_string() };
    assert_eq!(other.current_course_text(), None);
}

#[test]
fn a_logo_change_keeps_the_rest_of_the_course() {
    let course = Course {
        id: 7,
        name: "Algebra".to_string(),
        section_number: "001".to_string(),
        sections: vec!["000".to_string(), "001".to_string()],
        professor_name: "Prof. Doe".to_string(),
        office_hours: "MWF".to_string(),
        news: "Welcome!".to_string(),
        total_students: 25,
        logo_path: "/old.png".to_string(),
        confirmation_code: None,
        confirmation_code_expires_at: None,
        created_at: 0,
        updated_at: 0,
    };
    let payload = course.with_logo("/uploads/logos/new.png");
    assert_eq!(payload.name, "Algebra");
    assert_eq!(payload.section_number, "001");
    assert_eq!(payload.sections, vec!["000".to_string(), "001".to_string()]);
    assert_eq!(payload.professor_name, "Prof. Doe");
    assert_eq!(payload.office_hours, "MWF");
    assert_eq!(payload.news, "Welcome!");
    assert_eq!(payload.total_students, 25);
    assert_eq!(payload.logo_path, "/uploads/logos/new.png");
}

#[test]
fn an_upload_names_its_course_in_a_header() {
    assert_eq!(
        course_of_upload(CourseHeader::Text("550e8400-e29b-41d4-a716-446655440000")).ok(),
        Some(0x550e8400_e29b_41d4_a716_446655440000)
    );
    match course_of_upload(CourseHeader::Missing) {
        Err(AppError::BadClientData(message)) => assert_eq!(message, "Missing X-Course-ID header"),
        _ => panic!("a missing header is bad input"),
    }
    match course_of_upload(CourseHeader::NotText) {
        Err(AppError::BadClientData(message)) => {
            assert_eq!(message, "Invalid course ID format in header")
        },
        _ => panic!("a header that is not text is bad input"),
    }
    match course_of_upload(CourseHeader::Text("seven")) {
        Err(AppError::BadClientData(message)) => {
            assert_eq!(message, "Invalid UUID format for course ID")
        },
        _ => panic!("a header that is no uuid is bad input"),
    }
}

#[test]
fn an_address_has_a_number() {
    assert_eq!(address_key(&v4(127, 0, 0, 1)), 0xffff_7f00_0001);
    assert_eq!(address_key(&v4(10, 0, 0, 5)), 0xffff_0a00_0005);
    assert_eq!(address_key(&v4(255, 255, 255, 255)), 0xffff_ffff_ffff);
    assert_eq!(address_key(&v6([0, 0, 0, 0, 0, 0, 0, 1])), 1);
    assert_eq!(
        address_key(&v6([0x2001, 0xdb8, 0, 1, 2, 3, 4, 0xffff])),
        0x2001_0db8_0000_0001_0002_0003_0004_ffff
    );
    assert_eq!(address_key(&v6([0, 0, 0, 0, 0, 0xffff, 0x0a00, 5])), address_key(&v4(10, 0, 0, 5)));
    assert_ne!(address_key(&v4(10, 0, 0, 5)), address_key(&v4(10, 0, 0, 6)));
}
