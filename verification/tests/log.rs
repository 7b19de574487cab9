use finlife::shared::errors::AppError;
use finlife::shared::log::{
    debug, error, format_print, info, info2, init_from_config, request_line, response_line,
    set_print_info, status_color, success, warning, Color, Logger, TimePrinter,
};
use finlife::shared::response::ApiResponse;

#[test]
fn colour_codes_are_the_escape_sequences() {
    assert_eq!(Color::Reset.code(), "\x1b[0m");
    assert_eq!(Color::Black.code(), "\x1b[0;30m");
    assert_eq!(Color::White.code(), "\x1b[0;37m");
    assert_eq!(Color::RedBold.code(), "\x1b[1;31m");
    assert_eq!(Color::GreenBold.code(), "\x1b[1;32m");
    assert_eq!(Color::CyanUnderlined.code(), "\x1b[4;36m");
    assert_eq!(Color::YellowBackground.code(), "\x1b[43m");
    assert_eq!(Color::BlueBright.code(), "\x1b[0;94m");
    assert_eq!(Color::MagentaBoldBright.code(), "\x1b[1;95m");
    assert_eq!(Color::WhiteBackgroundBright.code(), "\x1b[0;107m");
    assert_eq!(Color::BlackBackgroundBright.code(), "\x1b[0;100m");
    assert_eq!(Color::Red.to_string(), "\x1b[0;31m");
}

#[test]
fn a_line_is_colour_time_message_reset() {
    let logger = Logger { print_info: true };
    assert_eq!(
        format_print(&logger, Color::Blue, "2026-01-01 00:00:00 UTC", "started"),
        Some("\x1b[0;34m2026-01-01 00:00:00 UTC started\x1b[0m".to_string())
    );
}

#[test]
fn each_kind_of_line_has_its_colour() {
    let logger = Logger { print_info: true };
    assert_eq!(info(&logger, "t", "m"), Some("\x1b[1;37mt m\x1b[0m".to_string()));
    assert_eq!(info2(&logger, "t", "m"), Some("\x1b[1;33mt m\x1b[0m".to_string()));
    assert_eq!(warning(&logger, "t", "m"), Some("\x1b[1;35mt m\x1b[0m".to_string()));
    assert_eq!(error(&logger, "t", "m"), Some("\x1b[1;31mt m\x1b[0m".to_string()));
    assert_eq!(success(&logger, "t", "m"), Some("\x1b[1;32mt m\x1b[0m".to_string()));
    assert_eq!(debug(&logger, "t", "m"), Some("\x1b[1;36mt m\x1b[0m".to_string()));
}

#[test]
fn a_silent_logger_prints_nothing() {
    let logger = Logger { print_info: false };
    assert_eq!(info(&logger, "t", "m"), None);
    assert_eq!(error(&logger, "t", "m"), None);
    assert_eq!(format_print(&logger, Color::Red, "t", "m"), None);
}

#[test]
fn production_switches_printing_off() {
    assert_eq!(init_from_config(true), Logger { print_info: false });
    assert_eq!(init_from_config(false), Logger { print_info: true });
}

#[test]
fn printing_can_be_switched() {
    let mut logger = Logger { print_info: true };
    set_print_info(&mut logger, false);
    assert!(!logger.print_info);
    set_print_info(&mut logger, true);
    assert!(logger.print_info);
}

#[test]
fn failures_map_to_status_and_text() {
    assert_eq!(AppError::Unauthorized.into_response(), (401, "unauthorized".to_string()));
    assert_eq!(AppError::Forbidden.into_response(), (403, "forbidden".to_string()));
    assert_eq!(AppError::NotFound.into_response(), (404, "not found".to_string()));
    assert_eq!(
        AppError::BadRequest("invalid fx rate".to_string()).into_response(),
        (400, "bad request: invalid fx rate".to_string())
    );
    assert_eq!(AppError::Internal.into_response(), (500, "internal error".to_string()));
}

#[test]
fn a_store_failure_never_shows_its_cause() {
    let failure = AppError::Db("Access denied for user 'root'".to_string());
    assert_eq!(failure.to_string(), "db error");
    assert_eq!(failure.into_response(), (500, "db error".to_string()));
}

#[test]
fn envelope_of_a_success_holds_the_data() {
    let response = ApiResponse::success(7);
    assert_eq!(response, ApiResponse { success: true, data: Some(7), error: None });
}

#[test]
fn envelope_of_a_failure_holds_the_text() {
    let response: ApiResponse<u8> = ApiResponse::error("nope".to_string());
    assert_eq!(response, ApiResponse { success: false, data: None, error: Some("nope".to_string()) });
}

#[test]
fn a_timer_prints_the_milliseconds_that_went_by() {
    let logger = Logger { print_info: true };
    let (timer, announcement) = TimePrinter::with_message(&logger, "t0", 1_000, "[REDIS] [GET]");
    assert_eq!(announcement, Some("\x1b[1;33mt0 [REDIS] [GET]\x1b[0m".to_string()));
    assert_eq!(timer, TimePrinter { start_millis: 1_000, message: "[REDIS] [GET]".to_string() });
    assert_eq!(
        timer.log(&logger, "t1", 1_042),
        Some("\x1b[1;32mt1 [REDIS] [GET] millis: 42\x1b[0m".to_string())
    );
    assert_eq!(
        timer.print(&logger, "t1", 1_000),
        Some("\x1b[1;37mt1 [REDIS] [GET] millis: 0\x1b[0m".to_string())
    );
    assert_eq!(
        timer.info(&logger, "t1", 11_000),
        Some("\x1b[1;33mt1 [REDIS] [GET] millis: 10000\x1b[0m".to_string())
    );
    assert_eq!(
        timer.warning(&logger, "t1", 1_007),
        Some("\x1b[1;35mt1 [REDIS] [GET] millis: 7\x1b[0m".to_string())
    );
    assert_eq!(
        timer.error(&logger, "t1", 999),
        Some("\x1b[1;31mt1 [REDIS] [GET] millis: -1\x1b[0m".to_string())
    );
}

#[test]
fn a_timer_can_say_more() {
    let logger = Logger { print_info: true };
    let timer = TimePrinter { start_millis: 0, message: "call".to_string() };
    assert_eq!(
        timer.error_with_message(&logger, "t", 5, "failed"),
        Some("\x1b[1;31mt call failed millis: 5\x1b[0m".to_string())
    );
    assert_eq!(
        timer.log_with_message(&logger, "t", 5, "done"),
        Some("\x1b[1;32mt call done millis: 5\x1b[0m".to_string())
    );
    assert_eq!(
        timer.print_with_message(&logger, "t", 5, "x"),
        Some("\x1b[1;37mt call x millis: 5\x1b[0m".to_string())
    );
    assert_eq!(
        timer.info_with_message(&logger, "t", 5, "x"),
        Some("\x1b[1;33mt call x millis: 5\x1b[0m".to_string())
    );
    assert_eq!(
        timer.warning_with_message(&logger, "t", 5, "x"),
        Some("\x1b[1;35mt call x millis: 5\x1b[0m".to_string())
    );
    assert_eq!(
        timer.print_internal(&logger, Color::Blue, "t", 5, Some("other")),
        Some("\x1b[0;34mt other millis: 5\x1b[0m".to_string())
    );
}

#[test]
fn a_timer_over_the_whole_range_of_time_does_not_overflow() {
    let logger = Logger { print_info: true };
    let timer = TimePrinter::new(i64::MIN);
    assert_eq!(timer.message, "");
    assert_eq!(
        timer.log(&logger, "t", i64::MAX),
        Some("\x1b[1;32mt  millis: 18446744073709551615\x1b[0m".to_string())
    );
    let late = TimePrinter::new(i64::MAX);
    assert_eq!(
        late.log(&logger, "t", i64::MIN),
        Some("\x1b[1;32mt  millis: -18446744073709551615\x1b[0m".to_string())
    );
}

#[test]
fn a_silent_logger_times_nothing() {
    let logger = Logger { print_info: false };
    let (timer, announcement) = TimePrinter::with_message(&logger, "t0", 0, "work");
    assert_eq!(announcement, None);
    assert_eq!(timer.log(&logger, "t1", 10), None);
    assert_eq!(timer.error_with_message(&logger, "t1", 10, "x"), None);
}

#[test]
fn a_response_is_reported_in_the_colour_of_its_status() {
    assert_eq!(status_color(200), Color::GreenBold);
    assert_eq!(status_color(299), Color::GreenBold);
    assert_eq!(status_color(300), Color::WhiteBold);
    assert_eq!(status_color(399), Color::WhiteBold);
    assert_eq!(status_color(404), Color::MagentaBold);
    assert_eq!(status_color(500), Color::RedBold);
    assert_eq!(status_color(599), Color::RedBold);
    assert_eq!(status_color(600), Color::CyanBold);
    assert_eq!(status_color(199), Color::CyanBold);
    assert_eq!(status_color(0), Color::CyanBold);
}

#[test]
fn request_and_response_lines() {
    let logger = Logger { print_info: true };
    assert_eq!(
        request_line(&logger, "t", "GET", "/api/services/people"),
        Some("\x1b[1;33mt [HTTP] [GET] /api/services/people\x1b[0m".to_string())
    );
    assert_eq!(
        response_line(&logger, "t", "GET", "/api/services/people", 200, 12),
        Some("\x1b[1;32mt [HTTP] [GET] /api/services/people - 12ms\x1b[0m".to_string())
    );
    assert_eq!(
        response_line(&logger, "t", "PUT", "/x", 404, 0),
        Some("\x1b[1;35mt [HTTP] [PUT] /x - 0ms\x1b[0m".to_string())
    );
    assert_eq!(
        response_line(&logger, "t", "PUT", "/x", 503, u64::MAX),
        Some("\x1b[1;31mt [HTTP] [PUT] /x - 18446744073709551615ms\x1b[0m".to_string())
    );
    assert_eq!(response_line(&Logger { print_info: false }, "t", "PUT", "/x", 503, 1), None);
}
