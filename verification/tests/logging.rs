use ferric::logging::{
    format_record, level_for, log_file_name, log_file_name_for, timestamp, LogLevel,
    TIMESTAMP_LIMIT,
};

#[test]
fn debug_toggle_selects_the_level() {
    assert_eq!(level_for(true), LogLevel::Debug);
    assert_eq!(level_for(false), LogLevel::Info);
}

#[test]
fn timestamps_are_rfc3339_to_the_second() {
    assert_eq!(timestamp(0), Some("1970-01-01T00:00:00Z".to_string()));
    assert_eq!(timestamp(1_518_568_087), Some("2018-02-14T00:28:07Z".to_string()));
    assert_eq!(timestamp(TIMESTAMP_LIMIT - 1), Some("9999-12-31T23:59:59Z".to_string()));
}

#[test]
fn timestamps_past_the_limit_are_refused() {
    assert_eq!(timestamp(TIMESTAMP_LIMIT), None);
    assert_eq!(timestamp(u64::MAX), None);
    assert_eq!(log_file_name(TIMESTAMP_LIMIT), None);
}

#[test]
fn log_file_is_named_after_its_opening_time() {
    assert_eq!(log_file_name(0), Some("ferric_log_1970-01-01T00:00:00Z.log".to_string()));
    assert_eq!(
        log_file_name(1_518_568_087),
        Some("ferric_log_2018-02-14T00:28:07Z.log".to_string())
    );
    assert_eq!(log_file_name_for("now"), "ferric_log_now.log");
    assert_eq!(log_file_name_for(""), "ferric_log_.log");
}

#[test]
fn record_line_has_stamp_level_target_message() {
    assert_eq!(
        format_record("2018-02-14T00:28:07Z", "INFO", "ferric", "Running app..."),
        "(2018-02-14T00:28:07Z INFO) [ferric] Running app..."
    );
    assert_eq!(format_record("", "", "", ""), "( ) [] ");
}
