use cloudrun_bot::cloud::{line_at, structured_line, Timestamp};
use cloudrun_bot::filter::{split_targets, LogTargets, Pattern};
use cloudrun_bot::level::{CloudSeverity, Level};
use cloudrun_bot::logger::{
    error_report_type, format_structured, format_text, get_crate_root, max_level,
    setup_gcp_logger, LogFormat, LogRecord, Logger, Output,
};

fn strings(items: &[&str]) -> Vec<String> {
    items.iter().map(|s| s.to_string()).collect()
}

fn record(level: Level, target: &str, message: &str) -> LogRecord {
    LogRecord {
        level,
        target: target.to_string(),
        message: message.to_string(),
        file: Some("src/net.rs".to_string()),
        line: Some(42),
        function: Some("myservice::net".to_string()),
    }
}

#[test]
fn pattern_list_passes_own_origin_only() {
    let (targets, rejected) = LogTargets::from_patterns(&strings(&["myservice"]));
    assert!(rejected.is_empty());
    assert!(targets.enabled("myservice::net"));
    assert!(!targets.enabled("otherlib::io"));
}

#[test]
fn all_marker_passes_every_origin() {
    let (targets, _) = LogTargets::from_config(Some("myservice,ALL"), "myservice");
    assert!(targets.enabled("otherlib::io"));
    assert!(targets.enabled(""));
    let (lower, _) = LogTargets::from_patterns(&strings(&["all"]));
    assert!(lower.enabled("anything::else"));
}

#[test]
fn pattern_that_does_not_compile_is_rejected() {
    let (targets, rejected) = LogTargets::from_patterns(&strings(&["(", "^svc$"]));
    assert_eq!(rejected.len(), 1);
    assert_eq!(rejected[0].pattern, "(");
    assert!(targets.enabled("svc"));
    assert!(!targets.enabled("svc::net"));
}

#[test]
fn regex_patterns_match_anywhere() {
    let p = match Pattern::compile("net$".to_string()) {
        Ok(p) => p,
        Err(_) => panic!("pattern should compile"),
    };
    assert_eq!(p.source(), "net$");
    assert!(p.is_match("myservice::net"));
    assert!(!p.is_match("myservice::network"));
}

#[test]
fn default_entry_when_unset() {
    let (targets, rejected) = LogTargets::from_config(None, "mybot");
    assert!(rejected.is_empty());
    assert!(targets.enabled("mybot::commands"));
    assert!(!targets.enabled("serenity::gateway"));
}

#[test]
fn comma_list_is_split_in_order() {
    assert_eq!(split_targets("a,,b"), strings(&["a", "", "b"]));
    assert_eq!(split_targets(""), strings(&[""]));
    assert_eq!(split_targets("x,"), strings(&["x", ""]));
    assert_eq!(split_targets("é,ß"), strings(&["é", "ß"]));
}

#[test]
fn severity_mapping_is_fixed() {
    let levels = [Level::Error, Level::Warn, Level::Info, Level::Debug, Level::Trace];
    let labels: Vec<&str> = levels.iter().map(|l| l.label()).collect();
    assert_eq!(labels, vec!["ERROR", "WARN", "INFO", "DEBUG", "TRACE"]);
    let severities: Vec<CloudSeverity> = levels.iter().map(|l| l.severity()).collect();
    assert_eq!(
        severities,
        vec![
            CloudSeverity::Error,
            CloudSeverity::Warning,
            CloudSeverity::Info,
            CloudSeverity::Debug,
            CloudSeverity::Default
        ]
    );
    assert_eq!(Level::Warn.padded_label(), "WARN ");
}

#[test]
fn text_line_of_warning_has_stack_block() {
    let line = format_text(Level::Warn, "svc", "disk low", "at main");
    assert_eq!(line, "WARN :svc - disk low\nat main");
}

#[test]
fn text_line_of_info_has_no_stack_block() {
    assert_eq!(format_text(Level::Info, "svc", "up", "at main"), "INFO :svc - up");
    assert_eq!(format_text(Level::Debug, "svc", "x", "st"), "DEBUG:svc - x");
    assert_eq!(format_text(Level::Trace, "svc", "x", "st"), "TRACE:svc - x");
    assert_eq!(format_text(Level::Error, "svc", "x", "st"), "ERROR:svc - x\nst");
}

#[test]
fn text_logger_renders_warning_with_captured_stack() {
    let (targets, _) = LogTargets::from_patterns(&strings(&["svc"]));
    let logger = Logger::custom(LogFormat::Text, targets);
    match logger.log(&record(Level::Warn, "svc", "disk low")) {
        Some(Output::Text(line)) => {
            let prefix = "WARN :svc - disk low\n";
            assert!(line.starts_with(prefix));
            assert!(line.len() > prefix.len());
        }
        _ => panic!("a text line was expected"),
    }
    assert!(logger.log(&record(Level::Warn, "other", "disk low")).is_none());
}

#[test]
fn structured_entry_of_error_carries_marker() {
    let e = format_structured(&record(Level::Error, "myservice::net::tcp", "boom"), "trace");
    assert_eq!(e.severity, CloudSeverity::Error);
    assert_eq!(e.report_type.as_deref(), Some(error_report_type()));
    assert_eq!(
        error_report_type(),
        "type.googleapis.com/google.devtools.clouderrorreporting.v1beta1.ReportedErrorEvent"
    );
    assert_eq!(e.message, "boom\ntrace");
    assert_eq!(e.operation_id, "myservice");
    assert_eq!(e.operation_producer, "myservice::net::tcp");
    assert_eq!(e.source_file.as_deref(), Some("src/net.rs"));
    assert_eq!(e.source_line, Some(42));
    assert_eq!(e.source_function.as_deref(), Some("myservice::net"));
}

#[test]
fn structured_entry_of_other_levels_has_no_marker() {
    for level in [Level::Warn, Level::Info, Level::Debug, Level::Trace] {
        let e = format_structured(&record(level, "svc", "m"), "trace");
        assert!(e.report_type.is_none());
    }
    let warn = format_structured(&record(Level::Warn, "svc", "m"), "trace");
    assert_eq!(warn.message, "m\ntrace");
    assert_eq!(warn.severity, CloudSeverity::Warning);
    let info = format_structured(&record(Level::Info, "svc", "m"), "trace");
    assert_eq!(info.message, "m");
}

#[test]
fn json_logger_renders_entries() {
    let (targets, _) = LogTargets::from_config(Some("all"), "svc");
    let logger = Logger::custom(LogFormat::Json, targets);
    match logger.render(&record(Level::Info, "lib::x", "hello"), "unused") {
        Some(Output::Structured(e)) => {
            assert_eq!(e.severity, CloudSeverity::Info);
            assert_eq!(e.operation_id, "lib");
            assert_eq!(e.message, "hello");
        }
        _ => panic!("a structured entry was expected"),
    }
}

#[test]
fn crate_root_is_first_segment() {
    assert_eq!(get_crate_root("a::b::c"), "a");
    assert_eq!(get_crate_root("plain"), "plain");
    assert_eq!(get_crate_root("::x"), "");
    assert_eq!(get_crate_root("a:b::c"), "a:b");
    assert_eq!(get_crate_root(""), "");
}

#[test]
fn format_setting_is_read() {
    assert_eq!(LogFormat::get_format(Some("text")), (LogFormat::Text, true));
    assert_eq!(LogFormat::get_format(Some("json")), (LogFormat::Json, true));
    assert_eq!(LogFormat::get_format(Some("TEXT")), (LogFormat::Json, false));
    assert_eq!(LogFormat::get_format(None), (LogFormat::Json, true));
}

#[test]
fn logger_from_settings() {
    let (logger, recognised, rejected) = Logger::new(Some("xml"), Some("svc,["), "svc");
    assert!(!recognised);
    assert_eq!(logger.format(), LogFormat::Json);
    assert_eq!(rejected.len(), 1);
    assert_eq!(rejected[0].pattern, "[");
    assert!(logger.enabled("svc::a"));
    assert!(!logger.enabled("lib::a"));
}

#[test]
fn gcp_logger_is_structured() {
    let (targets, _) = LogTargets::from_config(None, "svc");
    let (logger, level) = setup_gcp_logger(targets, false);
    assert_eq!(logger.format(), LogFormat::Json);
    assert_eq!(level, Level::Info);
    assert_eq!(max_level(true), Level::Trace);
}

#[test]
fn structured_line_is_one_json_document() {
    let entry = format_structured(&record(Level::Error, "myservice::net", "boom"), "at main\nat run");
    let line = line_at(&entry, Timestamp { seconds: 0, nanos: 0 });
    assert!(!line.contains('\n'));
    let v: serde_json::Value = serde_json::from_str(&line).expect("valid JSON");
    assert_eq!(v["severity"], "error");
    assert_eq!(v["message"], "boom\nat main\nat run");
    assert_eq!(v["@type"], error_report_type());
    assert_eq!(v["logging.googleapis.com/operation"]["producer"], "myservice::net");
    assert_eq!(v["logging.googleapis.com/operation"]["id"], "myservice");
    assert_eq!(v["logging.googleapis.com/sourceLocation"]["line"], "42");
    assert_eq!(v["time"], "1970-01-01T00:00:00Z");

    let info = format_structured(&record(Level::Info, "svc", "up"), "");
    let now = match structured_line(&info) {
        Ok(line) => line,
        Err(_) => panic!("the clock should be in range"),
    };
    let v: serde_json::Value = serde_json::from_str(&now).expect("valid JSON");
    assert_eq!(v["severity"], "info");
    assert!(v.get("@type").is_none());
    assert!(v["time"].is_string());
    assert_eq!(v["logging.googleapis.com/operation"]["producer"], "svc");
}

#[test]
fn timestamp_validity_bounds() {
    assert!(Timestamp { seconds: 1_700_000_000, nanos: 999_999_999 }.is_valid());
    assert!(Timestamp { seconds: -8_000_000_000_000, nanos: 0 }.is_valid());
    assert!(!Timestamp { seconds: 0, nanos: 1_000_000_000 }.is_valid());
    assert!(!Timestamp { seconds: 8_000_000_000_001, nanos: 0 }.is_valid());
    let entry = format_structured(&record(Level::Debug, "svc", "m"), "");
    let early = line_at(&entry, Timestamp { seconds: -1, nanos: 500_000_000 });
    let v: serde_json::Value = serde_json::from_str(&early).expect("valid JSON");
    assert_eq!(v["time"], "1969-12-31T23:59:59.500Z");
    assert_eq!(v["severity"], "debug");
}
