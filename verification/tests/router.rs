use std::collections::HashMap;
use structured_logging::router::{build_sinks, parse_filter, resolve_filter};
use structured_logging::{
    init_logging, log_business_event, log_performance_metric, log_security_event, BusinessEventType,
    Category, CorrelationId, Delivery, Destination, Event, Field, FieldValue, InitError, Level, LogContext,
    PerformanceMetric, SecurityEventType, Sink, SinkFilter, SinkFormat, SinkRouter, Startup,
    StructuredJsonFormatter,
};

fn startup() -> Startup {
    Startup { directory_ready: true, level_override: None, environment: None }
}

fn router(level: &str, json: bool) -> SinkRouter {
    let mut router = SinkRouter::new();
    assert_eq!(init_logging(&mut router, level, json, startup()), Ok(()));
    router
}

fn destinations(deliveries: &[Delivery]) -> Vec<Destination> {
    deliveries.iter().map(|d| d.destination).collect()
}

fn object(line: &str) -> serde_json::Map<String, serde_json::Value> {
    match serde_json::from_str::<serde_json::Value>(line).unwrap() {
        serde_json::Value::Object(map) => map,
        other => panic!("not an object: {other}"),
    }
}

fn plain_event(level: Level, target: &str) -> Event {
    Event {
        level,
        target: target.to_string(),
        fields: vec![Field { name: "message".to_string(), value: FieldValue::Text("m".to_string()) }],
        file: None,
        line: None,
    }
}

#[test]
fn a_new_router_has_nothing_installed() {
    let router = SinkRouter::new();
    assert!(router.installed.is_none());
    assert!(router.emit(&LogContext::root(), &plain_event(Level::Error, "x")).is_empty());
}

#[test]
fn init_installs_the_five_sinks() {
    let router = router("debug", true);
    let installed = router.installed.as_ref().unwrap();
    assert_eq!(
        installed.sinks,
        vec![
            Sink { destination: Destination::Console, filter: SinkFilter::MinSeverity(Level::Debug), format: SinkFormat::Json },
            Sink { destination: Destination::AppLog, filter: SinkFilter::MinSeverity(Level::Debug), format: SinkFormat::Json },
            Sink { destination: Destination::ErrorLog, filter: SinkFilter::MinSeverity(Level::Error), format: SinkFormat::Json },
            Sink { destination: Destination::SecurityLog, filter: SinkFilter::Category(Category::Security), format: SinkFormat::Json },
            Sink { destination: Destination::PerformanceLog, filter: SinkFilter::Category(Category::Performance), format: SinkFormat::Json },
        ]
    );
    assert_eq!(installed.formatter.environment, "development");
}

#[test]
fn plain_mode_changes_console_and_general_log_only() {
    let sinks = build_sinks(SinkFilter::MinSeverity(Level::Info), false);
    assert_eq!(sinks.len(), 5);
    assert_eq!(sinks[0].format, SinkFormat::Plain);
    assert_eq!(sinks[1].format, SinkFormat::Plain);
    assert_eq!(sinks[2].format, SinkFormat::Json);
    assert_eq!(sinks[3].format, SinkFormat::Json);
    assert_eq!(sinks[4].format, SinkFormat::Json);
}

#[test]
fn init_takes_the_environment_tag() {
    let mut router = SinkRouter::new();
    let startup = Startup { directory_ready: true, level_override: None, environment: Some("production".to_string()) };
    assert_eq!(init_logging(&mut router, "info", true, startup), Ok(()));
    assert_eq!(router.installed.unwrap().formatter.environment, "production");
}

#[test]
fn a_second_init_is_refused_and_changes_nothing() {
    let mut router = router("warn", true);
    let again = Startup { directory_ready: false, level_override: None, environment: Some("other".to_string()) };
    assert_eq!(init_logging(&mut router, "trace", false, again), Err(InitError::AlreadyInitialized));
    let installed = router.installed.as_ref().unwrap();
    assert_eq!(installed.sinks, build_sinks(SinkFilter::MinSeverity(Level::Warn), true));
    assert_eq!(installed.formatter.environment, "development");
}

#[test]
fn init_fails_without_the_log_directory() {
    let mut router = SinkRouter::new();
    let startup = Startup { directory_ready: false, level_override: None, environment: None };
    assert_eq!(init_logging(&mut router, "info", true, startup), Err(InitError::DirectoryUnavailable));
    assert!(router.installed.is_none());
}

#[test]
fn init_fails_on_a_level_that_does_not_parse() {
    let mut router = SinkRouter::new();
    assert_eq!(init_logging(&mut router, "loud", true, startup()), Err(InitError::InvalidFilter));
    assert!(router.installed.is_none());
    let both_bad = Startup { directory_ready: true, level_override: Some("x".to_string()), environment: None };
    assert_eq!(init_logging(&mut router, "", true, both_bad), Err(InitError::InvalidFilter));
    assert!(router.installed.is_none());
    assert_eq!(init_logging(&mut router, "info", true, startup()), Ok(()));
}

#[test]
fn the_level_of_the_environment_takes_precedence() {
    let at = |level| Some(SinkFilter::MinSeverity(level));
    assert_eq!(resolve_filter("info", &Some("ERROR".to_string())), at(Level::Error));
    assert_eq!(resolve_filter("info", &None), at(Level::Info));
    assert_eq!(resolve_filter("info", &Some("bogus".to_string())), at(Level::Info));
    assert_eq!(resolve_filter("bogus", &Some("trace".to_string())), at(Level::Trace));
    assert_eq!(resolve_filter("info", &Some("off".to_string())), Some(SinkFilter::Nothing));
    assert_eq!(resolve_filter("bogus", &Some("bogus".to_string())), None);
    assert_eq!(resolve_filter("bogus", &None), None);
    let mut router = SinkRouter::new();
    let startup = Startup { directory_ready: true, level_override: Some("error".to_string()), environment: None };
    assert_eq!(init_logging(&mut router, "debug", true, startup), Ok(()));
    assert_eq!(router.installed.unwrap().sinks[0].filter, SinkFilter::MinSeverity(Level::Error));
}

#[test]
fn each_destination_but_the_console_has_its_file() {
    assert_eq!(Destination::Console.file_name(), None);
    assert_eq!(Destination::AppLog.file_name(), Some("app.log"));
    assert_eq!(Destination::ErrorLog.file_name(), Some("error.log"));
    assert_eq!(Destination::SecurityLog.file_name(), Some("security.log"));
    assert_eq!(Destination::PerformanceLog.file_name(), Some("performance.log"));
}

#[test]
fn a_filter_is_named_by_a_level_or_off() {
    assert_eq!(parse_filter("warn"), Some(SinkFilter::MinSeverity(Level::Warn)));
    assert_eq!(parse_filter("TRACE"), Some(SinkFilter::MinSeverity(Level::Trace)));
    assert_eq!(parse_filter("off"), Some(SinkFilter::Nothing));
    assert_eq!(parse_filter("OFF"), Some(SinkFilter::Nothing));
    assert_eq!(parse_filter("3"), None);
    assert_eq!(parse_filter("security=info"), None);
    assert_eq!(parse_filter("info,app=debug"), None);
    assert_eq!(parse_filter(""), None);
}

#[test]
fn off_silences_console_and_general_log_only() {
    let router = router("off", true);
    assert_eq!(router.installed.as_ref().unwrap().sinks[0].filter, SinkFilter::Nothing);
    assert_eq!(router.installed.as_ref().unwrap().sinks[1].filter, SinkFilter::Nothing);
    assert!(!SinkFilter::Nothing.accepts(Level::Error, "security"));
    let error = router.emit(&LogContext::root(), &plain_event(Level::Error, "app"));
    assert_eq!(destinations(&error), vec![Destination::ErrorLog]);
    let security = router.emit(&LogContext::root(), &plain_event(Level::Warn, "security"));
    assert_eq!(destinations(&security), vec![Destination::SecurityLog]);
    assert!(router.emit(&LogContext::root(), &plain_event(Level::Warn, "app")).is_empty());
}

#[test]
fn category_tags() {
    assert_eq!(Category::Security.tag(), "security");
    assert_eq!(Category::Performance.tag(), "performance");
    assert_eq!(Category::Business.tag(), "business");
}

#[test]
fn filters_decide_by_level_or_by_target() {
    assert!(SinkFilter::MinSeverity(Level::Info).accepts(Level::Warn, "security"));
    assert!(SinkFilter::MinSeverity(Level::Warn).accepts(Level::Warn, "security"));
    assert!(!SinkFilter::MinSeverity(Level::Error).accepts(Level::Warn, "security"));
    assert!(SinkFilter::Category(Category::Security).accepts(Level::Warn, "security"));
    assert!(SinkFilter::Category(Category::Security).accepts(Level::Trace, "security"));
    assert!(!SinkFilter::Category(Category::Performance).accepts(Level::Warn, "security"));
    assert!(!SinkFilter::Category(Category::Business).accepts(Level::Warn, "security"));
    assert!(SinkFilter::Category(Category::Business).accepts(Level::Info, "business"));
    assert!(!SinkFilter::Category(Category::Security).accepts(Level::Error, "security::audit"));
    assert!(!SinkFilter::Category(Category::Security).accepts(Level::Error, "Security"));
}

#[test]
fn a_security_event_reaches_the_security_log_and_not_the_performance_log() {
    let router = router("info", true);
    let deliveries = log_security_event(
        &router,
        &LogContext::root(),
        SecurityEventType::AuthenticationFailure,
        Some("u-9"),
        HashMap::new(),
    );
    assert_eq!(destinations(&deliveries), vec![Destination::Console, Destination::AppLog, Destination::SecurityLog]);
    for delivery in &deliveries {
        let map = object(delivery.line.as_ref().unwrap());
        assert_eq!(map["target"], "security");
        assert_eq!(map["level"], "WARN");
        assert_eq!(map["event_type"], "AuthenticationFailure");
        assert_eq!(map["user_id"], "u-9");
        assert_eq!(map["security_event"], true);
        assert_eq!(map["message"], "Security event occurred");
        assert_eq!(map["details"], "{}");
        assert!(!map.contains_key("correlation_id"));
    }
}

#[test]
fn a_security_event_reaches_the_security_log_whatever_the_minimum() {
    let router = router("error", true);
    let deliveries =
        log_security_event(&router, &LogContext::root(), SecurityEventType::RateLimitExceeded, None, HashMap::new());
    assert_eq!(destinations(&deliveries), vec![Destination::SecurityLog]);
    assert!(!object(deliveries[0].line.as_ref().unwrap()).contains_key("user_id"));
}

#[test]
fn a_performance_metric_reaches_the_performance_log() {
    let router = router("warn", true);
    let metric = PerformanceMetric {
        operation: "checkout".to_string(),
        duration_ms: "42.5".to_string(),
        success: true,
        details: HashMap::new(),
    };
    let scope = LogContext::scope("request", CorrelationId::from_string("X".to_string()));
    let deliveries = log_performance_metric(&router, &scope, metric);
    assert_eq!(destinations(&deliveries), vec![Destination::PerformanceLog]);
    let map = object(deliveries[0].line.as_ref().unwrap());
    assert_eq!(map["performance_metric"], true);
    assert_eq!(map["operation"], "checkout");
    assert_eq!(map["duration_ms"].as_f64(), Some(42.5));
    assert_eq!(map["success"], true);
    assert_eq!(map["correlation_id"], "X");
    assert_eq!(map["span"], "request");
}

#[test]
fn a_business_event_reaches_console_and_general_log() {
    let router = router("info", true);
    let mut details = HashMap::new();
    details.insert("order".to_string(), serde_json::Value::from(7));
    let deliveries =
        log_business_event(&router, &LogContext::root(), BusinessEventType::GridOrderCreated, Some("u"), details);
    assert_eq!(destinations(&deliveries), vec![Destination::Console, Destination::AppLog]);
    let map = object(deliveries[1].line.as_ref().unwrap());
    assert_eq!(map["target"], "business");
    assert_eq!(map["business_event"], true);
    assert_eq!(map["event_type"], "GridOrderCreated");
    assert_eq!(map["details"], "{\"order\": Number(7)}");
    assert_eq!(deliveries[0].line, deliveries[1].line);
}

#[test]
fn an_error_reaches_the_error_log() {
    let router = router("info", true);
    let deliveries = router.emit(&LogContext::root(), &plain_event(Level::Error, "app"));
    assert_eq!(destinations(&deliveries), vec![Destination::Console, Destination::AppLog, Destination::ErrorLog]);
    let quiet = router.emit(&LogContext::root(), &plain_event(Level::Debug, "app"));
    assert!(quiet.is_empty());
}

#[test]
fn a_refusing_sink_does_not_stop_the_sinks_after_it() {
    let router = router("error", true);
    let deliveries = router.emit(&LogContext::root(), &plain_event(Level::Info, "performance"));
    assert_eq!(destinations(&deliveries), vec![Destination::PerformanceLog]);
}

#[test]
fn plain_sinks_get_no_json_line() {
    let router = router("info", false);
    let deliveries = router.emit(&LogContext::root(), &plain_event(Level::Error, "security"));
    assert_eq!(
        destinations(&deliveries),
        vec![Destination::Console, Destination::AppLog, Destination::ErrorLog, Destination::SecurityLog]
    );
    assert_eq!(deliveries[0].line, None);
    assert_eq!(deliveries[1].line, None);
    assert!(deliveries[2].line.is_some());
    assert_eq!(deliveries[2].line, deliveries[3].line);
}

#[test]
fn route_hands_out_the_line_of_the_record() {
    let router = router("trace", true);
    let formatter = StructuredJsonFormatter::new(None);
    let record = formatter.assemble(&LogContext::root(), &plain_event(Level::Info, "app"), "t0".to_string());
    let deliveries = router.route(&record);
    assert_eq!(destinations(&deliveries), vec![Destination::Console, Destination::AppLog]);
    assert_eq!(deliveries[0].line.as_deref(), Some(record.to_json_line().as_str()));
    assert!(SinkRouter::new().route(&record).is_empty());
}
