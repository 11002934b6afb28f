use std::collections::HashMap;
use structured_logging::event::{
    business_event, business_event_from, performance_event, performance_event_from, security_event,
    security_event_from,
};
use structured_logging::{BusinessEventType, FieldValue, JsonVisitor, Level, PerformanceMetric, SecurityEventType};

fn text(value: &str) -> FieldValue {
    FieldValue::Text(value.to_string())
}

#[test]
fn test_performance_metric_creation() {
    let duration: f64 = 100.0;
    let metric = PerformanceMetric {
        operation: "test_operation".to_string(),
        duration_ms: duration.to_string(),
        success: true,
        details: HashMap::new(),
    };

    assert_eq!(metric.operation, "test_operation");
    assert_eq!(metric.duration_ms.parse::<f64>().unwrap(), 100.0);
    assert!(metric.success);
}

#[test]
fn security_type_names_are_the_variant_names() {
    assert_eq!(SecurityEventType::AuthenticationAttempt.name(), "AuthenticationAttempt");
    assert_eq!(SecurityEventType::AuthenticationFailure.name(), "AuthenticationFailure");
    assert_eq!(SecurityEventType::AuthorizationFailure.name(), "AuthorizationFailure");
    assert_eq!(SecurityEventType::RateLimitExceeded.name(), "RateLimitExceeded");
    assert_eq!(SecurityEventType::SuspiciousActivity.name(), "SuspiciousActivity");
    assert_eq!(SecurityEventType::ConfigurationChange.name(), "ConfigurationChange");
    assert_eq!(SecurityEventType::PrivilegeEscalation.name(), "PrivilegeEscalation");
    assert_eq!(SecurityEventType::RateLimitExceeded.name(), format!("{:?}", SecurityEventType::RateLimitExceeded));
}

#[test]
fn business_type_names_are_the_variant_names() {
    assert_eq!(BusinessEventType::GridOrderCreated.name(), "GridOrderCreated");
    assert_eq!(BusinessEventType::GridOrderRedeemed.name(), "GridOrderRedeemed");
    assert_eq!(BusinessEventType::GridOrderFailed.name(), "GridOrderFailed");
    assert_eq!(BusinessEventType::MatcherBotStarted.name(), "MatcherBotStarted");
    assert_eq!(BusinessEventType::MatcherBotStopped.name(), "MatcherBotStopped");
    assert_eq!(BusinessEventType::MatcherBotError.name(), "MatcherBotError");
    assert_eq!(BusinessEventType::TokenPriceUpdated.name(), "TokenPriceUpdated");
    assert_eq!(BusinessEventType::WalletBalanceChanged.name(), "WalletBalanceChanged");
    assert_eq!(BusinessEventType::MatcherBotError.name(), format!("{:?}", BusinessEventType::MatcherBotError));
}

#[test]
fn security_event_with_a_user() {
    let event = security_event(SecurityEventType::AuthenticationFailure, Some("u-1"), "{\"ip\": \"10.0.0.1\"}");
    assert_eq!(event.level, Level::Warn);
    assert_eq!(event.target, "security");
    assert_eq!(event.file, None);
    assert_eq!(event.line, None);
    assert_eq!(event.fields.len(), 5);
    let visitor = JsonVisitor::visit(&event.fields);
    assert_eq!(visitor.message.as_deref(), Some("Security event occurred"));
    assert_eq!(visitor.field("event_type"), Some(&text("AuthenticationFailure")));
    assert_eq!(visitor.field("user_id"), Some(&text("u-1")));
    assert_eq!(visitor.field("details"), Some(&text("{\"ip\": \"10.0.0.1\"}")));
    assert_eq!(visitor.field("security_event"), Some(&FieldValue::Flag(true)));
}

#[test]
fn security_event_without_a_user_has_no_user_field() {
    let event = security_event(SecurityEventType::PrivilegeEscalation, None, "{}");
    assert_eq!(event.fields.len(), 4);
    let visitor = JsonVisitor::visit(&event.fields);
    assert_eq!(visitor.field("user_id"), None);
    assert_eq!(visitor.field("event_type"), Some(&text("PrivilegeEscalation")));
    assert_eq!(visitor.field("security_event"), Some(&FieldValue::Flag(true)));
}

#[test]
fn business_event_is_information_with_its_own_marker() {
    let event = business_event(BusinessEventType::GridOrderCreated, Some("u-2"), "{}");
    assert_eq!(event.level, Level::Info);
    assert_eq!(event.target, "business");
    let visitor = JsonVisitor::visit(&event.fields);
    assert_eq!(visitor.message.as_deref(), Some("Business event occurred"));
    assert_eq!(visitor.field("event_type"), Some(&text("GridOrderCreated")));
    assert_eq!(visitor.field("user_id"), Some(&text("u-2")));
    assert_eq!(visitor.field("business_event"), Some(&FieldValue::Flag(true)));
    assert_eq!(visitor.field("security_event"), None);
}

#[test]
fn performance_event_carries_the_metric() {
    let metric = PerformanceMetric {
        operation: "checkout".to_string(),
        duration_ms: "42.5".to_string(),
        success: true,
        details: HashMap::new(),
    };
    let event = performance_event(&metric, "{}");
    assert_eq!(event.level, Level::Info);
    assert_eq!(event.target, "performance");
    assert_eq!(event.fields.len(), 6);
    let visitor = JsonVisitor::visit(&event.fields);
    assert_eq!(visitor.message.as_deref(), Some("Performance metric recorded"));
    assert_eq!(visitor.field("operation"), Some(&text("checkout")));
    assert_eq!(visitor.field("duration_ms"), Some(&FieldValue::Number("42.5".to_string())));
    assert_eq!(visitor.field("success"), Some(&FieldValue::Flag(true)));
    assert_eq!(visitor.field("details"), Some(&text("{}")));
    assert_eq!(visitor.field("performance_metric"), Some(&FieldValue::Flag(true)));
}

#[test]
fn timed_metric_has_whole_milliseconds_and_no_details() {
    let metric = PerformanceMetric::timed("sync", 1250, false);
    assert_eq!(metric.operation, "sync");
    assert_eq!(metric.duration_ms, "1250.0");
    assert_eq!(metric.duration_ms.parse::<f64>().unwrap(), 1250.0);
    assert!(!metric.success);
    assert!(metric.details.is_empty());
    assert_eq!(PerformanceMetric::timed("noop", 0, true).duration_ms, "0.0");
}

#[test]
fn events_made_from_a_details_map_render_it_as_one_text() {
    let mut details = HashMap::new();
    details.insert("ip".to_string(), serde_json::Value::from("10.0.0.1"));
    let security = security_event_from(SecurityEventType::SuspiciousActivity, Some("u"), &details);
    assert_eq!(security.level, Level::Warn);
    assert_eq!(security.target, "security");
    let visitor = JsonVisitor::visit(&security.fields);
    assert_eq!(visitor.field("details"), Some(&text("{\"ip\": String(\"10.0.0.1\")}")));
    assert_eq!(visitor.field("event_type"), Some(&text("SuspiciousActivity")));

    let business = business_event_from(BusinessEventType::TokenPriceUpdated, None, &HashMap::new());
    assert_eq!(business.target, "business");
    assert_eq!(JsonVisitor::visit(&business.fields).field("details"), Some(&text("{}")));

    let metric = PerformanceMetric::timed("sync", 12, true);
    let performance = performance_event_from(&metric);
    assert_eq!(performance.target, "performance");
    let visitor = JsonVisitor::visit(&performance.fields);
    assert_eq!(visitor.field("duration_ms"), Some(&FieldValue::Number("12.0".to_string())));
    assert_eq!(visitor.field("details"), Some(&text("{}")));
}
