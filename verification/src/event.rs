//! The event model: the closed set of event categories, and the event that
//! each of them raises.

use std::collections::HashMap;
use vstd::prelude::*;
use crate::decimal::{decimal_string, decimal_text};
use crate::level::Level;
use crate::text::slice_text;
use crate::value::{Field, FieldValue};

verus! {

/// The target of security events.
pub const SECURITY_TARGET: &'static str = "security";

/// The target of performance metrics.
pub const PERFORMANCE_TARGET: &'static str = "performance";

/// The target of business events.
pub const BUSINESS_TARGET: &'static str = "business";

/// The level of security events.
pub const SECURITY_LEVEL: Level = Level::Warn;

/// The level of performance metrics.
pub const PERFORMANCE_LEVEL: Level = Level::Info;

/// The level of business events.
pub const BUSINESS_LEVEL: Level = Level::Info;

/// The message of security events.
pub const SECURITY_MESSAGE: &'static str = "Security event occurred";

/// The message of performance metrics.
pub const PERFORMANCE_MESSAGE: &'static str = "Performance metric recorded";

/// The message of business events.
pub const BUSINESS_MESSAGE: &'static str = "Business event occurred";

/// The name of the field `message`.
pub const FIELD_MESSAGE: &'static str = "message";

/// The name of the field `event_type`.
pub const FIELD_EVENT_TYPE: &'static str = "event_type";

/// The name of the field `user_id`.
pub const FIELD_USER_ID: &'static str = "user_id";

/// The name of the field `details`.
pub const FIELD_DETAILS: &'static str = "details";

/// The name of the field `security_event`.
pub const FIELD_SECURITY_EVENT: &'static str = "security_event";

/// The name of the field `business_event`.
pub const FIELD_BUSINESS_EVENT: &'static str = "business_event";

/// The name of the field `operation`.
pub const FIELD_OPERATION: &'static str = "operation";

/// The name of the field `duration_ms`.
pub const FIELD_DURATION_MS: &'static str = "duration_ms";

/// The name of the field `success`.
pub const FIELD_SUCCESS: &'static str = "success";

/// The name of the field `performance_metric`.
pub const FIELD_PERFORMANCE_METRIC: &'static str = "performance_metric";

/// The categories of typed events; the tag of a category is the target of
/// its events, by which records are routed.
#[derive(Clone, Copy, Debug, PartialEq, Eq, Structural)]
pub enum Category {
    Security,
    Performance,
    Business,
}

impl Category {
    /// The target that marks a record as one of this category.
    pub open spec fn tag_text(self) -> Seq<char> {
        match self {
            Category::Security => "security"@,
            Category::Performance => "performance"@,
            Category::Business => "business"@,
        }
    }

    /// The tag as a string.
    pub fn tag(self) -> (tag: &'static str)
        ensures
            tag@ == self.tag_text(),
    {
        match self {
            Category::Security => SECURITY_TARGET,
            Category::Performance => PERFORMANCE_TARGET,
            Category::Business => BUSINESS_TARGET,
        }
    }
}

/// Security event types
#[derive(Clone, Copy, Debug, PartialEq, Eq, Structural)]
pub enum SecurityEventType {
    AuthenticationAttempt,
    AuthenticationFailure,
    AuthorizationFailure,
    RateLimitExceeded,
    SuspiciousActivity,
    ConfigurationChange,
    PrivilegeEscalation,
}

/// Business event types
#[derive(Clone, Copy, Debug, PartialEq, Eq, Structural)]
pub enum BusinessEventType {
    GridOrderCreated,
    GridOrderRedeemed,
    GridOrderFailed,
    MatcherBotStarted,
    MatcherBotStopped,
    MatcherBotError,
    TokenPriceUpdated,
    WalletBalanceChanged,
}

/// Performance metrics. The duration is a decimal number of milliseconds,
/// held as its text (`42.5`).
#[derive(Clone, Debug)]
pub struct PerformanceMetric {
    pub operation: String,
    pub duration_ms: String,
    pub success: bool,
    pub details: HashMap<String, serde_json::Value>,
}

impl PerformanceMetric {
    /// The metric of an operation that was timed: it took `elapsed_ms`
    /// whole milliseconds and ended well or not. The duration is written
    /// with one decimal place; there are no details.
    pub fn timed(operation: &str, elapsed_ms: u64, success: bool) -> (metric: Self)
        ensures
            metric.operation@ == operation@,
            metric.duration_ms@ == decimal_text(elapsed_ms as nat) + ".0"@,
            metric.success == success,
            metric.details@.len() == 0,
    {
        let mut duration_ms = decimal_string(elapsed_ms);
        duration_ms.append(".0");
        Self { operation: operation.to_owned(), duration_ms, success, details: HashMap::new() }
    }
}

impl SecurityEventType {
    /// The name that a record shows for the type.
    pub open spec fn label(self) -> Seq<char> {
        match self {
            SecurityEventType::AuthenticationAttempt => "AuthenticationAttempt"@,
            SecurityEventType::AuthenticationFailure => "AuthenticationFailure"@,
            SecurityEventType::AuthorizationFailure => "AuthorizationFailure"@,
            SecurityEventType::RateLimitExceeded => "RateLimitExceeded"@,
            SecurityEventType::SuspiciousActivity => "SuspiciousActivity"@,
            SecurityEventType::ConfigurationChange => "ConfigurationChange"@,
            SecurityEventType::PrivilegeEscalation => "PrivilegeEscalation"@,
        }
    }

    /// The name of the type, as written in the enumeration.
    pub fn name(self) -> (name: &'static str)
        ensures
            name@ == self.label(),
    {
        match self {
            SecurityEventType::AuthenticationAttempt => "AuthenticationAttempt",
            SecurityEventType::AuthenticationFailure => "AuthenticationFailure",
            SecurityEventType::AuthorizationFailure => "AuthorizationFailure",
            SecurityEventType::RateLimitExceeded => "RateLimitExceeded",
            SecurityEventType::SuspiciousActivity => "SuspiciousActivity",
            SecurityEventType::ConfigurationChange => "ConfigurationChange",
            SecurityEventType::PrivilegeEscalation => "PrivilegeEscalation",
        }
    }
}

impl BusinessEventType {
    /// The name that a record shows for the type.
    pub open spec fn label(self) -> Seq<char> {
        match self {
            BusinessEventType::GridOrderCreated => "GridOrderCreated"@,
            BusinessEventType::GridOrderRedeemed => "GridOrderRedeemed"@,
            BusinessEventType::GridOrderFailed => "GridOrderFailed"@,
            BusinessEventType::MatcherBotStarted => "MatcherBotStarted"@,
            BusinessEventType::MatcherBotStopped => "MatcherBotStopped"@,
            BusinessEventType::MatcherBotError => "MatcherBotError"@,
            BusinessEventType::TokenPriceUpdated => "TokenPriceUpdated"@,
            BusinessEventType::WalletBalanceChanged => "WalletBalanceChanged"@,
        }
    }

    /// The name of the type, as written in the enumeration.
    pub fn name(self) -> (name: &'static str)
        ensures
            name@ == self.label(),
    {
        match self {
            BusinessEventType::GridOrderCreated => "GridOrderCreated",
            BusinessEventType::GridOrderRedeemed => "GridOrderRedeemed",
            BusinessEventType::GridOrderFailed => "GridOrderFailed",
            BusinessEventType::MatcherBotStarted => "MatcherBotStarted",
            BusinessEventType::MatcherBotStopped => "MatcherBotStopped",
            BusinessEventType::MatcherBotError => "MatcherBotError",
            BusinessEventType::TokenPriceUpdated => "TokenPriceUpdated",
            BusinessEventType::WalletBalanceChanged => "WalletBalanceChanged",
        }
    }
}

/// An event as it is raised: severity, target, named values, and the place
/// in the source it was raised at, where that is known.
#[derive(Debug)]
pub struct Event {
    pub level: Level,
    pub target: String,
    pub fields: Vec<Field>,
    pub file: Option<String>,
    pub line: Option<u32>,
}

/// The field has this name and holds this string.
pub open spec fn is_text_field(field: Field, name: Seq<char>, text: Seq<char>) -> bool {
    &&& field.name@ == name
    &&& field.value matches FieldValue::Text(held)
    &&& held@ == text
}

/// The field has this name and holds this boolean.
pub open spec fn is_flag_field(field: Field, name: Seq<char>, flag: bool) -> bool {
    &&& field.name@ == name
    &&& field.value matches FieldValue::Flag(held)
    &&& held == flag
}

/// The field has this name and holds the number of this text.
pub open spec fn is_number_field(field: Field, name: Seq<char>, text: Seq<char>) -> bool {
    &&& field.name@ == name
    &&& field.value matches FieldValue::Number(held)
    &&& held@ == text
}

/// A field that holds a string.
pub fn text_field(name: &str, text: &str) -> (field: Field)
    ensures
        is_text_field(field, name@, text@),
{
    Field { name: name.to_owned(), value: FieldValue::Text(text.to_owned()) }
}

/// A field that holds a boolean.
pub fn flag_field(name: &str, flag: bool) -> (field: Field)
    ensures
        is_flag_field(field, name@, flag),
{
    Field { name: name.to_owned(), value: FieldValue::Flag(flag) }
}

/// A field that holds a number given as text.
pub fn number_field(name: &str, text: &str) -> (field: Field)
    ensures
        is_number_field(field, name@, text@),
{
    Field { name: name.to_owned(), value: FieldValue::Number(text.to_owned()) }
}

/// The fields of a security or business event carry these values, in this
/// order, the user only where one is given.
pub open spec fn is_typed_event_fields(
    fields: Seq<Field>,
    message: Seq<char>,
    kind_name: Seq<char>,
    user_id: Option<Seq<char>>,
    details: Seq<char>,
    marker: Seq<char>,
) -> bool {
    match user_id {
        Some(user) => {
            &&& fields.len() == 5
            &&& is_text_field(fields[0], "message"@, message)
            &&& is_text_field(fields[1], "event_type"@, kind_name)
            &&& is_text_field(fields[2], "user_id"@, user)
            &&& is_text_field(fields[3], "details"@, details)
            &&& is_flag_field(fields[4], marker, true)
        },
        None => {
            &&& fields.len() == 4
            &&& is_text_field(fields[0], "message"@, message)
            &&& is_text_field(fields[1], "event_type"@, kind_name)
            &&& is_text_field(fields[2], "details"@, details)
            &&& is_flag_field(fields[3], marker, true)
        },
    }
}

/// The fields shared by security and business events.
fn typed_event_fields(message: &str, kind_name: &str, user_id: Option<&str>, details: &str, marker: &str) -> (fields: Vec<Field>)
    ensures
        is_typed_event_fields(fields@, message@, kind_name@, slice_text(user_id), details@, marker@),
{
    let mut fields: Vec<Field> = Vec::new();
    fields.push(text_field(FIELD_MESSAGE, message));
    fields.push(text_field(FIELD_EVENT_TYPE, kind_name));
    match user_id {
        Some(user) => fields.push(text_field(FIELD_USER_ID, user)),
        None => {},
    }
    fields.push(text_field(FIELD_DETAILS, details));
    fields.push(flag_field(marker, true));
    fields
}

/// `event` is the event of a security incident: a warning with target
/// `security` that carries the type, the user where one is given, the
/// details and the marker `security_event`.
pub open spec fn is_security_event(event: Event, event_type: SecurityEventType, user_id: Option<Seq<char>>, details: Seq<char>) -> bool {
    &&& event.level == Level::Warn
    &&& event.target@ == Category::Security.tag_text()
    &&& is_typed_event_fields(
        event.fields@,
        "Security event occurred"@,
        event_type.label(),
        user_id,
        details,
        "security_event"@,
    )
    &&& event.file is None
    &&& event.line is None
}

/// `event` is the event of a business occurrence: information with target
/// `business` that carries the type, the user where one is given, the
/// details and the marker `business_event`.
pub open spec fn is_business_event(event: Event, event_type: BusinessEventType, user_id: Option<Seq<char>>, details: Seq<char>) -> bool {
    &&& event.level == Level::Info
    &&& event.target@ == Category::Business.tag_text()
    &&& is_typed_event_fields(
        event.fields@,
        "Business event occurred"@,
        event_type.label(),
        user_id,
        details,
        "business_event"@,
    )
    &&& event.file is None
    &&& event.line is None
}

/// `event` is the event of a performance metric: information with target
/// `performance` that carries operation, duration, outcome, details and the
/// marker `performance_metric`.
pub open spec fn is_performance_event(event: Event, metric: PerformanceMetric, details: Seq<char>) -> bool {
    &&& event.level == Level::Info
    &&& event.target@ == Category::Performance.tag_text()
    &&& is_metric_fields(event.fields@, metric.operation@, metric.duration_ms@, metric.success, details)
    &&& event.file is None
    &&& event.line is None
}

/// The event of a security incident. `details` is the text that stands for
/// the incident's details.
pub fn security_event(event_type: SecurityEventType, user_id: Option<&str>, details: &str) -> (event: Event)
    ensures
        is_security_event(event, event_type, slice_text(user_id), details@),
{
    Event {
        level: SECURITY_LEVEL,
        target: Category::Security.tag().to_owned(),
        fields: typed_event_fields(SECURITY_MESSAGE, event_type.name(), user_id, details, FIELD_SECURITY_EVENT),
        file: None,
        line: None,
    }
}

/// The event of a business occurrence. `details` is the text that stands
/// for the occurrence's details.
pub fn business_event(event_type: BusinessEventType, user_id: Option<&str>, details: &str) -> (event: Event)
    ensures
        is_business_event(event, event_type, slice_text(user_id), details@),
{
    Event {
        level: BUSINESS_LEVEL,
        target: Category::Business.tag().to_owned(),
        fields: typed_event_fields(BUSINESS_MESSAGE, event_type.name(), user_id, details, FIELD_BUSINESS_EVENT),
        file: None,
        line: None,
    }
}

/// The fields of a performance metric, in order.
pub open spec fn is_metric_fields(fields: Seq<Field>, operation: Seq<char>, duration_ms: Seq<char>, success: bool, details: Seq<char>) -> bool {
    &&& fields.len() == 6
    &&& is_text_field(fields[0], "message"@, "Performance metric recorded"@)
    &&& is_text_field(fields[1], "operation"@, operation)
    &&& is_number_field(fields[2], "duration_ms"@, duration_ms)
    &&& is_flag_field(fields[3], "success"@, success)
    &&& is_text_field(fields[4], "details"@, details)
    &&& is_flag_field(fields[5], "performance_metric"@, true)
}

/// The event of a performance metric. `details` is the text that stands
/// for `metric.details`.
pub fn performance_event(metric: &PerformanceMetric, details: &str) -> (event: Event)
    ensures
        is_performance_event(event, *metric, details@),
{
    let mut fields: Vec<Field> = Vec::new();
    fields.push(text_field(FIELD_MESSAGE, PERFORMANCE_MESSAGE));
    fields.push(text_field(FIELD_OPERATION, metric.operation.as_str()));
    fields.push(number_field(FIELD_DURATION_MS, metric.duration_ms.as_str()));
    fields.push(flag_field(FIELD_SUCCESS, metric.success));
    fields.push(text_field(FIELD_DETAILS, details));
    fields.push(flag_field(FIELD_PERFORMANCE_METRIC, true));
    Event { level: PERFORMANCE_LEVEL, target: Category::Performance.tag().to_owned(), fields, file: None, line: None }
}

/// The event of a security incident whose details are `details` rendered
/// as one text.
pub fn security_event_from(event_type: SecurityEventType, user_id: Option<&str>, details: &HashMap<String, serde_json::Value>) -> (event: Event)
    ensures
        exists|text: Seq<char>| #[trigger] is_security_event(event, event_type, slice_text(user_id), text),
{
    let text = details_text(details);
    security_event(event_type, user_id, text.as_str())
}

/// The event of a business occurrence whose details are `details` rendered
/// as one text.
pub fn business_event_from(event_type: BusinessEventType, user_id: Option<&str>, details: &HashMap<String, serde_json::Value>) -> (event: Event)
    ensures
        exists|text: Seq<char>| #[trigger] is_business_event(event, event_type, slice_text(user_id), text),
{
    let text = details_text(details);
    business_event(event_type, user_id, text.as_str())
}

/// The event of a performance metric, with the metric's details rendered
/// as one text.
pub fn performance_event_from(metric: &PerformanceMetric) -> (event: Event)
    ensures
        exists|text: Seq<char>| #[trigger] is_performance_event(event, *metric, text),
{
    let text = details_text(&metric.details);
    performance_event(metric, text.as_str())
}

/// `Debug` of a `HashMap`: the details of an event as one text. The text
/// lists the members in the order in which the map happens to yield them,
/// so nothing is promised of it.
#[verifier::external_body]
pub(crate) fn details_text(details: &HashMap<String, serde_json::Value>) -> (text: String)
{
    format!("{:?}", details)
}

} // verus!
