//! Raising the typed events: each call makes the event, its record, and
//! the deliveries to the sinks that take it.

use std::collections::HashMap;
use vstd::prelude::*;
use crate::context::LogContext;
use crate::event::{
    business_event_from, is_business_event, is_performance_event, is_security_event, performance_event_from,
    security_event_from, BusinessEventType, Event, PerformanceMetric, SecurityEventType,
};
use crate::router::{all_one_line, Delivery, SinkRouter};
use crate::text::slice_text;

verus! {

/// Log security event: raises, in `scope`, the event of a security incident
/// whose details are `details` rendered as one text, and returns what goes
/// to which sink.
pub fn log_security_event(
    router: &SinkRouter,
    scope: &LogContext,
    event_type: SecurityEventType,
    user_id: Option<&str>,
    details: HashMap<String, serde_json::Value>,
) -> (deliveries: Vec<Delivery>)
    ensures
        exists|event: Event, text: Seq<char>| #[trigger]
            is_security_event(event, event_type, slice_text(user_id), text) && router.delivers(deliveries@, *scope, event),
        all_one_line(deliveries@),
{
    let event = security_event_from(event_type, user_id, &details);
    router.emit(scope, &event)
}

/// Log performance metric: raises, in `scope`, the event of the metric,
/// with its details rendered as one text, and returns what goes to which
/// sink.
pub fn log_performance_metric(router: &SinkRouter, scope: &LogContext, metric: PerformanceMetric) -> (deliveries: Vec<Delivery>)
    ensures
        exists|event: Event, text: Seq<char>| #[trigger]
            is_performance_event(event, metric, text) && router.delivers(deliveries@, *scope, event),
        all_one_line(deliveries@),
{
    let event = performance_event_from(&metric);
    router.emit(scope, &event)
}

/// Log business event: raises, in `scope`, the event of a business
/// occurrence whose details are `details` rendered as one text, and returns
/// what goes to which sink.
pub fn log_business_event(
    router: &SinkRouter,
    scope: &LogContext,
    event_type: BusinessEventType,
    user_id: Option<&str>,
    details: HashMap<String, serde_json::Value>,
) -> (deliveries: Vec<Delivery>)
    ensures
        exists|event: Event, text: Seq<char>| #[trigger]
            is_business_event(event, event_type, slice_text(user_id), text) && router.delivers(deliveries@, *scope, event),
        all_one_line(deliveries@),
{
    let event = business_event_from(event_type, user_id, &details);
    router.emit(scope, &event)
}

} // verus!
