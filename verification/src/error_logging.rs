//! Error logging utilities

use std::collections::HashMap;
use vstd::prelude::*;
use crate::context::LogContext;
use crate::event::{
    details_text, flag_field, is_flag_field, is_text_field, text_field, Event, FIELD_DETAILS, FIELD_MESSAGE,
};
use crate::level::Level;
use crate::router::{all_one_line, Delivery, SinkRouter};
use crate::value::Field;

verus! {

/// The target of every error event.
pub const ERROR_TARGET: &'static str = "structured_logging::error_logging";

/// The level of every error event.
pub const ERROR_LEVEL: Level = Level::Error;

/// The message of an error that is not critical.
pub const ERROR_MESSAGE: &'static str = "Error occurred with context";

/// The message of a critical error.
pub const CRITICAL_MESSAGE: &'static str = "Critical error occurred";

/// The name of the field `error`.
pub const FIELD_ERROR: &'static str = "error";

/// The name of the field `context`.
pub const FIELD_CONTEXT: &'static str = "context";

/// The name of the field `error_chain`.
pub const FIELD_ERROR_CHAIN: &'static str = "error_chain";

/// The name of the field `critical`.
pub const FIELD_CRITICAL: &'static str = "critical";

/// The texts of a sequence of strings.
pub open spec fn texts_of(items: Seq<String>) -> Seq<Seq<char>> {
    Seq::new(items.len(), |i: int| items[i]@)
}

/// The text that `Debug` prints for a list of strings with these texts.
pub uninterp spec fn debug_list_text(items: Seq<Seq<char>>) -> Seq<char>;

/// `Debug` of a `Vec<String>`: the list in brackets, each string quoted and
/// escaped.
#[verifier::external_body]
fn list_text(items: &Vec<String>) -> (text: String)
    ensures
        text@ == debug_list_text(texts_of(items@)),
{
    format!("{:?}", items)
}

/// The chain of an error: its own text, then the texts of its sources from
/// the nearest to the root.
pub fn error_chain(error: &str, sources: &Vec<String>) -> (chain: Vec<String>)
    ensures
        texts_of(chain@) == seq![error@] + texts_of(sources@),
{
    let mut chain: Vec<String> = Vec::new();
    chain.push(error.to_owned());
    let mut i: usize = 0;
    while i < sources.len()
        invariant
            i <= sources.len(),
            chain@.len() == i + 1,
            chain@[0]@ == error@,
            forall|k: int| 1 <= k <= i ==> (#[trigger] chain@[k])@ == sources@[k - 1]@,
        decreases sources.len() - i,
    {
        chain.push(sources[i].clone());
        i += 1;
    }
    proof {
        let expected = seq![error@] + texts_of(sources@);
        assert forall|k: int| 0 <= k < chain@.len() implies texts_of(chain@)[k] == expected[k] by {
            if k > 0 {
                assert(chain@[k]@ == sources@[k - 1]@);
            }
        }
        assert(texts_of(chain@) =~= expected);
    }
    chain
}

/// `event` is the event of an error: an error-level event that carries
/// the error's text, the context it occurred in, the details and the chain
/// of its sources, and the marker `critical` if it is critical.
pub open spec fn is_error_event(event: Event, error: Seq<char>, context: Seq<char>, details: Seq<char>, chain: Seq<char>, critical: bool) -> bool {
    &&& event.level == Level::Error
    &&& event.target@ == "structured_logging::error_logging"@
    &&& event.file is None
    &&& event.line is None
    &&& event.fields@.len() == if critical { 6int } else { 5int }
    &&& is_text_field(
        event.fields@[0],
        "message"@,
        if critical {
            "Critical error occurred"@
        } else {
            "Error occurred with context"@
        },
    )
    &&& is_text_field(event.fields@[1], "error"@, error)
    &&& is_text_field(event.fields@[2], "context"@, context)
    &&& is_text_field(event.fields@[3], "details"@, details)
    &&& is_text_field(event.fields@[4], "error_chain"@, chain)
    &&& critical ==> is_flag_field(event.fields@[5], "critical"@, true)
}

/// The event of an error. `details` and `chain` are the texts that stand
/// for the error's details and for the chain of its sources.
pub fn error_event(error: &str, context: &str, details: &str, chain: &str, critical: bool) -> (event: Event)
    ensures
        is_error_event(event, error@, context@, details@, chain@, critical),
{
    let mut fields: Vec<Field> = Vec::new();
    if critical {
        fields.push(text_field(FIELD_MESSAGE, CRITICAL_MESSAGE));
    } else {
        fields.push(text_field(FIELD_MESSAGE, ERROR_MESSAGE));
    }
    fields.push(text_field(FIELD_ERROR, error));
    fields.push(text_field(FIELD_CONTEXT, context));
    fields.push(text_field(FIELD_DETAILS, details));
    fields.push(text_field(FIELD_ERROR_CHAIN, chain));
    if critical {
        fields.push(flag_field(FIELD_CRITICAL, true));
    }
    Event { level: ERROR_LEVEL, target: ERROR_TARGET.to_owned(), fields, file: None, line: None }
}

/// The event of an error with the chain of its sources, whose details are
/// `details` rendered as one text. `error` is the error's own text,
/// `sources` the texts of its sources from the nearest on.
pub fn error_event_from(
    error: &str,
    sources: &Vec<String>,
    context: &str,
    details: &HashMap<String, serde_json::Value>,
    critical: bool,
) -> (event: Event)
    ensures
        exists|text: Seq<char>| #[trigger]
            is_error_event(
                event,
                error@,
                context@,
                text,
                debug_list_text(seq![error@] + texts_of(sources@)),
                critical,
            ),
{
    let chain = list_text(&error_chain(error, sources));
    let text = details_text(details);
    error_event(error, context, text.as_str(), chain.as_str(), critical)
}

/// Raises the event of an error, critical or not.
fn log_error(
    router: &SinkRouter,
    scope: &LogContext,
    error: &str,
    sources: &Vec<String>,
    context: &str,
    details: &HashMap<String, serde_json::Value>,
    critical: bool,
) -> (deliveries: Vec<Delivery>)
    ensures
        exists|event: Event, text: Seq<char>| #[trigger]
            is_error_event(
                event,
                error@,
                context@,
                text,
                debug_list_text(seq![error@] + texts_of(sources@)),
                critical,
            ) && router.delivers(deliveries@, *scope, event),
        all_one_line(deliveries@),
{
    let event = error_event_from(error, sources, context, details, critical);
    router.emit(scope, &event)
}

/// Logs an error with the context it occurred in. `error` is the error's
/// own text, `sources` the texts of its sources from the nearest on.
pub fn log_error_with_context(
    router: &SinkRouter,
    scope: &LogContext,
    error: &str,
    sources: &Vec<String>,
    context: &str,
    details: HashMap<String, serde_json::Value>,
) -> (deliveries: Vec<Delivery>)
    ensures
        exists|event: Event, text: Seq<char>| #[trigger]
            is_error_event(
                event,
                error@,
                context@,
                text,
                debug_list_text(seq![error@] + texts_of(sources@)),
                false,
            ) && router.delivers(deliveries@, *scope, event),
        all_one_line(deliveries@),
{
    log_error(router, scope, error, sources, context, &details, false)
}

/// Logs a critical error: as `log_error_with_context`, with the marker
/// `critical`.
pub fn log_critical_error(
    router: &SinkRouter,
    scope: &LogContext,
    error: &str,
    sources: &Vec<String>,
    context: &str,
    details: HashMap<String, serde_json::Value>,
) -> (deliveries: Vec<Delivery>)
    ensures
        exists|event: Event, text: Seq<char>| #[trigger]
            is_error_event(
                event,
                error@,
                context@,
                text,
                debug_list_text(seq![error@] + texts_of(sources@)),
                true,
            ) && router.delivers(deliveries@, *scope, event),
        all_one_line(deliveries@),
{
    log_error(router, scope, error, sources, context, &details, true)
}

} // verus!
