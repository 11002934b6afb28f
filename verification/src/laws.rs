//! What holds of every event, record and set of sinks, proved from the
//! definitions of the formatter and the router.

use vstd::prelude::*;
use crate::context::LogContext;
use crate::event::{is_performance_event, is_security_event, Event, PerformanceMetric, SecurityEventType};
use crate::formatter::{LogRecord, StructuredJsonFormatter};
use crate::level::Level;
use crate::router::{accepting, default_sinks, Destination, Sink, SinkFilter};
use crate::text::text_of;
use crate::value::{number_value, Field, JsonValue};
use crate::visitor::{extras_of, is_message, message_of};

verus! {

/// The keys that the formatter writes are pairwise different, as far as the
/// laws below need it.
proof fn lemma_keys_differ()
    ensures
        "message"@ != "file"@,
        "message"@ != "line"@,
        "correlation_id"@ != "span"@,
        "correlation_id"@ != "message"@,
        "correlation_id"@ != "file"@,
        "correlation_id"@ != "line"@,
        "correlation_id"@ != "timestamp"@,
        "correlation_id"@ != "level"@,
        "correlation_id"@ != "target"@,
        "correlation_id"@ != "service"@,
        "correlation_id"@ != "environment"@,
        "security"@ != "performance"@,
{
    reveal_strlit("message");
    reveal_strlit("file");
    reveal_strlit("line");
    reveal_strlit("correlation_id");
    reveal_strlit("span");
    reveal_strlit("timestamp");
    reveal_strlit("level");
    reveal_strlit("target");
    reveal_strlit("service");
    reveal_strlit("environment");
    reveal_strlit("security");
    reveal_strlit("performance");
    assert("message"@.len() != "file"@.len());
    assert("message"@.len() != "line"@.len());
    assert("correlation_id"@.len() == 14);
    assert("security"@.len() != "performance"@.len());
}

/// The last field named `message` gives the message, in text form.
pub proof fn lemma_last_message_wins(fields: Seq<Field>, i: int)
    requires
        0 <= i < fields.len(),
        is_message(fields[i]),
        forall|j: int| i < j < fields.len() ==> !is_message(#[trigger] fields[j]),
    ensures
        message_of(fields) == Some(fields[i].value.text_form()),
    decreases fields.len(),
{
    if i < fields.len() - 1 {
        assert(!is_message(fields[fields.len() - 1]));
        lemma_last_message_wins(fields.drop_last(), i);
    }
}

/// The message slot is filled from fields named `message` only: where
/// there is a message, it is the text form of such a field; where there is
/// none, no field has that name.
pub proof fn law_message_has_a_source(fields: Seq<Field>)
    ensures
        match message_of(fields) {
            Some(text) => exists|i: int|
                0 <= i < fields.len() && is_message(#[trigger] fields[i]) && fields[i].value.text_form() == text,
            None => forall|i: int| 0 <= i < fields.len() ==> !is_message(#[trigger] fields[i]),
        },
    decreases fields.len(),
{
    if fields.len() > 0 {
        if is_message(fields.last()) {
            assert(is_message(fields[fields.len() - 1]));
        } else {
            law_message_has_a_source(fields.drop_last());
            match message_of(fields) {
                Some(text) => {
                    let i = choose|i: int|
                        0 <= i < fields.drop_last().len() && is_message(#[trigger] fields.drop_last()[i])
                            && fields.drop_last()[i].value.text_form() == text;
                    assert(is_message(fields[i]));
                },
                None => {
                    assert forall|i: int| 0 <= i < fields.len() implies !is_message(#[trigger] fields[i]) by {
                        if i < fields.len() - 1 {
                            assert(!is_message(fields.drop_last()[i]));
                        }
                    }
                },
            }
        }
    }
}

/// A field that is not named `message` plays no part in the message.
pub proof fn lemma_message_ignores_other_fields(fields: Seq<Field>, i: int)
    requires
        0 <= i < fields.len(),
        fields[i].name@ != "message"@,
    ensures
        message_of(fields) == message_of(fields.remove(i)),
    decreases fields.len(),
{
    if i == fields.len() - 1 {
        assert(fields.remove(i) == fields.drop_last());
    } else {
        lemma_message_ignores_other_fields(fields.drop_last(), i);
        assert(fields.remove(i).drop_last() == fields.drop_last().remove(i));
        assert(fields.remove(i).last() == fields.last());
    }
}

/// Every field that is not taken as the message has its name in the
/// mapping, and the last field of a name gives the value there.
pub proof fn lemma_field_in_mapping(fields: Seq<Field>, i: int)
    requires
        0 <= i < fields.len(),
        !is_message(fields[i]),
    ensures
        extras_of(fields).dom().contains(fields[i].name@),
        (forall|j: int| i < j < fields.len() ==> (#[trigger] fields[j]).name@ != fields[i].name@) ==> extras_of(
            fields,
        )[fields[i].name@] == fields[i].value@,
    decreases fields.len(),
{
    if i < fields.len() - 1 {
        lemma_field_in_mapping(fields.drop_last(), i);
        if forall|j: int| i < j < fields.len() ==> (#[trigger] fields[j]).name@ != fields[i].name@ {
            assert(fields[fields.len() - 1].name@ != fields[i].name@);
            assert forall|j: int| i < j < fields.drop_last().len() implies (#[trigger] fields.drop_last()[j]).name@
                != fields.drop_last()[i].name@ by {
                assert(fields[j].name@ != fields[i].name@);
            }
        }
    }
}

/// The message of a record is the string of the event's message field,
/// unchanged, and the record's JSON object shows it under `message`; the
/// field itself is not among the record's extra fields.
pub proof fn law_message_is_verbatim(
    formatter: StructuredJsonFormatter,
    record: LogRecord,
    context: LogContext,
    event: Event,
    i: int,
)
    requires
        formatter.shapes(record, context, event),
        0 <= i < event.fields@.len(),
        is_message(event.fields@[i]),
        event.fields@[i].value is Text,
        forall|j: int| i < j < event.fields@.len() ==> !is_message(#[trigger] event.fields@[j]),
    ensures
        text_of(record.message) == Some(event.fields@[i].value->Text_0@),
        record.entries().dom().contains("message"@),
        record.entries()["message"@] == JsonValue::Text(event.fields@[i].value->Text_0@),
        !record.field_map().dom().contains("message"@),
{
    lemma_last_message_wins(event.fields@, i);
    lemma_message_stays_out(event.fields@);
    lemma_keys_differ();
}

/// Nothing named `message` enters the mapping, whatever it holds.
pub proof fn lemma_message_stays_out(fields: Seq<Field>)
    ensures
        !extras_of(fields).dom().contains("message"@),
    decreases fields.len(),
{
    if fields.len() > 0 {
        lemma_message_stays_out(fields.drop_last());
    }
}

/// A field named `message` that holds no string becomes the message in
/// text form and is kept out of the record's extra fields, as a string is.
pub proof fn law_message_of_any_kind(
    formatter: StructuredJsonFormatter,
    record: LogRecord,
    context: LogContext,
    event: Event,
    i: int,
)
    requires
        formatter.shapes(record, context, event),
        0 <= i < event.fields@.len(),
        is_message(event.fields@[i]),
        forall|j: int| i < j < event.fields@.len() ==> !is_message(#[trigger] event.fields@[j]),
    ensures
        text_of(record.message) == Some(event.fields@[i].value.text_form()),
        record.entries()["message"@] == JsonValue::Text(event.fields@[i].value.text_form()),
        !record.field_map().dom().contains("message"@),
{
    lemma_last_message_wins(event.fields@, i);
    lemma_message_stays_out(event.fields@);
    lemma_keys_differ();
}

/// Every field of an event that is not named `message` appears in the
/// record's JSON object under its own name and plays no part in the
/// message. It appears with its own value if it is the last field of its
/// name and the name is not that of a source place that the record has.
pub proof fn law_fields_are_kept(
    formatter: StructuredJsonFormatter,
    record: LogRecord,
    context: LogContext,
    event: Event,
    i: int,
)
    requires
        formatter.shapes(record, context, event),
        0 <= i < event.fields@.len(),
        event.fields@[i].name@ != "message"@,
    ensures
        record.entries().dom().contains(event.fields@[i].name@),
        message_of(event.fields@) == message_of(event.fields@.remove(i)),
        (forall|j: int| i < j < event.fields@.len() ==> (#[trigger] event.fields@[j]).name@ != event.fields@[i].name@)
            && !(event.fields@[i].name@ == "file"@ && event.file is Some) && !(event.fields@[i].name@ == "line"@
            && event.line is Some) ==> record.entries()[event.fields@[i].name@] == event.fields@[i].value@,
{
    lemma_field_in_mapping(event.fields@, i);
    lemma_message_ignores_other_fields(event.fields@, i);
}

/// A record made inside a scope carries the scope's correlation
/// identifier, and its JSON object shows it under `correlation_id` unless
/// the event has a field of that very name.
pub proof fn law_scope_sets_correlation_id(
    formatter: StructuredJsonFormatter,
    record: LogRecord,
    context: LogContext,
    event: Event,
    name: Seq<char>,
    id: Seq<char>,
)
    requires
        formatter.shapes(record, context, event),
        context.is_scope(name, id),
    ensures
        text_of(record.correlation_id) == Some(id),
        text_of(record.span) == Some(name),
        record.entries().dom().contains("correlation_id"@),
        !extras_of(event.fields@).dom().contains("correlation_id"@) ==> record.entries()["correlation_id"@]
            == JsonValue::Text(id),
{
    lemma_keys_differ();
}

/// A record made outside every scope carries no correlation identifier,
/// and its JSON object has no member `correlation_id` unless the event has
/// a field of that very name.
pub proof fn law_no_scope_no_correlation_id(
    formatter: StructuredJsonFormatter,
    record: LogRecord,
    context: LogContext,
    event: Event,
)
    requires
        formatter.shapes(record, context, event),
        context.is_root(),
    ensures
        record.correlation_id is None,
        record.span is None,
        !extras_of(event.fields@).dom().contains("correlation_id"@) ==> !record.entries().dom().contains(
            "correlation_id"@,
        ),
{
    lemma_keys_differ();
}

/// The JSON object of every record has the members `timestamp`, `level`,
/// `target`, `service` and `environment`; it has `correlation_id`, `span`,
/// `message`, `file` and `line` wherever the record has them.
pub proof fn law_members_present(record: LogRecord)
    ensures
        record.entries().dom().contains("timestamp"@),
        record.entries().dom().contains("level"@),
        record.entries().dom().contains("target"@),
        record.entries().dom().contains("service"@),
        record.entries().dom().contains("environment"@),
        record.correlation_id is Some ==> record.entries().dom().contains("correlation_id"@),
        record.span is Some ==> record.entries().dom().contains("span"@),
        record.message is Some ==> record.entries().dom().contains("message"@),
        record.file is Some ==> record.entries().dom().contains("file"@),
        record.line is Some ==> record.entries().dom().contains("line"@),
{
}

/// The names of the fields of a performance metric differ from one
/// another, from `message` and from the names of the source place.
proof fn lemma_metric_names_differ()
    ensures
        "operation"@ != "message"@,
        "operation"@ != "duration_ms"@,
        "operation"@ != "success"@,
        "operation"@ != "details"@,
        "operation"@ != "performance_metric"@,
        "operation"@ != "file"@,
        "operation"@ != "line"@,
        "duration_ms"@ != "message"@,
        "duration_ms"@ != "success"@,
        "duration_ms"@ != "details"@,
        "duration_ms"@ != "performance_metric"@,
        "duration_ms"@ != "file"@,
        "duration_ms"@ != "line"@,
        "success"@ != "message"@,
        "success"@ != "details"@,
        "success"@ != "performance_metric"@,
        "success"@ != "file"@,
        "success"@ != "line"@,
        "details"@ != "message"@,
        "details"@ != "performance_metric"@,
        "performance_metric"@ != "message"@,
        "performance_metric"@ != "file"@,
        "performance_metric"@ != "line"@,
{
    reveal_strlit("message");
    reveal_strlit("operation");
    reveal_strlit("duration_ms");
    reveal_strlit("success");
    reveal_strlit("details");
    reveal_strlit("performance_metric");
    reveal_strlit("file");
    reveal_strlit("line");
    assert("operation"@.len() == 9);
    assert("duration_ms"@.len() == 11);
    assert("performance_metric"@.len() == 18);
    assert("message"@.len() == 7);
    assert("success"@.len() == 7);
    assert("details"@.len() == 7);
    assert("file"@.len() == 4);
    assert("line"@.len() == 4);
    assert("success"@[0] != "message"@[0]);
    assert("success"@[0] != "details"@[0]);
    assert("details"@[0] != "message"@[0]);
}

/// The record of a performance metric has the message of its category and
/// shows the operation, the duration as a number, the outcome and the
/// marker `performance_metric`, each under its own name.
pub proof fn law_metric_record(
    formatter: StructuredJsonFormatter,
    record: LogRecord,
    context: LogContext,
    event: Event,
    metric: PerformanceMetric,
    details: Seq<char>,
)
    requires
        formatter.shapes(record, context, event),
        is_performance_event(event, metric, details),
    ensures
        record.level == Level::Info,
        record.target@ == "performance"@,
        text_of(record.message) == Some("Performance metric recorded"@),
        record.entries()["operation"@] == JsonValue::Text(metric.operation@),
        record.entries()["duration_ms"@] == number_value(metric.duration_ms@),
        record.entries()["success"@] == JsonValue::Flag(metric.success),
        record.entries()["performance_metric"@] == JsonValue::Flag(true),
{
    lemma_metric_names_differ();
    lemma_last_message_wins(event.fields@, 0);
    law_fields_are_kept(formatter, record, context, event, 1);
    law_fields_are_kept(formatter, record, context, event, 2);
    law_fields_are_kept(formatter, record, context, event, 3);
    law_fields_are_kept(formatter, record, context, event, 5);
}

/// The sinks that take a record are exactly the sinks whose own filter
/// lets it through: no sink is passed over because another refused.
pub proof fn law_every_sink_is_asked(sinks: Seq<Sink>, level: Level, target: Seq<char>, sink: Sink)
    ensures
        accepting(sinks, level, target).contains(sink) <==> sinks.contains(sink) && sink.filter.admits(level, target),
    decreases sinks.len(),
{
    let takers = accepting(sinks, level, target);
    if sinks.len() > 0 {
        let rest = accepting(sinks.drop_last(), level, target);
        law_every_sink_is_asked(sinks.drop_last(), level, target, sink);
        if sinks.contains(sink) && sink.filter.admits(level, target) {
            let i = choose|i: int| 0 <= i < sinks.len() && sinks[i] == sink;
            if i == sinks.len() - 1 {
                assert(takers[takers.len() - 1] == sink);
            } else {
                assert(sinks.drop_last()[i] == sink);
                let k = choose|k: int| 0 <= k < rest.len() && rest[k] == sink;
                assert(takers[k] == sink);
            }
        }
        if takers.contains(sink) {
            let k = choose|k: int| 0 <= k < takers.len() && takers[k] == sink;
            if k < rest.len() {
                assert(rest[k] == sink);
                let i = choose|i: int| 0 <= i < sinks.drop_last().len() && sinks.drop_last()[i] == sink;
                assert(sinks[i] == sink);
            } else {
                assert(sinks[sinks.len() - 1] == sink);
            }
        }
    }
}

/// A security event of any type is delivered to the security log and is
/// kept out of the performance log, whatever the filter of console and
/// general log.
pub proof fn law_security_event_routing(
    event: Event,
    event_type: SecurityEventType,
    user_id: Option<Seq<char>>,
    details: Seq<char>,
    general: SinkFilter,
    json_format: bool,
)
    requires
        is_security_event(event, event_type, user_id, details),
    ensures
        exists|sink: Sink| #[trigger]
            accepting(default_sinks(general, json_format), event.level, event.target@).contains(sink)
                && sink.destination == Destination::SecurityLog,
        forall|sink: Sink| #[trigger]
            accepting(default_sinks(general, json_format), event.level, event.target@).contains(sink)
                ==> sink.destination != Destination::PerformanceLog,
{
    lemma_keys_differ();
    let sinks = default_sinks(general, json_format);
    law_every_sink_is_asked(sinks, event.level, event.target@, sinks[3]);
    assert(sinks.contains(sinks[3]));
    assert forall|sink: Sink| #[trigger]
        accepting(sinks, event.level, event.target@).contains(sink) implies sink.destination
        != Destination::PerformanceLog by {
        law_every_sink_is_asked(sinks, event.level, event.target@, sink);
    }
}

} // verus!
