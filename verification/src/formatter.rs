//! The structured formatter: one event and its context become one record,
//! and one record becomes one line of JSON.

use vstd::prelude::*;
use crate::context::LogContext;
use crate::event::Event;
use crate::json::{
    json_entries, json_object, json_put_flag, json_put_number, json_put_signed, json_put_text,
    json_put_unsigned, json_render, json_text, JsonObject,
};
use crate::level::Level;
use crate::text::{clone_text, text_of};
use crate::value::{distinct_names, find_field, lemma_overlay_union, overlay, Field, FieldValue, JsonValue};
use crate::visitor::{extras_of, message_of, JsonVisitor};

verus! {

/// The service name that every record carries.
pub const SERVICE_NAME: &'static str = "off-the-grid-cli";

/// The environment tag of a record where none was configured.
pub const DEFAULT_ENVIRONMENT: &'static str = "development";

/// A decimal digit.
pub open spec fn is_digit(c: char) -> bool {
    '0' <= c && c <= '9'
}

/// Every character of `text` from `from` up to, not including, `to` is a
/// digit.
pub open spec fn all_digits(text: Seq<char>, from: int, to: int) -> bool {
    forall|i: int| from <= i < to ==> is_digit(#[trigger] text[i])
}

/// `text` is a moment in UTC written as date, `T`, time and offset
/// (`2024-05-01T10:00:00.250+00:00`), with a year of `year` characters and
/// a fraction of `fraction` characters: the year has four digits, or a plus
/// sign and five digits or more; month, day, hour, minute and second have
/// two digits each; the fraction is absent, or a point and three, six or
/// nine digits; the offset is `+00:00`.
pub open spec fn is_utc_stamp_of(text: Seq<char>, year: int, fraction: int) -> bool {
    &&& (year == 4 && all_digits(text, 0, 4)) || (year >= 6 && text[0] == '+' && all_digits(text, 1, year))
    &&& fraction == 0 || fraction == 4 || fraction == 7 || fraction == 10
    &&& text.len() == year + 15 + fraction + 6
    &&& text[year] == '-' && all_digits(text, year + 1, year + 3)
    &&& text[year + 3] == '-' && all_digits(text, year + 4, year + 6)
    &&& text[year + 6] == 'T' && all_digits(text, year + 7, year + 9)
    &&& text[year + 9] == ':' && all_digits(text, year + 10, year + 12)
    &&& text[year + 12] == ':' && all_digits(text, year + 13, year + 15)
    &&& fraction > 0 ==> text[year + 15] == '.' && all_digits(text, year + 16, year + 15 + fraction)
    &&& text.subrange(year + 15 + fraction, text.len() as int) == "+00:00"@
}

/// `text` is a moment in UTC written as date, `T`, time and the offset
/// `+00:00`.
pub open spec fn is_utc_stamp(text: Seq<char>) -> bool {
    exists|year: int, fraction: int| is_utc_stamp_of(text, year, fraction)
}

/// `text` is one line: it ends in a line feed and holds no other.
pub open spec fn is_one_line(text: Seq<char>) -> bool {
    text.len() > 0 && text.last() == '\n' && !text.drop_last().contains('\n')
}

/// `members` with a string under `key`, where there is one.
pub open spec fn with_text(members: Map<Seq<char>, JsonValue>, key: Seq<char>, value: Option<Seq<char>>) -> Map<Seq<char>, JsonValue> {
    match value {
        Some(text) => members.insert(key, JsonValue::Text(text)),
        None => members,
    }
}

/// `members` with a line number under `line`, where there is one.
pub open spec fn with_line(members: Map<Seq<char>, JsonValue>, line: Option<u32>) -> Map<Seq<char>, JsonValue> {
    match line {
        Some(number) => members.insert("line"@, JsonValue::Int(number as int)),
        None => members,
    }
}

/// One structured log record.
#[derive(Debug)]
pub struct LogRecord {
    pub timestamp: String,
    pub level: Level,
    pub target: String,
    pub service: String,
    pub environment: String,
    pub correlation_id: Option<String>,
    pub span: Option<String>,
    pub message: Option<String>,
    pub fields: Vec<Field>,
    pub file: Option<String>,
    pub line: Option<u32>,
}

impl LogRecord {
    /// The members that every record has.
    pub open spec fn base_members(&self) -> Map<Seq<char>, JsonValue> {
        Map::empty()
            .insert("timestamp"@, JsonValue::Text(self.timestamp@))
            .insert("level"@, JsonValue::Text(self.level.label()))
            .insert("target"@, JsonValue::Text(self.target@))
            .insert("service"@, JsonValue::Text(self.service@))
            .insert("environment"@, JsonValue::Text(self.environment@))
    }

    /// The base members and, over them, what the context supplied.
    pub open spec fn context_members(&self) -> Map<Seq<char>, JsonValue> {
        with_text(
            with_text(self.base_members(), "correlation_id"@, text_of(self.correlation_id)),
            "span"@,
            text_of(self.span),
        )
    }

    /// The mapping of the record's extra fields.
    pub open spec fn field_map(&self) -> Map<Seq<char>, JsonValue> {
        overlay(Map::empty(), self.fields@)
    }

    /// The members of the JSON object that the record is written as. On a
    /// clash of keys the later of these wins: the base members, the context,
    /// the extra fields, the message, the source file and line.
    pub open spec fn entries(&self) -> Map<Seq<char>, JsonValue> {
        with_line(
            with_text(
                with_text(
                    self.context_members().union_prefer_right(self.field_map()),
                    "message"@,
                    text_of(self.message),
                ),
                "file"@,
                text_of(self.file),
            ),
            self.line,
        )
    }

    /// The value of the extra field of this name, if the record has one.
    pub fn field(&self, name: &str) -> (found: Option<&FieldValue>)
        ensures
            match found {
                Some(value) => self.field_map().dom().contains(name@) && self.field_map()[name@] == value@,
                None => !self.field_map().dom().contains(name@),
            },
    {
        find_field(&self.fields, name)
    }

    /// The line that the record is written as: its JSON object in compact
    /// form, then a line feed.
    pub open spec fn line_text(&self) -> Seq<char> {
        json_text(self.entries()).push('\n')
    }

    /// Writes the record as one line of JSON: the line ends in a line feed
    /// and holds no other.
    pub fn to_json_line(&self) -> (line: String)
        ensures
            line@ == self.line_text(),
            is_one_line(line@),
    {
        let mut object = json_object();
        json_put_text(&mut object, "timestamp", self.timestamp.as_str());
        json_put_text(&mut object, "level", self.level.as_str());
        json_put_text(&mut object, "target", self.target.as_str());
        json_put_text(&mut object, "service", self.service.as_str());
        json_put_text(&mut object, "environment", self.environment.as_str());
        put_optional(&mut object, "correlation_id", &self.correlation_id);
        put_optional(&mut object, "span", &self.span);
        let mut i: usize = 0;
        while i < self.fields.len()
            invariant
                i <= self.fields.len(),
                json_entries(object) == overlay(self.context_members(), self.fields@.take(i as int)),
            decreases self.fields.len() - i,
        {
            put_field(&mut object, &self.fields[i]);
            assert(self.fields@.take(i + 1).drop_last() == self.fields@.take(i as int));
            i += 1;
        }
        proof {
            assert(self.fields@.take(i as int) == self.fields@);
            lemma_overlay_union(self.context_members(), self.fields@);
        }
        put_optional(&mut object, "message", &self.message);
        put_optional(&mut object, "file", &self.file);
        match self.line {
            Some(number) => json_put_unsigned(&mut object, "line", number as u64),
            None => {},
        }
        let mut line = json_render(object);
        let ghost text = line@;
        line.append("\n");
        proof {
            reveal_strlit("\n");
            assert("\n"@ == seq!['\n']);
            assert(line@.drop_last() == text);
        }
        line
    }
}

/// Custom JSON formatter for structured logging
#[derive(Debug)]
pub struct StructuredJsonFormatter {
    /// The environment tag that every record carries.
    pub environment: String,
}

impl StructuredJsonFormatter {
    /// A formatter for the given environment, `development` where none is
    /// given.
    pub fn new(environment: Option<String>) -> (formatter: Self)
        ensures
            formatter.environment@ == match environment {
                Some(tag) => tag@,
                None => "development"@,
            },
    {
        match environment {
            Some(tag) => Self { environment: tag },
            None => Self { environment: DEFAULT_ENVIRONMENT.to_owned() },
        }
    }

    /// `record` is what this formatter makes of `event` raised in
    /// `context`, at whatever time: level, target and source place are the
    /// event's, service and environment the formatter's, correlation
    /// identifier and span the context's, message and fields what the field
    /// visitor draws from the event.
    pub open spec fn shapes(&self, record: LogRecord, context: LogContext, event: Event) -> bool {
        &&& record.level == event.level
        &&& record.target@ == event.target@
        &&& record.service@ == "off-the-grid-cli"@
        &&& record.environment@ == self.environment@
        &&& text_of(record.correlation_id) == context.correlation_text()
        &&& text_of(record.span) == context.span_text()
        &&& text_of(record.message) == message_of(event.fields@)
        &&& record.field_map() == extras_of(event.fields@)
        &&& text_of(record.file) == text_of(event.file)
        &&& record.line == event.line
    }

    /// Makes the record of an event raised in `context` at `timestamp`.
    pub fn assemble(&self, context: &LogContext, event: &Event, timestamp: String) -> (record: LogRecord)
        ensures
            record.timestamp == timestamp,
            self.shapes(record, *context, *event),
            distinct_names(record.fields@),
    {
        let visitor = JsonVisitor::visit(&event.fields);
        let correlation_id = match &context.correlation_id {
            Some(id) => Some(id.0.clone()),
            None => None,
        };
        LogRecord {
            timestamp,
            level: event.level,
            target: event.target.clone(),
            service: SERVICE_NAME.to_owned(),
            environment: self.environment.clone(),
            correlation_id,
            span: clone_text(&context.span),
            message: visitor.message,
            fields: visitor.fields,
            file: clone_text(&event.file),
            line: event.line,
        }
    }

    /// Formats an event raised now in `context` as one line of JSON: the
    /// line of a record that this formatter makes of the event, stamped with
    /// a moment in UTC. The line ends in a line feed and holds no other.
    pub fn format_event(&self, context: &LogContext, event: &Event) -> (line: String)
        ensures
            exists|record: LogRecord| #[trigger]
                self.shapes(record, *context, *event) && is_utc_stamp(record.timestamp@) && line@
                    == record.line_text(),
            is_one_line(line@),
    {
        let record = self.assemble(context, event, utc_timestamp());
        record.to_json_line()
    }
}

/// `chrono::Utc::now` and `to_rfc3339`: the present moment in UTC as a
/// string. Which moment it is depends on the clock; the string always has
/// the shape that `to_rfc3339` writes for a time in UTC from 1970 on: the
/// year (four digits, or a plus sign and more digits beyond the year
/// 9999), month, day, `T`, hour, minute, second, a fraction of three, six
/// or nine digits where the second is not whole, and the offset `+00:00`.
/// The call does not return if the clock stands before 1970.
#[verifier::external_body]
pub(crate) fn utc_timestamp() -> (text: String)
    ensures
        is_utc_stamp(text@),
{
    chrono::Utc::now().to_rfc3339()
}

/// Writes a string member, where there is a string.
fn put_optional(object: &mut JsonObject, key: &str, value: &Option<String>)
    ensures
        json_entries(*final(object)) == with_text(json_entries(*old(object)), key@, text_of(*value)),
{
    match value {
        Some(text) => json_put_text(object, key, text.as_str()),
        None => {},
    }
}

/// Writes one field as a member of its name. A number whose text is not
/// accepted as a JSON number is written as a string.
fn put_field(object: &mut JsonObject, field: &Field)
    ensures
        json_entries(*final(object)) == json_entries(*old(object)).insert(field.name@, field.value@),
{
    let key = field.name.as_str();
    match &field.value {
        FieldValue::Text(text) => json_put_text(object, key, text.as_str()),
        FieldValue::Signed(number) => json_put_signed(object, key, *number),
        FieldValue::Unsigned(number) => json_put_unsigned(object, key, *number),
        FieldValue::Flag(flag) => json_put_flag(object, key, *flag),
        FieldValue::Number(text) => {
            let stored = json_put_number(object, key, text.as_str());
            if !stored {
                json_put_text(object, key, text.as_str());
            }
        },
    }
}

} // verus!
