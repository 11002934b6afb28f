//! Extraction of a message and a flat field mapping from the named values
//! of an event.

use vstd::prelude::*;
use crate::decimal::{decimal_text, signed_decimal_text};
use crate::text::str_eq;
use crate::value::{distinct_names, find_field, number_value, overlay, store_field, Field, FieldValue, JsonValue};

verus! {

/// The name of the field that carries an event's message.
pub const MESSAGE_FIELD: &'static str = "message";

/// Whether a field is taken as the message: it is named `message`,
/// whatever it holds.
pub open spec fn is_message(field: Field) -> bool {
    field.name@ == "message"@
}

/// The message that a sequence of fields yields: the last field named
/// `message`, in text form; `None` if there is no such field. A string is
/// its own text form, so a message given as a string is kept as it is.
pub open spec fn message_of(fields: Seq<Field>) -> Option<Seq<char>>
    decreases fields.len(),
{
    if fields.len() == 0 {
        None
    } else if is_message(fields.last()) {
        Some(fields.last().value.text_form())
    } else {
        message_of(fields.drop_last())
    }
}

/// The mapping that a sequence of fields yields: every field that is not
/// named `message`, under its name, the last one of a name winning.
pub open spec fn extras_of(fields: Seq<Field>) -> Map<Seq<char>, JsonValue>
    decreases fields.len(),
{
    if fields.len() == 0 {
        Map::empty()
    } else if is_message(fields.last()) {
        extras_of(fields.drop_last())
    } else {
        extras_of(fields.drop_last()).insert(fields.last().name@, fields.last().value@)
    }
}

/// What a visitor holds after it took a value under a name: a value named
/// `message` becomes the message, in text form, and leaves the mapping as
/// it was; any other value enters the mapping under its name and leaves
/// the message as it was.
pub open spec fn took(before: JsonVisitor, after: JsonVisitor, name: Seq<char>, value: JsonValue, text: Seq<char>) -> bool {
    if name == "message"@ {
        after.message_text() == Some(text) && after.field_map() == before.field_map()
    } else {
        after.message_text() == before.message_text() && after.field_map() == before.field_map().insert(name, value)
    }
}

/// Visitor for extracting fields from events: collects the message and the
/// other fields of one event. The fields are kept as a list in the order in
/// which their names first came; the mapping from name to value is the
/// list's view, and no name occurs twice in a list that only the visitor's
/// own methods filled. (A hash map keyed by strings would say nothing
/// here: `vstd` specifies hash maps only for keys whose hashing it models,
/// which are integers and booleans.)
#[derive(Debug)]
pub struct JsonVisitor {
    pub message: Option<String>,
    pub fields: Vec<Field>,
}

impl JsonVisitor {
    /// The message collected so far.
    pub open spec fn message_text(&self) -> Option<Seq<char>> {
        match self.message {
            Some(text) => Some(text@),
            None => None,
        }
    }

    /// The mapping collected so far, from field name to value. It never
    /// holds what was recorded under the name `message`.
    pub open spec fn field_map(&self) -> Map<Seq<char>, JsonValue> {
        overlay(Map::empty(), self.fields@)
    }

    /// No name occurs twice among the collected fields. A visitor that is
    /// only ever changed through its own methods stays so.
    pub open spec fn is_tidy(&self) -> bool {
        distinct_names(self.fields@)
    }

    /// A visitor that has seen nothing.
    pub fn new() -> (visitor: Self)
        ensures
            visitor.message_text() == None::<Seq<char>>,
            visitor.field_map() == (Map::<Seq<char>, JsonValue>::empty()),
            visitor.is_tidy(),
    {
        Self { message: None, fields: Vec::new() }
    }

    /// The value collected under this name, if any.
    pub fn field(&self, name: &str) -> (found: Option<&FieldValue>)
        ensures
            match found {
                Some(value) => self.field_map().dom().contains(name@) && self.field_map()[name@] == value@,
                None => !self.field_map().dom().contains(name@),
            },
    {
        find_field(&self.fields, name)
    }

    /// Takes a value under a name, whatever its kind.
    fn take(&mut self, name: &str, value: FieldValue)
        ensures
            took(*old(self), *final(self), name@, value@, value.text_form()),
            old(self).is_tidy() ==> final(self).is_tidy(),
    {
        if str_eq(name, MESSAGE_FIELD) {
            self.message = Some(value.to_text());
        } else {
            store_field(&mut self.fields, name, value);
        }
    }

    /// Takes a value of a kind that has no form of its own, rendered as text
    /// by the caller.
    pub fn record_debug(&mut self, name: &str, rendered: &str)
        ensures
            took(*old(self), *final(self), name@, JsonValue::Text(rendered@), rendered@),
            old(self).is_tidy() ==> final(self).is_tidy(),
    {
        self.take(name, FieldValue::Text(rendered.to_owned()))
    }

    /// Takes a string, kept as it is.
    pub fn record_str(&mut self, name: &str, value: &str)
        ensures
            took(*old(self), *final(self), name@, JsonValue::Text(value@), value@),
            old(self).is_tidy() ==> final(self).is_tidy(),
    {
        self.take(name, FieldValue::Text(value.to_owned()))
    }

    /// Takes a signed integer. Under the name `message` it becomes the
    /// message, written in decimal.
    pub fn record_i64(&mut self, name: &str, value: i64)
        ensures
            took(*old(self), *final(self), name@, JsonValue::Int(value as int), signed_decimal_text(value as int)),
            old(self).is_tidy() ==> final(self).is_tidy(),
    {
        self.take(name, FieldValue::Signed(value))
    }

    /// Takes an unsigned integer. Under the name `message` it becomes the
    /// message, written in decimal.
    pub fn record_u64(&mut self, name: &str, value: u64)
        ensures
            took(*old(self), *final(self), name@, JsonValue::Int(value as int), decimal_text(value as nat)),
            old(self).is_tidy() ==> final(self).is_tidy(),
    {
        self.take(name, FieldValue::Unsigned(value))
    }

    /// Takes a number given by its decimal text, for values that are not
    /// whole. A text that is no JSON number is kept as a string. Under the
    /// name `message` the text becomes the message.
    pub fn record_number(&mut self, name: &str, text: &str)
        ensures
            took(*old(self), *final(self), name@, number_value(text@), text@),
            old(self).is_tidy() ==> final(self).is_tidy(),
    {
        self.take(name, FieldValue::Number(text.to_owned()))
    }

    /// Takes a boolean. Under the name `message` it becomes the message,
    /// written as `true` or `false`.
    pub fn record_bool(&mut self, name: &str, value: bool)
        ensures
            took(
                *old(self),
                *final(self),
                name@,
                JsonValue::Flag(value),
                if value {
                    "true"@
                } else {
                    "false"@
                },
            ),
            old(self).is_tidy() ==> final(self).is_tidy(),
    {
        self.take(name, FieldValue::Flag(value))
    }

    /// Takes one field of an event, by the kind of its value.
    pub fn record(&mut self, field: &Field)
        ensures
            took(*old(self), *final(self), field.name@, field.value@, field.value.text_form()),
            old(self).is_tidy() ==> final(self).is_tidy(),
    {
        let name = field.name.as_str();
        match &field.value {
            FieldValue::Text(text) => self.record_str(name, text.as_str()),
            FieldValue::Signed(number) => self.record_i64(name, *number),
            FieldValue::Unsigned(number) => self.record_u64(name, *number),
            FieldValue::Flag(flag) => self.record_bool(name, *flag),
            FieldValue::Number(text) => self.record_number(name, text.as_str()),
        }
    }

    /// Runs every field of an event through a fresh visitor, in order.
    pub fn visit(fields: &Vec<Field>) -> (visitor: Self)
        ensures
            visitor.message_text() == message_of(fields@),
            visitor.field_map() == extras_of(fields@),
            visitor.is_tidy(),
    {
        let mut visitor = JsonVisitor::new();
        let mut i: usize = 0;
        while i < fields.len()
            invariant
                i <= fields.len(),
                visitor.message_text() == message_of(fields@.take(i as int)),
                visitor.field_map() == extras_of(fields@.take(i as int)),
                visitor.is_tidy(),
            decreases fields.len() - i,
        {
            visitor.record(&fields[i]);
            assert(fields@.take(i + 1).drop_last() == fields@.take(i as int));
            i += 1;
        }
        assert(fields@.take(i as int) == fields@);
        visitor
    }
}

} // verus!
