//! The closed set of values a log field can carry.

use vstd::prelude::*;
use crate::decimal::{decimal_string, decimal_text, signed_decimal_string, signed_decimal_text};
use crate::json::json_number_value;

verus! {

/// A JSON value as the contracts see it.
pub enum JsonValue {
    /// A JSON string.
    Text(Seq<char>),
    /// A whole number.
    Int(int),
    /// `true` or `false`.
    Flag(bool),
    /// A number with a fraction or an exponent, by its decimal text.
    Real(Seq<char>),
}

/// The JSON value shown for a number given as text: the number, where the
/// text is read as a JSON number, and the text as a string where it is not.
pub open spec fn number_value(text: Seq<char>) -> JsonValue {
    match json_number_value(text) {
        Some(number) => number,
        None => JsonValue::Text(text),
    }
}

/// Value of one field of an event or of a record.
#[derive(Clone, Debug, PartialEq, Eq)]
pub enum FieldValue {
    /// A string, also used for values that were rendered for debugging.
    Text(String),
    /// A signed integer.
    Signed(i64),
    /// An unsigned integer.
    Unsigned(u64),
    /// A boolean.
    Flag(bool),
    /// A number given by its decimal text, such as `42.5`.
    Number(String),
}

impl View for FieldValue {
    type V = JsonValue;

    /// The JSON value that a record shows for this field. A `Number` whose
    /// text is not read as a JSON number is shown as that text.
    open spec fn view(&self) -> JsonValue {
        match *self {
            FieldValue::Text(s) => JsonValue::Text(s@),
            FieldValue::Signed(i) => JsonValue::Int(i as int),
            FieldValue::Unsigned(u) => JsonValue::Int(u as int),
            FieldValue::Flag(b) => JsonValue::Flag(b),
            FieldValue::Number(t) => number_value(t@),
        }
    }
}

impl FieldValue {
    /// The value in text form: a string as it is, a whole number in
    /// decimal, a boolean as `true` or `false`, a number given as text by
    /// that text.
    pub open spec fn text_form(self) -> Seq<char> {
        match self {
            FieldValue::Text(s) => s@,
            FieldValue::Signed(i) => signed_decimal_text(i as int),
            FieldValue::Unsigned(u) => decimal_text(u as nat),
            FieldValue::Flag(b) => if b {
                "true"@
            } else {
                "false"@
            },
            FieldValue::Number(t) => t@,
        }
    }

    /// Writes the value in text form.
    pub fn to_text(&self) -> (text: String)
        ensures
            text@ == self.text_form(),
    {
        match self {
            FieldValue::Text(s) => s.clone(),
            FieldValue::Signed(i) => signed_decimal_string(*i),
            FieldValue::Unsigned(u) => decimal_string(*u),
            FieldValue::Flag(b) => if *b {
                "true".to_owned()
            } else {
                "false".to_owned()
            },
            FieldValue::Number(t) => t.clone(),
        }
    }
}

/// One named value.
#[derive(Clone, Debug, PartialEq, Eq)]
pub struct Field {
    pub name: String,
    pub value: FieldValue,
}

/// The members of a JSON object after each field, in turn, was written
/// into `members` under its name: a later field replaces an earlier one of
/// the same name, and a field replaces a member of `members` of that name.
pub open spec fn overlay(members: Map<Seq<char>, JsonValue>, fields: Seq<Field>) -> Map<Seq<char>, JsonValue>
    decreases fields.len(),
{
    if fields.len() == 0 {
        members
    } else {
        overlay(members, fields.drop_last()).insert(fields.last().name@, fields.last().value@)
    }
}

/// No two fields have the same name.
pub open spec fn distinct_names(fields: Seq<Field>) -> bool {
    forall|i: int, j: int| 0 <= i < j < fields.len() ==> (#[trigger] fields[i]).name@ != (#[trigger] fields[j]).name@
}

/// The last field of a name decides what is found under that name.
pub proof fn lemma_overlay_hit(members: Map<Seq<char>, JsonValue>, fields: Seq<Field>, i: int)
    requires
        0 <= i < fields.len(),
        forall|j: int| i < j < fields.len() ==> (#[trigger] fields[j]).name@ != fields[i].name@,
    ensures
        overlay(members, fields).dom().contains(fields[i].name@),
        overlay(members, fields)[fields[i].name@] == fields[i].value@,
    decreases fields.len(),
{
    if i < fields.len() - 1 {
        assert(fields[fields.len() - 1].name@ != fields[i].name@);
        assert forall|j: int| i < j < fields.drop_last().len() implies (#[trigger] fields.drop_last()[j]).name@
            != fields.drop_last()[i].name@ by {
            assert(fields[j].name@ != fields[i].name@);
        }
        lemma_overlay_hit(members, fields.drop_last(), i);
    }
}

/// A name that no field has is found as in `members`, or not at all.
pub proof fn lemma_overlay_miss(members: Map<Seq<char>, JsonValue>, fields: Seq<Field>, name: Seq<char>)
    requires
        forall|j: int| 0 <= j < fields.len() ==> (#[trigger] fields[j]).name@ != name,
    ensures
        overlay(members, fields).dom().contains(name) == members.dom().contains(name),
        members.dom().contains(name) ==> overlay(members, fields)[name] == members[name],
    decreases fields.len(),
{
    if fields.len() > 0 {
        assert(fields[fields.len() - 1].name@ != name);
        assert forall|j: int| 0 <= j < fields.drop_last().len() implies (#[trigger] fields.drop_last()[j]).name@
            != name by {
            assert(fields[j].name@ != name);
        }
        lemma_overlay_miss(members, fields.drop_last(), name);
    }
}

/// Giving the last field of a name a new value changes what is found under
/// that name, and nothing else.
pub proof fn lemma_overlay_replace(members: Map<Seq<char>, JsonValue>, fields: Seq<Field>, i: int, field: Field)
    requires
        0 <= i < fields.len(),
        field.name@ == fields[i].name@,
        forall|j: int| i < j < fields.len() ==> (#[trigger] fields[j]).name@ != fields[i].name@,
    ensures
        overlay(members, fields.update(i, field)) == overlay(members, fields).insert(field.name@, field.value@),
    decreases fields.len(),
{
    let changed = fields.update(i, field);
    if i == fields.len() - 1 {
        assert(changed.drop_last() == fields.drop_last());
    } else {
        assert(fields[fields.len() - 1].name@ != fields[i].name@);
        assert forall|j: int| i < j < fields.drop_last().len() implies (#[trigger] fields.drop_last()[j]).name@
            != fields.drop_last()[i].name@ by {
            assert(fields[j].name@ != fields[i].name@);
        }
        lemma_overlay_replace(members, fields.drop_last(), i, field);
        assert(changed.drop_last() == fields.drop_last().update(i, field));
    }
    assert(overlay(members, changed) =~= overlay(members, fields).insert(field.name@, field.value@));
}

/// The index of the last field of this name, if there is one.
fn last_index_of(fields: &Vec<Field>, name: &str) -> (found: Option<usize>)
    ensures
        match found {
            Some(i) => i < fields@.len() && fields@[i as int].name@ == name@ && forall|j: int|
                i < j < fields@.len() ==> (#[trigger] fields@[j]).name@ != name@,
            None => forall|j: int| 0 <= j < fields@.len() ==> (#[trigger] fields@[j]).name@ != name@,
        },
{
    let wanted = name.to_owned();
    let mut i: usize = fields.len();
    while i > 0
        invariant
            i <= fields.len(),
            wanted@ == name@,
            forall|j: int| i <= j < fields.len() ==> (#[trigger] fields@[j]).name@ != name@,
        decreases i,
    {
        i -= 1;
        if fields[i].name == wanted {
            return Some(i);
        }
    }
    None
}

/// Looks a name up among fields of which a later one replaces an earlier
/// one of the same name.
pub fn find_field<'a>(fields: &'a Vec<Field>, name: &str) -> (found: Option<&'a FieldValue>)
    ensures
        match found {
            Some(value) => overlay(Map::empty(), fields@).dom().contains(name@) && overlay(Map::empty(), fields@)[name@]
                == value@,
            None => !overlay(Map::empty(), fields@).dom().contains(name@),
        },
{
    match last_index_of(fields, name) {
        Some(i) => {
            proof {
                lemma_overlay_hit(Map::empty(), fields@, i as int);
            }
            Some(&fields[i].value)
        },
        None => {
            proof {
                lemma_overlay_miss(Map::empty(), fields@, name@);
            }
            None
        },
    }
}

/// Stores a value under a name: in the place of the field of that name, if
/// there is one, and behind all fields otherwise. The fields that were
/// there keep their places, and names that were distinct stay distinct.
pub fn store_field(fields: &mut Vec<Field>, name: &str, value: FieldValue)
    ensures
        overlay(Map::empty(), final(fields)@) == overlay(Map::empty(), old(fields)@).insert(name@, value@),
        distinct_names(old(fields)@) ==> distinct_names(final(fields)@),
        final(fields)@.len() >= old(fields)@.len(),
        forall|j: int|
            0 <= j < old(fields)@.len() && old(fields)@[j].name@ != name@ ==> (#[trigger] final(fields)@[j]) == old(
                fields,
            )@[j],
{
    let field = Field { name: name.to_owned(), value };
    match last_index_of(fields, name) {
        Some(i) => {
            proof {
                lemma_overlay_replace(Map::empty(), fields@, i as int, field);
            }
            fields.set(i, field);
        },
        None => {
            fields.push(field);
            assert(fields@.drop_last() == old(fields)@);
        },
    }
}

/// Writing fields over `members` gives `members` overridden by the mapping
/// of the fields alone.
pub proof fn lemma_overlay_union(members: Map<Seq<char>, JsonValue>, fields: Seq<Field>)
    ensures
        overlay(members, fields) == members.union_prefer_right(overlay(Map::empty(), fields)),
    decreases fields.len(),
{
    if fields.len() > 0 {
        lemma_overlay_union(members, fields.drop_last());
    }
    assert(overlay(members, fields) =~= members.union_prefer_right(overlay(Map::empty(), fields)));
}

} // verus!
