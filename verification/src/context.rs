//! Correlation identifiers and the scope that carries one down a call chain.

use vstd::prelude::*;
use crate::text::slice_text;

verus! {

/// Identifier that ties together every record of one logical operation.
#[derive(Clone, Debug)]
pub struct CorrelationId(pub String);

/// A digit or one of the letters `a` to `f`.
pub open spec fn is_lower_hex(c: char) -> bool {
    ('0' <= c && c <= '9') || ('a' <= c && c <= 'f')
}

/// The text of a random (version 4) UUID: 32 small hexadecimal digits in
/// groups of 8, 4, 4, 4 and 12 with hyphens between them, the first digit
/// of the third group `4`, the first digit of the fourth `8`, `9`, `a` or `b`.
pub open spec fn is_uuid_text(text: Seq<char>) -> bool {
    &&& text.len() == 36
    &&& forall|i: int|
        0 <= i < 36 ==> if i == 8 || i == 13 || i == 18 || i == 23 {
            #[trigger] text[i] == '-'
        } else {
            is_lower_hex(text[i])
        }
    &&& text[14] == '4'
    &&& (text[19] == '8' || text[19] == '9' || text[19] == 'a' || text[19] == 'b')
}

/// `uuid::Uuid::new_v4` and its `to_string`: the hyphenated small-letter
/// text of a UUID whose version and variant bits are set as for a random
/// UUID. Which UUID it is depends on the system's random source; the call
/// does not return if that source yields no bytes.
#[verifier::external_body]
fn random_uuid_text() -> (text: String)
    ensures
        is_uuid_text(text@),
{
    uuid::Uuid::new_v4().to_string()
}

impl CorrelationId {
    /// A fresh identifier, drawn at random.
    pub fn new() -> (id: Self)
        ensures
            is_uuid_text(id.0@),
    {
        Self(random_uuid_text())
    }

    /// Adopts an identifier supplied from outside, unchanged.
    pub fn from_string(id: String) -> (out: Self)
        ensures
            out.0 == id,
    {
        Self(id)
    }
}

/// What a record inherits from the place it is emitted at: the correlation
/// identifier and the name of the enclosing span, if any.
#[derive(Clone, Debug)]
pub struct LogContext {
    pub correlation_id: Option<CorrelationId>,
    pub span: Option<String>,
}

/// One enclosing span: its name and the correlation identifier that it
/// carries, if it carries one.
#[derive(Clone, Debug)]
pub struct Scope {
    pub name: String,
    pub correlation_id: Option<CorrelationId>,
}

/// The identifier of the nearest scope that carries one; `scopes` lists
/// the enclosing scopes from the innermost outwards.
pub open spec fn nearest_id(scopes: Seq<Scope>) -> Option<Seq<char>>
    decreases scopes.len(),
{
    if scopes.len() == 0 {
        None
    } else {
        match scopes[0].correlation_id {
            Some(id) => Some(id.0@),
            None => nearest_id(scopes.skip(1)),
        }
    }
}

/// The span name of a scope opened for an adopted identifier.
pub const REQUEST_SPAN: &'static str = "request";

impl LogContext {
    /// The correlation identifier in force, as text.
    pub open spec fn correlation_text(&self) -> Option<Seq<char>> {
        match self.correlation_id {
            Some(id) => Some(id.0@),
            None => None,
        }
    }

    /// The name of the enclosing span.
    pub open spec fn span_text(&self) -> Option<Seq<char>> {
        match self.span {
            Some(name) => Some(name@),
            None => None,
        }
    }

    /// This is the context inside a scope of that name and identifier.
    pub open spec fn is_scope(&self, name: Seq<char>, id: Seq<char>) -> bool {
        self.correlation_text() == Some(id) && self.span_text() == Some(name)
    }

    /// This is the context outside every scope.
    pub open spec fn is_root(&self) -> bool {
        self.correlation_text() is None && self.span_text() is None
    }

    /// The correlation identifier in force.
    pub fn correlation(&self) -> (id: Option<&str>)
        ensures
            slice_text(id) == self.correlation_text(),
    {
        match &self.correlation_id {
            Some(id) => Some(id.0.as_str()),
            None => None,
        }
    }

    /// The name of the enclosing span.
    pub fn span_name(&self) -> (name: Option<&str>)
        ensures
            slice_text(name) == self.span_text(),
    {
        match &self.span {
            Some(name) => Some(name.as_str()),
            None => None,
        }
    }

    /// The context outside every scope.
    pub fn root() -> (context: Self)
        ensures
            context.is_root(),
    {
        Self { correlation_id: None, span: None }
    }

    /// The context inside the given scopes, listed from the innermost
    /// outwards: the span is the innermost scope, the identifier that of the
    /// nearest scope that carries one, so that an inner identifier shadows
    /// an outer one.
    pub fn within(scopes: &Vec<Scope>) -> (context: Self)
        ensures
            context.span_text() == if scopes@.len() == 0 {
                None
            } else {
                Some(scopes@[0].name@)
            },
            context.correlation_text() == nearest_id(scopes@),
    {
        if scopes.len() == 0 {
            return Self::root();
        }
        let span = Some(scopes[0].name.clone());
        let mut i: usize = 0;
        assert(scopes@.skip(0) == scopes@);
        while i < scopes.len()
            invariant
                i <= scopes.len(),
                scopes@.len() > 0,
                span matches Some(name) && name@ == scopes@[0].name@,
                nearest_id(scopes@) == nearest_id(scopes@.skip(i as int)),
            decreases scopes.len() - i,
        {
            proof {
                assert(scopes@.skip(i as int).skip(1) == scopes@.skip(i + 1));
                assert(scopes@.skip(i as int)[0] == scopes@[i as int]);
            }
            match &scopes[i].correlation_id {
                Some(id) => {
                    return Self { correlation_id: Some(CorrelationId(id.0.clone())), span };
                },
                None => {},
            }
            i += 1;
        }
        Self { correlation_id: None, span }
    }

    /// The context inside a scope with this name and identifier. What
    /// encloses the new scope plays no part: its identifier is shadowed.
    pub fn scope(name: &str, correlation_id: CorrelationId) -> (context: Self)
        ensures
            context.is_scope(name@, correlation_id.0@),
    {
        Self { correlation_id: Some(correlation_id), span: Some(name.to_owned()) }
    }
}

/// Runs `f` inside a scope named `name` that carries `correlation_id`, and
/// returns what `f` returns. The scope exists only as the argument of `f`,
/// so it ends with the call, however `f` ends, and the caller's own context
/// is untouched.
pub fn run_in_scope<F, R>(name: &str, correlation_id: CorrelationId, f: F) -> (result: R) where
    F: FnOnce(LogContext) -> R,

    requires
        forall|context: LogContext| context.is_scope(name@, correlation_id.0@) ==> call_requires(f, (context,)),
    ensures
        exists|context: LogContext| context.is_scope(name@, correlation_id.0@) && call_ensures(f, (context,), result),
{
    let context = LogContext::scope(name, correlation_id);
    f(context)
}

/// Runs `f` inside a scope named `request` that carries `correlation_id`.
pub fn with_correlation_id<F, R>(correlation_id: CorrelationId, f: F) -> (result: R) where
    F: FnOnce(LogContext) -> R,

    requires
        forall|context: LogContext| context.is_scope("request"@, correlation_id.0@) ==> call_requires(f, (context,)),
    ensures
        exists|context: LogContext| context.is_scope("request"@, correlation_id.0@) && call_ensures(f, (context,), result),
{
    run_in_scope(REQUEST_SPAN, correlation_id, f)
}

/// Draws a fresh identifier and runs `f` inside a scope named `name` that
/// carries it. `f` gets the identifier and the scope's context.
pub fn new_correlation_span<F, R>(name: &'static str, f: F) -> (result: R) where
    F: FnOnce(CorrelationId, LogContext) -> R,

    requires
        forall|id: CorrelationId, context: LogContext|
            is_uuid_text(id.0@) && context.is_scope(name@, id.0@) ==> call_requires(f, (id, context)),
    ensures
        exists|id: CorrelationId, context: LogContext|
            is_uuid_text(id.0@) && context.is_scope(name@, id.0@) && call_ensures(f, (id, context), result),
{
    let correlation_id = CorrelationId::new();
    let context = LogContext::scope(name, CorrelationId(correlation_id.0.clone()));
    f(correlation_id, context)
}

} // verus!
