//! Telemetry records: attribute lists under a fixed shape, and the span
//! operations that put them into a trace.

use crate::protocol::FloatValue;
use crate::text::{
    decimal, decimal_text, digits_value, law_decimal_reads_back, law_signed_decimal_reads_back,
    signed_decimal, signed_text,
};
use vstd::prelude::*;

verus! {

/// The value of one attribute.
#[derive(Debug)]
pub enum AttrValue {
    /// No value: the attribute is recorded as absent.
    Null,
    Bool(bool),
    Int(i64),
    UInt(u64),
    Float(FloatValue),
    Text(String),
}

/// An attribute value as plain numbers and text.
pub enum AttrView {
    Null,
    Bool(bool),
    Int(int),
    UInt(nat),
    Float { bits: u64, text: Seq<char> },
    Text(Seq<char>),
}

impl View for AttrValue {
    type V = AttrView;

    open spec fn view(&self) -> AttrView {
        match *self {
            AttrValue::Null => AttrView::Null,
            AttrValue::Bool(value) => AttrView::Bool(value),
            AttrValue::Int(value) => AttrView::Int(value as int),
            AttrValue::UInt(value) => AttrView::UInt(value as nat),
            AttrValue::Float(value) => AttrView::Float { bits: value.bits, text: value.text@ },
            AttrValue::Text(value) => AttrView::Text(value@),
        }
    }
}

/// How an attribute value prints.
pub open spec fn display_text(value: AttrView) -> Seq<char> {
    match value {
        AttrView::Null => ""@,
        AttrView::Bool(value) => if value {
            "true"@
        } else {
            "false"@
        },
        AttrView::Int(value) => signed_text(value),
        AttrView::UInt(value) => decimal_text(value),
        AttrView::Float { text, .. } => text,
        AttrView::Text(text) => text,
    }
}

impl AttrValue {
    /// The value as text: booleans and numbers print, text stays as it is.
    pub fn display(&self) -> (text: String)
        ensures
            text@ == display_text(self@),
    {
        match self {
            AttrValue::Null => "".to_owned(),
            AttrValue::Bool(value) => if *value {
                "true".to_owned()
            } else {
                "false".to_owned()
            },
            AttrValue::Int(value) => signed_decimal(*value),
            AttrValue::UInt(value) => decimal(*value),
            AttrValue::Float(value) => value.text.clone(),
            AttrValue::Text(text) => text.clone(),
        }
    }

    /// A text value.
    pub fn text(text: &str) -> (value: AttrValue)
        ensures
            value@ == AttrView::Text(text@),
    {
        AttrValue::Text(text.to_owned())
    }

    /// A text value when there is one.
    pub fn optional_text(text: &Option<String>) -> (value: AttrValue)
        ensures
            value@ == opt_text(text_option(*text)),
    {
        match text {
            Some(text) => AttrValue::Text(text.clone()),
            None => AttrValue::Null,
        }
    }

    /// A count when there is one.
    pub fn optional_uint(value: Option<u64>) -> (attr: AttrValue)
        ensures
            attr@ == opt_uint(value),
    {
        match value {
            Some(value) => AttrValue::UInt(value),
            None => AttrValue::Null,
        }
    }

    /// The flag of a record whose text was cut; absent when nothing was.
    pub fn cut_flag(cut: bool) -> (attr: AttrValue)
        ensures
            attr@ == cut_view(cut),
    {
        if cut {
            AttrValue::Bool(true)
        } else {
            AttrValue::Null
        }
    }
}

/// The text of an optional string.
pub open spec fn text_option(text: Option<String>) -> Option<Seq<char>> {
    match text {
        Some(text) => Some(text@),
        None => None,
    }
}

/// An optional text as an attribute value.
pub open spec fn opt_text(text: Option<Seq<char>>) -> AttrView {
    match text {
        Some(text) => AttrView::Text(text),
        None => AttrView::Null,
    }
}

/// An optional count as an attribute value.
pub open spec fn opt_uint(value: Option<u64>) -> AttrView {
    match value {
        Some(value) => AttrView::UInt(value as nat),
        None => AttrView::Null,
    }
}

/// The flag of a record whose text was cut.
pub open spec fn cut_view(cut: bool) -> AttrView {
    if cut {
        AttrView::Bool(true)
    } else {
        AttrView::Null
    }
}

/// One named attribute.
#[derive(Debug)]
pub struct Attribute {
    pub key: &'static str,
    pub value: AttrValue,
}

impl View for Attribute {
    type V = (Seq<char>, AttrView);

    open spec fn view(&self) -> (Seq<char>, AttrView) {
        (self.key@, self.value@)
    }
}

/// The names and values of an attribute list.
pub open spec fn attrs_view(attributes: Seq<Attribute>) -> Seq<(Seq<char>, AttrView)> {
    attributes.map_values(|attribute: Attribute| attribute@)
}

/// Appends one attribute.
pub fn put(attributes: &mut Vec<Attribute>, key: &'static str, value: AttrValue)
    ensures
        attrs_view(final(attributes)@) == attrs_view(old(attributes)@).push((key@, value@)),
{
    attributes.push(Attribute { key, value });
    assert(attrs_view(attributes@) =~= attrs_view(old(attributes)@).push((key@, value@)));
}

/// Which kind of record this is. The shape fixes the message template and the
/// severity; the attributes fill the template in.
#[derive(Debug, Clone, Copy, PartialEq, Eq, Structural)]
pub enum Shape {
    Session,
    Load,
    InstallDependencies,
    Feed,
    Dump,
    FunctionCall,
    OsCall,
    NameLookup,
    ResolveFutures,
    CallResult,
    NameLookupResult,
    FutureResults,
    Restored,
    Print,
    Complete,
    Error,
    TypingError,
    DumpResult,
    Shutdown,
    FatalError,
    NoKind,
}

/// The message template of a shape.
pub open spec fn shape_template(shape: Shape) -> Seq<char> {
    match shape {
        Shape::Session => "session {script_name}"@,
        Shape::Load => "load"@,
        Shape::InstallDependencies => "install dependencies"@,
        Shape::Feed => "feed"@,
        Shape::Dump => "dump"@,
        Shape::FunctionCall => "function call {function_name}"@,
        Shape::OsCall => "os call {function}"@,
        Shape::NameLookup => "name lookup {name}"@,
        Shape::ResolveFutures => "resolve futures"@,
        Shape::CallResult => "call result"@,
        Shape::NameLookupResult => "name lookup result"@,
        Shape::FutureResults => "future results"@,
        Shape::Restored => "restored {script_name}"@,
        Shape::Print => "print {stream}"@,
        Shape::Complete => "complete"@,
        Shape::Error => "error {exc_type}"@,
        Shape::TypingError => "typing error"@,
        Shape::DumpResult => "dump result"@,
        Shape::Shutdown => "shutdown"@,
        Shape::FatalError => "fatal error"@,
        Shape::NoKind => "event with no kind"@,
    }
}

/// Whether records of a shape report a failure.
pub open spec fn shape_is_error(shape: Shape) -> bool {
    shape == Shape::Error || shape == Shape::TypingError || shape == Shape::FatalError || shape
        == Shape::NoKind
}

impl Shape {
    /// The message template.
    pub fn template(self) -> (template: &'static str)
        ensures
            template@ == shape_template(self),
    {
        match self {
            Shape::Session => "session {script_name}",
            Shape::Load => "load",
            Shape::InstallDependencies => "install dependencies",
            Shape::Feed => "feed",
            Shape::Dump => "dump",
            Shape::FunctionCall => "function call {function_name}",
            Shape::OsCall => "os call {function}",
            Shape::NameLookup => "name lookup {name}",
            Shape::ResolveFutures => "resolve futures",
            Shape::CallResult => "call result",
            Shape::NameLookupResult => "name lookup result",
            Shape::FutureResults => "future results",
            Shape::Restored => "restored {script_name}",
            Shape::Print => "print {stream}",
            Shape::Complete => "complete",
            Shape::Error => "error {exc_type}",
            Shape::TypingError => "typing error",
            Shape::DumpResult => "dump result",
            Shape::Shutdown => "shutdown",
            Shape::FatalError => "fatal error",
            Shape::NoKind => "event with no kind",
        }
    }

    /// Whether the record reports a failure; everything else is informational.
    pub fn is_error(self) -> (error: bool)
        ensures
            error == shape_is_error(self),
    {
        match self {
            Shape::Error | Shape::TypingError | Shape::FatalError | Shape::NoKind => true,
            _ => false,
        }
    }
}

/// One record: a shape with the attributes that fill it in.
#[derive(Debug)]
pub struct Record {
    pub shape: Shape,
    pub attributes: Vec<Attribute>,
}

/// A record as a shape with named values.
pub struct RecordView {
    pub shape: Shape,
    pub attributes: Seq<(Seq<char>, AttrView)>,
}

impl View for Record {
    type V = RecordView;

    open spec fn view(&self) -> RecordView {
        RecordView { shape: self.shape, attributes: attrs_view(self.attributes@) }
    }
}

/// The places a worker's trace holds a span open in, innermost first.
#[derive(Debug, Clone, Copy, PartialEq, Eq, Structural)]
pub enum Slot {
    /// A housekeeping turn.
    Turn,
    /// The suspension a feed is blocked on.
    Pending,
    /// The feed in flight.
    Feed,
    /// The session every turn nests inside.
    Session,
}

/// One step of writing a trace.
#[derive(Debug)]
pub enum TraceOp {
    /// Opens a span under `parent` and puts it into `slot`; a span the slot
    /// still held is closed once the new one is open.
    Open { slot: Slot, parent: Option<Slot>, record: Record },
    /// Writes a record inside the span in `parent`, or at the root.
    Log { parent: Option<Slot>, record: Record },
    /// Closes the span in `slot`.
    Close { slot: Slot },
}

/// One step of writing a trace, with its record as named values.
pub enum OpView {
    Open { slot: Slot, parent: Option<Slot>, record: RecordView },
    Log { parent: Option<Slot>, record: RecordView },
    Close { slot: Slot },
}

impl View for TraceOp {
    type V = OpView;

    open spec fn view(&self) -> OpView {
        match *self {
            TraceOp::Open { slot, parent, record } => OpView::Open { slot, parent, record: record@ },
            TraceOp::Log { parent, record } => OpView::Log { parent, record: record@ },
            TraceOp::Close { slot } => OpView::Close { slot },
        }
    }
}

/// The steps of a trace with their records as named values.
pub open spec fn ops_view(ops: Seq<TraceOp>) -> Seq<OpView> {
    ops.map_values(|op: TraceOp| op@)
}

/// Appends one step.
pub fn push_op(ops: &mut Vec<TraceOp>, op: TraceOp)
    ensures
        ops_view(final(ops)@) == ops_view(old(ops)@).push(op@),
{
    ops.push(op);
    assert(ops_view(ops@) =~= ops_view(old(ops)@).push(op@));
}

/// A shape is told by its template alone.
pub proof fn law_template_identifies_the_shape(shape: Shape)
    ensures
        shape_template(shape) == "session {script_name}"@ <==> shape == Shape::Session,
        shape_template(shape) == "load"@ <==> shape == Shape::Load,
        shape_template(shape) == "install dependencies"@ <==> shape == Shape::InstallDependencies,
        shape_template(shape) == "feed"@ <==> shape == Shape::Feed,
        shape_template(shape) == "dump"@ <==> shape == Shape::Dump,
        shape_template(shape) == "function call {function_name}"@ <==> shape == Shape::FunctionCall,
        shape_template(shape) == "os call {function}"@ <==> shape == Shape::OsCall,
        shape_template(shape) == "name lookup {name}"@ <==> shape == Shape::NameLookup,
        shape_template(shape) == "resolve futures"@ <==> shape == Shape::ResolveFutures,
        shape_template(shape) == "call result"@ <==> shape == Shape::CallResult,
        shape_template(shape) == "name lookup result"@ <==> shape == Shape::NameLookupResult,
        shape_template(shape) == "future results"@ <==> shape == Shape::FutureResults,
        shape_template(shape) == "restored {script_name}"@ <==> shape == Shape::Restored,
        shape_template(shape) == "print {stream}"@ <==> shape == Shape::Print,
        shape_template(shape) == "complete"@ <==> shape == Shape::Complete,
        shape_template(shape) == "error {exc_type}"@ <==> shape == Shape::Error,
        shape_template(shape) == "typing error"@ <==> shape == Shape::TypingError,
        shape_template(shape) == "dump result"@ <==> shape == Shape::DumpResult,
        shape_template(shape) == "shutdown"@ <==> shape == Shape::Shutdown,
        shape_template(shape) == "fatal error"@ <==> shape == Shape::FatalError,
        shape_template(shape) == "event with no kind"@ <==> shape == Shape::NoKind,
{
    reveal_strlit("session {script_name}");
    reveal_strlit("load");
    reveal_strlit("install dependencies");
    reveal_strlit("feed");
    reveal_strlit("dump");
    reveal_strlit("function call {function_name}");
    reveal_strlit("os call {function}");
    reveal_strlit("name lookup {name}");
    reveal_strlit("resolve futures");
    reveal_strlit("call result");
    reveal_strlit("name lookup result");
    reveal_strlit("future results");
    reveal_strlit("restored {script_name}");
    reveal_strlit("print {stream}");
    reveal_strlit("complete");
    reveal_strlit("error {exc_type}");
    reveal_strlit("typing error");
    reveal_strlit("dump result");
    reveal_strlit("shutdown");
    reveal_strlit("fatal error");
    reveal_strlit("event with no kind");
    assert("session {script_name}"@.len() == 21);
    assert("load"@.len() == 4);
    assert("install dependencies"@.len() == 20);
    assert("feed"@.len() == 4);
    assert("dump"@.len() == 4);
    assert("function call {function_name}"@.len() == 29);
    assert("os call {function}"@.len() == 18);
    assert("name lookup {name}"@.len() == 18);
    assert("resolve futures"@.len() == 15);
    assert("call result"@.len() == 11);
    assert("name lookup result"@.len() == 18);
    assert("future results"@.len() == 14);
    assert("restored {script_name}"@.len() == 22);
    assert("print {stream}"@.len() == 14);
    assert("complete"@.len() == 8);
    assert("error {exc_type}"@.len() == 16);
    assert("typing error"@.len() == 12);
    assert("dump result"@.len() == 11);
    assert("shutdown"@.len() == 8);
    assert("fatal error"@.len() == 11);
    assert("event with no kind"@.len() == 18);
    assert("load"@[0] == 'l');
    assert("feed"@[0] == 'f');
    assert("dump"@[0] == 'd');
    assert("os call {function}"@[0] == 'o');
    assert("name lookup {name}"@[0] == 'n');
    assert("name lookup result"@[0] == 'n');
    assert("event with no kind"@[0] == 'e');
    assert("name lookup {name}"@[12] == '{');
    assert("name lookup result"@[12] == 'r');
    assert("call result"@[0] == 'c');
    assert("dump result"@[0] == 'd');
    assert("fatal error"@[0] == 'f');
    assert("future results"@[0] == 'f');
    assert("print {stream}"@[0] == 'p');
    assert("complete"@[0] == 'c');
    assert("shutdown"@[0] == 's');
}

/// Failures of the sandboxed code, of its types and of the worker are errors, and
/// so is an event that says nothing; everything else is informational.
pub proof fn law_only_failures_are_errors(shape: Shape)
    ensures
        shape_is_error(shape) <==> (shape is Error || shape is TypingError || shape is FatalError
            || shape is NoKind),
{
}

/// An optional value is recorded as itself when it is there and as absent when it
/// is not, and a flag only when it is set.
pub proof fn law_absent_values_are_recorded_as_absent(text: Seq<char>, number: u64, cut: bool)
    ensures
        opt_text(Some(text)) == AttrView::Text(text),
        opt_text(None) == AttrView::Null,
        opt_uint(Some(number)) == AttrView::UInt(number as nat),
        opt_uint(None) == AttrView::Null,
        cut ==> cut_view(cut) == AttrView::Bool(true),
        !cut ==> cut_view(cut) == AttrView::Null,
{
}

/// An attribute prints as its value: numbers in digits that read back as the
/// number, text and floats as they are, truth as a word, an absent value as
/// nothing.
pub proof fn law_attributes_print_their_value(
    number: int,
    count: nat,
    bits: u64,
    text: Seq<char>,
)
    ensures
        digits_value(display_text(AttrView::UInt(count))) == count,
        number >= 0 ==> digits_value(display_text(AttrView::Int(number))) == number,
        number < 0 ==> display_text(AttrView::Int(number))[0] == '-' && digits_value(
            display_text(AttrView::Int(number)).skip(1),
        ) == -number,
        display_text(AttrView::Text(text)) == text,
        display_text(AttrView::Float { bits, text }) == text,
        display_text(AttrView::Bool(true)) == "true"@,
        display_text(AttrView::Bool(false)) == "false"@,
        display_text(AttrView::Null).len() == 0,
{
    law_decimal_reads_back(count);
    law_signed_decimal_reads_back(number);
    reveal_strlit("");
}

/// Attributes and steps are seen one for one, in the order they were put: each
/// attribute with its own key and value, each step as itself.
pub proof fn law_lists_keep_their_order(attributes: Seq<Attribute>, ops: Seq<TraceOp>, i: int)
    ensures
        attrs_view(attributes).len() == attributes.len(),
        0 <= i < attributes.len() ==> attrs_view(attributes)[i].0 == attributes[i].key@
            && attrs_view(attributes)[i].1 == attributes[i].value@,
        ops_view(ops).len() == ops.len(),
        0 <= i < ops.len() ==> ops_view(ops)[i] == ops[i]@,
{
}

} // verus!
