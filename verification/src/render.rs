//! Rendering of protocol values as telemetry attributes: every text a host or
//! the sandbox can make arbitrarily long is capped, and each rendering says
//! whether the cap cut anything off.

use crate::protocol::{
    BytesValue, ExtResult, FutureResult, NameLookupResult, NamedValue, RaisedException, Rendered,
    StackFrame, WireValue,
};
use crate::record::{display_text, AttrValue, AttrView};
use crate::text::{
    attr_text, decimal, decimal_text, digit_char, join, join_text, law_capped_text, lemma_decimal_is_ascii,
    oversize, push_decimal, texts, truncate_str, ATTR_SIZE_LIMIT,
};
use vstd::prelude::*;
use vstd::slice::*;
use vstd::string::*;
use vstd::utf8::*;

verus! {

/// Placeholder for a field the protocol requires but the frame omitted.
pub const MISSING: &'static str = "<missing>";

/// Bits of the fraction of an IEEE 754 double: the weight of its exponent.
const FRACTION: u64 = 4_503_599_627_370_496;

/// Values of the exponent of an IEEE 754 double.
const EXPONENTS: u64 = 2048;

/// The weight of the sign bit of an IEEE 754 double.
const SIGN: u64 = 9_223_372_036_854_775_808;

/// Whether the double with these bits is finite: only an exponent of all ones
/// stands for an infinity or a NaN.
pub open spec fn finite_bits(bits: u64) -> bool {
    (bits / 4_503_599_627_370_496) % 2048 != 2047
}

/// How Python prints a double that is not finite.
pub open spec fn nonfinite_text(bits: u64) -> Seq<char> {
    if bits % 4_503_599_627_370_496 != 0 {
        "nan"@
    } else if bits >= 9_223_372_036_854_775_808 {
        "-inf"@
    } else {
        "inf"@
    }
}

/// Whether the double with these bits is finite.
pub fn is_finite_bits(bits: u64) -> (finite: bool)
    ensures
        finite == finite_bits(bits),
{
    (bits / FRACTION) % EXPONENTS != EXPONENTS - 1
}

/// How Python prints a double that is not finite.
pub fn nonfinite_str(bits: u64) -> (text: &'static str)
    ensures
        text@ == nonfinite_text(bits),
{
    if bits % FRACTION != 0 {
        "nan"
    } else if bits >= SIGN {
        "-inf"
    } else {
        "inf"
    }
}

/// Splits an optional value and its cut flag, so an absent attribute
/// contributes no flag.
pub fn unzip<T>(pair: Option<(T, bool)>) -> (result: (Option<T>, bool))
    ensures
        match pair {
            Some((value, cut)) => result == (Some(value), cut),
            None => result == (None::<T>, false),
        },
{
    match pair {
        Some((value, cut)) => (Some(value), cut),
        None => (None, false),
    }
}

/// The bytes of a byte string that get escaped for its attribute.
pub open spec fn head_of(data: Seq<u8>) -> Seq<u8> {
    if data.len() <= ATTR_SIZE_LIMIT {
        data
    } else {
        data.take(ATTR_SIZE_LIMIT as int)
    }
}

/// The bytes of a byte string that get escaped for its attribute: each escapes
/// to at least one character, so any more would only be thrown away.
pub fn bytes_head(data: &[u8]) -> (head: &[u8])
    ensures
        head@ == head_of(data@),
{
    if data.len() <= ATTR_SIZE_LIMIT {
        data
    } else {
        let head = slice_subrange(data, 0, ATTR_SIZE_LIMIT);
        assert(head@ =~= data@.take(ATTR_SIZE_LIMIT as int));
        head
    }
}

/// Whether `repr` has the shape of a byte string's `repr`: ASCII characters for
/// the opening `b'` and for the closing quote.
pub open spec fn is_bytes_repr(repr: Seq<char>) -> bool {
    repr.len() >= 3 && repr[0] as u32 <= 0x7f && repr[1] as u32 <= 0x7f && repr.last() as u32
        <= 0x7f
}

/// The escaped content of a byte string's `repr`: the text between the opening
/// `b'` and the closing quote.
pub fn repr_content(repr: &str) -> (content: String)
    requires
        is_bytes_repr(repr@),
    ensures
        content@ == repr@.subrange(2, repr@.len() - 1),
{
    let len: usize = repr.unicode_len();
    repr.substring_char(2, len - 1).to_owned()
}

/// A byte string with the escaped content of its head. `repr` is the
/// interpreter's `repr` of a byte string, and is only given the head.
pub fn bytes_value<F: FnOnce(&[u8]) -> String>(data: Vec<u8>, repr: F) -> (value: BytesValue)
    requires
        forall|head: &[u8]| repr.requires((head,)),
        forall|head: &[u8], text: String| #[trigger]
            repr.ensures((head,), text) ==> is_bytes_repr(text@),
    ensures
        value.data@ == data@,
        exists|head: &[u8], text: String| #[trigger]
            repr.ensures((head,), text) && head@ == head_of(data@) && value.escaped@
                == text@.subrange(2, text@.len() - 1),
{
    let escaped = {
        let head = bytes_head(data.as_slice());
        let text = repr(head);
        assert(repr.ensures((head,), text));
        repr_content(text.as_str())
    };
    BytesValue { data, escaped }
}

/// The text of a byte string's attribute.
pub open spec fn bytes_text(value: BytesValue) -> Seq<char> {
    attr_text(value.escaped@)
}

/// Whether a byte string's attribute leaves anything out: escaped text beyond
/// the cap, or bytes that were never escaped.
pub open spec fn bytes_cut(value: BytesValue) -> bool {
    oversize(value.escaped@) || value.data@.len() > ATTR_SIZE_LIMIT
}

/// A byte string as an attribute: its escaped content, capped.
pub fn bytes_attr(value: &BytesValue) -> (result: (String, bool))
    ensures
        result.0@ == bytes_text(*value),
        result.1 == bytes_cut(*value),
{
    let (text, cut) = truncate_str(value.escaped.as_str());
    (text, cut || value.data.len() > ATTR_SIZE_LIMIT)
}

/// The attribute a wire value renders as: scalars keep their type, everything
/// else becomes text.
pub open spec fn value_attr(value: WireValue) -> AttrView {
    match value {
        WireValue::Missing => AttrView::Text(MISSING@),
        WireValue::Bool(value) => AttrView::Bool(value),
        WireValue::Int(value) => AttrView::Int(value as int),
        WireValue::Float(value) => if finite_bits(value.bits) {
            AttrView::Float { bits: value.bits, text: value.text@ }
        } else {
            AttrView::Text(nonfinite_text(value.bits))
        },
        WireValue::Text(text) => AttrView::Text(attr_text(text@)),
        WireValue::Bytes(value) => AttrView::Text(bytes_text(value)),
        WireValue::Other(rendered) => AttrView::Text(rendered.text@),
    }
}

/// Whether rendering a wire value cut anything off.
pub open spec fn value_cut(value: WireValue) -> bool {
    match value {
        WireValue::Text(text) => oversize(text@),
        WireValue::Bytes(value) => bytes_cut(value),
        WireValue::Other(rendered) => rendered.cut,
        _ => false,
    }
}

/// Renders a wire value as a typed attribute.
pub fn attr_value(value: &WireValue) -> (result: (AttrValue, bool))
    ensures
        result.0@ == value_attr(*value),
        result.1 == value_cut(*value),
{
    match value {
        WireValue::Missing => (AttrValue::text(MISSING), false),
        WireValue::Bool(value) => (AttrValue::Bool(*value), false),
        WireValue::Int(value) => (AttrValue::Int(*value), false),
        WireValue::Float(value) => if is_finite_bits(value.bits) {
            (
                AttrValue::Float(
                    crate::protocol::FloatValue { bits: value.bits, text: value.text.clone() },
                ),
                false,
            )
        } else {
            (AttrValue::text(nonfinite_str(value.bits)), false)
        },
        WireValue::Text(text) => {
            let (text, cut) = truncate_str(text.as_str());
            (AttrValue::Text(text), cut)
        },
        WireValue::Bytes(value) => {
            let (text, cut) = bytes_attr(value);
            (AttrValue::Text(text), cut)
        },
        WireValue::Other(rendered) => (AttrValue::Text(rendered.text.clone()), rendered.cut),
    }
}

/// The attribute of an optional field; an absent value is an absent attribute.
pub open spec fn optional_value_attr(value: Option<WireValue>) -> AttrView {
    match value {
        Some(value) => value_attr(value),
        None => AttrView::Null,
    }
}

/// Whether rendering an optional field cut anything off.
pub open spec fn optional_value_cut(value: Option<WireValue>) -> bool {
    match value {
        Some(value) => value_cut(value),
        None => false,
    }
}

/// [`attr_value`] for an optional field.
pub fn optional_attr(value: &Option<WireValue>) -> (result: (AttrValue, bool))
    ensures
        result.0@ == optional_value_attr(*value),
        result.1 == optional_value_cut(*value),
{
    match value {
        Some(value) => attr_value(value),
        None => (AttrValue::Null, false),
    }
}

/// An exception as `Type: message`.
pub open spec fn exception_text(exc: RaisedException) -> Seq<char> {
    match exc.message {
        Some(message) => exc.exc_type@ + ": "@ + message@,
        None => exc.exc_type@,
    }
}

/// Renders an exception as `Type: message`.
pub fn render_exception(exc: &RaisedException) -> (text: String)
    ensures
        text@ == exception_text(*exc),
{
    let mut text = exc.exc_type.clone();
    if let Some(message) = &exc.message {
        text.append(": ");
        text.append(message.as_str());
    }
    text
}

/// One traceback line: `file:line in function`.
pub open spec fn frame_text(frame: StackFrame) -> Seq<char> {
    let line: nat = match frame.line {
        Some(line) => line as nat,
        None => 0,
    };
    let name = match frame.frame_name {
        Some(name) => name@,
        None => "<module>"@,
    };
    frame.filename@ + ":"@ + decimal_text(line) + " in "@ + name
}

/// A traceback, one line per frame, outermost first.
pub open spec fn traceback_text(frames: Seq<StackFrame>) -> Seq<char> {
    join_text(frames.map_values(|frame: StackFrame| frame_text(frame)), "\n"@)
}

fn render_frame(frame: &StackFrame) -> (text: String)
    ensures
        text@ == frame_text(*frame),
{
    let line: u32 = match frame.line {
        Some(line) => line,
        None => 0,
    };
    let mut text = frame.filename.clone();
    text.append(":");
    push_decimal(&mut text, line as u64);
    text.append(" in ");
    match &frame.frame_name {
        Some(name) => text.append(name.as_str()),
        None => text.append("<module>"),
    }
    text
}

/// Renders a traceback, absent when it has no frames.
pub fn render_traceback(frames: &Vec<StackFrame>) -> (result: (Option<String>, bool))
    ensures
        match result.0 {
            Some(text) => frames@.len() > 0 && text@ == attr_text(traceback_text(frames@)),
            None => frames@.len() == 0,
        },
        result.1 == (frames@.len() > 0 && oversize(traceback_text(frames@))),
{
    if frames.len() == 0 {
        return (None, false);
    }
    let mut entries: Vec<String> = Vec::new();
    let mut i: usize = 0;
    while i < frames.len()
        invariant
            i <= frames.len(),
            entries@.len() == i,
            forall|j: int| 0 <= j < i ==> (#[trigger] entries@[j])@ == frame_text(frames@[j]),
        decreases frames.len() - i,
    {
        entries.push(render_frame(&frames[i]));
        i += 1;
    }
    assert(texts(entries@) =~= frames@.map_values(|frame: StackFrame| frame_text(frame)));
    let (text, cut) = truncate_str(join(&entries, "\n").as_str());
    (Some(text), cut)
}

/// The attribute the answer to a call renders as: a returned value in its
/// typed form, every other outcome in words.
pub open spec fn ext_result_attr(result: Option<ExtResult>) -> AttrView {
    match result {
        Some(ExtResult::ReturnValue(value)) => value_attr(value),
        Some(ExtResult::Error(exc)) => AttrView::Text(attr_text("raise "@ + exception_text(exc))),
        Some(ExtResult::Future(id)) => AttrView::Text("future "@ + decimal_text(id as nat)),
        Some(ExtResult::NotFound(name)) => AttrView::Text(attr_text("not found: "@ + name@)),
        Some(ExtResult::NotHandled) => AttrView::Text("not handled"@),
        None => AttrView::Text(MISSING@),
    }
}

/// Whether rendering the answer to a call cut anything off.
pub open spec fn ext_result_cut(result: Option<ExtResult>) -> bool {
    match result {
        Some(ExtResult::ReturnValue(value)) => value_cut(value),
        Some(ExtResult::Error(exc)) => oversize("raise "@ + exception_text(exc)),
        Some(ExtResult::NotFound(name)) => oversize("not found: "@ + name@),
        _ => false,
    }
}

/// Renders the answer to a call suspension.
pub fn render_ext_result(result: &Option<ExtResult>) -> (rendered: (AttrValue, bool))
    ensures
        rendered.0@ == ext_result_attr(*result),
        rendered.1 == ext_result_cut(*result),
{
    match result {
        Some(ExtResult::ReturnValue(value)) => attr_value(value),
        Some(ExtResult::Error(exc)) => {
            let mut text = "raise ".to_owned();
            text.append(render_exception(exc).as_str());
            let (text, cut) = truncate_str(text.as_str());
            (AttrValue::Text(text), cut)
        },
        Some(ExtResult::Future(id)) => {
            let mut text = "future ".to_owned();
            push_decimal(&mut text, *id as u64);
            (AttrValue::Text(text), false)
        },
        Some(ExtResult::NotFound(name)) => {
            let mut text = "not found: ".to_owned();
            text.append(name.as_str());
            let (text, cut) = truncate_str(text.as_str());
            (AttrValue::Text(text), cut)
        },
        Some(ExtResult::NotHandled) => (AttrValue::text("not handled"), false),
        None => (AttrValue::text(MISSING), false),
    }
}

/// The attribute the answer to a name lookup renders as.
pub open spec fn name_lookup_attr(kind: Option<NameLookupResult>) -> AttrView {
    match kind {
        Some(NameLookupResult::Value(value)) => value_attr(value),
        Some(NameLookupResult::Undefined) => AttrView::Text("undefined"@),
        None => AttrView::Text(MISSING@),
    }
}

/// Whether rendering the answer to a name lookup cut anything off.
pub open spec fn name_lookup_cut(kind: Option<NameLookupResult>) -> bool {
    match kind {
        Some(NameLookupResult::Value(value)) => value_cut(value),
        _ => false,
    }
}

/// Renders the answer to a name lookup.
pub fn render_name_lookup(kind: &Option<NameLookupResult>) -> (rendered: (AttrValue, bool))
    ensures
        rendered.0@ == name_lookup_attr(*kind),
        rendered.1 == name_lookup_cut(*kind),
{
    match kind {
        Some(NameLookupResult::Value(value)) => attr_value(value),
        Some(NameLookupResult::Undefined) => (AttrValue::text("undefined"), false),
        None => (AttrValue::text(MISSING), false),
    }
}

/// One resolved future as `call_id: result`.
pub open spec fn future_text(result: FutureResult) -> Seq<char> {
    decimal_text(result.call_id as nat) + ": "@ + display_text(ext_result_attr(result.result))
}

/// Resolved futures as `call_id: result, ...`.
pub open spec fn futures_text(results: Seq<FutureResult>) -> Seq<char> {
    join_text(results.map_values(|result: FutureResult| future_text(result)), ", "@)
}

/// Whether rendering resolved futures cut off any result, or the whole.
pub open spec fn futures_cut(results: Seq<FutureResult>) -> bool {
    ||| exists|i: int| 0 <= i < results.len() && ext_result_cut((#[trigger] results[i]).result)
    ||| results.len() > 0 && oversize(futures_text(results))
}

/// Renders resolved futures, absent when there are none.
pub fn render_future_results(results: &Vec<FutureResult>) -> (rendered: (Option<String>, bool))
    ensures
        match rendered.0 {
            Some(text) => results@.len() > 0 && text@ == attr_text(futures_text(results@)),
            None => results@.len() == 0,
        },
        rendered.1 == futures_cut(results@),
{
    if results.len() == 0 {
        return (None, false);
    }
    let mut any_cut = false;
    let mut entries: Vec<String> = Vec::new();
    let mut i: usize = 0;
    while i < results.len()
        invariant
            i <= results.len(),
            entries@.len() == i,
            forall|j: int| 0 <= j < i ==> (#[trigger] entries@[j])@ == future_text(results@[j]),
            any_cut == exists|j: int|
                0 <= j < i && ext_result_cut((#[trigger] results@[j]).result),
        decreases results.len() - i,
    {
        let (result, cut) = render_ext_result(&results[i].result);
        if cut {
            any_cut = true;
        }
        let mut entry = decimal(results[i].call_id as u64);
        entry.append(": ");
        entry.append(result.display().as_str());
        entries.push(entry);
        i += 1;
    }
    assert(texts(entries@) =~= results@.map_values(|result: FutureResult| future_text(result)));
    let (text, cut) = truncate_str(join(&entries, ", ").as_str());
    (Some(text), any_cut || cut)
}

/// A list of call ids as JSON.
pub open spec fn call_ids_text(ids: Seq<u32>) -> Seq<char> {
    "["@ + join_text(ids.map_values(|id: u32| decimal_text(id as nat)), ","@) + "]"@
}

/// A list of numbers as JSON, from `serde_json::to_string`: the decimal
/// numbers, separated by commas without spaces, in square brackets.
#[verifier::external_body]
fn json_numbers(numbers: &Vec<u32>) -> (json: String)
    ensures
        json@ == call_ids_text(numbers@),
{
    serde_json::to_string(numbers).unwrap_or_default()
}

/// A lower-case hexadecimal digit.
pub open spec fn hex_char(digit: nat) -> char {
    if digit < 10 {
        digit_char(digit)
    } else {
        (87 + digit) as char
    }
}

/// A character inside a JSON string: quotes, backslashes and control characters
/// are escaped, everything else stands for itself.
pub open spec fn json_char(c: char) -> Seq<char> {
    match c {
        '"' => seq!['\\', '"'],
        '\\' => seq!['\\', '\\'],
        '\u{8}' => seq!['\\', 'b'],
        '\t' => seq!['\\', 't'],
        '\n' => seq!['\\', 'n'],
        '\u{c}' => seq!['\\', 'f'],
        '\r' => seq!['\\', 'r'],
        _ => if (c as nat) < 32 {
            seq!['\\', 'u', '0', '0', hex_char(c as nat / 16), hex_char(c as nat % 16)]
        } else {
            seq![c]
        },
    }
}

/// A JSON string.
pub open spec fn json_string(text: Seq<char>) -> Seq<char> {
    seq!['"'] + text.map_values(|c: char| json_char(c)).flatten() + seq!['"']
}

/// A list of strings as JSON.
pub open spec fn json_string_list(items: Seq<Seq<char>>) -> Seq<char> {
    "["@ + join_text(items.map_values(|item: Seq<char>| json_string(item)), ","@) + "]"@
}

/// A list of strings as JSON, from `serde_json::to_string`: the strings in
/// double quotes, each character escaped by the table of that crate, separated
/// by commas without spaces, in square brackets. Writing it does not fail.
#[verifier::external_body]
fn json_strings(items: &Vec<String>) -> (json: String)
    ensures
        json@ == json_string_list(texts(items@)),
{
    serde_json::to_string(items).unwrap_or_default()
}

/// Renders the ids a suspension is blocked on as a JSON list, absent when
/// there are none.
pub fn render_call_ids(ids: &Vec<u32>) -> (rendered: Option<String>)
    ensures
        match rendered {
            Some(text) => ids@.len() > 0 && text@ == call_ids_text(ids@),
            None => ids@.len() == 0,
        },
{
    if ids.len() == 0 {
        None
    } else {
        Some(json_numbers(ids))
    }
}

/// Renders strings as a JSON list, absent when there are none.
pub fn render_str_list(items: &Vec<String>) -> (rendered: Option<String>)
    ensures
        match rendered {
            Some(text) => items@.len() > 0 && text@ == json_string_list(texts(items@)),
            None => items@.len() == 0,
        },
{
    if items.len() == 0 {
        None
    } else {
        Some(json_strings(items))
    }
}

/// Whether `pairs` names each input's value, with `missing` standing in for a
/// value the frame left out.
pub open spec fn input_pairs<V>(
    inputs: Seq<NamedValue<V>>,
    missing: V,
    pairs: Seq<(&str, &V)>,
) -> bool {
    &&& pairs.len() == inputs.len()
    &&& forall|i: int|
        0 <= i < pairs.len() ==> (#[trigger] pairs[i]).0@ == inputs[i].name@ && *pairs[i].1
            == (match inputs[i].value {
            Some(value) => value,
            None => missing,
        })
}

/// Renders a feed's named inputs as one JSON object, absent when there are
/// none. `serialize` writes the pairs up to a byte cap. Values are borrowed,
/// never cloned.
pub fn render_inputs<'a, V, F: FnOnce(Vec<(&'a str, &'a V)>, usize) -> Rendered>(
    inputs: &'a Vec<NamedValue<V>>,
    missing: &'a V,
    serialize: F,
) -> (rendered: Option<Rendered>)
    requires
        forall|pairs: Vec<(&'a str, &'a V)>|
            input_pairs(inputs@, *missing, pairs@) ==> call_requires(
                serialize,
                (pairs, ATTR_SIZE_LIMIT),
            ),
    ensures
        match rendered {
            Some(rendered) => inputs@.len() > 0 && exists|pairs: Vec<(&'a str, &'a V)>|
                input_pairs(inputs@, *missing, pairs@) && call_ensures(
                    serialize,
                    (pairs, ATTR_SIZE_LIMIT),
                    rendered,
                ),
            None => inputs@.len() == 0,
        },
{
    if inputs.len() == 0 {
        return None;
    }
    let mut pairs: Vec<(&'a str, &'a V)> = Vec::new();
    let mut i: usize = 0;
    while i < inputs.len()
        invariant
            i <= inputs.len(),
            input_pairs(inputs@.take(i as int), *missing, pairs@),
        decreases inputs.len() - i,
    {
        let value: &'a V = match &inputs[i].value {
            Some(value) => value,
            None => missing,
        };
        pairs.push((inputs[i].name.as_str(), value));
        i += 1;
    }
    assert(inputs@.take(i as int) =~= inputs@);
    Some(serialize(pairs, ATTR_SIZE_LIMIT))
}

/// Renders a call's positional arguments as a JSON list and its keyword
/// arguments as a JSON object, either absent when empty. `sequence` and
/// `mapping` write them up to a byte cap.
pub fn render_call_arguments<
    V,
    S: FnOnce(&Vec<V>, usize) -> Rendered,
    D: FnOnce(&Vec<(V, V)>, usize) -> Rendered,
>(args: &Vec<V>, kwargs: &Vec<(V, V)>, sequence: S, mapping: D) -> (rendered: (
    Option<Rendered>,
    Option<Rendered>,
))
    requires
        call_requires(sequence, (args, ATTR_SIZE_LIMIT)),
        call_requires(mapping, (kwargs, ATTR_SIZE_LIMIT)),
    ensures
        match rendered.0 {
            Some(json) => args@.len() > 0 && call_ensures(sequence, (args, ATTR_SIZE_LIMIT), json),
            None => args@.len() == 0,
        },
        match rendered.1 {
            Some(json) => kwargs@.len() > 0 && call_ensures(
                mapping,
                (kwargs, ATTR_SIZE_LIMIT),
                json,
            ),
            None => kwargs@.len() == 0,
        },
{
    let args = if args.len() == 0 {
        None
    } else {
        Some(sequence(args, ATTR_SIZE_LIMIT))
    };
    let kwargs = if kwargs.len() == 0 {
        None
    } else {
        Some(mapping(kwargs, ATTR_SIZE_LIMIT))
    };
    (args, kwargs)
}

/// Text rendered from a value stays within the byte cap, unless a serializer
/// wrote it under a cap of its own.
pub proof fn law_value_text_is_capped(value: WireValue)
    requires
        value !is Other,
    ensures
        value_attr(value) matches AttrView::Text(text) ==> encode_utf8(text).len()
            <= ATTR_SIZE_LIMIT,
{
    reveal_strlit("<missing>");
    reveal_strlit("nan");
    reveal_strlit("inf");
    reveal_strlit("-inf");
    is_ascii_chars_encode_utf8(MISSING@);
    is_ascii_chars_encode_utf8("nan"@);
    is_ascii_chars_encode_utf8("inf"@);
    is_ascii_chars_encode_utf8("-inf"@);
    match value {
        WireValue::Text(text) => law_capped_text(text@, ATTR_SIZE_LIMIT as nat),
        WireValue::Bytes(bytes) => law_capped_text(
            bytes.escaped@,
            ATTR_SIZE_LIMIT as nat,
        ),
        _ => {},
    }
}

/// A text value is flagged as cut exactly when its attribute differs from it.
pub proof fn law_text_flag_is_exact(text: String)
    ensures
        value_cut(WireValue::Text(text)) <==> value_attr(WireValue::Text(text)) != AttrView::Text(
            text@,
        ),
{
    law_capped_text(text@, ATTR_SIZE_LIMIT as nat);
}

/// The answer to a call is capped whatever the host put into it: its text stays
/// within the byte cap, unless a serializer wrote a returned value under a cap
/// of its own, and it is flagged exactly when text was dropped.
pub proof fn law_answer_is_capped_and_flagged(result: Option<ExtResult>)
    requires
        result matches Some(ExtResult::ReturnValue(value)) ==> value !is Other,
    ensures
        ext_result_attr(result) matches AttrView::Text(text) ==> encode_utf8(text).len()
            <= ATTR_SIZE_LIMIT,
        result matches Some(ExtResult::Error(exc)) ==> (ext_result_cut(result) <==> ext_result_attr(
            result,
        ) != AttrView::Text("raise "@ + exception_text(exc))),
        result matches Some(ExtResult::NotFound(name)) ==> (ext_result_cut(result)
            <==> ext_result_attr(result) != AttrView::Text("not found: "@ + name@)),
{
    let limit = ATTR_SIZE_LIMIT as nat;
    match result {
        Some(ExtResult::ReturnValue(value)) => law_value_text_is_capped(value),
        Some(ExtResult::Error(exc)) => law_capped_text("raise "@ + exception_text(exc), limit),
        Some(ExtResult::NotFound(name)) => law_capped_text("not found: "@ + name@, limit),
        Some(ExtResult::Future(id)) => {
            let text = "future "@ + decimal_text(id as nat);
            reveal_strlit("future ");
            lemma_decimal_is_ascii(id as nat);
            reveal_with_fuel(decimal_text, 11);
            assert(is_ascii_chars(text));
            is_ascii_chars_encode_utf8(text);
        },
        Some(ExtResult::NotHandled) => {
            reveal_strlit("not handled");
            is_ascii_chars_encode_utf8("not handled"@);
        },
        None => {
            reveal_strlit("<missing>");
            is_ascii_chars_encode_utf8(MISSING@);
        },
    }
}

} // verus!
