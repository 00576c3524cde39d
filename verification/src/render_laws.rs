//! What rendered values amount to: scalars keep their type, every other outcome
//! reads as words and numbers that can be told apart again, and what a cap left
//! out is flagged.

use crate::protocol::{
    ExtResult, FutureResult, NameLookupResult, NamedValue, RaisedException, StackFrame, WireValue,
};
use crate::record::{display_text, AttrView};
use crate::render::{
    exception_text, ext_result_attr, ext_result_cut, frame_text,
    future_text, futures_cut, futures_text, head_of, input_pairs, name_lookup_attr,
    name_lookup_cut, optional_value_attr, optional_value_cut, traceback_text,
    value_attr, value_cut,
};
use crate::text::{
    all_digits, attr_text, begins_with, decimal_text, digits_value, ends_with,
    law_decimal_reads_back, law_join_separates_neighbours,
};
use vstd::prelude::*;
use vstd::utf8::encode_utf8;

verus! {

/// A value keeps its type: truth, numbers and finite floats as they are, text and
/// the escaped form of bytes capped, anything else by its JSON text.
pub proof fn law_values_keep_their_type(value: WireValue)
    ensures
        ({
            let attr = value_attr(value);
            &&& value matches WireValue::Missing ==> attr == AttrView::Text("<missing>"@)
            &&& value matches WireValue::Bool(on) ==> attr == AttrView::Bool(on)
            &&& value matches WireValue::Int(number) ==> attr == AttrView::Int(number as int)
            &&& value matches WireValue::Text(text) ==> attr == AttrView::Text(attr_text(text@))
            &&& value matches WireValue::Bytes(bytes) ==> attr == AttrView::Text(
                attr_text(bytes.escaped@),
            )
            &&& value matches WireValue::Other(rendered) ==> attr == AttrView::Text(rendered.text@)
            &&& optional_value_attr(Some(value)) == attr
            &&& optional_value_attr(None) == AttrView::Null
        }),
{
}

/// A finite float is recorded by its bits; infinities and NaN, whose exponent
/// bits are all ones, read as Python writes them.
pub proof fn law_floats_are_told_apart(value: WireValue)
    requires
        value is Float,
    ensures
        ({
            let bits = value->Float_0.bits;
            let attr = value_attr(value);
            let exponent = (bits >> 52) & 0x7ff;
            let fraction = bits & 0xf_ffff_ffff_ffff;
            &&& exponent != 0x7ff ==> attr == (AttrView::Float { bits, text: value->Float_0.text@ })
            &&& exponent == 0x7ff && fraction != 0 ==> attr == AttrView::Text("nan"@)
            &&& exponent == 0x7ff && fraction == 0 && (bits >> 63) == 0 ==> attr == AttrView::Text(
                "inf"@,
            )
            &&& exponent == 0x7ff && fraction == 0 && (bits >> 63) == 1 ==> attr == AttrView::Text(
                "-inf"@,
            )
        }),
{
    let bits = value->Float_0.bits;
    assert((bits >> 52) & 0x7ff == (bits / 4_503_599_627_370_496) % 2048) by (bit_vector);
    assert(bits & 0xf_ffff_ffff_ffff == bits % 4_503_599_627_370_496) by (bit_vector);
    assert(((bits >> 63) == 1) == (bits >= 9_223_372_036_854_775_808)) by (bit_vector);
    assert((bits >> 63) == 0 || (bits >> 63) == 1) by (bit_vector);
}

/// A value is flagged when its attribute leaves something out, and only then:
/// text beyond the cap, bytes beyond the cap before or after escaping, JSON that
/// its serializer cut.
pub proof fn law_cut_values_are_flagged(value: WireValue)
    ensures
        value_cut(value) <==> match value {
            WireValue::Text(text) => encode_utf8(text@).len() > 65_536,
            WireValue::Bytes(bytes) => encode_utf8(bytes.escaped@).len() > 65_536
                || bytes.data@.len() > 65_536,
            WireValue::Other(rendered) => rendered.cut,
            _ => false,
        },
        optional_value_cut(Some(value)) == value_cut(value),
        !optional_value_cut(None),
{
}

/// Of a byte string at most the first 64 KiB get escaped, and nothing else.
pub proof fn law_head_is_a_prefix(data: Seq<u8>)
    ensures
        head_of(data).len() <= data.len() && head_of(data) == data.take(head_of(data).len() as int),
        head_of(data).len() == data.len() || head_of(data).len() == 65_536,
        head_of(data).len() <= 65_536,
{
    assert(data.take(data.len() as int) =~= data);
}

/// An exception reads as its class and, after a colon, its message when it has
/// one.
pub proof fn law_exception_reads_as_class_and_message(exc: RaisedException)
    ensures
        begins_with(exception_text(exc), exc.exc_type@),
        exc.message is None ==> exception_text(exc).len() == exc.exc_type@.len(),
        exc.message matches Some(message) ==> ends_with(exception_text(exc), ": "@ + message@)
            && exception_text(exc).len() == exc.exc_type@.len() + 2 + message@.len(),
{
    reveal_strlit(": ");
    let text = exception_text(exc);
    assert(text.take(exc.exc_type@.len() as int) =~= exc.exc_type@);
    if let Some(message) = exc.message {
        assert(text.skip(text.len() - (2 + message@.len())) =~= ": "@ + message@);
    }
}

/// The answer to a call reads as what the host did: a returned value as that
/// value, an exception after `raise`, a future with its number, a function that
/// is not there with its name. What the cap leaves out is flagged.
pub proof fn law_answers_read_as_what_the_host_did(result: Option<ExtResult>)
    ensures
        ({
            let attr = ext_result_attr(result);
            let cut = ext_result_cut(result);
            match result {
                Some(ExtResult::ReturnValue(value)) => attr == value_attr(value) && cut
                    == value_cut(value),
                Some(ExtResult::Error(exc)) => attr == AttrView::Text(
                    attr_text("raise "@ + exception_text(exc)),
                ) && cut == (encode_utf8("raise "@ + exception_text(exc)).len() > 65_536),
                Some(ExtResult::Future(id)) => {
                    &&& attr is Text
                    &&& begins_with(attr->Text_0, "future "@)
                    &&& all_digits(attr->Text_0.skip(7))
                    &&& digits_value(attr->Text_0.skip(7)) == id
                    &&& !cut
                },
                Some(ExtResult::NotFound(name)) => attr == AttrView::Text(
                    attr_text("not found: "@ + name@),
                ) && cut == (encode_utf8("not found: "@ + name@).len() > 65_536),
                Some(ExtResult::NotHandled) => attr == AttrView::Text("not handled"@) && !cut,
                None => attr == AttrView::Text("<missing>"@) && !cut,
            }
        }),
{
    if let Some(ExtResult::Future(id)) = result {
        reveal_strlit("future ");
        let text = "future "@ + decimal_text(id as nat);
        assert(text.take(7) =~= "future "@);
        assert(text.skip(7) =~= decimal_text(id as nat));
        law_decimal_reads_back(id as nat);
    }
}

/// A looked-up name reads as its value, as undefined, or as missing.
pub proof fn law_lookups_read_as_what_was_found(kind: Option<NameLookupResult>)
    ensures
        match kind {
            Some(NameLookupResult::Value(value)) => name_lookup_attr(kind) == value_attr(value)
                && name_lookup_cut(kind) == value_cut(value),
            Some(NameLookupResult::Undefined) => name_lookup_attr(kind) == AttrView::Text(
                "undefined"@,
            ) && !name_lookup_cut(kind),
            None => name_lookup_attr(kind) == AttrView::Text("<missing>"@) && !name_lookup_cut(
                kind,
            ),
        },
{
}

/// Resolved futures read one after the other, each as its call's number and its
/// answer.
pub proof fn law_futures_read_in_order(
    a: Seq<FutureResult>,
    b: Seq<FutureResult>,
    one: FutureResult,
)
    ensures
        futures_text(seq![one]) == decimal_text(one.call_id as nat) + ": "@ + display_text(
            ext_result_attr(one.result),
        ),
        a.len() > 0 && b.len() > 0 ==> futures_text(a + b) == futures_text(a) + ", "@
            + futures_text(b),
{
    let text = |result: FutureResult| future_text(result);
    assert(seq![one].map_values(text) =~= seq![future_text(one)]);
    assert((a + b).map_values(text) =~= a.map_values(text) + b.map_values(text));
    law_join_separates_neighbours(
        a.map_values(text),
        b.map_values(text),
        future_text(one),
        ", "@,
    );
}

/// Resolved futures are flagged when any answer was cut or their list is too
/// long, and only then.
pub proof fn law_cut_futures_are_flagged(results: Seq<FutureResult>, i: int)
    ensures
        0 <= i < results.len() && ext_result_cut(results[i].result) ==> futures_cut(results),
        results.len() > 0 && encode_utf8(futures_text(results)).len() > 65_536 ==> futures_cut(
            results,
        ),
        futures_cut(results) ==> results.len() > 0 && (encode_utf8(futures_text(results)).len()
            > 65_536 || exists|j: int|
            0 <= j < results.len() && ext_result_cut((#[trigger] results[j]).result)),
{
}

/// A frame reads as its file, its line, and its function: no line reads as zero,
/// no function as the module.
pub proof fn law_frame_reads_as_place_and_function(frame: StackFrame)
    ensures
        ({
            let text = frame_text(frame);
            let line = decimal_text(
                match frame.line {
                    Some(line) => line as nat,
                    None => 0,
                },
            );
            let name = match frame.frame_name {
                Some(name) => name@,
                None => "<module>"@,
            };
            &&& begins_with(text, frame.filename@ + ":"@ + line)
            &&& ends_with(text, " in "@ + name)
            &&& text.len() == frame.filename@.len() + 1 + line.len() + 4 + name.len()
        }),
{
    reveal_strlit(":");
    reveal_strlit(" in ");
    let text = frame_text(frame);
    let line = decimal_text(
        match frame.line {
            Some(line) => line as nat,
            None => 0,
        },
    );
    let name = match frame.frame_name {
        Some(name) => name@,
        None => "<module>"@,
    };
    let head = frame.filename@ + ":"@ + line;
    assert(text.take(head.len() as int) =~= head);
    assert(text.skip(text.len() - (" in "@ + name).len()) =~= " in "@ + name);
}

/// A traceback reads one frame to a line, in the order of its frames.
pub proof fn law_traceback_reads_in_order(a: Seq<StackFrame>, b: Seq<StackFrame>, one: StackFrame)
    ensures
        traceback_text(seq![one]) == frame_text(one),
        a.len() > 0 && b.len() > 0 ==> traceback_text(a + b) == traceback_text(a) + "\n"@
            + traceback_text(b),
{
    let text = |frame: StackFrame| frame_text(frame);
    assert(seq![one].map_values(text) =~= seq![frame_text(one)]);
    assert((a + b).map_values(text) =~= a.map_values(text) + b.map_values(text));
    law_join_separates_neighbours(a.map_values(text), b.map_values(text), frame_text(one), "\n"@);
}

/// The inputs of a feed are handed on in their order, each value under its own
/// name, and one value in place of every value the frame left out.
pub proof fn law_inputs_keep_their_names<V>(
    inputs: Seq<NamedValue<V>>,
    missing: V,
    pairs: Seq<(&str, &V)>,
    i: int,
)
    requires
        input_pairs(inputs, missing, pairs),
        0 <= i < inputs.len(),
    ensures
        pairs.len() == inputs.len(),
        pairs[i].0@ == inputs[i].name@,
        inputs[i].value is Some ==> *pairs[i].1 == inputs[i].value->0,
        inputs[i].value is None ==> *pairs[i].1 == missing,
{
}

} // verus!
