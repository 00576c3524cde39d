//! What the records of a trace carry: under each key the value it is named after,
//! and nothing beside. Keys are looked up, so that two attributes can never be
//! taken for one another.

use crate::limits::WireLimits;
use crate::protocol::{
    call_name_text, stream_name, BytesValue, BytesWrite, Call, ChildEvent, Configure, ExcData,
    ExtResult, Feed, FunctionCall, FutureResult, JsonErrorData, NameLookupResult, OsCall,
    PrintStream, RaisedException, Rendered, TextWrite, TimeZone, UnicodeErrorData, UnicodeObject,
    WireValue,
};
use crate::record::{display_text, AttrView, RecordView, Shape};
use crate::render::{
    call_ids_text, ext_result_attr, ext_result_cut, futures_text, json_string_list,
    name_lookup_attr, name_lookup_cut, optional_value_attr, optional_value_cut, traceback_text,
};
use crate::span_records::{
    bare_view, call_result_view, complete_view, dump_result_view, error_view, fatal_error_view,
    feed_view, function_call_view, future_results_view, install_view, load_view,
    name_lookup_result_view, name_lookup_view, os_call_view, print_view, resolve_futures_view,
    restored_view, session_view, shutdown_view, typing_error_view,
};
use crate::text::{attr_text, texts};
use vstd::prelude::*;
use vstd::utf8::encode_utf8;

verus! {

/// Whether looking `key` up in a record gives `value`: some attribute has that
/// key, and every one that does has that value.
pub open spec fn shows(record: RecordView, key: Seq<char>, value: AttrView) -> bool {
    &&& exists|i: int|
        0 <= i < record.attributes.len() && #[trigger] record.attributes[i] == (key, value)
    &&& forall|i: int|
        0 <= i < record.attributes.len() && (#[trigger] record.attributes[i]).0 == key
            ==> record.attributes[i].1 == value
}

/// A text that may be missing.
pub open spec fn text_or_null(text: Option<String>) -> AttrView {
    match text {
        Some(text) => AttrView::Text(text@),
        None => AttrView::Null,
    }
}

/// A text that may be missing, capped.
pub open spec fn capped_or_null(text: Option<String>) -> AttrView {
    match text {
        Some(text) => AttrView::Text(attr_text(text@)),
        None => AttrView::Null,
    }
}

/// A number that may be missing.
pub open spec fn number_or_null(number: Option<u64>) -> AttrView {
    match number {
        Some(number) => AttrView::UInt(number as nat),
        None => AttrView::Null,
    }
}

/// A rendering that may be missing.
pub open spec fn rendering_or_null(rendered: Option<Rendered>) -> AttrView {
    match rendered {
        Some(rendered) => AttrView::Text(rendered.text@),
        None => AttrView::Null,
    }
}

/// The flag that something is missing from a record; absent when nothing is.
pub open spec fn flag(cut: bool) -> AttrView {
    if cut {
        AttrView::Bool(true)
    } else {
        AttrView::Null
    }
}

/// Whether a rendering left something out.
pub open spec fn was_cut(rendered: Option<Rendered>) -> bool {
    rendered matches Some(rendered) && rendered.cut
}

/// Whether a text takes more bytes than an attribute may.
pub open spec fn too_long(text: Seq<char>) -> bool {
    encode_utf8(text).len() > 65_536
}

/// Whether a text that may be missing takes more bytes than an attribute may.
pub open spec fn any_too_long(text: Option<String>) -> bool {
    text matches Some(text) && too_long(text@)
}

/// A switch that may be missing.
pub open spec fn switch_or_null(on: Option<bool>) -> AttrView {
    match on {
        Some(on) => AttrView::Bool(on),
        None => AttrView::Null,
    }
}

/// The process of a worker, where it has one.
pub open spec fn worker_or_null(pid: Option<u32>) -> AttrView {
    match pid {
        Some(pid) => AttrView::Int(pid as int),
        None => AttrView::Null,
    }
}

/// The size of a state that may be missing.
pub open spec fn size_or_null(state: Option<Vec<u8>>) -> AttrView {
    match state {
        Some(state) => AttrView::UInt(state@.len()),
        None => AttrView::Null,
    }
}

/// A text that is only there in some cases.
pub open spec fn text_if(present: bool, text: Seq<char>) -> AttrView {
    if present {
        AttrView::Text(text)
    } else {
        AttrView::Null
    }
}

/// Whether something was cut from any answer.
pub open spec fn any_answer_cut(results: Seq<FutureResult>) -> bool {
    exists|i: int| 0 <= i < results.len() && ext_result_cut((#[trigger] results[i]).result)
}

/// One limit of a session, when it was configured with any.
pub open spec fn limit_of(
    limits: Option<WireLimits>,
    field: spec_fn(WireLimits) -> Option<u64>,
) -> AttrView {
    match limits {
        Some(limits) => number_or_null(field(limits)),
        None => AttrView::Null,
    }
}

/// What tells the keys of the records apart: their lengths, and a character where
/// the lengths are the same.
proof fn lemma_keys_differ()
    ensures
        "script_name"@.len() == 11,
        "monty_version"@.len() == 13,
        "type_check"@.len() == 10,
        "type_check_stubs"@.len() == 16,
        "assert_message_annotations"@.len() == 26,
        "max_duration_micros"@.len() == 19,
        "max_memory_bytes"@.len() == 16,
        "gc_interval"@.len() == 11,
        "max_recursion_depth"@.len() == 19,
        "worker_pid"@.len() == 10,
        "state_bytes"@.len() == 11,
        "requirements"@.len() == 12,
        "code"@.len() == 4,
        "code.language"@.len() == 13,
        "inputs"@.len() == 6,
        "skip_type_check"@.len() == 15,
        "length_limit_exceeded"@.len() == 21,
        "call_id"@.len() == 7,
        "result"@.len() == 6,
        "results"@.len() == 7,
        "stream"@.len() == 6,
        "text"@.len() == 4,
        "function_name"@.len() == 13,
        "args"@.len() == 4,
        "kwargs"@.len() == 6,
        "method_call"@.len() == 11,
        "total_execution_micros"@.len() == 22,
        "name"@.len() == 4,
        "pending_call_ids"@.len() == 16,
        "value"@.len() == 5,
        "diagnostics"@.len() == 11,
        "message"@.len() == 7,
        "function"@.len() == 8,
        "args.path"@.len() == 9,
        "args.data"@.len() == 9,
        "args.mode"@.len() == 9,
        "args.parents"@.len() == 12,
        "args.exist_ok"@.len() == 13,
        "args.src"@.len() == 8,
        "args.dst"@.len() == 8,
        "args.key"@.len() == 8,
        "args.default"@.len() == 12,
        "args.tz_offset_seconds"@.len() == 22,
        "args.tz_name"@.len() == 12,
        "exc_type"@.len() == 8,
        "exc_message"@.len() == 11,
        "traceback"@.len() == 9,
        "exc_data.encoding"@.len() == 17,
        "exc_data.object"@.len() == 15,
        "exc_data.start"@.len() == 14,
        "exc_data.end"@.len() == 12,
        "exc_data.reason"@.len() == 15,
        "exc_data.msg"@.len() == 12,
        "exc_data.doc"@.len() == 12,
        "exc_data.pos"@.len() == 12,
        "exc_data.lineno"@.len() == 15,
        "exc_data.colno"@.len() == 14,
        "script_name"@[0] == 's',
        "gc_interval"@[0] == 'g',
        "script_name"@[1] == 'c',
        "state_bytes"@[1] == 't',
        "method_call"@[0] == 'm',
        "diagnostics"@[0] == 'd',
        "exc_message"@[0] == 'e',
        "monty_version"@[0] == 'm',
        "code.language"@[0] == 'c',
        "function_name"@[0] == 'f',
        "args.exist_ok"@[0] == 'a',
        "type_check"@[0] == 't',
        "worker_pid"@[0] == 'w',
        "type_check_stubs"@[0] == 't',
        "max_memory_bytes"@[0] == 'm',
        "pending_call_ids"@[0] == 'p',
        "max_duration_micros"@[4] == 'd',
        "max_recursion_depth"@[4] == 'r',
        "state_bytes"@[0] == 's',
        "requirements"@[0] == 'r',
        "args.parents"@[0] == 'a',
        "args.default"@[0] == 'a',
        "args.tz_name"@[0] == 'a',
        "exc_data.end"@[0] == 'e',
        "exc_data.msg"@[0] == 'e',
        "exc_data.doc"@[0] == 'e',
        "exc_data.pos"@[0] == 'e',
        "code"@[0] == 'c',
        "text"@[0] == 't',
        "args"@[0] == 'a',
        "name"@[0] == 'n',
        "inputs"@[0] == 'i',
        "result"@[0] == 'r',
        "stream"@[0] == 's',
        "kwargs"@[0] == 'k',
        "skip_type_check"@[0] == 's',
        "exc_data.object"@[0] == 'e',
        "exc_data.reason"@[0] == 'e',
        "exc_data.lineno"@[0] == 'e',
        "call_id"@[0] == 'c',
        "results"@[0] == 'r',
        "message"@[0] == 'm',
        "total_execution_micros"@[0] == 't',
        "args.tz_offset_seconds"@[0] == 'a',
        "function"@[0] == 'f',
        "args.src"@[0] == 'a',
        "args.dst"@[0] == 'a',
        "args.key"@[0] == 'a',
        "exc_type"@[0] == 'e',
        "args.path"@[5] == 'p',
        "args.data"@[5] == 'd',
        "args.mode"@[5] == 'm',
        "args.path"@[0] == 'a',
        "traceback"@[0] == 't',
        "args.data"@[0] == 'a',
        "args.mode"@[0] == 'a',
        "args.parents"@[5] == 'p',
        "args.default"@[5] == 'd',
        "args.tz_name"@[5] == 't',
        "args.src"@[5] == 's',
        "args.dst"@[5] == 'd',
        "args.key"@[5] == 'k',
        "exc_data.object"@[9] == 'o',
        "exc_data.reason"@[9] == 'r',
        "exc_data.lineno"@[9] == 'l',
        "exc_data.start"@[9] == 's',
        "exc_data.colno"@[9] == 'c',
        "exc_data.end"@[9] == 'e',
        "exc_data.msg"@[9] == 'm',
        "exc_data.doc"@[9] == 'd',
        "exc_data.pos"@[9] == 'p',
{
    reveal_strlit("script_name");
    reveal_strlit("monty_version");
    reveal_strlit("type_check");
    reveal_strlit("type_check_stubs");
    reveal_strlit("assert_message_annotations");
    reveal_strlit("max_duration_micros");
    reveal_strlit("max_memory_bytes");
    reveal_strlit("gc_interval");
    reveal_strlit("max_recursion_depth");
    reveal_strlit("worker_pid");
    reveal_strlit("state_bytes");
    reveal_strlit("requirements");
    reveal_strlit("code");
    reveal_strlit("code.language");
    reveal_strlit("inputs");
    reveal_strlit("skip_type_check");
    reveal_strlit("length_limit_exceeded");
    reveal_strlit("call_id");
    reveal_strlit("result");
    reveal_strlit("results");
    reveal_strlit("stream");
    reveal_strlit("text");
    reveal_strlit("function_name");
    reveal_strlit("args");
    reveal_strlit("kwargs");
    reveal_strlit("method_call");
    reveal_strlit("total_execution_micros");
    reveal_strlit("name");
    reveal_strlit("pending_call_ids");
    reveal_strlit("value");
    reveal_strlit("diagnostics");
    reveal_strlit("message");
    reveal_strlit("function");
    reveal_strlit("args.path");
    reveal_strlit("args.data");
    reveal_strlit("args.mode");
    reveal_strlit("args.parents");
    reveal_strlit("args.exist_ok");
    reveal_strlit("args.src");
    reveal_strlit("args.dst");
    reveal_strlit("args.key");
    reveal_strlit("args.default");
    reveal_strlit("args.tz_offset_seconds");
    reveal_strlit("args.tz_name");
    reveal_strlit("exc_type");
    reveal_strlit("exc_message");
    reveal_strlit("traceback");
    reveal_strlit("exc_data.encoding");
    reveal_strlit("exc_data.object");
    reveal_strlit("exc_data.start");
    reveal_strlit("exc_data.end");
    reveal_strlit("exc_data.reason");
    reveal_strlit("exc_data.msg");
    reveal_strlit("exc_data.doc");
    reveal_strlit("exc_data.pos");
    reveal_strlit("exc_data.lineno");
    reveal_strlit("exc_data.colno");
}

/// The record of a session shows what it was configured with, each setting under its
/// own key, and the worker that serves it.
pub proof fn law_session_record_shows_the_configuration(
    configure: Configure,
    worker_pid: Option<u32>,
)
    ensures
        ({
            let record = session_view(configure, worker_pid);
            &&& record.shape == Shape::Session
            &&& record.attributes.len() == 10
            &&& shows(record, "script_name"@, AttrView::Text(configure.script_name@))
            &&& shows(record, "monty_version"@, AttrView::Text(configure.monty_version@))
            &&& shows(record, "type_check"@, AttrView::Bool(configure.type_check))
            &&& shows(record, "type_check_stubs"@, text_or_null(configure.type_check_stubs))
            &&& shows(
                record,
                "assert_message_annotations"@,
                switch_or_null(configure.assert_message_annotations),
            )
            &&& shows(
                record,
                "max_duration_micros"@,
                limit_of(configure.limits, |l: WireLimits| l.max_duration_micros),
            )
            &&& shows(
                record,
                "max_memory_bytes"@,
                limit_of(configure.limits, |l: WireLimits| l.max_memory_bytes),
            )
            &&& shows(
                record,
                "gc_interval"@,
                limit_of(configure.limits, |l: WireLimits| l.gc_interval),
            )
            &&& shows(
                record,
                "max_recursion_depth"@,
                limit_of(configure.limits, |l: WireLimits| l.max_recursion_depth),
            )
            &&& shows(record, "worker_pid"@, worker_or_null(worker_pid))
        }),
{
    lemma_keys_differ();
    let record = session_view(configure, worker_pid);
    assert(record.attributes[0].0 == "script_name"@);
    assert(record.attributes[1].0 == "monty_version"@);
    assert(record.attributes[2].0 == "type_check"@);
    assert(record.attributes[3].0 == "type_check_stubs"@);
    assert(record.attributes[4].0 == "assert_message_annotations"@);
    assert(record.attributes[5].0 == "max_duration_micros"@);
    assert(record.attributes[6].0 == "max_memory_bytes"@);
    assert(record.attributes[7].0 == "gc_interval"@);
    assert(record.attributes[8].0 == "max_recursion_depth"@);
    assert(record.attributes[9].0 == "worker_pid"@);
}

/// The record of a load shows how many bytes were loaded.
pub proof fn law_load_record_shows_the_size(bytes: nat)
    ensures
        ({
            let record = load_view(bytes);
            &&& record.shape == Shape::Load
            &&& record.attributes.len() == 1
            &&& shows(record, "state_bytes"@, AttrView::UInt(bytes))
        }),
{
    lemma_keys_differ();
    let record = load_view(bytes);
    assert(record.attributes[0].0 == "state_bytes"@);
}

/// The record of an installation shows the requirements as a JSON list, and none as
/// absent.
pub proof fn law_install_record_shows_the_requirements(requirements: Seq<String>)
    ensures
        ({
            let record = install_view(requirements);
            &&& record.shape == Shape::InstallDependencies
            &&& record.attributes.len() == 1
            &&& shows(
                record,
                "requirements"@,
                text_if(requirements.len() > 0, json_string_list(texts(requirements))),
            )
        }),
{
    lemma_keys_differ();
    let record = install_view(requirements);
    assert(record.attributes[0].0 == "requirements"@);
}

/// The record of a feed shows its code, capped, with its language, its inputs and
/// whether types are checked, and flags a feed of which something was cut.
pub proof fn law_feed_record_shows_the_code(feed: Feed)
    ensures
        ({
            let record = feed_view(feed);
            &&& record.shape == Shape::Feed
            &&& record.attributes.len() == 5
            &&& shows(record, "code"@, AttrView::Text(attr_text(feed.code@)))
            &&& shows(record, "code.language"@, AttrView::Text("python"@))
            &&& shows(record, "inputs"@, rendering_or_null(feed.inputs))
            &&& shows(record, "skip_type_check"@, AttrView::Bool(feed.skip_type_check))
            &&& shows(
                record,
                "length_limit_exceeded"@,
                flag(too_long(feed.code@) || was_cut(feed.inputs)),
            )
        }),
{
    lemma_keys_differ();
    let record = feed_view(feed);
    assert(record.attributes[0].0 == "code"@);
    assert(record.attributes[1].0 == "code.language"@);
    assert(record.attributes[2].0 == "inputs"@);
    assert(record.attributes[3].0 == "skip_type_check"@);
    assert(record.attributes[4].0 == "length_limit_exceeded"@);
}

/// A record without attributes has its shape and nothing else.
pub proof fn law_bare_record_is_bare(shape: Shape)
    ensures
        bare_view(shape).shape == shape,
        bare_view(shape).attributes.len() == 0,
{
}

/// The record of an answer shows which call it answers and with what.
pub proof fn law_call_result_record_shows_the_answer(call_id: u32, result: Option<ExtResult>)
    ensures
        ({
            let record = call_result_view(call_id, result);
            &&& record.shape == Shape::CallResult
            &&& record.attributes.len() == 3
            &&& shows(record, "call_id"@, AttrView::UInt(call_id as nat))
            &&& shows(record, "result"@, ext_result_attr(result))
            &&& shows(record, "length_limit_exceeded"@, flag(ext_result_cut(result)))
        }),
{
    lemma_keys_differ();
    let record = call_result_view(call_id, result);
    assert(record.attributes[0].0 == "call_id"@);
    assert(record.attributes[1].0 == "result"@);
    assert(record.attributes[2].0 == "length_limit_exceeded"@);
}

/// The record of a looked-up name shows what it stands for.
pub proof fn law_name_lookup_result_record_shows_the_answer(kind: Option<NameLookupResult>)
    ensures
        ({
            let record = name_lookup_result_view(kind);
            &&& record.shape == Shape::NameLookupResult
            &&& record.attributes.len() == 2
            &&& shows(record, "result"@, name_lookup_attr(kind))
            &&& shows(record, "length_limit_exceeded"@, flag(name_lookup_cut(kind)))
        }),
{
    lemma_keys_differ();
    let record = name_lookup_result_view(kind);
    assert(record.attributes[0].0 == "result"@);
    assert(record.attributes[1].0 == "length_limit_exceeded"@);
}

/// The record of resolved futures shows their answers, and flags when any of them, or
/// the whole list, was cut.
pub proof fn law_future_results_record_shows_the_answers(results: Seq<FutureResult>)
    ensures
        ({
            let record = future_results_view(results);
            &&& record.shape == Shape::FutureResults
            &&& record.attributes.len() == 2
            &&& shows(
                record,
                "results"@,
                text_if(results.len() > 0, attr_text(futures_text(results))),
            )
            &&& shows(
                record,
                "length_limit_exceeded"@,
                flag(any_answer_cut(results) || (results.len() > 0 && too_long(futures_text(results)))),
            )
        }),
{
    lemma_keys_differ();
    let record = future_results_view(results);
    assert(record.attributes[0].0 == "results"@);
    assert(record.attributes[1].0 == "length_limit_exceeded"@);
}

/// The record of a restored session shows its script.
pub proof fn law_restored_record_shows_the_script(script_name: Seq<char>)
    ensures
        ({
            let record = restored_view(script_name);
            &&& record.shape == Shape::Restored
            &&& record.attributes.len() == 1
            &&& shows(record, "script_name"@, AttrView::Text(script_name))
        }),
{
    lemma_keys_differ();
    let record = restored_view(script_name);
    assert(record.attributes[0].0 == "script_name"@);
}

/// The record of output shows its text, capped, and its stream.
pub proof fn law_print_record_shows_the_output(text: Seq<char>, stream: Option<PrintStream>)
    ensures
        ({
            let record = print_view(text, stream);
            &&& record.shape == Shape::Print
            &&& record.attributes.len() == 3
            &&& shows(record, "stream"@, AttrView::Text(stream_name(stream)))
            &&& shows(record, "text"@, AttrView::Text(attr_text(text)))
            &&& shows(record, "length_limit_exceeded"@, flag(too_long(text)))
        }),
{
    lemma_keys_differ();
    let record = print_view(text, stream);
    assert(record.attributes[0].0 == "stream"@);
    assert(record.attributes[1].0 == "text"@);
    assert(record.attributes[2].0 == "length_limit_exceeded"@);
}

/// The record of a function call shows the positional arguments under `args` and the
/// keyword arguments under `kwargs`, beside the function's name, the call's number, and
/// the session's clock.
pub proof fn law_function_call_record_shows_the_call(call: FunctionCall, event: ChildEvent)
    ensures
        ({
            let record = function_call_view(call, event);
            &&& record.shape == Shape::FunctionCall
            &&& record.attributes.len() == 8
            &&& shows(record, "function_name"@, AttrView::Text(call.function_name@))
            &&& shows(record, "args"@, rendering_or_null(call.args))
            &&& shows(record, "kwargs"@, rendering_or_null(call.kwargs))
            &&& shows(record, "call_id"@, AttrView::UInt(call.call_id as nat))
            &&& shows(record, "method_call"@, AttrView::Bool(call.method_call))
            &&& shows(
                record,
                "length_limit_exceeded"@,
                flag(was_cut(call.args) || was_cut(call.kwargs)),
            )
            &&& shows(
                record,
                "total_execution_micros"@,
                AttrView::UInt(event.total_execution_micros as nat),
            )
            &&& shows(record, "max_duration_micros"@, number_or_null(event.max_duration_micros))
        }),
{
    lemma_keys_differ();
    let record = function_call_view(call, event);
    assert(record.attributes[0].0 == "function_name"@);
    assert(record.attributes[1].0 == "args"@);
    assert(record.attributes[2].0 == "kwargs"@);
    assert(record.attributes[3].0 == "call_id"@);
    assert(record.attributes[4].0 == "method_call"@);
    assert(record.attributes[5].0 == "length_limit_exceeded"@);
    assert(record.attributes[6].0 == "total_execution_micros"@);
    assert(record.attributes[7].0 == "max_duration_micros"@);
}

/// Two calls that differ only in their positional arguments differ in `args` alone,
/// and in whether anything was cut.
pub proof fn law_positional_arguments_show_in_args_alone(
    a: FunctionCall,
    b: FunctionCall,
    event: ChildEvent,
    i: int,
)
    requires
        a.function_name@ == b.function_name@,
        a.kwargs == b.kwargs,
        a.call_id == b.call_id,
        a.method_call == b.method_call,
        0 <= i < function_call_view(a, event).attributes.len(),
    ensures
        ({
            let one = function_call_view(a, event).attributes;
            let two = function_call_view(b, event).attributes;
            &&& one.len() == two.len()
            &&& one[i].0 == two[i].0
            &&& one[i].0 != "args"@ && one[i].0 != "length_limit_exceeded"@ ==> one[i] == two[i]
            &&& one[i].0 == "args"@ && rendering_or_null(a.args) != rendering_or_null(b.args)
                ==> one[i] != two[i]
        }),
{
    law_function_call_record_shows_the_call(a, event);
    law_function_call_record_shows_the_call(b, event);
}

/// Two calls that differ only in their keyword arguments differ in `kwargs` alone,
/// and in whether anything was cut.
pub proof fn law_keyword_arguments_show_in_kwargs_alone(
    a: FunctionCall,
    b: FunctionCall,
    event: ChildEvent,
    i: int,
)
    requires
        a.function_name@ == b.function_name@,
        a.args == b.args,
        a.call_id == b.call_id,
        a.method_call == b.method_call,
        0 <= i < function_call_view(a, event).attributes.len(),
    ensures
        ({
            let one = function_call_view(a, event).attributes;
            let two = function_call_view(b, event).attributes;
            &&& one.len() == two.len()
            &&& one[i].0 == two[i].0
            &&& one[i].0 != "kwargs"@ && one[i].0 != "length_limit_exceeded"@ ==> one[i] == two[i]
            &&& one[i].0 == "kwargs"@ && rendering_or_null(a.kwargs) != rendering_or_null(b.kwargs)
                ==> one[i] != two[i]
        }),
{
    law_function_call_record_shows_the_call(a, event);
    law_function_call_record_shows_the_call(b, event);
}

/// The record of a name lookup shows the name and the session's clock.
pub proof fn law_name_lookup_record_shows_the_name(name: Seq<char>, event: ChildEvent)
    ensures
        ({
            let record = name_lookup_view(name, event);
            &&& record.shape == Shape::NameLookup
            &&& record.attributes.len() == 3
            &&& shows(record, "name"@, AttrView::Text(name))
            &&& shows(
                record,
                "total_execution_micros"@,
                AttrView::UInt(event.total_execution_micros as nat),
            )
            &&& shows(record, "max_duration_micros"@, number_or_null(event.max_duration_micros))
        }),
{
    lemma_keys_differ();
    let record = name_lookup_view(name, event);
    assert(record.attributes[0].0 == "name"@);
    assert(record.attributes[1].0 == "total_execution_micros"@);
    assert(record.attributes[2].0 == "max_duration_micros"@);
}

/// The record of waiting shows the calls that are waited for.
pub proof fn law_resolve_futures_record_shows_the_calls(ids: Seq<u32>, event: ChildEvent)
    ensures
        ({
            let record = resolve_futures_view(ids, event);
            &&& record.shape == Shape::ResolveFutures
            &&& record.attributes.len() == 3
            &&& shows(record, "pending_call_ids"@, text_if(ids.len() > 0, call_ids_text(ids)))
            &&& shows(
                record,
                "total_execution_micros"@,
                AttrView::UInt(event.total_execution_micros as nat),
            )
            &&& shows(record, "max_duration_micros"@, number_or_null(event.max_duration_micros))
        }),
{
    lemma_keys_differ();
    let record = resolve_futures_view(ids, event);
    assert(record.attributes[0].0 == "pending_call_ids"@);
    assert(record.attributes[1].0 == "total_execution_micros"@);
    assert(record.attributes[2].0 == "max_duration_micros"@);
}

/// The record of a completed feed shows its value and the session's clock.
pub proof fn law_complete_record_shows_the_value(value: Option<WireValue>, event: ChildEvent)
    ensures
        ({
            let record = complete_view(value, event);
            &&& record.shape == Shape::Complete
            &&& record.attributes.len() == 4
            &&& shows(record, "value"@, optional_value_attr(value))
            &&& shows(record, "length_limit_exceeded"@, flag(optional_value_cut(value)))
            &&& shows(
                record,
                "total_execution_micros"@,
                AttrView::UInt(event.total_execution_micros as nat),
            )
            &&& shows(record, "max_duration_micros"@, number_or_null(event.max_duration_micros))
        }),
{
    lemma_keys_differ();
    let record = complete_view(value, event);
    assert(record.attributes[0].0 == "value"@);
    assert(record.attributes[1].0 == "length_limit_exceeded"@);
    assert(record.attributes[2].0 == "total_execution_micros"@);
    assert(record.attributes[3].0 == "max_duration_micros"@);
}

/// The record of a rejected feed shows its diagnostics, capped, and the session's
/// clock.
pub proof fn law_typing_error_record_shows_the_diagnostics(
    diagnostics: Seq<char>,
    event: ChildEvent,
)
    ensures
        ({
            let record = typing_error_view(diagnostics, event);
            &&& record.shape == Shape::TypingError
            &&& record.attributes.len() == 4
            &&& shows(record, "diagnostics"@, AttrView::Text(attr_text(diagnostics)))
            &&& shows(record, "length_limit_exceeded"@, flag(too_long(diagnostics)))
            &&& shows(
                record,
                "total_execution_micros"@,
                AttrView::UInt(event.total_execution_micros as nat),
            )
            &&& shows(record, "max_duration_micros"@, number_or_null(event.max_duration_micros))
        }),
{
    lemma_keys_differ();
    let record = typing_error_view(diagnostics, event);
    assert(record.attributes[0].0 == "diagnostics"@);
    assert(record.attributes[1].0 == "length_limit_exceeded"@);
    assert(record.attributes[2].0 == "total_execution_micros"@);
    assert(record.attributes[3].0 == "max_duration_micros"@);
}

/// The record of a dump shows how many bytes it has, and the session's clock.
pub proof fn law_dump_result_record_shows_the_size(bytes: nat, event: ChildEvent)
    ensures
        ({
            let record = dump_result_view(bytes, event);
            &&& record.shape == Shape::DumpResult
            &&& record.attributes.len() == 3
            &&& shows(record, "state_bytes"@, AttrView::UInt(bytes))
            &&& shows(
                record,
                "total_execution_micros"@,
                AttrView::UInt(event.total_execution_micros as nat),
            )
            &&& shows(record, "max_duration_micros"@, number_or_null(event.max_duration_micros))
        }),
{
    lemma_keys_differ();
    let record = dump_result_view(bytes, event);
    assert(record.attributes[0].0 == "state_bytes"@);
    assert(record.attributes[1].0 == "total_execution_micros"@);
    assert(record.attributes[2].0 == "max_duration_micros"@);
}

/// The record of a shutdown shows how many bytes the last state has, when there is
/// one, and the session's clock.
pub proof fn law_shutdown_record_shows_the_size(dump: Option<Vec<u8>>, event: ChildEvent)
    ensures
        ({
            let record = shutdown_view(dump, event);
            &&& record.shape == Shape::Shutdown
            &&& record.attributes.len() == 3
            &&& shows(record, "state_bytes"@, size_or_null(dump))
            &&& shows(
                record,
                "total_execution_micros"@,
                AttrView::UInt(event.total_execution_micros as nat),
            )
            &&& shows(record, "max_duration_micros"@, number_or_null(event.max_duration_micros))
        }),
{
    lemma_keys_differ();
    let record = shutdown_view(dump, event);
    assert(record.attributes[0].0 == "state_bytes"@);
    assert(record.attributes[1].0 == "total_execution_micros"@);
    assert(record.attributes[2].0 == "max_duration_micros"@);
}

/// The record of a worker that failed shows why.
pub proof fn law_fatal_error_record_shows_the_message(message: Seq<char>)
    ensures
        ({
            let record = fatal_error_view(message);
            &&& record.shape == Shape::FatalError
            &&& record.attributes.len() == 1
            &&& shows(record, "message"@, AttrView::Text(message))
        }),
{
    lemma_keys_differ();
    let record = fatal_error_view(message);
    assert(record.attributes[0].0 == "message"@);
}

/// The path of a call that takes nothing but a path.
pub open spec fn only_path(call: Call) -> Option<String> {
    match call {
        Call::Exists(path) | Call::IsFile(path) | Call::IsDir(path) | Call::IsSymlink(path) => Some(
            path,
        ),
        Call::ReadText(path) | Call::ReadBytes(path) | Call::Stat(path) | Call::Iterdir(path) => {
            Some(path)
        },
        Call::Resolve(path) | Call::Absolute(path) | Call::Unlink(path) | Call::Rmdir(path) => Some(
            path,
        ),
        _ => None,
    }
}

/// The text write of a call that writes or appends text.
pub open spec fn text_written(call: Call) -> Option<TextWrite> {
    match call {
        Call::WriteText(write) | Call::AppendText(write) => Some(write),
        _ => None,
    }
}

/// The write of a call that writes or appends bytes.
pub open spec fn bytes_written(call: Call) -> Option<BytesWrite> {
    match call {
        Call::WriteBytes(write) | Call::AppendBytes(write) => Some(write),
        _ => None,
    }
}

/// Whether the escaped form of a byte string leaves something out.
pub open spec fn bytes_too_long(value: BytesValue) -> bool {
    too_long(value.escaped@) || value.data@.len() > 65_536
}

/// A call that the sandbox made.
pub open spec fn os_record(call_id: u32, call: Call, event: ChildEvent) -> RecordView {
    os_call_view(OsCall { call_id, call: Some(call) }, event)
}

/// The record of a call that takes a path shows the call's name and the path.
pub proof fn law_path_call_record_shows_the_path(call_id: u32, call: Call, event: ChildEvent)
    requires
        only_path(call) is Some,
    ensures
        ({
            let record = os_record(call_id, call, event);
            &&& record.shape == Shape::OsCall
            &&& record.attributes.len() == 5
            &&& shows(record, "function"@, AttrView::Text(call_name_text(call)))
            &&& shows(record, "args.path"@, AttrView::Text(only_path(call)->0@))
            &&& shows(record, "call_id"@, AttrView::UInt(call_id as nat))
            &&& shows(
                record,
                "total_execution_micros"@,
                AttrView::UInt(event.total_execution_micros as nat),
            )
            &&& shows(record, "max_duration_micros"@, number_or_null(event.max_duration_micros))
        }),
{
    lemma_keys_differ();
    let record = os_record(call_id, call, event);
    assert(record.attributes[0].0 == "function"@);
    assert(record.attributes[1].0 == "args.path"@);
    assert(record.attributes[2].0 == "call_id"@);
    assert(record.attributes[3].0 == "total_execution_micros"@);
    assert(record.attributes[4].0 == "max_duration_micros"@);
}

/// The record of a text write shows the path and the text, capped.
pub proof fn law_text_write_record_shows_the_text(call_id: u32, call: Call, event: ChildEvent)
    requires
        text_written(call) is Some,
    ensures
        ({
            let record = os_record(call_id, call, event);
            &&& record.shape == Shape::OsCall
            &&& record.attributes.len() == 7
            &&& shows(record, "function"@, AttrView::Text(call_name_text(call)))
            &&& shows(record, "args.path"@, AttrView::Text(text_written(call)->0.path@))
            &&& shows(record, "args.data"@, AttrView::Text(attr_text(text_written(call)->0.data@)))
            &&& shows(record, "length_limit_exceeded"@, flag(too_long(text_written(call)->0.data@)))
            &&& shows(record, "call_id"@, AttrView::UInt(call_id as nat))
            &&& shows(
                record,
                "total_execution_micros"@,
                AttrView::UInt(event.total_execution_micros as nat),
            )
            &&& shows(record, "max_duration_micros"@, number_or_null(event.max_duration_micros))
        }),
{
    lemma_keys_differ();
    let record = os_record(call_id, call, event);
    assert(record.attributes[0].0 == "function"@);
    assert(record.attributes[1].0 == "args.path"@);
    assert(record.attributes[2].0 == "args.data"@);
    assert(record.attributes[3].0 == "length_limit_exceeded"@);
    assert(record.attributes[4].0 == "call_id"@);
    assert(record.attributes[5].0 == "total_execution_micros"@);
    assert(record.attributes[6].0 == "max_duration_micros"@);
}

/// The record of a byte write shows the path and the escaped bytes, capped.
pub proof fn law_bytes_write_record_shows_the_bytes(call_id: u32, call: Call, event: ChildEvent)
    requires
        bytes_written(call) is Some,
    ensures
        ({
            let record = os_record(call_id, call, event);
            &&& record.shape == Shape::OsCall
            &&& record.attributes.len() == 7
            &&& shows(record, "function"@, AttrView::Text(call_name_text(call)))
            &&& shows(record, "args.path"@, AttrView::Text(bytes_written(call)->0.path@))
            &&& shows(
                record,
                "args.data"@,
                AttrView::Text(attr_text(bytes_written(call)->0.data.escaped@)),
            )
            &&& shows(
                record,
                "length_limit_exceeded"@,
                flag(bytes_too_long(bytes_written(call)->0.data)),
            )
            &&& shows(record, "call_id"@, AttrView::UInt(call_id as nat))
            &&& shows(
                record,
                "total_execution_micros"@,
                AttrView::UInt(event.total_execution_micros as nat),
            )
            &&& shows(record, "max_duration_micros"@, number_or_null(event.max_duration_micros))
        }),
{
    lemma_keys_differ();
    let record = os_record(call_id, call, event);
    assert(record.attributes[0].0 == "function"@);
    assert(record.attributes[1].0 == "args.path"@);
    assert(record.attributes[2].0 == "args.data"@);
    assert(record.attributes[3].0 == "length_limit_exceeded"@);
    assert(record.attributes[4].0 == "call_id"@);
    assert(record.attributes[5].0 == "total_execution_micros"@);
    assert(record.attributes[6].0 == "max_duration_micros"@);
}

/// The record of an open shows the path and the mode.
pub proof fn law_open_record_shows_path_and_mode(
    call_id: u32,
    path: String,
    mode: String,
    event: ChildEvent,
)
    ensures
        ({
            let record = os_record(call_id, (Call::Open { path, mode }), event);
            &&& record.shape == Shape::OsCall
            &&& record.attributes.len() == 6
            &&& shows(
                record,
                "function"@,
                AttrView::Text(call_name_text((Call::Open { path, mode }))),
            )
            &&& shows(record, "args.path"@, AttrView::Text(path@))
            &&& shows(record, "args.mode"@, AttrView::Text(mode@))
            &&& shows(record, "call_id"@, AttrView::UInt(call_id as nat))
            &&& shows(
                record,
                "total_execution_micros"@,
                AttrView::UInt(event.total_execution_micros as nat),
            )
            &&& shows(record, "max_duration_micros"@, number_or_null(event.max_duration_micros))
        }),
{
    lemma_keys_differ();
    let record = os_record(call_id, (Call::Open { path, mode }), event);
    assert(record.attributes[0].0 == "function"@);
    assert(record.attributes[1].0 == "args.path"@);
    assert(record.attributes[2].0 == "args.mode"@);
    assert(record.attributes[3].0 == "call_id"@);
    assert(record.attributes[4].0 == "total_execution_micros"@);
    assert(record.attributes[5].0 == "max_duration_micros"@);
}

/// The record of a directory's creation shows the path and both switches.
pub proof fn law_mkdir_record_shows_its_switches(
    call_id: u32,
    path: String,
    parents: bool,
    exist_ok: bool,
    event: ChildEvent,
)
    ensures
        ({
            let record = os_record(call_id, (Call::Mkdir { path, parents, exist_ok }), event);
            &&& record.shape == Shape::OsCall
            &&& record.attributes.len() == 7
            &&& shows(
                record,
                "function"@,
                AttrView::Text(call_name_text((Call::Mkdir { path, parents, exist_ok }))),
            )
            &&& shows(record, "args.path"@, AttrView::Text(path@))
            &&& shows(record, "args.parents"@, AttrView::Bool(parents))
            &&& shows(record, "args.exist_ok"@, AttrView::Bool(exist_ok))
            &&& shows(record, "call_id"@, AttrView::UInt(call_id as nat))
            &&& shows(
                record,
                "total_execution_micros"@,
                AttrView::UInt(event.total_execution_micros as nat),
            )
            &&& shows(record, "max_duration_micros"@, number_or_null(event.max_duration_micros))
        }),
{
    lemma_keys_differ();
    let record = os_record(call_id, (Call::Mkdir { path, parents, exist_ok }), event);
    assert(record.attributes[0].0 == "function"@);
    assert(record.attributes[1].0 == "args.path"@);
    assert(record.attributes[2].0 == "args.parents"@);
    assert(record.attributes[3].0 == "args.exist_ok"@);
    assert(record.attributes[4].0 == "call_id"@);
    assert(record.attributes[5].0 == "total_execution_micros"@);
    assert(record.attributes[6].0 == "max_duration_micros"@);
}

/// The record of a rename shows where from and where to.
pub proof fn law_rename_record_shows_both_paths(
    call_id: u32,
    src: String,
    dst: String,
    event: ChildEvent,
)
    ensures
        ({
            let record = os_record(call_id, (Call::Rename { src, dst }), event);
            &&& record.shape == Shape::OsCall
            &&& record.attributes.len() == 6
            &&& shows(
                record,
                "function"@,
                AttrView::Text(call_name_text((Call::Rename { src, dst }))),
            )
            &&& shows(record, "args.src"@, AttrView::Text(src@))
            &&& shows(record, "args.dst"@, AttrView::Text(dst@))
            &&& shows(record, "call_id"@, AttrView::UInt(call_id as nat))
            &&& shows(
                record,
                "total_execution_micros"@,
                AttrView::UInt(event.total_execution_micros as nat),
            )
            &&& shows(record, "max_duration_micros"@, number_or_null(event.max_duration_micros))
        }),
{
    lemma_keys_differ();
    let record = os_record(call_id, (Call::Rename { src, dst }), event);
    assert(record.attributes[0].0 == "function"@);
    assert(record.attributes[1].0 == "args.src"@);
    assert(record.attributes[2].0 == "args.dst"@);
    assert(record.attributes[3].0 == "call_id"@);
    assert(record.attributes[4].0 == "total_execution_micros"@);
    assert(record.attributes[5].0 == "max_duration_micros"@);
}

/// The record of a lookup in the environment shows the key and, as text, the default
/// when there is one.
pub proof fn law_getenv_record_shows_key_and_default(
    call_id: u32,
    key: String,
    default: Option<WireValue>,
    event: ChildEvent,
)
    ensures
        ({
            let record = os_record(call_id, (Call::Getenv { key, default }), event);
            &&& record.shape == Shape::OsCall
            &&& record.attributes.len() == 7
            &&& shows(
                record,
                "function"@,
                AttrView::Text(call_name_text((Call::Getenv { key, default }))),
            )
            &&& shows(record, "args.key"@, AttrView::Text(key@))
            &&& shows(
                record,
                "args.default"@,
                text_if(default is Some, display_text(optional_value_attr(default))),
            )
            &&& shows(record, "length_limit_exceeded"@, flag(optional_value_cut(default)))
            &&& shows(record, "call_id"@, AttrView::UInt(call_id as nat))
            &&& shows(
                record,
                "total_execution_micros"@,
                AttrView::UInt(event.total_execution_micros as nat),
            )
            &&& shows(record, "max_duration_micros"@, number_or_null(event.max_duration_micros))
        }),
{
    lemma_keys_differ();
    let record = os_record(call_id, (Call::Getenv { key, default }), event);
    assert(record.attributes[0].0 == "function"@);
    assert(record.attributes[1].0 == "args.key"@);
    assert(record.attributes[2].0 == "args.default"@);
    assert(record.attributes[3].0 == "length_limit_exceeded"@);
    assert(record.attributes[4].0 == "call_id"@);
    assert(record.attributes[5].0 == "total_execution_micros"@);
    assert(record.attributes[6].0 == "max_duration_micros"@);
}

/// The record of a call without arguments shows its name alone.
pub proof fn law_bare_call_record_shows_the_call(call_id: u32, call: Call, event: ChildEvent)
    requires
        call is GetEnviron || call is DateToday || (call is DateTimeNow && call->tz is None),
    ensures
        ({
            let record = os_record(call_id, call, event);
            &&& record.shape == Shape::OsCall
            &&& record.attributes.len() == 4
            &&& shows(record, "function"@, AttrView::Text(call_name_text(call)))
            &&& shows(record, "call_id"@, AttrView::UInt(call_id as nat))
            &&& shows(
                record,
                "total_execution_micros"@,
                AttrView::UInt(event.total_execution_micros as nat),
            )
            &&& shows(record, "max_duration_micros"@, number_or_null(event.max_duration_micros))
        }),
{
    lemma_keys_differ();
    let record = os_record(call_id, call, event);
    assert(record.attributes[0].0 == "function"@);
    assert(record.attributes[1].0 == "call_id"@);
    assert(record.attributes[2].0 == "total_execution_micros"@);
    assert(record.attributes[3].0 == "max_duration_micros"@);
}

/// The record of a clock call in a timezone shows the offset and the name.
pub proof fn law_clock_call_record_shows_the_timezone(call_id: u32, tz: TimeZone, event: ChildEvent)
    ensures
        ({
            let record = os_record(call_id, (Call::DateTimeNow { tz: Some(tz) }), event);
            &&& record.shape == Shape::OsCall
            &&& record.attributes.len() == 6
            &&& shows(
                record,
                "function"@,
                AttrView::Text(call_name_text((Call::DateTimeNow { tz: Some(tz) }))),
            )
            &&& shows(record, "args.tz_offset_seconds"@, AttrView::Int(tz.offset_seconds as int))
            &&& shows(record, "args.tz_name"@, text_or_null(tz.name))
            &&& shows(record, "call_id"@, AttrView::UInt(call_id as nat))
            &&& shows(
                record,
                "total_execution_micros"@,
                AttrView::UInt(event.total_execution_micros as nat),
            )
            &&& shows(record, "max_duration_micros"@, number_or_null(event.max_duration_micros))
        }),
{
    lemma_keys_differ();
    let record = os_record(call_id, (Call::DateTimeNow { tz: Some(tz) }), event);
    assert(record.attributes[0].0 == "function"@);
    assert(record.attributes[1].0 == "args.tz_offset_seconds"@);
    assert(record.attributes[2].0 == "args.tz_name"@);
    assert(record.attributes[3].0 == "call_id"@);
    assert(record.attributes[4].0 == "total_execution_micros"@);
    assert(record.attributes[5].0 == "max_duration_micros"@);
}

/// The record of a call that the frame left out says that it is missing.
pub proof fn law_missing_call_record_says_so(call_id: u32, event: ChildEvent)
    ensures
        ({
            let record = os_call_view(OsCall { call_id, call: None }, event);
            &&& record.shape == Shape::OsCall
            &&& record.attributes.len() == 4
            &&& shows(record, "function"@, AttrView::Text("<missing>"@))
            &&& shows(record, "call_id"@, AttrView::UInt(call_id as nat))
            &&& shows(
                record,
                "total_execution_micros"@,
                AttrView::UInt(event.total_execution_micros as nat),
            )
            &&& shows(record, "max_duration_micros"@, number_or_null(event.max_duration_micros))
        }),
{
    lemma_keys_differ();
    let record = os_call_view(OsCall { call_id, call: None }, event);
    assert(record.attributes[0].0 == "function"@);
    assert(record.attributes[1].0 == "call_id"@);
    assert(record.attributes[2].0 == "total_execution_micros"@);
    assert(record.attributes[3].0 == "max_duration_micros"@);
}

/// The input a codec failed on, as text.
pub open spec fn input_text(object: Option<UnicodeObject>) -> Seq<char> {
    match object {
        Some(UnicodeObject::Bytes(bytes)) => attr_text(bytes.escaped@),
        Some(UnicodeObject::Text(text)) => attr_text(text@),
        None => "<missing>"@,
    }
}

/// Whether the payload of a codec error takes more bytes than its attributes may.
pub open spec fn codec_error_too_long(data: UnicodeErrorData) -> bool {
    ||| too_long(data.encoding@)
    ||| too_long(data.reason@)
    ||| data.object matches Some(UnicodeObject::Bytes(bytes)) && bytes_too_long(bytes)
    ||| data.object matches Some(UnicodeObject::Text(text)) && too_long(text@)
}

/// Whether an exception's message or traceback takes more bytes than an attribute
/// may.
pub open spec fn exception_too_long(exc: RaisedException) -> bool {
    any_too_long(exc.message) || (exc.traceback@.len() > 0 && too_long(
        traceback_text(exc.traceback@),
    ))
}

/// The record of an error without a payload shows the class, the message and the
/// traceback, and the session's clock.
pub proof fn law_error_record_shows_the_exception(exc: RaisedException, event: ChildEvent)
    requires
        exc.data is None,
    ensures
        ({
            let record = error_view(Some(exc), event);
            &&& record.shape == Shape::Error
            &&& record.attributes.len() == 6
            &&& shows(record, "exc_type"@, AttrView::Text(exc.exc_type@))
            &&& shows(record, "exc_message"@, capped_or_null(exc.message))
            &&& shows(
                record,
                "traceback"@,
                text_if(exc.traceback@.len() > 0, attr_text(traceback_text(exc.traceback@))),
            )
            &&& shows(record, "length_limit_exceeded"@, flag(exception_too_long(exc)))
            &&& shows(
                record,
                "total_execution_micros"@,
                AttrView::UInt(event.total_execution_micros as nat),
            )
            &&& shows(record, "max_duration_micros"@, number_or_null(event.max_duration_micros))
        }),
{
    lemma_keys_differ();
    let record = error_view(Some(exc), event);
    assert(record.attributes[0].0 == "exc_type"@);
    assert(record.attributes[1].0 == "exc_message"@);
    assert(record.attributes[2].0 == "traceback"@);
    assert(record.attributes[3].0 == "length_limit_exceeded"@);
    assert(record.attributes[4].0 == "total_execution_micros"@);
    assert(record.attributes[5].0 == "max_duration_micros"@);
}

/// The record of a codec error shows, beside the exception, the codec, the input it
/// failed on, where, and why.
pub proof fn law_codec_error_record_shows_the_input(
    exc: RaisedException,
    data: UnicodeErrorData,
    event: ChildEvent,
)
    requires
        exc.data == Some(ExcData::Unicode(data)),
    ensures
        ({
            let record = error_view(Some(exc), event);
            &&& record.shape == Shape::Error
            &&& record.attributes.len() == 11
            &&& shows(record, "exc_type"@, AttrView::Text(exc.exc_type@))
            &&& shows(record, "exc_message"@, capped_or_null(exc.message))
            &&& shows(
                record,
                "traceback"@,
                text_if(exc.traceback@.len() > 0, attr_text(traceback_text(exc.traceback@))),
            )
            &&& shows(record, "exc_data.encoding"@, AttrView::Text(attr_text(data.encoding@)))
            &&& shows(record, "exc_data.object"@, AttrView::Text(input_text(data.object)))
            &&& shows(record, "exc_data.start"@, AttrView::UInt(data.start as nat))
            &&& shows(record, "exc_data.end"@, AttrView::UInt(data.end as nat))
            &&& shows(record, "exc_data.reason"@, AttrView::Text(attr_text(data.reason@)))
            &&& shows(
                record,
                "length_limit_exceeded"@,
                flag(exception_too_long(exc) || codec_error_too_long(data)),
            )
            &&& shows(
                record,
                "total_execution_micros"@,
                AttrView::UInt(event.total_execution_micros as nat),
            )
            &&& shows(record, "max_duration_micros"@, number_or_null(event.max_duration_micros))
        }),
{
    lemma_keys_differ();
    let record = error_view(Some(exc), event);
    assert(record.attributes[0].0 == "exc_type"@);
    assert(record.attributes[1].0 == "exc_message"@);
    assert(record.attributes[2].0 == "traceback"@);
    assert(record.attributes[3].0 == "exc_data.encoding"@);
    assert(record.attributes[4].0 == "exc_data.object"@);
    assert(record.attributes[5].0 == "exc_data.start"@);
    assert(record.attributes[6].0 == "exc_data.end"@);
    assert(record.attributes[7].0 == "exc_data.reason"@);
    assert(record.attributes[8].0 == "length_limit_exceeded"@);
    assert(record.attributes[9].0 == "total_execution_micros"@);
    assert(record.attributes[10].0 == "max_duration_micros"@);
}

/// The record of a JSON error shows, beside the exception, what was wrong, the
/// document, and where in it.
pub proof fn law_json_error_record_shows_the_document(
    exc: RaisedException,
    data: JsonErrorData,
    event: ChildEvent,
)
    requires
        exc.data == Some(ExcData::Json(data)),
    ensures
        ({
            let record = error_view(Some(exc), event);
            &&& record.shape == Shape::Error
            &&& record.attributes.len() == 11
            &&& shows(record, "exc_type"@, AttrView::Text(exc.exc_type@))
            &&& shows(record, "exc_message"@, capped_or_null(exc.message))
            &&& shows(
                record,
                "traceback"@,
                text_if(exc.traceback@.len() > 0, attr_text(traceback_text(exc.traceback@))),
            )
            &&& shows(record, "exc_data.msg"@, AttrView::Text(attr_text(data.msg@)))
            &&& shows(record, "exc_data.doc"@, capped_or_null(data.doc))
            &&& shows(record, "exc_data.pos"@, AttrView::UInt(data.pos as nat))
            &&& shows(record, "exc_data.lineno"@, AttrView::UInt(data.lineno as nat))
            &&& shows(record, "exc_data.colno"@, AttrView::UInt(data.colno as nat))
            &&& shows(
                record,
                "length_limit_exceeded"@,
                flag(exception_too_long(exc) || too_long(data.msg@) || any_too_long(data.doc)),
            )
            &&& shows(
                record,
                "total_execution_micros"@,
                AttrView::UInt(event.total_execution_micros as nat),
            )
            &&& shows(record, "max_duration_micros"@, number_or_null(event.max_duration_micros))
        }),
{
    lemma_keys_differ();
    let record = error_view(Some(exc), event);
    assert(record.attributes[0].0 == "exc_type"@);
    assert(record.attributes[1].0 == "exc_message"@);
    assert(record.attributes[2].0 == "traceback"@);
    assert(record.attributes[3].0 == "exc_data.msg"@);
    assert(record.attributes[4].0 == "exc_data.doc"@);
    assert(record.attributes[5].0 == "exc_data.pos"@);
    assert(record.attributes[6].0 == "exc_data.lineno"@);
    assert(record.attributes[7].0 == "exc_data.colno"@);
    assert(record.attributes[8].0 == "length_limit_exceeded"@);
    assert(record.attributes[9].0 == "total_execution_micros"@);
    assert(record.attributes[10].0 == "max_duration_micros"@);
}

/// The record of an error without an exception says that it is missing.
pub proof fn law_missing_error_record_says_so(event: ChildEvent)
    ensures
        ({
            let record = error_view(None, event);
            &&& record.shape == Shape::Error
            &&& record.attributes.len() == 6
            &&& shows(record, "exc_type"@, AttrView::Text("<missing>"@))
            &&& shows(record, "exc_message"@, AttrView::Null)
            &&& shows(record, "traceback"@, AttrView::Null)
            &&& shows(record, "length_limit_exceeded"@, AttrView::Null)
            &&& shows(
                record,
                "total_execution_micros"@,
                AttrView::UInt(event.total_execution_micros as nat),
            )
            &&& shows(record, "max_duration_micros"@, number_or_null(event.max_duration_micros))
        }),
{
    lemma_keys_differ();
    let record = error_view(None, event);
    assert(record.attributes[0].0 == "exc_type"@);
    assert(record.attributes[1].0 == "exc_message"@);
    assert(record.attributes[2].0 == "traceback"@);
    assert(record.attributes[3].0 == "length_limit_exceeded"@);
    assert(record.attributes[4].0 == "total_execution_micros"@);
    assert(record.attributes[5].0 == "max_duration_micros"@);
}

} // verus!
