//! The records a worker's trace is made of: for each request and event, the
//! shape it is recorded under and the attributes it carries.

use crate::limits::WireLimits;
use crate::protocol::{
    call_name, call_name_text, print_stream, stream_name, BytesWrite, Call, ChildEvent, Configure,
    ExcData, ExtResult, Feed, FunctionCall, FutureResult, JsonErrorData, NameLookupResult, OsCall,
    PrintStream, RaisedException, Rendered, TextWrite, TimeZone, UnicodeErrorData, UnicodeObject,
    WireValue,
};
use crate::record::{
    attrs_view, cut_view, display_text, opt_text, opt_uint, put, text_option, AttrValue, AttrView,
    Attribute, Record, RecordView, Shape,
};
use crate::render::{
    bytes_attr, bytes_cut, bytes_text, call_ids_text, ext_result_attr, ext_result_cut, futures_cut,
    futures_text, json_string_list, name_lookup_attr, name_lookup_cut, optional_attr,
    optional_value_attr, optional_value_cut, render_call_ids, render_ext_result,
    render_future_results, render_name_lookup, render_str_list, render_traceback, traceback_text,
    unzip, MISSING,
};
use crate::text::{attr_text, law_capped_text, oversize, texts, truncate_str, ATTR_SIZE_LIMIT};
use vstd::prelude::*;
use vstd::utf8::{encode_utf8, is_ascii_chars_encode_utf8};

verus! {

/// The text of an optional rendering.
pub open spec fn rendered_text(rendered: Option<Rendered>) -> Option<Seq<char>> {
    match rendered {
        Some(rendered) => Some(rendered.text@),
        None => None,
    }
}

/// Whether an optional rendering was cut.
pub open spec fn rendered_cut(rendered: Option<Rendered>) -> bool {
    match rendered {
        Some(rendered) => rendered.cut,
        None => false,
    }
}

fn rendered_attr(rendered: &Option<Rendered>) -> (result: (AttrValue, bool))
    ensures
        result.0@ == opt_text(rendered_text(*rendered)),
        result.1 == rendered_cut(*rendered),
{
    match rendered {
        Some(rendered) => (AttrValue::Text(rendered.text.clone()), rendered.cut),
        None => (AttrValue::Null, false),
    }
}

/// The limits a session was configured with, all absent when it has none.
pub open spec fn limits_or_absent(limits: Option<WireLimits>) -> WireLimits {
    match limits {
        Some(limits) => limits,
        None => WireLimits {
            max_allocations: None,
            max_duration_micros: None,
            max_memory_bytes: None,
            gc_interval: None,
            max_recursion_depth: None,
        },
    }
}

/// The record of a session.
pub open spec fn session_view(configure: Configure, worker_pid: Option<u32>) -> RecordView {
    let limits = limits_or_absent(configure.limits);
    RecordView {
        shape: Shape::Session,
        attributes: seq![
            ("script_name"@, AttrView::Text(configure.script_name@)),
            ("monty_version"@, AttrView::Text(configure.monty_version@)),
            ("type_check"@, AttrView::Bool(configure.type_check)),
            ("type_check_stubs"@, opt_text(text_option(configure.type_check_stubs))),
            (
                "assert_message_annotations"@,
                match configure.assert_message_annotations {
                    Some(annotations) => AttrView::Bool(annotations),
                    None => AttrView::Null,
                },
            ),
            ("max_duration_micros"@, opt_uint(limits.max_duration_micros)),
            ("max_memory_bytes"@, opt_uint(limits.max_memory_bytes)),
            ("gc_interval"@, opt_uint(limits.gc_interval)),
            ("max_recursion_depth"@, opt_uint(limits.max_recursion_depth)),
            (
                "worker_pid"@,
                match worker_pid {
                    Some(pid) => AttrView::Int(pid as int),
                    None => AttrView::Null,
                },
            ),
        ],
    }
}

/// The record of a session.
pub fn session_record(configure: &Configure, worker_pid: Option<u32>) -> (record: Record)
    ensures
        record@ == session_view(*configure, worker_pid),
{
    let limits = match configure.limits {
        Some(limits) => limits,
        None => WireLimits {
            max_allocations: None,
            max_duration_micros: None,
            max_memory_bytes: None,
            gc_interval: None,
            max_recursion_depth: None,
        },
    };
    let mut attributes: Vec<Attribute> = Vec::new();
    put(&mut attributes, "script_name", AttrValue::Text(configure.script_name.clone()));
    put(&mut attributes, "monty_version", AttrValue::Text(configure.monty_version.clone()));
    put(&mut attributes, "type_check", AttrValue::Bool(configure.type_check));
    put(
        &mut attributes,
        "type_check_stubs",
        AttrValue::optional_text(&configure.type_check_stubs),
    );
    let annotations = match configure.assert_message_annotations {
        Some(annotations) => AttrValue::Bool(annotations),
        None => AttrValue::Null,
    };
    put(&mut attributes, "assert_message_annotations", annotations);
    put(
        &mut attributes,
        "max_duration_micros",
        AttrValue::optional_uint(limits.max_duration_micros),
    );
    put(&mut attributes, "max_memory_bytes", AttrValue::optional_uint(limits.max_memory_bytes));
    put(&mut attributes, "gc_interval", AttrValue::optional_uint(limits.gc_interval));
    put(
        &mut attributes,
        "max_recursion_depth",
        AttrValue::optional_uint(limits.max_recursion_depth),
    );
    let pid = match worker_pid {
        Some(pid) => AttrValue::Int(pid as i64),
        None => AttrValue::Null,
    };
    put(&mut attributes, "worker_pid", pid);
    assert(attrs_view(attributes@) =~= session_view(*configure, worker_pid).attributes);
    Record { shape: Shape::Session, attributes }
}

/// The record of restoring a dump.
pub open spec fn load_view(state_bytes: nat) -> RecordView {
    RecordView {
        shape: Shape::Load,
        attributes: seq![("state_bytes"@, AttrView::UInt(state_bytes))],
    }
}

/// The record of restoring a dump.
pub fn load_record(state: &Vec<u8>) -> (record: Record)
    ensures
        record@ == load_view(state@.len()),
{
    let mut attributes: Vec<Attribute> = Vec::new();
    put(&mut attributes, "state_bytes", AttrValue::UInt(state.len() as u64));
    assert(attrs_view(attributes@) =~= load_view(state@.len()).attributes);
    Record { shape: Shape::Load, attributes }
}

/// The record of installing dependencies.
pub open spec fn install_view(requirements: Seq<String>) -> RecordView {
    RecordView {
        shape: Shape::InstallDependencies,
        attributes: seq![
            (
                "requirements"@,
                if requirements.len() == 0 {
                    AttrView::Null
                } else {
                    AttrView::Text(json_string_list(texts(requirements)))
                },
            ),
        ],
    }
}

/// The record of installing dependencies.
pub fn install_record(requirements: &Vec<String>) -> (record: Record)
    ensures
        record@ == install_view(requirements@),
{
    let mut attributes: Vec<Attribute> = Vec::new();
    let rendered = render_str_list(requirements);
    put(&mut attributes, "requirements", AttrValue::optional_text(&rendered));
    assert(attrs_view(attributes@) =~= install_view(requirements@).attributes);
    Record { shape: Shape::InstallDependencies, attributes }
}

/// The record of a feed.
pub open spec fn feed_view(feed: Feed) -> RecordView {
    RecordView {
        shape: Shape::Feed,
        attributes: seq![
            ("code"@, AttrView::Text(attr_text(feed.code@))),
            ("code.language"@, AttrView::Text("python"@)),
            ("inputs"@, opt_text(rendered_text(feed.inputs))),
            ("skip_type_check"@, AttrView::Bool(feed.skip_type_check)),
            (
                "length_limit_exceeded"@,
                cut_view(oversize(feed.code@) || rendered_cut(feed.inputs)),
            ),
        ],
    }
}

/// The record of a feed.
pub fn feed_record(feed: &Feed) -> (record: Record)
    ensures
        record@ == feed_view(*feed),
{
    let (code, code_cut) = truncate_str(feed.code.as_str());
    let (inputs, inputs_cut) = rendered_attr(&feed.inputs);
    let mut attributes: Vec<Attribute> = Vec::new();
    put(&mut attributes, "code", AttrValue::Text(code));
    put(&mut attributes, "code.language", AttrValue::text("python"));
    put(&mut attributes, "inputs", inputs);
    put(&mut attributes, "skip_type_check", AttrValue::Bool(feed.skip_type_check));
    put(&mut attributes, "length_limit_exceeded", AttrValue::cut_flag(code_cut || inputs_cut));
    assert(attrs_view(attributes@) =~= feed_view(*feed).attributes);
    Record { shape: Shape::Feed, attributes }
}

/// A record without attributes.
pub open spec fn bare_view(shape: Shape) -> RecordView {
    RecordView { shape, attributes: Seq::empty() }
}

/// A record without attributes.
pub fn bare_record(shape: Shape) -> (record: Record)
    ensures
        record@ == bare_view(shape),
{
    let attributes: Vec<Attribute> = Vec::new();
    assert(attrs_view(attributes@) =~= Seq::<(Seq<char>, AttrView)>::empty());
    Record { shape, attributes }
}

/// The record of the answer to a call.
pub open spec fn call_result_view(call_id: u32, result: Option<ExtResult>) -> RecordView {
    RecordView {
        shape: Shape::CallResult,
        attributes: seq![
            ("call_id"@, AttrView::UInt(call_id as nat)),
            ("result"@, ext_result_attr(result)),
            ("length_limit_exceeded"@, cut_view(ext_result_cut(result))),
        ],
    }
}

/// The record of the answer to a call.
pub fn call_result_record(call_id: u32, result: &Option<ExtResult>) -> (record: Record)
    ensures
        record@ == call_result_view(call_id, *result),
{
    let (value, cut) = render_ext_result(result);
    let mut attributes: Vec<Attribute> = Vec::new();
    put(&mut attributes, "call_id", AttrValue::UInt(call_id as u64));
    put(&mut attributes, "result", value);
    put(&mut attributes, "length_limit_exceeded", AttrValue::cut_flag(cut));
    assert(attrs_view(attributes@) =~= call_result_view(call_id, *result).attributes);
    Record { shape: Shape::CallResult, attributes }
}

/// The record of the answer to a name lookup.
pub open spec fn name_lookup_result_view(kind: Option<NameLookupResult>) -> RecordView {
    RecordView {
        shape: Shape::NameLookupResult,
        attributes: seq![
            ("result"@, name_lookup_attr(kind)),
            ("length_limit_exceeded"@, cut_view(name_lookup_cut(kind))),
        ],
    }
}

/// The record of the answer to a name lookup.
pub fn name_lookup_result_record(kind: &Option<NameLookupResult>) -> (record: Record)
    ensures
        record@ == name_lookup_result_view(*kind),
{
    let (value, cut) = render_name_lookup(kind);
    let mut attributes: Vec<Attribute> = Vec::new();
    put(&mut attributes, "result", value);
    put(&mut attributes, "length_limit_exceeded", AttrValue::cut_flag(cut));
    assert(attrs_view(attributes@) =~= name_lookup_result_view(*kind).attributes);
    Record { shape: Shape::NameLookupResult, attributes }
}

/// The record of resolved futures.
pub open spec fn future_results_view(results: Seq<FutureResult>) -> RecordView {
    RecordView {
        shape: Shape::FutureResults,
        attributes: seq![
            (
                "results"@,
                if results.len() == 0 {
                    AttrView::Null
                } else {
                    AttrView::Text(attr_text(futures_text(results)))
                },
            ),
            ("length_limit_exceeded"@, cut_view(futures_cut(results))),
        ],
    }
}

/// The record of resolved futures.
pub fn future_results_record(results: &Vec<FutureResult>) -> (record: Record)
    ensures
        record@ == future_results_view(results@),
{
    let (rendered, cut) = render_future_results(results);
    let mut attributes: Vec<Attribute> = Vec::new();
    put(&mut attributes, "results", AttrValue::optional_text(&rendered));
    put(&mut attributes, "length_limit_exceeded", AttrValue::cut_flag(cut));
    assert(attrs_view(attributes@) =~= future_results_view(results@).attributes);
    Record { shape: Shape::FutureResults, attributes }
}

/// The record of a restored session's name.
pub open spec fn restored_view(script_name: Seq<char>) -> RecordView {
    RecordView {
        shape: Shape::Restored,
        attributes: seq![("script_name"@, AttrView::Text(script_name))],
    }
}

/// The record of a restored session's name.
pub fn restored_record(script_name: &String) -> (record: Record)
    ensures
        record@ == restored_view(script_name@),
{
    let mut attributes: Vec<Attribute> = Vec::new();
    put(&mut attributes, "script_name", AttrValue::Text(script_name.clone()));
    assert(attrs_view(attributes@) =~= restored_view(script_name@).attributes);
    Record { shape: Shape::Restored, attributes }
}

/// The record of sandbox output.
pub open spec fn print_view(text: Seq<char>, stream: Option<PrintStream>) -> RecordView {
    RecordView {
        shape: Shape::Print,
        attributes: seq![
            ("stream"@, AttrView::Text(stream_name(stream))),
            ("text"@, AttrView::Text(attr_text(text))),
            ("length_limit_exceeded"@, cut_view(oversize(text))),
        ],
    }
}

/// The record of sandbox output.
pub fn print_record(text: &String, stream: Option<PrintStream>) -> (record: Record)
    ensures
        record@ == print_view(text@, stream),
{
    let (capped, cut) = truncate_str(text.as_str());
    let mut attributes: Vec<Attribute> = Vec::new();
    put(&mut attributes, "stream", AttrValue::text(print_stream(stream)));
    put(&mut attributes, "text", AttrValue::Text(capped));
    put(&mut attributes, "length_limit_exceeded", AttrValue::cut_flag(cut));
    assert(attrs_view(attributes@) =~= print_view(text@, stream).attributes);
    Record { shape: Shape::Print, attributes }
}

/// The session clock every suspension and turn-ending record carries: what
/// was used, and the budget it is measured against.
pub open spec fn clock_attrs(event: ChildEvent) -> Seq<(Seq<char>, AttrView)> {
    seq![
        ("total_execution_micros"@, AttrView::UInt(event.total_execution_micros as nat)),
        ("max_duration_micros"@, opt_uint(event.max_duration_micros)),
    ]
}

fn put_clock(attributes: &mut Vec<Attribute>, event: &ChildEvent)
    ensures
        attrs_view(final(attributes)@) == attrs_view(old(attributes)@) + clock_attrs(*event),
{
    put(attributes, "total_execution_micros", AttrValue::UInt(event.total_execution_micros));
    put(
        attributes,
        "max_duration_micros",
        AttrValue::optional_uint(event.max_duration_micros),
    );
    assert(attrs_view(attributes@) =~= attrs_view(old(attributes)@) + clock_attrs(*event));
}

/// The record of a function call.
pub open spec fn function_call_view(call: FunctionCall, event: ChildEvent) -> RecordView {
    RecordView {
        shape: Shape::FunctionCall,
        attributes: seq![
            ("function_name"@, AttrView::Text(call.function_name@)),
            ("args"@, opt_text(rendered_text(call.args))),
            ("kwargs"@, opt_text(rendered_text(call.kwargs))),
            ("call_id"@, AttrView::UInt(call.call_id as nat)),
            ("method_call"@, AttrView::Bool(call.method_call)),
            (
                "length_limit_exceeded"@,
                cut_view(rendered_cut(call.args) || rendered_cut(call.kwargs)),
            ),
        ] + clock_attrs(event),
    }
}

/// The record of a function call.
pub fn function_call_record(call: &FunctionCall, event: &ChildEvent) -> (record: Record)
    ensures
        record@ == function_call_view(*call, *event),
{
    let (args, args_cut) = rendered_attr(&call.args);
    let (kwargs, kwargs_cut) = rendered_attr(&call.kwargs);
    let mut attributes: Vec<Attribute> = Vec::new();
    put(&mut attributes, "function_name", AttrValue::Text(call.function_name.clone()));
    put(&mut attributes, "args", args);
    put(&mut attributes, "kwargs", kwargs);
    put(&mut attributes, "call_id", AttrValue::UInt(call.call_id as u64));
    put(&mut attributes, "method_call", AttrValue::Bool(call.method_call));
    put(&mut attributes, "length_limit_exceeded", AttrValue::cut_flag(args_cut || kwargs_cut));
    put_clock(&mut attributes, event);
    assert(attrs_view(attributes@) =~= function_call_view(*call, *event).attributes);
    Record { shape: Shape::FunctionCall, attributes }
}

/// The record of a name lookup.
pub open spec fn name_lookup_view(name: Seq<char>, event: ChildEvent) -> RecordView {
    RecordView {
        shape: Shape::NameLookup,
        attributes: seq![("name"@, AttrView::Text(name))] + clock_attrs(event),
    }
}

/// The record of a name lookup.
pub fn name_lookup_record(name: &String, event: &ChildEvent) -> (record: Record)
    ensures
        record@ == name_lookup_view(name@, *event),
{
    let mut attributes: Vec<Attribute> = Vec::new();
    put(&mut attributes, "name", AttrValue::Text(name.clone()));
    put_clock(&mut attributes, event);
    assert(attrs_view(attributes@) =~= name_lookup_view(name@, *event).attributes);
    Record { shape: Shape::NameLookup, attributes }
}

/// The record of waiting on futures.
pub open spec fn resolve_futures_view(ids: Seq<u32>, event: ChildEvent) -> RecordView {
    RecordView {
        shape: Shape::ResolveFutures,
        attributes: seq![
            (
                "pending_call_ids"@,
                if ids.len() == 0 {
                    AttrView::Null
                } else {
                    AttrView::Text(call_ids_text(ids))
                },
            ),
        ] + clock_attrs(event),
    }
}

/// The record of waiting on futures.
pub fn resolve_futures_record(ids: &Vec<u32>, event: &ChildEvent) -> (record: Record)
    ensures
        record@ == resolve_futures_view(ids@, *event),
{
    let mut attributes: Vec<Attribute> = Vec::new();
    let rendered = render_call_ids(ids);
    put(&mut attributes, "pending_call_ids", AttrValue::optional_text(&rendered));
    put_clock(&mut attributes, event);
    assert(attrs_view(attributes@) =~= resolve_futures_view(ids@, *event).attributes);
    Record { shape: Shape::ResolveFutures, attributes }
}

/// The record of a completed feed.
pub open spec fn complete_view(value: Option<WireValue>, event: ChildEvent) -> RecordView {
    RecordView {
        shape: Shape::Complete,
        attributes: seq![
            ("value"@, optional_value_attr(value)),
            ("length_limit_exceeded"@, cut_view(optional_value_cut(value))),
        ] + clock_attrs(event),
    }
}

/// The record of a completed feed.
pub fn complete_record(value: &Option<WireValue>, event: &ChildEvent) -> (record: Record)
    ensures
        record@ == complete_view(*value, *event),
{
    let (attr, cut) = optional_attr(value);
    let mut attributes: Vec<Attribute> = Vec::new();
    put(&mut attributes, "value", attr);
    put(&mut attributes, "length_limit_exceeded", AttrValue::cut_flag(cut));
    put_clock(&mut attributes, event);
    assert(attrs_view(attributes@) =~= complete_view(*value, *event).attributes);
    Record { shape: Shape::Complete, attributes }
}

/// The record of a rejected feed.
pub open spec fn typing_error_view(diagnostics: Seq<char>, event: ChildEvent) -> RecordView {
    RecordView {
        shape: Shape::TypingError,
        attributes: seq![
            ("diagnostics"@, AttrView::Text(attr_text(diagnostics))),
            ("length_limit_exceeded"@, cut_view(oversize(diagnostics))),
        ] + clock_attrs(event),
    }
}

/// The record of a rejected feed.
pub fn typing_error_record(diagnostics: &String, event: &ChildEvent) -> (record: Record)
    ensures
        record@ == typing_error_view(diagnostics@, *event),
{
    let (capped, cut) = truncate_str(diagnostics.as_str());
    let mut attributes: Vec<Attribute> = Vec::new();
    put(&mut attributes, "diagnostics", AttrValue::Text(capped));
    put(&mut attributes, "length_limit_exceeded", AttrValue::cut_flag(cut));
    put_clock(&mut attributes, event);
    assert(attrs_view(attributes@) =~= typing_error_view(diagnostics@, *event).attributes);
    Record { shape: Shape::TypingError, attributes }
}

/// The record of a finished dump.
pub open spec fn dump_result_view(state_bytes: nat, event: ChildEvent) -> RecordView {
    RecordView {
        shape: Shape::DumpResult,
        attributes: seq![("state_bytes"@, AttrView::UInt(state_bytes))] + clock_attrs(event),
    }
}

/// The record of a finished dump.
pub fn dump_result_record(state: &Vec<u8>, event: &ChildEvent) -> (record: Record)
    ensures
        record@ == dump_result_view(state@.len(), *event),
{
    let mut attributes: Vec<Attribute> = Vec::new();
    put(&mut attributes, "state_bytes", AttrValue::UInt(state.len() as u64));
    put_clock(&mut attributes, event);
    assert(attrs_view(attributes@) =~= dump_result_view(state@.len(), *event).attributes);
    Record { shape: Shape::DumpResult, attributes }
}

/// The record of a relay shutting down.
pub open spec fn shutdown_view(dump: Option<Vec<u8>>, event: ChildEvent) -> RecordView {
    RecordView {
        shape: Shape::Shutdown,
        attributes: seq![
            (
                "state_bytes"@,
                match dump {
                    Some(dump) => AttrView::UInt(dump@.len()),
                    None => AttrView::Null,
                },
            ),
        ] + clock_attrs(event),
    }
}

/// The record of a relay shutting down.
pub fn shutdown_record(dump: &Option<Vec<u8>>, event: &ChildEvent) -> (record: Record)
    ensures
        record@ == shutdown_view(*dump, *event),
{
    let bytes = match dump {
        Some(dump) => AttrValue::UInt(dump.len() as u64),
        None => AttrValue::Null,
    };
    let mut attributes: Vec<Attribute> = Vec::new();
    put(&mut attributes, "state_bytes", bytes);
    put_clock(&mut attributes, event);
    assert(attrs_view(attributes@) =~= shutdown_view(*dump, *event).attributes);
    Record { shape: Shape::Shutdown, attributes }
}

/// The record of a worker failing for good.
pub open spec fn fatal_error_view(message: Seq<char>) -> RecordView {
    RecordView {
        shape: Shape::FatalError,
        attributes: seq![("message"@, AttrView::Text(message))],
    }
}

/// The record of a worker failing for good.
pub fn fatal_error_record(message: &String) -> (record: Record)
    ensures
        record@ == fatal_error_view(message@),
{
    let mut attributes: Vec<Attribute> = Vec::new();
    put(&mut attributes, "message", AttrValue::Text(message.clone()));
    assert(attrs_view(attributes@) =~= fatal_error_view(message@).attributes);
    Record { shape: Shape::FatalError, attributes }
}

/// The attributes of a call that takes one path.
pub open spec fn path_attrs(path: String) -> Seq<(Seq<char>, AttrView)> {
    seq![("args.path"@, AttrView::Text(path@))]
}

/// The attributes of a text write.
pub open spec fn text_write_attrs(write: TextWrite) -> Seq<(Seq<char>, AttrView)> {
    seq![
        ("args.path"@, AttrView::Text(write.path@)),
        ("args.data"@, AttrView::Text(attr_text(write.data@))),
        ("length_limit_exceeded"@, cut_view(oversize(write.data@))),
    ]
}

/// The attributes of a bytes write.
pub open spec fn bytes_write_attrs(write: BytesWrite) -> Seq<(Seq<char>, AttrView)> {
    seq![
        ("args.path"@, AttrView::Text(write.path@)),
        ("args.data"@, AttrView::Text(bytes_text(write.data))),
        ("length_limit_exceeded"@, cut_view(bytes_cut(write.data))),
    ]
}

/// The attributes of a clock call: a naive call has no arguments.
pub open spec fn tz_attrs(tz: Option<TimeZone>) -> Seq<(Seq<char>, AttrView)> {
    match tz {
        Some(tz) => seq![
            ("args.tz_offset_seconds"@, AttrView::Int(tz.offset_seconds as int)),
            ("args.tz_name"@, opt_text(text_option(tz.name))),
        ],
        None => Seq::empty(),
    }
}

/// The argument attributes of an operating system call: only those the call
/// has, each named after its field.
pub open spec fn call_attrs(call: Call) -> Seq<(Seq<char>, AttrView)> {
    match call {
        Call::Exists(path) => path_attrs(path),
        Call::IsFile(path) => path_attrs(path),
        Call::IsDir(path) => path_attrs(path),
        Call::IsSymlink(path) => path_attrs(path),
        Call::ReadText(path) => path_attrs(path),
        Call::ReadBytes(path) => path_attrs(path),
        Call::Stat(path) => path_attrs(path),
        Call::Iterdir(path) => path_attrs(path),
        Call::Resolve(path) => path_attrs(path),
        Call::Absolute(path) => path_attrs(path),
        Call::Unlink(path) => path_attrs(path),
        Call::Rmdir(path) => path_attrs(path),
        Call::WriteText(write) => text_write_attrs(write),
        Call::AppendText(write) => text_write_attrs(write),
        Call::WriteBytes(write) => bytes_write_attrs(write),
        Call::AppendBytes(write) => bytes_write_attrs(write),
        Call::Open { path, mode } => seq![
            ("args.path"@, AttrView::Text(path@)),
            ("args.mode"@, AttrView::Text(mode@)),
        ],
        Call::Mkdir { path, parents, exist_ok } => seq![
            ("args.path"@, AttrView::Text(path@)),
            ("args.parents"@, AttrView::Bool(parents)),
            ("args.exist_ok"@, AttrView::Bool(exist_ok)),
        ],
        Call::Rename { src, dst } => seq![
            ("args.src"@, AttrView::Text(src@)),
            ("args.dst"@, AttrView::Text(dst@)),
        ],
        Call::Getenv { key, default } => seq![
            ("args.key"@, AttrView::Text(key@)),
            (
                "args.default"@,
                match default {
                    Some(value) => AttrView::Text(
                        display_text(optional_value_attr(Some(value))),
                    ),
                    None => AttrView::Null,
                },
            ),
            ("length_limit_exceeded"@, cut_view(optional_value_cut(default))),
        ],
        Call::GetEnviron => Seq::empty(),
        Call::DateToday => Seq::empty(),
        Call::DateTimeNow { tz } => tz_attrs(tz),
    }
}

fn put_path(attributes: &mut Vec<Attribute>, path: &String)
    ensures
        attrs_view(final(attributes)@) == attrs_view(old(attributes)@) + path_attrs(*path),
{
    put(attributes, "args.path", AttrValue::Text(path.clone()));
    assert(attrs_view(attributes@) =~= attrs_view(old(attributes)@) + path_attrs(*path));
}

fn put_text_write(attributes: &mut Vec<Attribute>, write: &TextWrite)
    ensures
        attrs_view(final(attributes)@) == attrs_view(old(attributes)@) + text_write_attrs(*write),
{
    let (data, cut) = truncate_str(write.data.as_str());
    put(attributes, "args.path", AttrValue::Text(write.path.clone()));
    put(attributes, "args.data", AttrValue::Text(data));
    put(attributes, "length_limit_exceeded", AttrValue::cut_flag(cut));
    assert(attrs_view(attributes@) =~= attrs_view(old(attributes)@) + text_write_attrs(*write));
}

fn put_bytes_write(attributes: &mut Vec<Attribute>, write: &BytesWrite)
    ensures
        attrs_view(final(attributes)@) == attrs_view(old(attributes)@) + bytes_write_attrs(*write),
{
    let (data, cut) = bytes_attr(&write.data);
    put(attributes, "args.path", AttrValue::Text(write.path.clone()));
    put(attributes, "args.data", AttrValue::Text(data));
    put(attributes, "length_limit_exceeded", AttrValue::cut_flag(cut));
    assert(attrs_view(attributes@) =~= attrs_view(old(attributes)@) + bytes_write_attrs(*write));
}

fn put_call(attributes: &mut Vec<Attribute>, call: &Call)
    ensures
        attrs_view(final(attributes)@) == attrs_view(old(attributes)@) + call_attrs(*call),
{
    match call {
        Call::Exists(path) => put_path(attributes, path),
        Call::IsFile(path) => put_path(attributes, path),
        Call::IsDir(path) => put_path(attributes, path),
        Call::IsSymlink(path) => put_path(attributes, path),
        Call::ReadText(path) => put_path(attributes, path),
        Call::ReadBytes(path) => put_path(attributes, path),
        Call::Stat(path) => put_path(attributes, path),
        Call::Iterdir(path) => put_path(attributes, path),
        Call::Resolve(path) => put_path(attributes, path),
        Call::Absolute(path) => put_path(attributes, path),
        Call::Unlink(path) => put_path(attributes, path),
        Call::Rmdir(path) => put_path(attributes, path),
        Call::WriteText(write) => put_text_write(attributes, write),
        Call::AppendText(write) => put_text_write(attributes, write),
        Call::WriteBytes(write) => put_bytes_write(attributes, write),
        Call::AppendBytes(write) => put_bytes_write(attributes, write),
        Call::Open { path, mode } => {
            put(attributes, "args.path", AttrValue::Text(path.clone()));
            put(attributes, "args.mode", AttrValue::Text(mode.clone()));
        },
        Call::Mkdir { path, parents, exist_ok } => {
            put(attributes, "args.path", AttrValue::Text(path.clone()));
            put(attributes, "args.parents", AttrValue::Bool(*parents));
            put(attributes, "args.exist_ok", AttrValue::Bool(*exist_ok));
        },
        Call::Rename { src, dst } => {
            put(attributes, "args.src", AttrValue::Text(src.clone()));
            put(attributes, "args.dst", AttrValue::Text(dst.clone()));
        },
        Call::Getenv { key, default } => {
            // a span attribute has one type, so the default is recorded as text
            let (value, cut) = optional_attr(default);
            let shown = match default {
                Some(_) => AttrValue::Text(value.display()),
                None => AttrValue::Null,
            };
            put(attributes, "args.key", AttrValue::Text(key.clone()));
            put(attributes, "args.default", shown);
            put(attributes, "length_limit_exceeded", AttrValue::cut_flag(cut));
        },
        Call::GetEnviron | Call::DateToday => {},
        Call::DateTimeNow { tz } => {
            if let Some(tz) = tz {
                put(attributes, "args.tz_offset_seconds", AttrValue::Int(tz.offset_seconds as i64));
                put(attributes, "args.tz_name", AttrValue::optional_text(&tz.name));
            }
        },
    }
    assert(attrs_view(attributes@) =~= attrs_view(old(attributes)@) + call_attrs(*call));
}

/// The record of an operating system call.
pub open spec fn os_call_view(os_call: OsCall, event: ChildEvent) -> RecordView {
    let tail = seq![("call_id"@, AttrView::UInt(os_call.call_id as nat))] + clock_attrs(event);
    RecordView {
        shape: Shape::OsCall,
        attributes: match os_call.call {
            Some(call) => seq![("function"@, AttrView::Text(call_name_text(call)))] + call_attrs(
                call,
            ) + tail,
            None => seq![("function"@, AttrView::Text(MISSING@))] + tail,
        },
    }
}

/// The record of an operating system call: its fixed name, its arguments, and
/// the session clock.
pub fn os_call_record(os_call: &OsCall, event: &ChildEvent) -> (record: Record)
    ensures
        record@ == os_call_view(*os_call, *event),
{
    let mut attributes: Vec<Attribute> = Vec::new();
    match &os_call.call {
        Some(call) => {
            put(&mut attributes, "function", AttrValue::text(call_name(call)));
            put_call(&mut attributes, call);
        },
        None => {
            put(&mut attributes, "function", AttrValue::text(MISSING));
        },
    }
    put(&mut attributes, "call_id", AttrValue::UInt(os_call.call_id as u64));
    put_clock(&mut attributes, event);
    assert(attrs_view(attributes@) =~= os_call_view(*os_call, *event).attributes);
    Record { shape: Shape::OsCall, attributes }
}

/// The text of the input a codec failed on.
pub open spec fn unicode_object_text(object: Option<UnicodeObject>) -> Seq<char> {
    match object {
        Some(UnicodeObject::Bytes(bytes)) => bytes_text(bytes),
        Some(UnicodeObject::Text(text)) => attr_text(text@),
        None => MISSING@,
    }
}

/// Whether the text of that input was cut.
pub open spec fn unicode_object_cut(object: Option<UnicodeObject>) -> bool {
    match object {
        Some(UnicodeObject::Bytes(bytes)) => bytes_cut(bytes),
        Some(UnicodeObject::Text(text)) => oversize(text@),
        None => false,
    }
}

/// The attributes of a codec error's payload.
pub open spec fn unicode_attrs(data: UnicodeErrorData) -> Seq<(Seq<char>, AttrView)> {
    seq![
        ("exc_data.encoding"@, AttrView::Text(attr_text(data.encoding@))),
        ("exc_data.object"@, AttrView::Text(unicode_object_text(data.object))),
        ("exc_data.start"@, AttrView::UInt(data.start as nat)),
        ("exc_data.end"@, AttrView::UInt(data.end as nat)),
        ("exc_data.reason"@, AttrView::Text(attr_text(data.reason@))),
    ]
}

/// The attributes of a JSON error's payload.
pub open spec fn json_attrs(data: JsonErrorData) -> Seq<(Seq<char>, AttrView)> {
    seq![
        ("exc_data.msg"@, AttrView::Text(attr_text(data.msg@))),
        (
            "exc_data.doc"@,
            match data.doc {
                Some(doc) => AttrView::Text(attr_text(doc@)),
                None => AttrView::Null,
            },
        ),
        ("exc_data.pos"@, AttrView::UInt(data.pos as nat)),
        ("exc_data.lineno"@, AttrView::UInt(data.lineno as nat)),
        ("exc_data.colno"@, AttrView::UInt(data.colno as nat)),
    ]
}

/// The attributes of an exception's payload.
pub open spec fn exc_data_attrs(data: Option<ExcData>) -> Seq<(Seq<char>, AttrView)> {
    match data {
        Some(ExcData::Unicode(data)) => unicode_attrs(data),
        Some(ExcData::Json(data)) => json_attrs(data),
        None => Seq::empty(),
    }
}

/// Whether rendering an exception's payload cut anything off.
pub open spec fn exc_data_cut(data: Option<ExcData>) -> bool {
    match data {
        Some(ExcData::Unicode(data)) => unicode_object_cut(data.object) || oversize(data.encoding@)
            || oversize(data.reason@),
        Some(ExcData::Json(data)) => (match data.doc {
            Some(doc) => oversize(doc@),
            None => false,
        }) || oversize(data.msg@),
        None => false,
    }
}

fn put_exc_data(attributes: &mut Vec<Attribute>, data: &Option<ExcData>) -> (cut: bool)
    ensures
        attrs_view(final(attributes)@) == attrs_view(old(attributes)@) + exc_data_attrs(*data),
        cut == exc_data_cut(*data),
{
    let cut = match data {
        Some(ExcData::Unicode(data)) => {
            let (object, object_cut) = match &data.object {
                Some(UnicodeObject::Bytes(bytes)) => bytes_attr(bytes),
                Some(UnicodeObject::Text(text)) => truncate_str(text.as_str()),
                None => (MISSING.to_owned(), false),
            };
            // the codec name is whatever the sandbox passed, so it needs the
            // cap as much as the object does
            let (encoding, encoding_cut) = truncate_str(data.encoding.as_str());
            let (reason, reason_cut) = truncate_str(data.reason.as_str());
            put(attributes, "exc_data.encoding", AttrValue::Text(encoding));
            put(attributes, "exc_data.object", AttrValue::Text(object));
            put(attributes, "exc_data.start", AttrValue::UInt(data.start));
            put(attributes, "exc_data.end", AttrValue::UInt(data.end));
            put(attributes, "exc_data.reason", AttrValue::Text(reason));
            object_cut || encoding_cut || reason_cut
        },
        Some(ExcData::Json(data)) => {
            let capped = match &data.doc {
                Some(doc) => Some(truncate_str(doc.as_str())),
                None => None,
            };
            let (doc, doc_cut) = unzip(capped);
            let (msg, msg_cut) = truncate_str(data.msg.as_str());
            put(attributes, "exc_data.msg", AttrValue::Text(msg));
            put(attributes, "exc_data.doc", AttrValue::optional_text(&doc));
            put(attributes, "exc_data.pos", AttrValue::UInt(data.pos));
            put(attributes, "exc_data.lineno", AttrValue::UInt(data.lineno));
            put(attributes, "exc_data.colno", AttrValue::UInt(data.colno));
            doc_cut || msg_cut
        },
        None => false,
    };
    assert(attrs_view(attributes@) =~= attrs_view(old(attributes)@) + exc_data_attrs(*data));
    cut
}

/// The attributes that name an exception: its type, message and traceback.
pub open spec fn exception_attrs(exc: Option<RaisedException>) -> Seq<(Seq<char>, AttrView)> {
    seq![
        (
            "exc_type"@,
            AttrView::Text(
                match exc {
                    Some(exc) => exc.exc_type@,
                    None => MISSING@,
                },
            ),
        ),
        (
            "exc_message"@,
            match exc {
                Some(exc) => match exc.message {
                    Some(message) => AttrView::Text(attr_text(message@)),
                    None => AttrView::Null,
                },
                None => AttrView::Null,
            },
        ),
        (
            "traceback"@,
            match exc {
                Some(exc) => if exc.traceback@.len() == 0 {
                    AttrView::Null
                } else {
                    AttrView::Text(attr_text(traceback_text(exc.traceback@)))
                },
                None => AttrView::Null,
            },
        ),
    ]
}

/// Whether rendering an exception's message or traceback cut anything off.
pub open spec fn exception_cut(exc: Option<RaisedException>) -> bool {
    match exc {
        Some(exc) => (match exc.message {
            Some(message) => oversize(message@),
            None => false,
        }) || (exc.traceback@.len() > 0 && oversize(traceback_text(exc.traceback@))),
        None => false,
    }
}

/// The structured payload of an exception.
pub open spec fn exception_data(exc: Option<RaisedException>) -> Option<ExcData> {
    match exc {
        Some(exc) => exc.data,
        None => None,
    }
}

/// The record of an error.
pub open spec fn error_view(exc: Option<RaisedException>, event: ChildEvent) -> RecordView {
    let data = exception_data(exc);
    RecordView {
        shape: Shape::Error,
        attributes: exception_attrs(exc) + exc_data_attrs(data) + seq![
            ("length_limit_exceeded"@, cut_view(exception_cut(exc) || exc_data_cut(data))),
        ] + clock_attrs(event),
    }
}

/// The record of an error: exception type, message, traceback, and each field
/// of a structured payload, including the offending input.
pub fn error_record(exc: &Option<RaisedException>, event: &ChildEvent) -> (record: Record)
    ensures
        record@ == error_view(*exc, *event),
{
    let mut attributes: Vec<Attribute> = Vec::new();
    let cut = match exc {
        Some(exc) => {
            let capped = match &exc.message {
                Some(message) => Some(truncate_str(message.as_str())),
                None => None,
            };
            let (message, message_cut) = unzip(capped);
            let (traceback, traceback_cut) = render_traceback(&exc.traceback);
            put(&mut attributes, "exc_type", AttrValue::Text(exc.exc_type.clone()));
            put(&mut attributes, "exc_message", AttrValue::optional_text(&message));
            put(&mut attributes, "traceback", AttrValue::optional_text(&traceback));
            assert(attrs_view(attributes@) =~= exception_attrs(Some(*exc)));
            let data_cut = put_exc_data(&mut attributes, &exc.data);
            message_cut || traceback_cut || data_cut
        },
        None => {
            put(&mut attributes, "exc_type", AttrValue::text(MISSING));
            put(&mut attributes, "exc_message", AttrValue::Null);
            put(&mut attributes, "traceback", AttrValue::Null);
            false
        },
    };
    put(&mut attributes, "length_limit_exceeded", AttrValue::cut_flag(cut));
    put_clock(&mut attributes, event);
    assert(attrs_view(attributes@) =~= error_view(*exc, *event).attributes);
    Record { shape: Shape::Error, attributes }
}

/// Whether an attribute's text, if it has one, stays within the byte cap.
pub open spec fn within_cap(value: AttrView) -> bool {
    value matches AttrView::Text(text) ==> encode_utf8(text).len() <= ATTR_SIZE_LIMIT
}

/// Text behind the cap stays within it.
proof fn lemma_attr_text_within_cap(text: Seq<char>)
    ensures
        within_cap(AttrView::Text(attr_text(text))),
        within_cap(AttrView::Text(MISSING@)),
{
    law_capped_text(text, ATTR_SIZE_LIMIT as nat);
    reveal_strlit("<missing>");
    is_ascii_chars_encode_utf8(MISSING@);
}

/// Every text in the record of an error but the name of the class is capped:
/// the message, the traceback, and each field of a structured payload.
pub proof fn law_error_texts_are_capped(exc: Option<RaisedException>, event: ChildEvent)
    ensures
        error_view(exc, event).attributes[0].0 == "exc_type"@,
        forall|i: int|
            1 <= i < error_view(exc, event).attributes.len() ==> within_cap(
                (#[trigger] error_view(exc, event).attributes[i]).1,
            ),
{
    lemma_attr_text_within_cap(Seq::empty());
    if let Some(exc) = exc {
        if let Some(message) = exc.message {
            lemma_attr_text_within_cap(message@);
        }
        lemma_attr_text_within_cap(traceback_text(exc.traceback@));
        match exc.data {
            Some(ExcData::Unicode(data)) => {
                lemma_attr_text_within_cap(data.encoding@);
                lemma_attr_text_within_cap(data.reason@);
                match data.object {
                    Some(UnicodeObject::Bytes(bytes)) => lemma_attr_text_within_cap(bytes.escaped@),
                    Some(UnicodeObject::Text(text)) => lemma_attr_text_within_cap(text@),
                    None => {},
                }
            },
            Some(ExcData::Json(data)) => {
                lemma_attr_text_within_cap(data.msg@);
                if let Some(doc) = data.doc {
                    lemma_attr_text_within_cap(doc@);
                }
            },
            None => {},
        }
    }
}

} // verus!
