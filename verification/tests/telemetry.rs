use monty_guardrails::limits::WireLimits;
use monty_guardrails::protocol::{
    BytesValue, Call, ChildEvent, Configure, EventKind, ExcData, ExtResult, Feed, FloatValue,
    FunctionCall, FutureResult, JsonErrorData, NameLookupResult, NamedValue, OsCall, ParentRequest,
    PrintStream, RaisedException, Rendered, StackFrame, TimeZone, UnicodeErrorData, WireValue,
};
use monty_guardrails::record::{AttrValue, Record, Shape, Slot, TraceOp};
use monty_guardrails::render::{
    attr_value, bytes_attr, bytes_value, optional_attr, render_call_arguments, render_call_ids,
    render_ext_result, render_future_results, render_inputs, render_name_lookup, render_str_list,
    render_traceback,
};
use monty_guardrails::telemetry::{context_span, Recorder, Spans};
use monty_guardrails::text::{truncate_str, ATTR_SIZE_LIMIT};

/// A trace written in memory: finished spans in the order they closed.
#[derive(Default)]
struct Trace {
    next: usize,
    open: [Option<Span>; 4],
    finished: Vec<Span>,
    logs: Vec<Log>,
}

struct Span {
    id: usize,
    parent: Option<usize>,
    record: Record,
}

struct Log {
    parent: Option<usize>,
    record: Record,
}

fn index(slot: Slot) -> usize {
    match slot {
        Slot::Turn => 0,
        Slot::Pending => 1,
        Slot::Feed => 2,
        Slot::Session => 3,
    }
}

impl Trace {
    fn id(&self, slot: Option<Slot>) -> Option<usize> {
        slot.map(|slot| self.open[index(slot)].as_ref().unwrap().id)
    }

    fn write(&mut self, ops: Vec<TraceOp>) {
        for op in ops {
            match op {
                TraceOp::Open { slot, parent, record } => {
                    let span = Span { id: self.next, parent: self.id(parent), record };
                    self.next += 1;
                    if let Some(stale) = self.open[index(slot)].replace(span) {
                        self.finished.push(stale);
                    }
                }
                TraceOp::Log { parent, record } => {
                    let parent = self.id(parent);
                    self.logs.push(Log { parent, record });
                }
                TraceOp::Close { slot } => {
                    let span = self.open[index(slot)].take().unwrap();
                    self.finished.push(span);
                }
            }
        }
    }
}

fn event(kind: EventKind) -> ChildEvent {
    ChildEvent {
        kind: Some(kind),
        total_execution_micros: 42,
        max_duration_micros: None,
        restored_script_name: None,
    }
}

fn attr<'a>(record: &'a Record, key: &str) -> Option<&'a AttrValue> {
    record.attributes.iter().find(|attribute| attribute.key == key).map(|found| &found.value)
}

fn shown(record: &Record, key: &str) -> String {
    attr(record, key).unwrap().display()
}

fn keys(record: &Record) -> Vec<&'static str> {
    record.attributes.iter().map(|attribute| attribute.key).collect()
}

fn configure() -> Option<ParentRequest> {
    Some(ParentRequest::Configure(Configure {
        script_name: "main.py".to_owned(),
        limits: None,
        type_check: false,
        type_check_stubs: None,
        monty_version: "0.0.1".to_owned(),
        assert_message_annotations: None,
    }))
}

fn feed(code: &str) -> Option<ParentRequest> {
    Some(ParentRequest::Feed(Feed {
        code: code.to_owned(),
        inputs: None,
        skip_type_check: false,
    }))
}

fn number(value: i64) -> WireValue {
    WireValue::Int(value)
}

/// Drives a whole session and checks the spans nest and the log records land
/// in the right ones.
#[test]
fn one_feed_produces_a_nested_span_tree() {
    let mut trace = Trace::default();
    let mut recorder = Recorder::new(true, Some(4321));

    trace.write(recorder.begin_turn(&configure()));
    trace.write(recorder.begin_turn(&feed("double(2)")));
    trace.write(recorder.event(&event(EventKind::FunctionCall(FunctionCall {
        function_name: "double".to_owned(),
        args: Some(Rendered { text: "[2]".to_owned(), cut: false }),
        kwargs: None,
        call_id: 1,
        method_call: false,
    }))));
    trace.write(recorder.begin_turn(&Some(ParentRequest::ResumeCall {
        call_id: 1,
        result: Some(ExtResult::ReturnValue(number(4))),
    })));
    trace.write(recorder.event(&event(EventKind::Complete { value: Some(number(4)) })));
    trace.write(recorder.begin_turn(&Some(ParentRequest::Reset)));

    // spans are finished innermost-first as they close
    let names: Vec<&str> =
        trace.finished.iter().map(|span| span.record.shape.template()).collect();
    assert_eq!(names, ["function call {function_name}", "feed", "session {script_name}"]);
    let by_name = |name: &str| -> &Span {
        trace.finished.iter().find(|span| span.record.shape.template() == name).unwrap()
    };
    let session = by_name("session {script_name}");
    let feed = by_name("feed");
    let call = by_name("function call {function_name}");
    assert_eq!(session.parent, None);
    assert_eq!(feed.parent, Some(session.id));
    assert_eq!(call.parent, Some(feed.id));
    assert!(matches!(attr(&session.record, "worker_pid"), Some(AttrValue::Int(4321))));

    // the resume answer lands in the suspension span, completion in the feed
    let parent_of = |name: &str| {
        trace.logs.iter().find(|log| log.record.shape.template() == name).unwrap().parent
    };
    assert_eq!(parent_of("call result"), Some(call.id));
    assert_eq!(parent_of("complete"), Some(feed.id));
}

/// Every attribute a host or the sandbox can make arbitrarily long is capped
/// and flagged, including those inside the answer to a call.
#[test]
fn oversize_attributes_are_capped_and_flagged() {
    let long = "x".repeat(ATTR_SIZE_LIMIT * 2);
    let result = ExtResult::Error(RaisedException {
        exc_type: "ValueError".to_owned(),
        known: Some("ValueError"),
        message: Some(long.clone()),
        traceback: vec![],
        data: None,
    });
    let (value, cut) = render_ext_result(&Some(result));
    assert!(cut);
    assert_eq!(value.display().len(), ATTR_SIZE_LIMIT);

    let (name, cut) = render_ext_result(&Some(ExtResult::NotFound(long)));
    assert!(cut);
    assert_eq!(name.display().len(), ATTR_SIZE_LIMIT);

    // a payload one byte past the cap: the escaped head fills it exactly, so
    // only the dropped input marks it as cut
    let payload = bytes_value(vec![b'a'; ATTR_SIZE_LIMIT + 1], |head: &[u8]| {
        assert_eq!(head.len(), ATTR_SIZE_LIMIT);
        format!("b'{}'", "a".repeat(head.len()))
    });
    let (text, cut) = bytes_attr(&payload);
    assert!(cut);
    assert_eq!(text.len(), ATTR_SIZE_LIMIT);
    let short = bytes_value(b"hi\xff".to_vec(), |_head: &[u8]| "b'hi\\xff'".to_owned());
    assert_eq!(bytes_attr(&short), ("hi\\xff".to_owned(), false));
}

/// The structured payload fields of an error are capped and flagged too.
#[test]
fn oversize_error_payload_is_capped() {
    let mut trace = Trace::default();
    let mut recorder = Recorder::new(true, None);
    trace.write(recorder.event(&event(EventKind::Error {
        exception: Some(RaisedException {
            exc_type: "UnicodeDecodeError".to_owned(),
            known: Some("UnicodeDecodeError"),
            message: None,
            traceback: vec![],
            data: Some(ExcData::Unicode(UnicodeErrorData {
                encoding: "u".repeat(ATTR_SIZE_LIMIT * 2),
                object: None,
                start: 0,
                end: 1,
                reason: "bad".to_owned(),
            })),
        }),
    })));

    let record = &trace.logs.first().unwrap().record;
    let Some(AttrValue::Text(encoding)) = attr(record, "exc_data.encoding") else {
        panic!("expected a string encoding attribute");
    };
    assert_eq!(encoding.as_str().len(), ATTR_SIZE_LIMIT);
    assert!(matches!(attr(record, "length_limit_exceeded"), Some(AttrValue::Bool(true))));
}

/// A disabled recorder records nothing and holds no spans, whatever passes
/// through it.
#[test]
fn disabled_recorder_is_inert() {
    let mut recorder = Recorder::new(false, None);
    let begun = recorder.begin_turn(&feed("1"));
    let ended = recorder.event(&event(EventKind::Complete { value: None }));
    let spans = recorder.spans();
    assert!(!spans.session && !spans.feed && !spans.pending);
    assert!(begun.is_empty() && ended.is_empty());
    assert!(!recorder.is_enabled());
}

#[test]
fn a_failed_dump_leaves_the_feed_open() {
    let mut trace = Trace::default();
    let mut recorder = Recorder::new(true, None);
    trace.write(recorder.begin_turn(&configure()));
    trace.write(recorder.begin_turn(&feed("f()")));
    trace.write(recorder.event(&event(EventKind::NameLookup { name: "f".to_owned() })));
    trace.write(recorder.begin_turn(&Some(ParentRequest::Dump)));
    assert_eq!(context_span(recorder.spans()), Some(Slot::Turn));
    trace.write(recorder.event(&event(EventKind::Error { exception: None })));
    assert_eq!(
        recorder.spans(),
        Spans { turn: false, pending: true, feed: true, session: true }
    );
    // an error that is no answer to a dump ends the feed
    trace.write(recorder.begin_turn(&Some(ParentRequest::ResumeNameLookup {
        kind: Some(NameLookupResult::Undefined),
    })));
    trace.write(recorder.event(&event(EventKind::Error { exception: None })));
    assert_eq!(
        recorder.spans(),
        Spans { turn: false, pending: false, feed: false, session: true }
    );
    trace.write(recorder.begin_turn(&Some(ParentRequest::Shutdown)));
    assert_eq!(context_span(recorder.spans()), None);
    let names: Vec<&str> =
        trace.finished.iter().map(|span| span.record.shape.template()).collect();
    assert_eq!(names, ["dump", "name lookup {name}", "feed", "session {script_name}"]);
}

#[test]
fn housekeeping_turns_open_and_close_their_span() {
    let mut trace = Trace::default();
    let mut recorder = Recorder::new(true, None);
    trace.write(recorder.begin_turn(&Some(ParentRequest::Load { state: vec![7; 9] })));
    let mut restored = event(EventKind::Acknowledged);
    restored.restored_script_name = Some("old.py".to_owned());
    trace.write(recorder.event(&restored));
    trace.write(recorder.begin_turn(&Some(ParentRequest::InstallDependencies {
        requirements: vec!["a\"b".to_owned(), "c".to_owned()],
    })));
    // a turn whose answer never came closes with the next request
    trace.write(recorder.begin_turn(&None));
    assert_eq!(trace.finished.len(), 2);
    assert_eq!(shown(&trace.finished[0].record, "state_bytes"), "9");
    assert_eq!(shown(&trace.finished[1].record, "requirements"), "[\"a\\\"b\",\"c\"]");
    assert_eq!(trace.logs[0].parent, Some(trace.finished[0].id));
    assert_eq!(shown(&trace.logs[0].record, "script_name"), "old.py");
    // an answer to no suspension is written at the root
    trace.write(recorder.begin_turn(&Some(ParentRequest::ResumeFutures { results: vec![] })));
    assert_eq!(trace.logs[1].parent, None);
    trace.write(recorder.event(&ChildEvent {
        kind: None,
        total_execution_micros: 0,
        max_duration_micros: None,
        restored_script_name: None,
    }));
    assert_eq!(trace.logs[2].record.shape, Shape::NoKind);
    assert!(trace.logs[2].record.shape.is_error());
    assert!(!Shape::Complete.is_error());
}

#[test]
fn session_records_carry_the_limits() {
    let mut recorder = Recorder::new(true, None);
    let ops = recorder.begin_turn(&Some(ParentRequest::Configure(Configure {
        script_name: "s.py".to_owned(),
        limits: Some(WireLimits {
            max_allocations: Some(1),
            max_duration_micros: Some(2),
            max_memory_bytes: Some(3),
            gc_interval: None,
            max_recursion_depth: Some(5),
        }),
        type_check: true,
        type_check_stubs: Some("stubs".to_owned()),
        monty_version: "1".to_owned(),
        assert_message_annotations: Some(false),
    })));
    assert_eq!(ops.len(), 1);
    match &ops[0] {
        TraceOp::Open { slot: Slot::Session, parent: None, record } => {
            assert_eq!(
                keys(record),
                [
                    "script_name",
                    "monty_version",
                    "type_check",
                    "type_check_stubs",
                    "assert_message_annotations",
                    "max_duration_micros",
                    "max_memory_bytes",
                    "gc_interval",
                    "max_recursion_depth",
                    "worker_pid",
                ]
            );
            assert_eq!(shown(record, "max_memory_bytes"), "3");
            assert!(matches!(attr(record, "gc_interval"), Some(AttrValue::Null)));
            assert!(matches!(attr(record, "worker_pid"), Some(AttrValue::Null)));
        }
        _ => panic!("expected a session span"),
    }
}

fn suspension(kind: EventKind) -> Record {
    let mut recorder = Recorder::new(true, None);
    let mut ops = recorder.event(&event(kind));
    match ops.pop() {
        Some(TraceOp::Open { slot: Slot::Pending, record, .. }) => record,
        _ => panic!("expected a suspension"),
    }
}

#[test]
fn os_calls_record_only_their_own_arguments() {
    let os_call = |call: Option<Call>| suspension(EventKind::OsCall(OsCall { call_id: 6, call }));
    let record = os_call(Some(Call::Mkdir {
        path: "/d".to_owned(),
        parents: true,
        exist_ok: false,
    }));
    assert_eq!(
        keys(&record),
        [
            "function",
            "args.path",
            "args.parents",
            "args.exist_ok",
            "call_id",
            "total_execution_micros",
            "max_duration_micros",
        ]
    );
    assert_eq!(shown(&record, "function"), "mkdir");
    assert_eq!(shown(&record, "args.parents"), "true");
    assert_eq!(shown(&record, "total_execution_micros"), "42");

    let record = os_call(Some(Call::Getenv { key: "K".to_owned(), default: Some(number(-7)) }));
    assert!(matches!(attr(&record, "args.default"), Some(AttrValue::Text(text)) if text == "-7"));
    let record = os_call(Some(Call::Getenv { key: "K".to_owned(), default: None }));
    assert!(matches!(attr(&record, "args.default"), Some(AttrValue::Null)));

    let record = os_call(Some(Call::DateTimeNow {
        tz: Some(TimeZone { offset_seconds: -3600, name: None }),
    }));
    assert_eq!(shown(&record, "args.tz_offset_seconds"), "-3600");
    let record = os_call(Some(Call::DateTimeNow { tz: None }));
    assert_eq!(attr(&record, "args.tz_offset_seconds").is_none(), true);
    let record = os_call(None);
    assert_eq!(shown(&record, "function"), "<missing>");
}

#[test]
fn futures_and_ids_render_as_lists() {
    let record = suspension(EventKind::ResolveFutures { pending_call_ids: vec![3, 4_000_000_000] });
    assert_eq!(shown(&record, "pending_call_ids"), "[3,4000000000]");
    assert_eq!(render_call_ids(&vec![]), None);
    assert_eq!(render_str_list(&vec![]), None);
    assert_eq!(
        render_str_list(&vec!["tab\t".to_owned(), "é".to_owned()]),
        Some("[\"tab\\t\",\"é\"]".to_owned())
    );
    assert_eq!(
        render_str_list(&vec!["\u{1}\u{8}\u{c}\n\r\u{1f}\u{7f}/\\\"".to_owned()]),
        Some("[\"\\u0001\\b\\f\\n\\r\\u001f\u{7f}/\\\\\\\"\"]".to_owned())
    );
    let results = vec![
        FutureResult { call_id: 1, result: Some(ExtResult::ReturnValue(WireValue::Bool(true))) },
        FutureResult { call_id: 22, result: Some(ExtResult::NotHandled) },
        FutureResult { call_id: 3, result: None },
        FutureResult { call_id: 4, result: Some(ExtResult::Future(9)) },
    ];
    let (text, cut) = render_future_results(&results);
    assert_eq!(text.as_deref(), Some("1: true, 22: not handled, 3: <missing>, 4: future 9"));
    assert!(!cut);
    assert_eq!(render_future_results(&vec![]), (None, false));
}

#[test]
fn values_keep_their_type() {
    let float = |value: f64| {
        attr_value(&WireValue::Float(FloatValue {
            bits: value.to_bits(),
            text: value.to_string(),
        }))
        .0
    };
    assert!(matches!(float(1.5), AttrValue::Float(found) if found.bits == 1.5f64.to_bits()));
    for (value, text) in [
        (f64::NAN, "nan"),
        (-f64::NAN, "nan"),
        (f64::INFINITY, "inf"),
        (f64::NEG_INFINITY, "-inf"),
    ] {
        assert!(matches!(float(value), AttrValue::Text(found) if found == text));
    }
    assert!(matches!(float(f64::MAX), AttrValue::Float(_)));
    assert!(matches!(float(-0.0), AttrValue::Float(_)));
    assert_eq!(attr_value(&WireValue::Missing).0.display(), "<missing>");
    let (value, cut) = attr_value(&WireValue::Other(Rendered { text: "{}".to_owned(), cut: true }));
    assert_eq!((value.display(), cut), ("{}".to_owned(), true));
    let (value, cut) = attr_value(&WireValue::Bytes(BytesValue {
        data: vec![255],
        escaped: "\\xff".to_owned(),
    }));
    assert_eq!((value.display(), cut), ("\\xff".to_owned(), false));
    assert!(matches!(optional_attr(&None), (AttrValue::Null, false)));
    assert_eq!(render_name_lookup(&None).0.display(), "<missing>");
    assert_eq!(render_name_lookup(&Some(NameLookupResult::Value(number(3)))).0.display(), "3");
}

#[test]
fn text_is_cut_on_a_character_boundary() {
    let fits = "x".repeat(ATTR_SIZE_LIMIT);
    assert_eq!(truncate_str(&fits), (fits.clone(), false));
    // the three-byte character would end one byte past the cap
    let mut long = "x".repeat(ATTR_SIZE_LIMIT - 2);
    long.push('€');
    let (text, cut) = truncate_str(&long);
    assert!(cut);
    assert_eq!(text, "x".repeat(ATTR_SIZE_LIMIT - 2));
}

#[test]
fn tracebacks_read_one_line_per_frame() {
    let frames = vec![
        StackFrame { filename: "a.py".to_owned(), line: Some(12), frame_name: None },
        StackFrame {
            filename: "b.py".to_owned(),
            line: None,
            frame_name: Some("f".to_owned()),
        },
    ];
    assert_eq!(
        render_traceback(&frames),
        (Some("a.py:12 in <module>\nb.py:0 in f".to_owned()), false)
    );
    assert_eq!(render_traceback(&vec![]), (None, false));
}

#[test]
fn error_records_follow_the_payload() {
    let mut recorder = Recorder::new(true, None);
    let mut ops = recorder.event(&event(EventKind::Error {
        exception: Some(RaisedException {
            exc_type: "JSONDecodeError".to_owned(),
            known: None,
            message: Some("no".to_owned()),
            traceback: vec![],
            data: Some(ExcData::Json(JsonErrorData {
                msg: "no".to_owned(),
                doc: None,
                pos: 1,
                lineno: 2,
                colno: 3,
            })),
        }),
    }));
    let Some(TraceOp::Log { record, .. }) = ops.pop() else {
        panic!("expected a record");
    };
    assert_eq!(
        keys(&record),
        [
            "exc_type",
            "exc_message",
            "traceback",
            "exc_data.msg",
            "exc_data.doc",
            "exc_data.pos",
            "exc_data.lineno",
            "exc_data.colno",
            "length_limit_exceeded",
            "total_execution_micros",
            "max_duration_micros",
        ]
    );
    assert_eq!(shown(&record, "exc_data.lineno"), "2");
    assert!(matches!(attr(&record, "length_limit_exceeded"), Some(AttrValue::Null)));
}

#[test]
fn prints_name_their_stream() {
    let mut recorder = Recorder::new(true, None);
    let mut ops = recorder.event(&event(EventKind::Print {
        text: "out".to_owned(),
        stream: Some(PrintStream::Stdout),
    }));
    let Some(TraceOp::Log { record, parent }) = ops.pop() else {
        panic!("expected a record");
    };
    assert_eq!(parent, None);
    assert_eq!(record.shape.template(), "print {stream}");
    assert_eq!(shown(&record, "stream"), "stdout");
    assert_eq!(shown(&record, "text"), "out");
}

#[test]
fn inputs_and_arguments_are_serialized_once() {
    let inputs = vec![
        NamedValue { name: "a".to_owned(), value: Some(1u32) },
        NamedValue { name: "b".to_owned(), value: None },
    ];
    let rendered = render_inputs(&inputs, &7u32, |pairs: Vec<(&str, &u32)>, cap: usize| {
        assert_eq!(cap, ATTR_SIZE_LIMIT);
        assert_eq!(pairs, vec![("a", &1), ("b", &7)]);
        Rendered { text: "{\"a\":1,\"b\":7}".to_owned(), cut: false }
    });
    assert_eq!(rendered.unwrap().text, "{\"a\":1,\"b\":7}");
    let none: Vec<NamedValue<u32>> = vec![];
    let absent = render_inputs(&none, &7u32, |_pairs: Vec<(&str, &u32)>, _cap: usize| {
        panic!("nothing to serialize")
    });
    assert!(absent.is_none());
    let (args, kwargs) = render_call_arguments(
        &vec![1u32],
        &vec![],
        |args: &Vec<u32>, _cap: usize| Rendered { text: format!("{args:?}"), cut: true },
        |_kwargs: &Vec<(u32, u32)>, _cap: usize| panic!("nothing to serialize"),
    );
    let args = args.unwrap();
    assert_eq!((args.text.as_str(), args.cut), ("[1]", true));
    assert!(kwargs.is_none());
}
