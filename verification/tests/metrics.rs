use monty_guardrails::instruments::{BuiltInstruments, Instrument, MetricKind};
use monty_guardrails::metrics::{outcome, Measurement, MetricValue, Metrics};
use monty_guardrails::protocol::{
    BytesValue, BytesWrite, Call, ChildEvent, EventKind, ExtResult, Feed, FunctionCall,
    NameLookupResult, OsCall, ParentRequest, PrintStream, RaisedException, Rendered, TextWrite,
    WireValue,
};
use monty_guardrails::time::Duration;
use monty_guardrails::turn_metrics::{
    exception_label, os_call, os_call_written, value_len, Answer, Suspension, TurnKind, TurnMetrics,
};

/// Every measurement taken so far, with attributes flattened to strings.
struct Capture(Vec<Measurement>);

impl Capture {
    fn of(metrics: &mut TurnMetrics) -> Capture {
        Capture(metrics.take_measurements())
    }

    fn attributes(&self, name: &str) -> Vec<Vec<(String, String)>> {
        self.0
            .iter()
            .filter(|taken| taken.name == name)
            .map(|taken| {
                taken
                    .attributes
                    .iter()
                    .map(|attribute| (attribute.key.to_owned(), attribute.value.display()))
                    .collect()
            })
            .collect()
    }

    fn values(&self, name: &str) -> Vec<MetricValue> {
        self.0.iter().filter(|taken| taken.name == name).map(|taken| taken.value).collect()
    }
}

fn as_f64(value: MetricValue) -> f64 {
    match value {
        MetricValue::I64(value) => value as f64,
        MetricValue::Seconds(duration) => {
            std::time::Duration::new(duration.as_secs(), duration.subsec_nanos()).as_secs_f64()
        }
        MetricValue::Ratio { used, budget } => used as f64 / budget as f64,
    }
}

fn recorder() -> TurnMetrics {
    TurnMetrics::new(Metrics::new())
}

fn event(kind: EventKind) -> ChildEvent {
    ChildEvent {
        kind: Some(kind),
        total_execution_micros: 0,
        max_duration_micros: None,
        restored_script_name: None,
    }
}

fn feed() -> Option<ParentRequest> {
    Some(ParentRequest::Feed(Feed {
        code: "double(2)".to_owned(),
        inputs: None,
        skip_type_check: false,
    }))
}

fn call_event(function_name: &str) -> ChildEvent {
    event(EventKind::FunctionCall(FunctionCall {
        function_name: function_name.to_owned(),
        args: None,
        kwargs: None,
        call_id: 1,
        method_call: false,
    }))
}

fn resume_call(result: ExtResult) -> Option<ParentRequest> {
    Some(ParentRequest::ResumeCall { call_id: 1, result: Some(result) })
}

fn exception(exc_type: &str, known: Option<&'static str>) -> Option<RaisedException> {
    Some(RaisedException {
        exc_type: exc_type.to_owned(),
        known,
        message: None,
        traceback: vec![],
        data: None,
    })
}

fn attribute<'a>(attributes: &'a [(String, String)], key: &str) -> Option<&'a str> {
    attributes.iter().find(|(k, _)| k == key).map(|(_, value)| value.as_str())
}

fn pair(key: &str, value: &str) -> (String, String) {
    (key.to_owned(), value.to_owned())
}

/// One feed with one host call: the suspension is counted, the round-trip
/// timed on its own, and the run recorded when the completion arrives.
#[test]
fn a_feed_records_its_run_and_its_round_trip() {
    let mut metrics = recorder();
    metrics.begin_turn(&feed());
    metrics.event(&call_event("double"));
    metrics.begin_turn(&resume_call(ExtResult::ReturnValue(WireValue::Int(4))));
    metrics.event(&event(EventKind::Complete { value: Some(WireValue::Int(4)) }));

    let capture = Capture::of(&mut metrics);
    assert_eq!(capture.attributes("monty.run.suspensions"), [[pair("kind", "function")]]);
    let calls = capture.attributes("monty.host.call.duration");
    assert_eq!(attribute(&calls[0], "function"), Some("double"));
    assert_eq!(attribute(&calls[0], "outcome"), Some("value"));
    assert_eq!(capture.attributes("monty.run.duration"), [[pair("outcome", "complete")]]);
    // no budget was configured, so only the execution time is recorded
    assert_eq!(capture.values("monty.run.execution_time").len(), 1);
    assert!(capture.values("monty.run.duration_budget_used").is_empty());
}

/// A name the host could not resolve is chosen by the sandboxed code, so it
/// must not become an attribute value.
#[test]
fn unresolved_function_names_are_not_recorded() {
    let mut metrics = recorder();
    metrics.begin_turn(&feed());
    metrics.event(&call_event("attacker_chosen_name"));
    metrics.begin_turn(&resume_call(ExtResult::NotFound("attacker_chosen_name".to_owned())));

    let capture = Capture::of(&mut metrics);
    let calls = capture.attributes("monty.host.call.duration");
    assert_eq!(attribute(&calls[0], "function"), None);
    assert_eq!(attribute(&calls[0], "outcome"), Some("not_found"));
}

/// Mount traffic is counted in both directions: a write from the request the
/// sandbox made, a read from the answer the host gave.
#[test]
fn os_calls_count_the_bytes_they_move() {
    let mut metrics = recorder();
    metrics.begin_turn(&feed());
    metrics.event(&event(EventKind::OsCall(OsCall {
        call_id: 1,
        call: Some(Call::WriteText(TextWrite {
            path: "/mnt/f.txt".to_owned(),
            data: "hello".to_owned(),
        })),
    })));
    metrics.begin_turn(&resume_call(ExtResult::ReturnValue(WireValue::Other(Rendered {
        text: "null".to_owned(),
        cut: false,
    }))));
    metrics.event(&event(EventKind::OsCall(OsCall {
        call_id: 2,
        call: Some(Call::ReadText("/mnt/f.txt".to_owned())),
    })));
    metrics.begin_turn(&resume_call(ExtResult::ReturnValue(WireValue::Text("hello".to_owned()))));

    let capture = Capture::of(&mut metrics);
    assert_eq!(
        capture.values("monty.os.io.bytes"),
        [MetricValue::I64(5), MetricValue::I64(5)]
    );
    assert_eq!(
        capture.attributes("monty.os.io.bytes"),
        [[pair("direction", "write")], [pair("direction", "read")]]
    );
    let functions: Vec<_> = capture
        .attributes("monty.os.call.duration")
        .iter()
        .map(|attributes| attribute(attributes, "function").unwrap().to_owned())
        .collect();
    assert_eq!(functions, ["write_text", "read_text"]);
}

/// The worker reports its execution clock cumulatively, so each run
/// contributes the delta while the budget ratio uses the running total.
#[test]
fn execution_time_is_a_delta_and_the_budget_a_total() {
    let mut metrics = recorder();
    for total in [100, 250] {
        metrics.begin_turn(&feed());
        metrics.event(&ChildEvent {
            kind: Some(EventKind::Complete { value: None }),
            total_execution_micros: total,
            max_duration_micros: Some(1000),
            restored_script_name: None,
        });
    }

    let capture = Capture::of(&mut metrics);
    let times: Vec<f64> =
        capture.values("monty.run.execution_time").into_iter().map(as_f64).collect();
    assert_eq!(
        times,
        [
            std::time::Duration::from_micros(100).as_secs_f64(),
            std::time::Duration::from_micros(150).as_secs_f64()
        ]
    );
    let shares: Vec<f64> =
        capture.values("monty.run.duration_budget_used").into_iter().map(as_f64).collect();
    assert_eq!(shares, [0.1, 0.25]);
}

/// The sandbox can raise a class of any name, so only the interpreter's own
/// exception types are recorded; everything else collapses into one series.
#[test]
fn exception_types_are_bounded() {
    let mut metrics = recorder();
    for (exc_type, known) in [("ValueError", Some("ValueError")), ("MyCustomError", None)] {
        metrics.begin_turn(&feed());
        metrics.event(&event(EventKind::Error { exception: exception(exc_type, known) }));
    }

    let capture = Capture::of(&mut metrics);
    assert_eq!(
        capture.attributes("monty.errors"),
        [[pair("exc_type", "ValueError")], [pair("exc_type", "other")]]
    );
    let runs = capture.attributes("monty.run.duration");
    assert_eq!(attribute(&runs[0], "outcome"), Some("error"));
}

/// A dump is a housekeeping turn: it reports its own size and duration and
/// leaves the feed it interrupted open.
#[test]
fn a_dump_reports_its_size_without_ending_the_run() {
    let mut metrics = recorder();
    metrics.begin_turn(&feed());
    metrics.begin_turn(&Some(ParentRequest::Dump));
    metrics.event(&event(EventKind::DumpResult { state: vec![0; 32] }));

    let capture = Capture::of(&mut metrics);
    assert_eq!(capture.values("monty.snapshot.bytes"), [MetricValue::I64(32)]);
    let turns = capture.attributes("monty.turn.duration");
    assert_eq!(attribute(&turns[0], "turn"), Some("dump"));
    assert!(capture.values("monty.run.duration").is_empty());
}

#[test]
fn a_failed_dump_keeps_the_run_and_its_suspension() {
    let mut metrics = recorder();
    metrics.begin_turn(&feed());
    metrics.event(&call_event("slow"));
    metrics.begin_turn(&Some(ParentRequest::Dump));
    metrics.event(&event(EventKind::Error { exception: None }));
    let capture = Capture::of(&mut metrics);
    assert_eq!(
        capture.attributes("monty.turn.duration"),
        [[pair("turn", "dump"), pair("outcome", "error")]]
    );
    assert!(capture.values("monty.run.duration").is_empty());
    // the suspension is still answered, once
    metrics.begin_turn(&resume_call(ExtResult::Future(3)));
    metrics.begin_turn(&resume_call(ExtResult::Future(3)));
    let capture = Capture::of(&mut metrics);
    assert_eq!(
        capture.attributes("monty.host.call.duration"),
        [[pair("kind", "function"), pair("outcome", "future"), pair("function", "slow")]]
    );
}

#[test]
fn housekeeping_turns_are_timed_by_kind() {
    let mut metrics = recorder();
    for request in [
        ParentRequest::Load { state: vec![1] },
        ParentRequest::InstallDependencies { requirements: vec![] },
        ParentRequest::Reset,
        ParentRequest::Dump,
    ] {
        metrics.begin_turn(&Some(request));
        metrics.event(&event(EventKind::Acknowledged));
    }
    // nothing is open, so nothing ends
    metrics.event(&event(EventKind::Acknowledged));
    let capture = Capture::of(&mut metrics);
    let turns: Vec<String> = capture
        .attributes("monty.turn.duration")
        .iter()
        .map(|attributes| attribute(attributes, "turn").unwrap().to_owned())
        .collect();
    assert_eq!(turns, ["load", "install_dependencies", "reset", "dump"]);
    assert_eq!(TurnKind::Configure.name(), "configure");
    assert_eq!(capture.0.len(), 4);
}

#[test]
fn a_new_session_restarts_the_execution_clock() {
    let mut metrics = recorder();
    let complete = |total: u64| ChildEvent {
        kind: Some(EventKind::Complete { value: None }),
        total_execution_micros: total,
        max_duration_micros: Some(0),
        restored_script_name: None,
    };
    metrics.event(&complete(500));
    // a total that goes back counts for nothing
    metrics.event(&complete(400));
    metrics.event(&complete(700));
    metrics.begin_turn(&Some(ParentRequest::Load { state: vec![] }));
    metrics.event(&complete(700));
    let capture = Capture::of(&mut metrics);
    assert_eq!(
        capture.values("monty.run.execution_time"),
        [500, 0, 200, 700].map(|micros| MetricValue::Seconds(Duration::from_micros(micros)))
    );
    // a budget of nothing has no share, and a feed never seen has no wall time
    assert!(capture.values("monty.run.duration_budget_used").is_empty());
    assert!(capture.values("monty.run.duration").is_empty());
}

#[test]
fn suspensions_are_counted_and_answered_by_kind() {
    let mut metrics = recorder();
    metrics.event(&event(EventKind::NameLookup { name: "x".to_owned() }));
    metrics.begin_turn(&Some(ParentRequest::ResumeNameLookup {
        kind: Some(NameLookupResult::Undefined),
    }));
    metrics.event(&event(EventKind::ResolveFutures { pending_call_ids: vec![1] }));
    metrics.begin_turn(&Some(ParentRequest::ResumeFutures { results: vec![] }));
    metrics.event(&event(EventKind::OsCall(OsCall { call_id: 1, call: None })));
    metrics.begin_turn(&Some(ParentRequest::ResumeCall { call_id: 1, result: None }));
    let capture = Capture::of(&mut metrics);
    assert_eq!(
        capture.attributes("monty.run.suspensions"),
        [[pair("kind", "name_lookup")], [pair("kind", "futures")], [pair("kind", "os")]]
    );
    assert_eq!(
        capture.attributes("monty.host.call.duration"),
        [
            [pair("kind", "name_lookup"), pair("outcome", "undefined")],
            [pair("kind", "futures"), pair("outcome", "resolved")]
        ]
    );
    assert_eq!(
        capture.attributes("monty.os.call.duration"),
        [[pair("function", "unknown"), pair("outcome", "missing")]]
    );
}

#[test]
fn prints_and_frames_are_counted_in_bytes() {
    let mut metrics = recorder();
    metrics.event(&event(EventKind::Print {
        text: "hé".to_owned(),
        stream: Some(PrintStream::Stderr),
    }));
    metrics.event(&event(EventKind::Print { text: "x".to_owned(), stream: None }));
    metrics.frame("sent", 17);
    let capture = Capture::of(&mut metrics);
    assert_eq!(
        capture.values("monty.print.bytes"),
        [MetricValue::I64(3), MetricValue::I64(1)]
    );
    assert_eq!(
        capture.attributes("monty.print.bytes"),
        [[pair("stream", "stderr")], [pair("stream", "unspecified")]]
    );
    assert_eq!(capture.values("monty.wire.frame.bytes"), [MetricValue::I64(17)]);
    assert_eq!(capture.attributes("monty.wire.frame.bytes"), [[pair("direction", "sent")]]);
}

#[test]
fn messages_without_a_record_leave_nothing() {
    let mut metrics = recorder();
    metrics.begin_turn(&None);
    metrics.begin_turn(&Some(ParentRequest::Shutdown));
    metrics.event(&event(EventKind::FatalError { message: "gone".to_owned() }));
    metrics.event(&event(EventKind::Shutdown { dump: None }));
    metrics.event(&ChildEvent {
        kind: None,
        total_execution_micros: 9,
        max_duration_micros: Some(9),
        restored_script_name: None,
    });
    assert!(Capture::of(&mut metrics).0.is_empty());
}

#[test]
fn classifications_are_exact() {
    assert_eq!(os_call(&Some(Call::ReadBytes("p".to_owned()))), ("read_bytes", true));
    assert_eq!(os_call(&Some(Call::GetEnviron)), ("get_environ", false));
    assert_eq!(os_call(&None), ("unknown", false));
    let write = BytesWrite {
        path: "p".to_owned(),
        data: BytesValue { data: vec![0, 1, 2], escaped: "\\x00\\x01\\x02".to_owned() },
    };
    assert_eq!(os_call_written(&Some(Call::AppendBytes(write))), Some(3));
    assert_eq!(os_call_written(&Some(Call::DateToday)), None);
    assert_eq!(value_len(Some(&WireValue::Text("hé".to_owned()))), Some(3));
    assert_eq!(value_len(Some(&WireValue::Int(7))), None);
    assert_eq!(value_len(None), None);
    assert_eq!(exception_label(Some("KeyError")), "KeyError");
    assert_eq!(exception_label(None), "other");
    assert_eq!(Answer::NotHandled.name(), "not_handled");
    assert_eq!(Suspension::Futures.label(), "futures");
    assert_eq!(outcome(true), "ok");
    assert_eq!(outcome(false), "error");
}

#[test]
fn pool_measurements_carry_their_instrument() {
    let mut metrics = Metrics::new();
    metrics.workers(2, 5);
    metrics.checkout_wait(Duration::from_micros(1500), "waited");
    metrics.worker_spawn(Duration::from_secs(1), "subprocess", outcome(true));
    metrics.worker_terminated("crash");
    metrics.session_duration(Duration::from_secs(2), "finished");
    let taken = metrics.take();
    assert!(metrics.take().is_empty());
    let names: Vec<&str> = taken.iter().map(|measurement| measurement.name).collect();
    assert_eq!(
        names,
        [
            "monty.pool.workers",
            "monty.pool.workers",
            "monty.pool.checkout.wait",
            "monty.pool.worker.spawn.duration",
            "monty.pool.worker.terminated",
            "monty.pool.session.duration",
        ]
    );
    assert_eq!(taken[0].kind, MetricKind::Gauge);
    assert_eq!(taken[0].unit, "{worker}");
    assert_eq!(taken[0].value.as_i64(), 2);
    assert_eq!(taken[1].value, MetricValue::I64(5));
    assert_eq!(taken[1].attributes[0].value.display(), "busy");
    assert_eq!(taken[2].kind, MetricKind::Histogram);
    assert_eq!(taken[2].value, MetricValue::Seconds(Duration::new(0, 1_500_000)));
    assert_eq!(taken[3].attributes[0].key, "transport");
    assert_eq!(taken[4].kind, MetricKind::Counter);
    assert_eq!(taken[4].value.as_u64(), 1);
    assert_eq!(taken[5].description, "Lifetime of a checked-out session.");
    assert_eq!(MetricValue::I64(-3).as_u64(), 0);
    assert_eq!(MetricValue::bytes(12), MetricValue::I64(12));
}

#[test]
fn instruments_are_built_once_each() {
    let mut built = BuiltInstruments::new();
    assert_eq!(built.find(Instrument::Errors), None);
    let first = built.find_or_add(Instrument::Errors);
    let second = built.find_or_add(Instrument::Workers);
    let again = built.find_or_add(Instrument::Errors);
    assert_eq!(first, (0, true));
    assert_eq!(second, (1, true));
    assert_eq!(again, (0, false));
    assert_eq!(built.find(Instrument::Workers), Some(1));
}

#[test]
fn durations_run_from_start_to_end() {
    let at = Duration::from_secs;
    let mut metrics = recorder();
    metrics.begin_turn_at(&feed(), at(1));
    metrics.event_at(&call_event("f"), at(10));
    metrics.begin_turn_at(&Some(ParentRequest::Dump), at(20));
    metrics.event_at(&event(EventKind::Acknowledged), at(23));
    metrics.begin_turn_at(&resume_call(ExtResult::ReturnValue(WireValue::Int(1))), at(27));
    metrics.event_at(&event(EventKind::TypingError { diagnostics: "no".to_owned() }), at(51));
    let capture = Capture::of(&mut metrics);
    let seconds = |secs: u64| [MetricValue::Seconds(Duration::from_secs(secs))];
    assert_eq!(capture.values("monty.host.call.duration"), seconds(17));
    assert_eq!(capture.values("monty.turn.duration"), seconds(3));
    assert_eq!(capture.values("monty.run.duration"), seconds(50));
    assert_eq!(capture.attributes("monty.run.duration"), [[pair("outcome", "typing_error")]]);
}

/// The name of a called function is recorded exactly when the host's answer
/// shows that it resolved the function.
#[test]
fn only_resolved_function_names_are_recorded() {
    let answers: Vec<(Option<ExtResult>, &str, bool)> = vec![
        (Some(ExtResult::ReturnValue(WireValue::Int(4))), "value", true),
        (Some(ExtResult::Error(exception("E", None).unwrap())), "error", true),
        (Some(ExtResult::Future(2)), "future", true),
        (Some(ExtResult::NotFound("f".to_owned())), "not_found", false),
        (Some(ExtResult::NotHandled), "not_handled", false),
        (None, "missing", false),
    ];
    for (result, outcome, named) in answers {
        let mut metrics = recorder();
        metrics.begin_turn(&feed());
        metrics.event(&call_event("attacker_chosen_name"));
        metrics.begin_turn(&Some(ParentRequest::ResumeCall { call_id: 1, result }));
        let capture = Capture::of(&mut metrics);
        let calls = capture.attributes("monty.host.call.duration");
        assert_eq!(calls.len(), 1);
        assert_eq!(attribute(&calls[0], "kind"), Some("function"));
        assert_eq!(attribute(&calls[0], "outcome"), Some(outcome));
        let name = if named { Some("attacker_chosen_name") } else { None };
        assert_eq!(attribute(&calls[0], "function"), name);
    }
    assert!(Answer::Future.is_resolved() && !Answer::Undefined.is_resolved());
}

fn reported(kind: EventKind, total: u64) -> ChildEvent {
    ChildEvent {
        kind: Some(kind),
        total_execution_micros: total,
        max_duration_micros: None,
        restored_script_name: None,
    }
}

fn execution_micros(metrics: &mut TurnMetrics) -> Vec<u128> {
    Capture::of(metrics)
        .values("monty.run.execution_time")
        .into_iter()
        .map(|value| match value {
            MetricValue::Seconds(duration) => duration.as_micros(),
            _ => panic!("expected a duration"),
        })
        .collect()
}

/// The reply to a load re-bases the execution clock, so a run contributes its
/// own time and not what the restored session had used before.
#[test]
fn a_load_re_bases_the_execution_clock() {
    let load = || Some(ParentRequest::Load { state: vec![] });
    let mut metrics = recorder();
    metrics.begin_turn(&load());
    metrics.event(&reported(EventKind::Acknowledged, 1000));
    metrics.begin_turn(&feed());
    metrics.event(&reported(EventKind::Complete { value: None }, 1100));
    assert_eq!(execution_micros(&mut metrics), [100]);

    // a session restored mid-suspension answers with the suspension, and only
    // that first reply counts as one
    metrics.begin_turn(&load());
    metrics.event(&reported(call_event("f").kind.unwrap(), 500));
    metrics.begin_turn(&resume_call(ExtResult::Future(1)));
    metrics.event(&reported(EventKind::ResolveFutures { pending_call_ids: vec![1] }, 600));
    metrics.begin_turn(&Some(ParentRequest::ResumeFutures { results: vec![] }));
    metrics.event(&reported(EventKind::Complete { value: None }, 750));
    assert_eq!(execution_micros(&mut metrics), [250]);

    // an error that answers the load ran nothing
    metrics.begin_turn(&load());
    metrics.event(&reported(EventKind::Error { exception: None }, 900));
    assert_eq!(execution_micros(&mut metrics), [0]);

    // other acknowledgements leave the clock alone
    metrics.begin_turn(&Some(ParentRequest::Dump));
    metrics.event(&reported(EventKind::Acknowledged, 5000));
    metrics.begin_turn(&feed());
    metrics.event(&reported(EventKind::Complete { value: None }, 5100));
    assert_eq!(execution_micros(&mut metrics), [4200]);
}
