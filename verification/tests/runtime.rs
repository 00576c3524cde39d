use monty_guardrails::address_space::{apply, plan, settle};
use monty_guardrails::ceiling::{
    ceiling, charge_refusal, limit_refusal, resize, ExitReason, MemoryMeter, Resize,
    BASE_HEADROOM, TYPE_CHECK_HEADROOM,
};
use monty_guardrails::dump_sign::{
    frame_signed, release_inner, split_signed, DumpKey, InvalidDump, InvalidDumpKey,
    RandomnessUnavailable, MIN_DUMP_KEY_LEN,
};
use monty_guardrails::exercise::{script_name, Action, FeedOutcome, Tally};
use monty_guardrails::frames::{
    decode_events, dispatch, dispatch_result, event_from_proto, next_frame, DecodedEvent, EventTag,
    Status,
};

fn key(bytes: &[u8]) -> DumpKey {
    match DumpKey::new(bytes.to_vec()) {
        Ok(key) => key,
        Err(error) => panic!("{}", error.message()),
    }
}

fn hex(text: &str) -> Vec<u8> {
    (0..text.len() / 2)
        .map(|i| u8::from_str_radix(&text[2 * i..2 * i + 2], 16).unwrap())
        .collect()
}

#[test]
fn short_keys_are_rejected() {
    assert!(DumpKey::new(vec![7; MIN_DUMP_KEY_LEN]).is_ok());
    assert!(matches!(DumpKey::new(vec![7; MIN_DUMP_KEY_LEN - 1]), Err(InvalidDumpKey)));
    assert_eq!(InvalidDumpKey.message(), "dump key must be at least 16 bytes");
}

#[test]
fn a_signed_dump_verifies_under_its_key_alone() {
    let signer = key(b"0123456789abcdef");
    let state = b"envelope".to_vec();
    let signed = signer.sign(&state);
    assert_eq!(signed.len(), 33 + state.len());
    assert_eq!(signed[0], 1);
    assert_eq!(&signed[33..], &state[..]);
    assert_eq!(signer.verify(signed.clone()), Ok(state.clone()));
    assert_eq!(signer.clone().verify(signed.clone()), Ok(state));
    assert_eq!(
        key(b"fedcba9876543210").verify(signed.clone()),
        Err(InvalidDump::BadSignature)
    );
    for i in 1..signed.len() {
        let mut tampered = signed.clone();
        tampered[i] ^= 1;
        assert_eq!(signer.verify(tampered), Err(InvalidDump::BadSignature));
    }
    assert_eq!(signer.verify(signer.sign(&[])), Ok(vec![]));
}

#[test]
fn refused_dumps_say_why() {
    let signer = key(&[9; 40]);
    assert_eq!(signer.verify(vec![1; 32]), Err(InvalidDump::TooShort));
    assert_eq!(
        signer.verify(vec![2; 33]),
        Err(InvalidDump::UnsupportedVersion { version: 2 })
    );
    assert_eq!(signer.verify(vec![1; 33]), Err(InvalidDump::BadSignature));
    assert_eq!(InvalidDump::TooShort.message(), "too short to be a signed dump");
    assert_eq!(
        InvalidDump::UnsupportedVersion { version: 255 }.message(),
        "unsupported signed-dump version 255 (expected 1)"
    );
    assert_eq!(
        InvalidDump::BadSignature.message(),
        "signature verification failed — the dump was signed with a different key or corrupted"
    );
}

/// The tag is the HMAC-SHA256 of the context and the state.
#[test]
fn the_tag_is_a_known_hmac() {
    let signed = key(&[0x0b; 20]).sign(b"Hi There");
    assert_eq!(
        signed[1..33].to_vec(),
        hex("768905294f846bb9372a7e7d6acc5953f487011195d5973b3ac308d6a3fcb953")
    );
}

#[test]
fn framing_splits_again() {
    let signed = frame_signed(&[5; 32], b"state");
    assert_eq!(split_signed(signed), Ok((vec![5; 32], b"state".to_vec())));
    assert_eq!(split_signed(vec![]), Err(InvalidDump::TooShort));
    assert_eq!(release_inner(vec![3], true), Ok(vec![3]));
    assert_eq!(release_inner(vec![3], false), Err(InvalidDump::BadSignature));
}

#[test]
fn generated_keys_differ() {
    let (first, second) = match (DumpKey::ephemeral(), DumpKey::ephemeral()) {
        (Ok(first), Ok(second)) => (first, second),
        _ => panic!("no randomness"),
    };
    assert_eq!(first.key_len(), 32);
    let signed = first.sign(b"x");
    assert_eq!(second.verify(signed.clone()), Err(InvalidDump::BadSignature));
    assert_eq!(first.verify(signed), Ok(b"x".to_vec()));
    // not the zeroes the key starts as
    assert!(first.sign(b"x") != key(&[0; 32]).sign(b"x"));
    assert_eq!(first.debug_text(), "DumpKey(..)");
    assert!(RandomnessUnavailable.message().starts_with("OS randomness unavailable"));
}

#[test]
fn a_generated_key_is_what_the_generator_gave() {
    let bytes: Vec<u8> = (0..32).collect();
    match DumpKey::from_random(bytes.clone(), Ok(())) {
        Ok(made) => assert_eq!(made.sign(b"x"), key(&bytes).sign(b"x")),
        Err(_) => panic!("the generator did not fail"),
    }
    assert!(matches!(
        DumpKey::from_random(bytes, Err(getrandom::Error::UNSUPPORTED)),
        Err(RandomnessUnavailable)
    ));
}

#[test]
fn the_ceiling_is_five_budgets_and_headroom() {
    assert_eq!(ceiling(Some(1000), false, 77), 77 + 5000 + 4 * 1024 * 1024);
    assert_eq!(ceiling(Some(1000), true, 77), 77 + 5000 + 32 * 1024 * 1024);
    assert_eq!(ceiling(None, true, 77), usize::MAX);
    assert_eq!(ceiling(Some(u64::MAX), false, 0), usize::MAX);
    assert_eq!((BASE_HEADROOM, TYPE_CHECK_HEADROOM), (4_194_304, 33_554_432));
}

#[test]
fn charges_past_the_ceiling_are_refused() {
    let mut meter = MemoryMeter::new();
    assert_eq!(meter.charge(100), None);
    meter.arm_ceiling(Some(0), false);
    assert_eq!(meter.limit(), 100 + BASE_HEADROOM);
    assert_eq!(meter.charge(BASE_HEADROOM), None);
    assert_eq!(meter.charge(1), Some(ExitReason::Ceiling { size: 1 }));
    meter.refund(1);
    assert_eq!(meter.live(), 100 + BASE_HEADROOM);
    // what the session uses plays no part in its ceiling
    meter.arm_ceiling(Some(0), false);
    assert_eq!(meter.limit(), 100 + BASE_HEADROOM);
    // a leaner moment lowers the baseline for good
    meter.refund(60 + BASE_HEADROOM);
    meter.arm_ceiling(Some(1), false);
    assert_eq!(meter.limit(), 40 + 5 + BASE_HEADROOM);
    meter.arm_ceiling(None, false);
    assert_eq!(meter.charge(usize::MAX - 40), None);
}

#[test]
fn resizing_counts_the_difference() {
    assert_eq!(resize(10, 25), Resize::Charge(15));
    assert_eq!(resize(25, 10), Resize::Refund(15));
    assert_eq!(resize(7, 7), Resize::Charge(0));
    let mut meter = MemoryMeter::new();
    meter.charge(10);
    assert_eq!(meter.realloc(10, 25), None);
    assert_eq!(meter.live(), 25);
    assert_eq!(meter.set_limit(30), None);
    assert_eq!(meter.realloc(25, 31), Some(ExitReason::Ceiling { size: 6 }));
    assert_eq!(meter.realloc(31, 1), None);
    assert_eq!(meter.live(), 1);
}

#[test]
fn a_limit_below_use_is_reported_at_once() {
    let mut meter = MemoryMeter::new();
    meter.charge(50);
    let reason = meter.set_limit(49);
    assert_eq!(reason, Some(ExitReason::BelowUse { limit: 49, live: 50 }));
    assert_eq!(
        reason.unwrap().message(),
        "monty worker: memory ceiling of 49 bytes is below the 50 bytes already in use"
    );
    assert_eq!(limit_refusal(50, 50), None);
    assert_eq!(charge_refusal(usize::MAX, 1, usize::MAX), None);
    assert_eq!(
        ExitReason::Ceiling { size: 8 }.message(),
        "monty worker: allocation of 8 bytes exceeds the memory ceiling"
    );
    assert_eq!(
        ExitReason::Refused { size: 9 }.message(),
        "monty worker: allocation of 9 bytes failed"
    );
}

#[test]
fn an_exit_reports_once_and_lifts_the_ceiling() {
    let mut meter = MemoryMeter::new();
    meter.set_limit(5);
    assert!(meter.begin_exit());
    assert_eq!(meter.charge(1000), None);
    assert!(!meter.begin_exit());
}

#[test]
fn the_address_space_is_only_ever_lowered() {
    assert_eq!(plan(100, Ok((200, 300))), Ok(100));
    assert_eq!(plan(250, Ok((200, 300))), Ok(200));
    assert_eq!(plan(400, Ok((u64::MAX, 300))), Ok(300));
    assert_eq!(
        plan(1, Err("denied".to_owned())),
        Err("cannot read RLIMIT_AS: denied".to_owned())
    );
    assert_eq!(settle(7, Ok(())), Ok(Some(7)));
    assert_eq!(
        settle(7, Err("denied".to_owned())),
        Err("cannot set RLIMIT_AS to 7 bytes: denied".to_owned())
    );
}

#[test]
fn applying_a_limit_reads_and_sets_it() {
    let set = |limit: u64| {
        assert_eq!(limit, 20);
        Ok(())
    };
    assert_eq!(apply(50, true, || Ok((20, 30)), set), Ok(Some(20)));
    assert_eq!(
        apply(50, false, || panic!("read"), |_limit: u64| panic!("set")),
        Ok(None)
    );
    assert_eq!(
        apply(50, true, || Err("no".to_owned()), |_limit: u64| panic!("set")),
        Err("cannot read RLIMIT_AS: no".to_owned())
    );
    assert_eq!(
        apply(50, true, || Ok((60, 60)), |_limit: u64| Err("no".to_owned())),
        Err("cannot set RLIMIT_AS to 50 bytes: no".to_owned())
    );
}

fn framed(bodies: &[&[u8]]) -> Vec<u8> {
    let mut out = Vec::new();
    for body in bodies {
        out.extend_from_slice(&(body.len() as u32).to_le_bytes());
        out.extend_from_slice(body);
    }
    out
}

fn decode(frame: &[u8]) -> Option<DecodedEvent> {
    let kind = match frame.first()? {
        1 => Some(EventTag::Print),
        12 => Some(EventTag::Shutdown),
        0 => None,
        _ => return None,
    };
    Some(DecodedEvent { kind, payload: frame[1..].to_vec() })
}

#[test]
fn frames_are_read_in_turn() {
    let long = vec![8u8; 300];
    let input = framed(&[b"ab", b"", &long]);
    let mut offset = 0;
    assert_eq!(next_frame(&input, &mut offset), Some(&b"ab"[..]));
    assert_eq!(offset, 6);
    assert_eq!(next_frame(&input, &mut offset), Some(&b""[..]));
    assert_eq!(next_frame(&input, &mut offset), Some(&long[..]));
    assert_eq!(offset, input.len());
    assert_eq!(next_frame(&input, &mut offset), None);
    assert_eq!(offset, input.len());
    // a missing body leaves the offset behind the header
    let mut offset = 0;
    assert_eq!(next_frame(&[3, 0, 0, 0, 1], &mut offset), None);
    assert_eq!(offset, 4);
    let mut offset = usize::MAX;
    assert_eq!(next_frame(&[3, 0, 0, 0, 1], &mut offset), None);
    assert_eq!(offset, usize::MAX);
}

#[test]
fn replies_decode_whole_or_not_at_all() {
    let events = decode_events(&framed(&[b"\x01hi", b"\x0c"]), decode).unwrap();
    let seen: Vec<(u32, &[u8])> =
        events.iter().map(|event| (event.kind, event.payload.as_slice())).collect();
    assert_eq!(seen, [(1, &b"hi"[..]), (12, &b""[..])]);
    assert!(decode_events(&[], decode).unwrap().is_empty());
    // an event of no kind, an event that cannot be decoded, a cut frame
    assert!(decode_events(&framed(&[b"\x01", b"\x00"]), decode).is_none());
    assert!(decode_events(&framed(&[b"\x05"]), decode).is_none());
    let mut cut = framed(&[b"\x01hi"]);
    cut.pop();
    assert!(decode_events(&cut, decode).is_none());
}

#[test]
fn events_go_by_their_number() {
    let tags = [
        EventTag::Print,
        EventTag::FunctionCall,
        EventTag::OsCall,
        EventTag::NameLookup,
        EventTag::ResolveFutures,
        EventTag::Complete,
        EventTag::Error,
        EventTag::TypingError,
        EventTag::DumpResult,
        EventTag::Acknowledged,
        EventTag::FatalError,
        EventTag::Shutdown,
    ];
    for (i, tag) in tags.into_iter().enumerate() {
        let event = event_from_proto(DecodedEvent { kind: Some(tag), payload: vec![4] }).unwrap();
        assert_eq!((event.kind, event.payload), (i as u32 + 1, vec![4]));
    }
    assert!(event_from_proto(DecodedEvent { kind: None, payload: vec![] }).is_none());
}

#[test]
fn a_malformed_reply_ends_the_worker() {
    let encode = |message: &str| message.as_bytes().to_vec();
    let result = dispatch(&framed(&[b"\x01x"]), true, decode, encode);
    assert_eq!(result.status, Status::Continue);
    assert_eq!(result.events.len(), 1);
    let result = dispatch(&framed(&[b"\x01x"]), false, decode, encode);
    assert_eq!(result.status, Status::Shutdown);
    let result = dispatch(&[1], true, decode, encode);
    assert_eq!(result.status, Status::Shutdown);
    assert_eq!(result.events.len(), 1);
    assert_eq!(result.events[0].kind, 11);
    assert_eq!(result.events[0].payload, b"worker produced a malformed reply");
    let result = dispatch_result(Some(vec![]), true, |_message: &str| panic!("no error"));
    assert_eq!((result.status, result.events.len()), (Status::Continue, 0));
}

#[test]
fn untyped_scripts_are_retried_once() {
    let mut tally = Tally::new();
    assert_eq!(tally.after_feed(FeedOutcome::Complete, false), Action::Finish);
    assert_eq!(tally.after_feed(FeedOutcome::Runtime, false), Action::Finish);
    assert_eq!(tally.after_feed(FeedOutcome::Suspended, false), Action::Abandon);
    assert_eq!(tally.after_feed(FeedOutcome::Typing, false), Action::RetryUnchecked);
    assert_eq!(tally.after_feed(FeedOutcome::Complete, true), Action::Finish);
    assert_eq!(tally.after_feed(FeedOutcome::Typing, true), Action::Fail);
    assert_eq!(tally.after_feed(FeedOutcome::Failed, false), Action::Fail);
    assert_eq!(tally, Tally { completed: 2, typing_errors: 1 });
    assert_eq!(
        tally.summary(11),
        "Exercised 11 test cases, 2 completed, 1 retried without type checking"
    );
    assert_eq!(script_name(Some("a.py")), "a.py");
    assert_eq!(script_name(None), "main.py");
}
