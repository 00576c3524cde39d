//! Framed replies of a worker that lives in the same process as its host.
//!
//! A reply is a run of frames, each a little-endian 32-bit length followed by
//! that many bytes of one encoded event. The host gets the events one by one,
//! each as the number of its kind and its own encoded payload.

use vstd::prelude::*;
use vstd::slice::slice_subrange;

verus! {

/// Length of a frame's header.
pub const FRAME_HEADER_LEN: usize = 4;

/// What the host is told when a worker's reply cannot be read.
pub const MALFORMED_REPLY: &'static str = "worker produced a malformed reply";

/// The number four bytes stand for, least significant first.
pub open spec fn le_value(bytes: Seq<u8>) -> nat {
    bytes[0] as nat + 256 * bytes[1] as nat + 65_536 * bytes[2] as nat + 16_777_216
        * bytes[3] as nat
}

/// The four bytes of a number, least significant first.
pub open spec fn le_bytes(value: nat) -> Seq<u8> {
    seq![
        (value % 256) as u8,
        (value / 256 % 256) as u8,
        (value / 65_536 % 256) as u8,
        (value / 16_777_216 % 256) as u8,
    ]
}

/// Whether a whole header stands at `offset`.
pub open spec fn has_header(input: Seq<u8>, offset: nat) -> bool {
    offset + FRAME_HEADER_LEN <= input.len()
}

/// The length the header at `offset` announces.
pub open spec fn announced(input: Seq<u8>, offset: nat) -> nat {
    le_value(input.subrange(offset as int, offset + FRAME_HEADER_LEN))
}

/// Whether a whole frame stands at `offset`.
pub open spec fn has_frame(input: Seq<u8>, offset: nat) -> bool {
    has_header(input, offset) && offset + FRAME_HEADER_LEN + announced(input, offset) <= input.len()
}

/// Where the frame at `offset` ends.
pub open spec fn frame_end(input: Seq<u8>, offset: nat) -> nat {
    offset + FRAME_HEADER_LEN as nat + announced(input, offset)
}

/// The body of the frame at `offset`.
pub open spec fn frame_body(input: Seq<u8>, offset: nat) -> Seq<u8> {
    input.subrange(offset + FRAME_HEADER_LEN, frame_end(input, offset) as int)
}

/// The bodies of the frames from `offset` on, up to the first that is missing
/// or cut off.
pub open spec fn frames_from(input: Seq<u8>, offset: nat) -> Seq<Seq<u8>>
    decreases input.len() - offset,
{
    if has_frame(input, offset) {
        seq![frame_body(input, offset)] + frames_from(input, frame_end(input, offset))
    } else {
        Seq::empty()
    }
}

/// Whether frames make up the input from `offset` on, to its very end.
pub open spec fn well_framed(input: Seq<u8>, offset: nat) -> bool
    decreases input.len() - offset,
{
    offset >= input.len() || (has_frame(input, offset) && well_framed(
        input,
        frame_end(input, offset),
    ))
}

/// Returns the next length-prefixed message in `input` and moves `offset`
/// behind it. Where the body is cut off, `offset` is left behind the header.
pub fn next_frame<'a>(input: &'a [u8], offset: &mut usize) -> (frame: Option<&'a [u8]>)
    ensures
        frame is Some <==> has_frame(input@, *old(offset) as nat),
        match frame {
            Some(frame) => frame@ == frame_body(input@, *old(offset) as nat) && *final(offset)
                == frame_end(input@, *old(offset) as nat),
            None => *final(offset) == *old(offset) + if has_header(input@, *old(offset) as nat) {
                FRAME_HEADER_LEN as int
            } else {
                0
            },
        },
{
    let start: usize = *offset;
    if start > input.len() || input.len() - start < FRAME_HEADER_LEN {
        return None;
    }
    assert(input@.subrange(start as int, start + FRAME_HEADER_LEN)[0] == input@[start as int]);
    let len: u32 = input[start] as u32 + 256 * input[start + 1] as u32 + 65_536 * input[start
        + 2] as u32 + 16_777_216 * input[start + 3] as u32;
    assert(len == announced(input@, start as nat));
    let body: usize = start + FRAME_HEADER_LEN;
    *offset = body;
    if input.len() - body < len as usize {
        return None;
    }
    let end: usize = body + len as usize;
    *offset = end;
    Some(slice_subrange(input, body, end))
}

/// The kinds of event a worker replies with.
#[derive(Debug, Clone, Copy, PartialEq, Eq, Structural)]
pub enum EventTag {
    Print,
    FunctionCall,
    OsCall,
    NameLookup,
    ResolveFutures,
    Complete,
    Error,
    TypingError,
    DumpResult,
    Acknowledged,
    FatalError,
    Shutdown,
}

/// The number a kind of event goes by.
pub open spec fn tag_number(tag: EventTag) -> u32 {
    match tag {
        EventTag::Print => 1,
        EventTag::FunctionCall => 2,
        EventTag::OsCall => 3,
        EventTag::NameLookup => 4,
        EventTag::ResolveFutures => 5,
        EventTag::Complete => 6,
        EventTag::Error => 7,
        EventTag::TypingError => 8,
        EventTag::DumpResult => 9,
        EventTag::Acknowledged => 10,
        EventTag::FatalError => 11,
        EventTag::Shutdown => 12,
    }
}

impl EventTag {
    /// The number this kind of event goes by.
    pub fn number(self) -> (number: u32)
        ensures
            number == tag_number(self),
    {
        match self {
            EventTag::Print => 1,
            EventTag::FunctionCall => 2,
            EventTag::OsCall => 3,
            EventTag::NameLookup => 4,
            EventTag::ResolveFutures => 5,
            EventTag::Complete => 6,
            EventTag::Error => 7,
            EventTag::TypingError => 8,
            EventTag::DumpResult => 9,
            EventTag::Acknowledged => 10,
            EventTag::FatalError => 11,
            EventTag::Shutdown => 12,
        }
    }
}

/// A decoded event: its kind, when the message names one, and the encoded
/// message of that kind.
#[derive(Debug)]
pub struct DecodedEvent {
    pub kind: Option<EventTag>,
    pub payload: Vec<u8>,
}

/// An event as the host gets it.
#[derive(Debug)]
pub struct Event {
    pub kind: u32,
    pub payload: Vec<u8>,
}

/// An event with its payload as a sequence.
pub struct EventView {
    pub kind: u32,
    pub payload: Seq<u8>,
}

impl View for Event {
    type V = EventView;

    open spec fn view(&self) -> EventView {
        EventView { kind: self.kind, payload: self.payload@ }
    }
}

/// The event a decoded one is handed out as; one without a kind is none.
pub open spec fn handed_out(event: DecodedEvent) -> Option<EventView> {
    match event.kind {
        Some(tag) => Some(EventView { kind: tag_number(tag), payload: event.payload@ }),
        None => None,
    }
}

/// Splits a decoded event into the number of its kind and its payload.
pub fn event_from_proto(event: DecodedEvent) -> (result: Option<Event>)
    ensures
        match result {
            Some(handed) => handed_out(event) == Some(handed@),
            None => handed_out(event) is None,
        },
{
    match event.kind {
        Some(tag) => Some(Event { kind: tag.number(), payload: event.payload }),
        None => None,
    }
}

/// Whether decoding a frame can give `event`.
pub open spec fn decodes_to<D: Fn(&[u8]) -> Option<DecodedEvent>>(
    decode: D,
    body: Seq<u8>,
    event: EventView,
) -> bool {
    exists|frame: &[u8], decoded: DecodedEvent| #[trigger]
        decode.ensures((frame,), Some(decoded)) && frame@ == body && handed_out(decoded) == Some(
            event,
        )
}

/// Whether decoding a frame can fail, or give an event without a kind.
pub open spec fn fails_to_decode<D: Fn(&[u8]) -> Option<DecodedEvent>>(
    decode: D,
    body: Seq<u8>,
) -> bool {
    exists|frame: &[u8], outcome: Option<DecodedEvent>| #[trigger]
        decode.ensures((frame,), outcome) && frame@ == body && (outcome matches Some(decoded)
            ==> handed_out(decoded) is None)
}

/// Whether decoding a reply can give `result`: an event for each frame, in
/// order, or nothing when the reply does not end with a frame or one of its
/// frames fails.
pub open spec fn reply_decoded<D: Fn(&[u8]) -> Option<DecodedEvent>>(
    decode: D,
    input: Seq<u8>,
    result: Option<Vec<Event>>,
) -> bool {
    let bodies = frames_from(input, 0);
    match result {
        Some(events) => {
            &&& well_framed(input, 0)
            &&& events@.len() == bodies.len()
            &&& forall|i: int|
                0 <= i < events@.len() ==> decodes_to(decode, bodies[i], #[trigger] events@[i]@)
        },
        None => !well_framed(input, 0) || exists|i: int|
            0 <= i < bodies.len() && fails_to_decode(decode, #[trigger] bodies[i]),
    }
}

/// Decodes a reply into its events, in order. `decode` reads one frame; the
/// reply is refused as a whole when it does not end with a frame, or when a
/// frame cannot be decoded or names no kind.
pub fn decode_events<D: Fn(&[u8]) -> Option<DecodedEvent>>(input: &[u8], decode: D) -> (result:
    Option<Vec<Event>>)
    requires
        forall|frame: &[u8]| decode.requires((frame,)),
    ensures
        reply_decoded(decode, input@, result),
{
    let mut events: Vec<Event> = Vec::new();
    let mut offset: usize = 0;
    let ghost mut bodies: Seq<Seq<u8>> = Seq::empty();
    assert(frames_from(input@, 0) =~= bodies + frames_from(input@, 0));
    while offset < input.len()
        invariant
            offset <= input@.len(),
            forall|frame: &[u8]| decode.requires((frame,)),
            events@.len() == bodies.len(),
            well_framed(input@, 0) == well_framed(input@, offset as nat),
            frames_from(input@, 0) == bodies + frames_from(input@, offset as nat),
            forall|i: int|
                0 <= i < events@.len() ==> decodes_to(decode, bodies[i], #[trigger] events@[i]@),
        decreases input@.len() - offset,
    {
        let ghost start = offset as nat;
        let frame = match next_frame(input, &mut offset) {
            Some(frame) => frame,
            None => {
                return None;
            },
        };
        proof {
            bodies = bodies.push(frame@);
            assert(frames_from(input@, 0) =~= bodies + frames_from(input@, offset as nat));
            assert(frames_from(input@, 0)[events@.len() as int] == frame@);
        }
        let decoded = match decode(frame) {
            Some(decoded) => decoded,
            None => {
                assert(fails_to_decode(decode, frame@));
                return None;
            },
        };
        let ghost message = decoded;
        assert(decode.ensures((frame,), Some(message)));
        let event = match event_from_proto(decoded) {
            Some(event) => event,
            None => {
                assert(fails_to_decode(decode, frame@));
                return None;
            },
        };
        assert(decodes_to(decode, frame@, event@));
        events.push(event);
    }
    assert(bodies + frames_from(input@, offset as nat) =~= bodies);
    Some(events)
}

/// Whether the worker goes on after a request.
#[derive(Debug, Clone, Copy, PartialEq, Eq, Structural)]
pub enum Status {
    Continue,
    Shutdown,
}

/// What the host gets back for one request.
#[derive(Debug)]
pub struct DispatchResult {
    pub status: Status,
    pub events: Vec<Event>,
}

/// Whether `result` answers a request whose reply was decoded as `events`.
pub open spec fn answers<G: FnOnce(&str) -> Vec<u8>>(
    events: Option<Vec<Event>>,
    proceed: bool,
    encode_fatal: G,
    result: DispatchResult,
) -> bool {
    match events {
        Some(events) => result.events == events && result.status == (if proceed {
            Status::Continue
        } else {
            Status::Shutdown
        }),
        None => {
            &&& result.status == Status::Shutdown
            &&& result.events@.len() == 1
            &&& result.events@[0].kind == tag_number(EventTag::FatalError)
            &&& encode_fatal.ensures((MALFORMED_REPLY,), result.events@[0].payload)
        },
    }
}

/// Answers a request from the decoded reply. One that could not be read ends
/// the worker, with a fatal error as the only event; `encode_fatal` encodes the
/// error's message.
pub fn dispatch_result<G: FnOnce(&str) -> Vec<u8>>(
    events: Option<Vec<Event>>,
    proceed: bool,
    encode_fatal: G,
) -> (result: DispatchResult)
    requires
        forall|message: &str| encode_fatal.requires((message,)),
    ensures
        answers(events, proceed, encode_fatal, result),
{
    match events {
        Some(events) => {
            let status = if proceed {
                Status::Continue
            } else {
                Status::Shutdown
            };
            DispatchResult { status, events }
        },
        None => {
            let payload = encode_fatal(MALFORMED_REPLY);
            let mut events: Vec<Event> = Vec::new();
            events.push(Event { kind: EventTag::FatalError.number(), payload });
            DispatchResult { status: Status::Shutdown, events }
        },
    }
}

/// Answers a request from the worker's reply to it.
pub fn dispatch<D: Fn(&[u8]) -> Option<DecodedEvent>, G: FnOnce(&str) -> Vec<u8>>(
    reply: &[u8],
    proceed: bool,
    decode: D,
    encode_fatal: G,
) -> (result: DispatchResult)
    requires
        forall|frame: &[u8]| decode.requires((frame,)),
        forall|message: &str| encode_fatal.requires((message,)),
    ensures
        exists|events: Option<Vec<Event>>| #[trigger]
            reply_decoded(decode, reply@, events) && answers(events, proceed, encode_fatal, result),
{
    let events = decode_events(reply, decode);
    let ghost decoded = events;
    let result = dispatch_result(events, proceed, encode_fatal);
    assert(reply_decoded(decode, reply@, decoded));
    result
}

/// The frame of a body.
pub open spec fn framed(body: Seq<u8>) -> Seq<u8> {
    le_bytes(body.len()) + body
}

/// A run of framed bodies.
pub open spec fn all_framed(bodies: Seq<Seq<u8>>) -> Seq<u8>
    decreases bodies.len(),
{
    if bodies.len() == 0 {
        Seq::empty()
    } else {
        framed(bodies[0]) + all_framed(bodies.drop_first())
    }
}

/// Reading back a number gives what was written.
pub proof fn law_length_round_trip(value: nat)
    requires
        value <= u32::MAX,
    ensures
        le_value(le_bytes(value)) == value,
{
}

/// Reading a run of frames gives back the bodies it was made of, whatever they
/// hold, as long as each length fits its header.
pub proof fn law_frames_round_trip(bodies: Seq<Seq<u8>>)
    requires
        forall|i: int| 0 <= i < bodies.len() ==> (#[trigger] bodies[i]).len() <= u32::MAX,
    ensures
        well_framed(all_framed(bodies), 0),
        frames_from(all_framed(bodies), 0) == bodies,
{
    lemma_frames_after(Seq::empty(), bodies);
    assert(Seq::<u8>::empty() + all_framed(bodies) =~= all_framed(bodies));
}

/// A frame is read where it stands.
proof fn lemma_frame_between(before: Seq<u8>, body: Seq<u8>, after: Seq<u8>)
    requires
        body.len() <= u32::MAX,
    ensures
        ({
            let input = before + (framed(body) + after);
            &&& has_frame(input, before.len())
            &&& frame_end(input, before.len()) == (before + framed(body)).len()
            &&& frame_body(input, before.len()) == body
        }),
{
    let input = before + (framed(body) + after);
    let offset = before.len();
    assert(input.subrange(offset as int, offset + FRAME_HEADER_LEN) =~= le_bytes(body.len()));
    law_length_round_trip(body.len());
    assert(frame_body(input, offset) =~= body);
}

/// Frames are read the same wherever they start.
proof fn lemma_frames_after(before: Seq<u8>, bodies: Seq<Seq<u8>>)
    requires
        forall|i: int| 0 <= i < bodies.len() ==> (#[trigger] bodies[i]).len() <= u32::MAX,
    ensures
        well_framed(before + all_framed(bodies), before.len()),
        frames_from(before + all_framed(bodies), before.len()) == bodies,
    decreases bodies.len(),
{
    if bodies.len() == 0 {
        assert(bodies =~= Seq::empty());
    } else {
        let body = bodies[0];
        let rest = bodies.drop_first();
        let past = before + framed(body);
        assert(before + all_framed(bodies) =~= past + all_framed(rest));
        assert forall|i: int| 0 <= i < rest.len() implies (#[trigger] rest[i]).len()
            <= u32::MAX by {
            assert(rest[i] == bodies[i + 1]);
        }
        lemma_frames_after(past, rest);
        lemma_frame_between(before, body, all_framed(rest));
        assert(seq![body] + rest =~= bodies);
    }
}

/// The numbers of the kinds tell them apart.
pub proof fn law_number_identifies_kind(tag: EventTag, other: EventTag)
    ensures
        tag_number(tag) == tag_number(other) <==> tag == other,
        1 <= tag_number(tag) <= 12,
{
}

/// A length is written least significant byte first, and read that way.
#[verifier::rlimit(40)]
pub proof fn law_lengths_are_little_endian(value: nat, bytes: Seq<u8>)
    requires
        value <= u32::MAX,
        bytes.len() == 4,
    ensures
        le_bytes(value).len() == 4,
        le_bytes(value)[0] == value % 256,
        le_bytes(value)[1] == value / 256 % 256,
        le_bytes(value)[2] == value / 65_536 % 256,
        le_bytes(value)[3] == value / 16_777_216,
        le_value(bytes) % 256 == bytes[0],
        le_value(bytes) / 256 % 256 == bytes[1],
        le_value(bytes) / 65_536 % 256 == bytes[2],
        le_value(bytes) / 16_777_216 == bytes[3],
        le_bytes(le_value(bytes)) == bytes,
{
    assert(le_bytes(le_value(bytes)) =~= bytes);
}

/// A frame is a header of four bytes, which gives the length of the body, and the
/// body right behind it; the next frame starts right behind the body. Where fewer
/// bytes are left than that, there is no frame.
pub proof fn law_body_stands_behind_its_header(input: Seq<u8>, offset: nat, i: int)
    ensures
        offset + 4 > input.len() ==> !has_frame(input, offset),
        offset + 4 <= input.len() ==> {
            let at = offset as int;
            let len = input[at] + 256 * input[at + 1] + 65_536 * input[at + 2] + 16_777_216
                * input[at + 3];
            &&& has_frame(input, offset) <==> offset + 4 + len <= input.len()
            &&& has_frame(input, offset) ==> frame_body(input, offset).len() == len && frame_end(
                input,
                offset,
            ) == offset + 4 + len
            &&& has_frame(input, offset) && 0 <= i < len ==> frame_body(input, offset)[i]
                == input[offset + 4 + i]
        },
{
    if offset + 4 <= input.len() {
        let header = input.subrange(offset as int, offset + FRAME_HEADER_LEN);
        let at = offset as int;
        assert(header[0] == input[at]);
        assert(header[1] == input[at + 1]);
        assert(header[2] == input[at + 2]);
        assert(header[3] == input[at + 3]);
    }
}

/// A reply that is read as frames to its very end is nothing but those frames:
/// putting the bodies back behind their headers gives the reply, so one that is
/// cut off anywhere is not read.
pub proof fn law_only_runs_of_frames_are_read(input: Seq<u8>)
    ensures
        well_framed(input, 0) ==> input == all_framed(frames_from(input, 0)),
{
    if well_framed(input, 0) {
        lemma_frames_make_up_the_input(input, 0);
        assert(input.skip(0) =~= input);
    }
}

proof fn lemma_frames_make_up_the_input(input: Seq<u8>, offset: nat)
    requires
        well_framed(input, offset),
        offset <= input.len(),
    ensures
        input.skip(offset as int) == all_framed(frames_from(input, offset)),
    decreases input.len() - offset,
{
    if offset >= input.len() {
        assert(!has_frame(input, offset));
        assert(input.skip(offset as int) =~= Seq::empty());
    } else {
        let end = frame_end(input, offset);
        let body = frame_body(input, offset);
        let header = input.subrange(offset as int, offset + FRAME_HEADER_LEN);
        lemma_frames_make_up_the_input(input, end);
        law_lengths_are_little_endian(0, header);
        assert(header =~= le_bytes(body.len()));
        let bodies = frames_from(input, offset);
        assert(bodies[0] == body);
        assert(bodies.drop_first() =~= frames_from(input, end));
        assert(input.skip(offset as int) =~= framed(body) + input.skip(end as int));
    }
}

/// A run of frames that is read gives one event for each frame, in their order:
/// each the payload that its frame decoded to, under the number of its kind.
pub proof fn law_frames_give_their_events<D: Fn(&[u8]) -> Option<DecodedEvent>>(
    decode: D,
    bodies: Seq<Seq<u8>>,
    events: Vec<Event>,
    i: int,
)
    requires
        forall|j: int| 0 <= j < bodies.len() ==> (#[trigger] bodies[j]).len() <= u32::MAX,
        reply_decoded(decode, all_framed(bodies), Some(events)),
        0 <= i < bodies.len(),
    ensures
        events@.len() == bodies.len(),
        exists|frame: &[u8], decoded: DecodedEvent| #[trigger]
            decode.ensures((frame,), Some(decoded)) && frame@ == bodies[i] && decoded.kind is Some
                && events@[i].kind == tag_number(decoded.kind->0) && events@[i].payload@
                == decoded.payload@,
{
    law_frames_round_trip(bodies);
    let event = events@[i]@;
    assert(decodes_to(decode, bodies[i], event));
    let (frame, decoded) = choose|frame: &[u8], decoded: DecodedEvent| #[trigger]
        decode.ensures((frame,), Some(decoded)) && frame@ == bodies[i] && handed_out(decoded)
            == Some(event);
    assert(decode.ensures((frame,), Some(decoded)));
}

/// A run of frames is refused only for a frame that does not decode, or decodes to
/// an event without a kind.
pub proof fn law_readable_frames_are_not_refused<D: Fn(&[u8]) -> Option<DecodedEvent>>(
    decode: D,
    bodies: Seq<Seq<u8>>,
)
    requires
        forall|j: int| 0 <= j < bodies.len() ==> (#[trigger] bodies[j]).len() <= u32::MAX,
        reply_decoded(decode, all_framed(bodies), None),
    ensures
        exists|frame: &[u8], outcome: Option<DecodedEvent>| #[trigger]
            decode.ensures((frame,), outcome) && bodies.contains(frame@) && (outcome is None
                || outcome->0.kind is None),
{
    law_frames_round_trip(bodies);
    let i = choose|i: int| 0 <= i < bodies.len() && fails_to_decode(decode, #[trigger] bodies[i]);
    let (frame, outcome) = choose|frame: &[u8], outcome: Option<DecodedEvent>| #[trigger]
        decode.ensures((frame,), outcome) && frame@ == bodies[i] && (outcome matches Some(decoded)
            ==> handed_out(decoded) is None);
    assert(decode.ensures((frame,), outcome) && bodies.contains(frame@));
}

/// The kinds of event go by fixed numbers, in the order of the protocol.
pub proof fn law_kinds_go_by_fixed_numbers(tag: EventTag)
    ensures
        tag_number(tag) == 1 <==> tag is Print,
        tag_number(tag) == 2 <==> tag is FunctionCall,
        tag_number(tag) == 3 <==> tag is OsCall,
        tag_number(tag) == 4 <==> tag is NameLookup,
        tag_number(tag) == 5 <==> tag is ResolveFutures,
        tag_number(tag) == 6 <==> tag is Complete,
        tag_number(tag) == 7 <==> tag is Error,
        tag_number(tag) == 8 <==> tag is TypingError,
        tag_number(tag) == 9 <==> tag is DumpResult,
        tag_number(tag) == 10 <==> tag is Acknowledged,
        tag_number(tag) == 11 <==> tag is FatalError,
        tag_number(tag) == 12 <==> tag is Shutdown,
{
}

/// A request whose reply was read is answered with that reply's events, and the
/// worker goes on exactly when it is told to. A reply that could not be read ends
/// the worker, whatever it was told, with one fatal error that says so.
pub proof fn law_unreadable_reply_ends_the_worker<G: FnOnce(&str) -> Vec<u8>>(
    events: Option<Vec<Event>>,
    proceed: bool,
    encode_fatal: G,
    result: DispatchResult,
)
    requires
        answers(events, proceed, encode_fatal, result),
    ensures
        events matches Some(read) ==> result.events == read && (result.status is Continue
            <==> proceed),
        events is None ==> {
            &&& result.status is Shutdown
            &&& result.events@.len() == 1
            &&& result.events@[0].kind == 11
            &&& encode_fatal.ensures(
                ("worker produced a malformed reply",),
                result.events@[0].payload,
            )
        },
{
}

} // verus!
