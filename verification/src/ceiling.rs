//! The memory ceiling of a worker: a count of live bytes held against a limit.
//!
//! The sandbox's own `max_memory` only bounds allocations the interpreter
//! remembers to account for. This is the backstop below it, kept by the
//! worker's allocator: it counts every live byte, and a charge that takes the
//! count past the ceiling ends the process deliberately.
//!
//! Counting starts with the process, not with the ceiling: a counter armed
//! later would see frees it never charged.

use crate::limits::{narrow_usize, narrowed};
use crate::sizes::{held_size, saturating_product};
use crate::text::{begins_with, decimal_text, ends_with, push_decimal};
use vstd::prelude::*;
use vstd::string::*;

verus! {

/// How far above `max_memory` the ceiling sits, covering what the
/// interpreter's tracker undercounts.
pub const CEILING_MULTIPLE: usize = 5;

/// Fixed headroom for the worker's own machinery: 4 MiB.
pub const BASE_HEADROOM: usize = 4_194_304;

/// Fixed headroom when type checking: 32 MiB.
pub const TYPE_CHECK_HEADROOM: usize = 33_554_432;

/// Why a worker ran out of memory.
#[derive(Debug, Clone, Copy, PartialEq, Eq, Structural)]
pub enum ExitReason {
    /// A request would take the live bytes past the ceiling.
    Ceiling { size: usize },
    /// The system allocator refused a request.
    Refused { size: usize },
    /// A ceiling was set below what is already in use.
    BelowUse { limit: usize, live: usize },
}

/// How the reason reads.
pub open spec fn reason_text(reason: ExitReason) -> Seq<char> {
    match reason {
        ExitReason::Ceiling { size } => "monty worker: allocation of "@ + decimal_text(size as nat)
            + " bytes exceeds the memory ceiling"@,
        ExitReason::Refused { size } => "monty worker: allocation of "@ + decimal_text(size as nat)
            + " bytes failed"@,
        ExitReason::BelowUse { limit, live } => "monty worker: memory ceiling of "@ + decimal_text(
            limit as nat,
        ) + " bytes is below the "@ + decimal_text(live as nat) + " bytes already in use"@,
    }
}

/// A text of fixed parts around one number, or two. The reason for running out
/// of memory is reported from these, as putting the text together would take
/// memory.
#[derive(Debug, Clone, Copy)]
pub struct Pieces {
    pub head: &'static str,
    pub number: usize,
    pub middle: &'static str,
    /// The second number, and what follows it.
    pub rest: Option<(usize, &'static str)>,
}

/// The text the pieces make up.
pub open spec fn pieces_text(pieces: Pieces) -> Seq<char> {
    let first = pieces.head@ + decimal_text(pieces.number as nat) + pieces.middle@;
    match pieces.rest {
        Some((number, tail)) => first + decimal_text(number as nat) + tail@,
        None => first,
    }
}

impl ExitReason {
    /// The pieces of this reason's text.
    pub fn pieces(&self) -> (pieces: Pieces)
        ensures
            pieces_text(pieces) == reason_text(*self),
    {
        match *self {
            ExitReason::Ceiling { size } => Pieces {
                head: "monty worker: allocation of ",
                number: size,
                middle: " bytes exceeds the memory ceiling",
                rest: None,
            },
            ExitReason::Refused { size } => Pieces {
                head: "monty worker: allocation of ",
                number: size,
                middle: " bytes failed",
                rest: None,
            },
            ExitReason::BelowUse { limit, live } => Pieces {
                head: "monty worker: memory ceiling of ",
                number: limit,
                middle: " bytes is below the ",
                rest: Some((live, " bytes already in use")),
            },
        }
    }

    /// How this reason reads.
    pub fn message(&self) -> (text: String)
        ensures
            text@ == reason_text(*self),
    {
        let pieces = self.pieces();
        let mut out = String::new();
        out.append(pieces.head);
        push_decimal(&mut out, pieces.number as u64);
        out.append(pieces.middle);
        if let Some((number, tail)) = pieces.rest {
            push_decimal(&mut out, number as u64);
            out.append(tail);
        }
        assert(out@ =~= pieces_text(pieces));
        out
    }
}

/// The number of values a `usize` has.
pub open spec fn usize_values() -> nat {
    (usize::MAX + 1) as nat
}

/// The headroom a ceiling leaves for the worker's own machinery.
pub open spec fn headroom(type_check: bool) -> nat {
    if type_check {
        TYPE_CHECK_HEADROOM as nat
    } else {
        BASE_HEADROOM as nat
    }
}

/// The ceiling a sandbox budget calls for above a baseline; without a budget
/// there is none. It saturates where `usize` is too narrow for it.
pub open spec fn ceiling_for(max_memory: Option<u64>, type_check: bool, baseline: nat) -> nat {
    match max_memory {
        Some(bytes) => held_size(
            baseline + narrowed(bytes) * CEILING_MULTIPLE as nat + headroom(type_check),
        ),
        None => usize::MAX as nat,
    }
}

/// The ceiling a sandbox budget calls for above a baseline.
pub fn ceiling(max_memory: Option<u64>, type_check: bool, baseline: usize) -> (limit: usize)
    ensures
        limit == ceiling_for(max_memory, type_check, baseline as nat),
{
    match max_memory {
        Some(bytes) => {
            let headroom: usize = if type_check {
                TYPE_CHECK_HEADROOM
            } else {
                BASE_HEADROOM
            };
            baseline.saturating_add(
                saturating_product(narrow_usize(bytes), CEILING_MULTIPLE),
            ).saturating_add(headroom)
        },
        None => usize::MAX,
    }
}

/// Whether charging `size` bytes on top of `live` takes the count past `limit`.
pub open spec fn breaches(live: nat, size: nat, limit: nat) -> bool {
    held_size(live + size) > limit
}

/// Why charging `size` bytes on top of `live` ends the worker, if it does.
pub fn charge_refusal(live: usize, size: usize, limit: usize) -> (reason: Option<ExitReason>)
    ensures
        reason == (if breaches(live as nat, size as nat, limit as nat) {
            Some(ExitReason::Ceiling { size })
        } else {
            None
        }),
{
    if live.saturating_add(size) > limit {
        Some(ExitReason::Ceiling { size })
    } else {
        None
    }
}

/// Why a ceiling of `limit` bytes ends a worker using `live`, if it does.
pub fn limit_refusal(limit: usize, live: usize) -> (reason: Option<ExitReason>)
    ensures
        reason == (if live > limit {
            Some(ExitReason::BelowUse { limit, live })
        } else {
            None
        }),
{
    if live > limit {
        Some(ExitReason::BelowUse { limit, live })
    } else {
        None
    }
}

/// What resizing a block does to the count.
#[derive(Debug, Clone, Copy, PartialEq, Eq, Structural)]
pub enum Resize {
    Charge(usize),
    Refund(usize),
}

/// What resizing a block from `old_size` to `new_size` does to the count.
pub fn resize(old_size: usize, new_size: usize) -> (change: Resize)
    ensures
        change == (if new_size >= old_size {
            Resize::Charge((new_size - old_size) as usize)
        } else {
            Resize::Refund((old_size - new_size) as usize)
        }),
{
    if new_size >= old_size {
        Resize::Charge(new_size - old_size)
    } else {
        Resize::Refund(old_size - new_size)
    }
}

/// The live bytes of a worker and the ceiling over them.
#[derive(Debug, Clone, Copy, PartialEq, Eq, Structural)]
pub struct MemoryMeter {
    live: usize,
    limit: usize,
    baseline: usize,
    reporting: bool,
}

/// A meter as numbers.
pub struct MeterView {
    /// Bytes currently charged.
    pub live: nat,
    /// The ceiling they may not exceed.
    pub limit: nat,
    /// The leanest the process has been when a ceiling was armed.
    pub baseline: nat,
    /// Whether the reason for an exit was already reported.
    pub reporting: bool,
}

impl View for MemoryMeter {
    type V = MeterView;

    closed spec fn view(&self) -> MeterView {
        MeterView {
            live: self.live as nat,
            limit: self.limit as nat,
            baseline: self.baseline as nat,
            reporting: self.reporting,
        }
    }
}

/// A meter with a ceiling re-derived from a sandbox budget.
pub open spec fn armed(meter: MeterView, max_memory: Option<u64>, type_check: bool) -> MeterView {
    let baseline = if meter.live < meter.baseline {
        meter.live
    } else {
        meter.baseline
    };
    MeterView { baseline, limit: ceiling_for(max_memory, type_check, baseline), ..meter }
}

/// A count of bytes brought back into the range of a `usize` it left by less
/// than that range.
pub open spec fn wrapped(live: int) -> nat {
    if live < 0 {
        (live + usize_values()) as nat
    } else if live < usize_values() {
        live as nat
    } else {
        (live - usize_values()) as nat
    }
}

/// A meter with `size` more bytes charged.
pub open spec fn charged(meter: MeterView, size: nat) -> MeterView {
    MeterView { live: wrapped((meter.live + size) as int), ..meter }
}

/// A meter with `size` bytes given back.
pub open spec fn refunded(meter: MeterView, size: nat) -> MeterView {
    MeterView { live: wrapped(meter.live - size), ..meter }
}

/// Why a charge of `size` bytes ends the worker, if it does.
pub open spec fn charged_reason(meter: MeterView, size: usize) -> Option<ExitReason> {
    if breaches(meter.live, size as nat, meter.limit) {
        Some(ExitReason::Ceiling { size })
    } else {
        None
    }
}

/// A meter with a block resized.
pub open spec fn resized(meter: MeterView, old_size: usize, new_size: usize) -> MeterView {
    if new_size >= old_size {
        charged(meter, (new_size - old_size) as nat)
    } else {
        refunded(meter, (old_size - new_size) as nat)
    }
}

/// Why resizing a block ends the worker, if it does: only growth can.
pub open spec fn resized_reason(
    meter: MeterView,
    old_size: usize,
    new_size: usize,
) -> Option<ExitReason> {
    if new_size >= old_size {
        charged_reason(meter, (new_size - old_size) as usize)
    } else {
        None
    }
}

/// A meter with its ceiling set.
pub open spec fn limited(meter: MeterView, bytes: u64) -> MeterView {
    MeterView { limit: narrowed(bytes), ..meter }
}

/// Why setting a ceiling ends the worker, if it does.
pub open spec fn limited_reason(meter: MeterView, bytes: u64) -> Option<ExitReason> {
    if meter.live > narrowed(bytes) {
        Some(
            ExitReason::BelowUse { limit: narrowed(bytes) as usize, live: meter.live as usize },
        )
    } else {
        None
    }
}

/// A meter on the way out: no ceiling, and the reason reported.
pub open spec fn exiting(meter: MeterView) -> MeterView {
    MeterView { limit: usize::MAX as nat, reporting: true, ..meter }
}

impl MemoryMeter {
    /// Nothing charged, and no ceiling.
    pub fn new() -> (meter: Self)
        ensures
            meter@ == (MeterView {
                live: 0,
                limit: usize::MAX as nat,
                baseline: usize::MAX as nat,
                reporting: false,
            }),
    {
        MemoryMeter { live: 0, limit: usize::MAX, baseline: usize::MAX, reporting: false }
    }

    /// Bytes currently charged.
    pub fn live(&self) -> (live: usize)
        ensures
            live == self@.live,
    {
        self.live
    }

    /// The ceiling in force.
    pub fn limit(&self) -> (limit: usize)
        ensures
            limit == self@.limit,
    {
        self.limit
    }

    /// Derives the ceiling from the current session's sandbox budget, or lifts
    /// it while no session has one. The baseline is the leanest the process has
    /// been at such a moment, so memory retained between sessions cannot ratchet
    /// the ceiling up.
    pub fn arm_ceiling(&mut self, max_memory: Option<u64>, type_check: bool)
        ensures
            final(self)@ == armed(old(self)@, max_memory, type_check),
    {
        if self.live < self.baseline {
            self.baseline = self.live;
        }
        self.limit = ceiling(max_memory, type_check, self.baseline);
    }

    /// Sets the ceiling on live bytes, with the reason to exit when it is
    /// already exceeded.
    pub fn set_limit(&mut self, bytes: u64) -> (reason: Option<ExitReason>)
        ensures
            final(self)@ == limited(old(self)@, bytes),
            reason == limited_reason(old(self)@, bytes),
    {
        self.limit = narrow_usize(bytes);
        limit_refusal(self.limit, self.live)
    }

    /// Adds `size` to the live total, with the reason to exit when that
    /// breaches the ceiling. Charged before allocating, so a breach is refused
    /// rather than committed.
    pub fn charge(&mut self, size: usize) -> (reason: Option<ExitReason>)
        ensures
            final(self)@ == charged(old(self)@, size as nat),
            reason == charged_reason(old(self)@, size),
    {
        let live: usize = self.live;
        self.live = live.wrapping_add(size);
        charge_refusal(live, size, self.limit)
    }

    /// Returns `size` to the live total.
    pub fn refund(&mut self, size: usize)
        ensures
            final(self)@ == refunded(old(self)@, size as nat),
    {
        self.live = self.live.wrapping_sub(size);
    }

    /// Accounts for a block resized from `old_size` to `new_size`, with the
    /// reason to exit when its growth breaches the ceiling.
    pub fn realloc(&mut self, old_size: usize, new_size: usize) -> (reason: Option<ExitReason>)
        ensures
            final(self)@ == resized(old(self)@, old_size, new_size),
            reason == resized_reason(old(self)@, old_size, new_size),
    {
        match resize(old_size, new_size) {
            Resize::Charge(size) => self.charge(size),
            Resize::Refund(size) => {
                self.refund(size);
                None
            },
        }
    }

    /// Prepares to exit: lifts the ceiling, as reporting takes memory itself,
    /// and says whether the reason is still to be reported. A report that runs
    /// out of memory in turn finds that it is not.
    pub fn begin_exit(&mut self) -> (report: bool)
        ensures
            final(self)@ == exiting(old(self)@),
            report == !old(self)@.reporting,
    {
        self.limit = usize::MAX;
        let report = !self.reporting;
        self.reporting = true;
        report
    }
}

/// A refund takes a charge back exactly, even one that wrapped.
pub proof fn law_refund_undoes_charge(meter: MeterView, size: nat)
    requires
        meter.live <= usize::MAX,
        size <= usize::MAX,
    ensures
        refunded(charged(meter, size), size) == meter,
{
}

/// Under a ceiling, a charge that is not refused counts exactly and leaves the
/// live bytes within it.
pub proof fn law_accepted_charge_fits(meter: MeterView, size: nat)
    requires
        meter.limit < usize::MAX,
        !breaches(meter.live, size, meter.limit),
    ensures
        charged(meter, size).live == meter.live + size,
        charged(meter, size).live <= meter.limit,
{
}

/// Re-deriving the ceiling for the same budget changes nothing, as long as the
/// worker is no leaner than it was: what a session has allocated meanwhile
/// plays no part.
pub proof fn law_rearming_is_idempotent(
    meter: MeterView,
    max_memory: Option<u64>,
    type_check: bool,
    live: nat,
)
    requires
        live >= armed(meter, max_memory, type_check).baseline,
    ensures
        ({
            let once = MeterView { live, ..armed(meter, max_memory, type_check) };
            armed(once, max_memory, type_check) == once
        }),
{
}

/// The baseline never rises, so no ceiling for a budget is ever above an
/// earlier one for the same budget.
pub proof fn law_ceilings_never_ratchet_up(
    meter: MeterView,
    first: Option<u64>,
    first_type_check: bool,
    live: nat,
    max_memory: Option<u64>,
    type_check: bool,
)
    ensures
        ({
            let once = armed(meter, first, first_type_check);
            let again = armed(MeterView { live, ..once }, max_memory, type_check);
            &&& once.baseline <= meter.baseline
            &&& again.baseline <= once.baseline
            &&& again.limit <= ceiling_for(max_memory, type_check, once.baseline)
        }),
{
}

/// The ceiling leaves the sandbox five times its budget and the headroom above
/// the baseline, so a worker that stays within those is never ended. Where
/// `usize` is too narrow for that sum the worker has no ceiling at all.
pub proof fn law_ceiling_covers_the_budget(bytes: u64, type_check: bool, baseline: nat)
    requires
        bytes <= usize::MAX,
    ensures
        ({
            let wanted = baseline + 5 * bytes + headroom(type_check);
            let limit = ceiling_for(Some(bytes), type_check, baseline);
            if wanted < usize::MAX {
                limit == wanted
            } else {
                limit == usize::MAX
            }
        }),
{
}

/// Without a ceiling no charge is ever refused, and a session without a budget
/// has none.
pub proof fn law_no_budget_means_no_ceiling(meter: MeterView, type_check: bool, size: nat)
    ensures
        armed(meter, None, type_check).limit == usize::MAX,
        !breaches(meter.live, size, usize::MAX as nat),
{
}

/// On the way out nothing is refused any more, and the reason is reported by
/// the first exit alone.
pub proof fn law_exit_reports_once(meter: MeterView, size: nat)
    ensures
        !breaches(exiting(meter).live, size, exiting(meter).limit),
        exiting(meter).reporting,
        exiting(exiting(meter)) == exiting(meter),
{
}

/// Resizing a block counts like freeing it and allocating it anew.
pub proof fn law_resize_is_free_and_allocate(meter: MeterView, old_size: nat, new_size: nat)
    requires
        meter.live <= usize::MAX,
        old_size <= usize::MAX,
        new_size <= usize::MAX,
    ensures
        charged(refunded(meter, old_size), new_size) == (if new_size >= old_size {
            charged(meter, (new_size - old_size) as nat)
        } else {
            refunded(meter, (old_size - new_size) as nat)
        }),
{
}

/// Under a ceiling a charge ends the worker if and only if it takes the live bytes
/// past the ceiling; the count moves by exactly the bytes charged or given back,
/// and nothing else of the meter does.
pub proof fn law_charge_is_refused_past_the_ceiling(meter: MeterView, size: nat)
    requires
        meter.limit < usize::MAX,
    ensures
        breaches(meter.live, size, meter.limit) <==> meter.live + size > meter.limit,
        meter.live + size <= usize::MAX ==> charged(meter, size) == (MeterView {
            live: meter.live + size,
            ..meter
        }),
        size <= meter.live <= usize::MAX ==> refunded(meter, size) == (MeterView {
            live: (meter.live - size) as nat,
            ..meter
        }),
{
}

/// The ceiling of a session with a budget is five times the budget and a fixed
/// headroom above the leanest the worker has been when a ceiling was armed: 4 MiB,
/// or 32 MiB when types are checked. Arming leaves the count as it is.
pub proof fn law_ceiling_stands_above_the_leanest_use(
    meter: MeterView,
    bytes: u64,
    type_check: bool,
)
    requires
        bytes <= usize::MAX,
    ensures
        ({
            let after = armed(meter, Some(bytes), type_check);
            let room: nat = if type_check {
                32 * 1024 * 1024
            } else {
                4 * 1024 * 1024
            };
            let wanted = after.baseline + bytes * 5 + room;
            &&& after.baseline <= meter.live && after.baseline <= meter.baseline
            &&& after.baseline == meter.live || after.baseline == meter.baseline
            &&& wanted <= usize::MAX ==> after.limit == wanted
            &&& wanted > usize::MAX ==> after.limit == usize::MAX
            &&& after.live == meter.live
            &&& after.reporting == meter.reporting
        }),
{
}

/// On the way out the ceiling is lifted and nothing else of the count changes.
pub proof fn law_exit_lifts_only_the_ceiling(meter: MeterView)
    ensures
        exiting(meter).limit == usize::MAX,
        exiting(meter).live == meter.live,
        exiting(meter).baseline == meter.baseline,
{
}

/// The reason for an exit names the size that was asked for, or the ceiling and
/// then what is in use, and what went wrong with it.
pub proof fn law_reasons_name_their_sizes(size: usize, limit: usize, live: usize)
    ensures
        ({
            let text = reason_text(ExitReason::Ceiling { size });
            &&& begins_with(text, "monty worker: allocation of "@ + decimal_text(size as nat))
            &&& ends_with(text, " bytes exceeds the memory ceiling"@)
            &&& text.len() == 28 + decimal_text(size as nat).len() + 33
        }),
        ({
            let text = reason_text(ExitReason::Refused { size });
            &&& begins_with(text, "monty worker: allocation of "@ + decimal_text(size as nat))
            &&& ends_with(text, " bytes failed"@)
            &&& text.len() == 28 + decimal_text(size as nat).len() + 13
        }),
        ({
            let text = reason_text(ExitReason::BelowUse { limit, live });
            &&& begins_with(
                text,
                "monty worker: memory ceiling of "@ + decimal_text(limit as nat)
                    + " bytes is below the "@,
            )
            &&& ends_with(text, decimal_text(live as nat) + " bytes already in use"@)
            &&& text.len() == 32 + decimal_text(limit as nat).len() + 20 + decimal_text(
                live as nat,
            ).len() + 21
        }),
{
    reveal_strlit("monty worker: allocation of ");
    reveal_strlit(" bytes exceeds the memory ceiling");
    reveal_strlit(" bytes failed");
    reveal_strlit("monty worker: memory ceiling of ");
    reveal_strlit(" bytes is below the ");
    reveal_strlit(" bytes already in use");
    let head = "monty worker: allocation of "@ + decimal_text(size as nat);
    let over = reason_text(ExitReason::Ceiling { size });
    assert(over.take(head.len() as int) =~= head);
    assert(over.skip(head.len() as int) =~= " bytes exceeds the memory ceiling"@);
    let refused = reason_text(ExitReason::Refused { size });
    assert(refused.take(head.len() as int) =~= head);
    assert(refused.skip(head.len() as int) =~= " bytes failed"@);
    let below = reason_text(ExitReason::BelowUse { limit, live });
    let head = "monty worker: memory ceiling of "@ + decimal_text(limit as nat)
        + " bytes is below the "@;
    assert(below.take(head.len() as int) =~= head);
    assert(below.skip(head.len() as int) =~= decimal_text(live as nat)
        + " bytes already in use"@);
}

/// A resized block counts with its new size in place of its old one, and ends the
/// worker if and only if it grew and the live bytes are then past the ceiling; the
/// reason names the growth.
pub proof fn law_resize_counts_the_difference(meter: MeterView, old_size: usize, new_size: usize)
    requires
        old_size <= meter.live,
        meter.live - old_size + new_size <= usize::MAX,
        meter.live <= usize::MAX,
        meter.limit < usize::MAX,
    ensures
        ({
            let after = resized(meter, old_size, new_size);
            let reason = resized_reason(meter, old_size, new_size);
            &&& after == MeterView { live: after.live, ..meter }
            &&& after.live + old_size == meter.live + new_size
            &&& reason is Some <==> new_size >= old_size && after.live > meter.limit
            &&& reason matches Some(reason) ==> reason is Ceiling && reason->Ceiling_size + old_size
                == new_size
        }),
{
}

/// A charge ends the worker if and only if it takes the live bytes past the
/// ceiling, and the reason names the bytes asked for.
pub proof fn law_refused_charge_names_its_size(meter: MeterView, size: usize)
    requires
        meter.limit < usize::MAX,
    ensures
        charged_reason(meter, size) == (if meter.live + size > meter.limit {
            Some(ExitReason::Ceiling { size })
        } else {
            None
        }),
{
}

/// A ceiling that is set is in force as it is, and ends the worker if and only if
/// more than that is already in use; the reason names both.
pub proof fn law_ceiling_below_use_is_refused(meter: MeterView, bytes: u64)
    requires
        bytes <= usize::MAX,
        meter.live <= usize::MAX,
    ensures
        ({
            let after = limited(meter, bytes);
            let reason = limited_reason(meter, bytes);
            &&& after == MeterView { limit: bytes as nat, ..meter }
            &&& reason is Some <==> meter.live > bytes
            &&& reason matches Some(reason) ==> {
                &&& reason is BelowUse
                &&& reason->limit == bytes
                &&& reason->live == meter.live
            }
        }),
{
}

/// The pieces of a reason are read in their order, a second number only where
/// there is one.
pub proof fn law_pieces_are_read_in_order(pieces: Pieces)
    ensures
        begins_with(
            pieces_text(pieces),
            pieces.head@ + decimal_text(pieces.number as nat) + pieces.middle@,
        ),
        pieces.rest is None ==> pieces_text(pieces).len() == pieces.head@.len() + decimal_text(
            pieces.number as nat,
        ).len() + pieces.middle@.len(),
        pieces.rest matches Some((number, tail)) ==> ends_with(
            pieces_text(pieces),
            pieces.middle@ + decimal_text(number as nat) + tail@,
        ) && pieces_text(pieces).len() == pieces.head@.len() + decimal_text(
            pieces.number as nat,
        ).len() + pieces.middle@.len() + decimal_text(number as nat).len() + tail@.len(),
{
    let text = pieces_text(pieces);
    let first = pieces.head@ + decimal_text(pieces.number as nat) + pieces.middle@;
    assert(text.take(first.len() as int) =~= first);
    if let Some((number, tail)) = pieces.rest {
        let last = pieces.middle@ + decimal_text(number as nat) + tail@;
        assert(text.skip(text.len() - last.len()) =~= last);
    }
}

} // verus!
