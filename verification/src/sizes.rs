//! Checks made before an operation whose result may be huge.
//!
//! The size of the result is estimated by arithmetic on the sizes of the
//! inputs, and held against the remaining memory budget before anything is
//! allocated. Estimates saturate rather than overflow, so a result of
//! astronomical size is refused instead of slipping through.

use crate::resource::{refusal, ResourceError, ResourceErrorView};
use crate::tracker::{memory_refusal, ResourceTracker, TrackerView};
use vstd::prelude::*;

verus! {

/// Estimated size in bytes above which an operation is checked before it is
/// performed.
pub const LARGE_RESULT_THRESHOLD: usize = 100_000;

/// A size held at what `usize` can represent.
pub open spec fn held_size(size: nat) -> nat {
    if size <= usize::MAX {
        size
    } else {
        usize::MAX as nat
    }
}

/// A count of bits held at what `u64` can represent.
pub open spec fn held_bits(bits: nat) -> nat {
    if bits <= u64::MAX {
        bits
    } else {
        u64::MAX as nat
    }
}

/// The bytes that hold `bits` bits.
pub open spec fn bytes_of_bits(bits: nat) -> nat {
    (bits + 7) / 8
}

/// The estimate of the bytes that hold `bits` bits.
pub open spec fn estimated_bytes(bits: nat) -> nat {
    held_size(held_bits(held_bits(bits) + 7) / 8)
}

/// The most occurrences of a pattern of `old_len` bytes in `input_len` bytes.
/// An empty pattern occurs before each byte and after the last.
pub open spec fn max_occurrences(input_len: nat, old_len: nat) -> nat {
    if old_len == 0 {
        held_size(input_len + 1)
    } else {
        input_len / old_len
    }
}

/// The most replacements when at most `count` are made; any number when it is
/// negative.
pub open spec fn max_replacements(input_len: nat, old_len: nat, count: int) -> nat {
    let most = max_occurrences(input_len, old_len);
    if count < 0 || most <= count {
        most
    } else {
        count as nat
    }
}

/// The estimate of the size of `input_len` bytes after every replacement of a
/// pattern of `old_len` bytes by one of `new_len`.
pub open spec fn estimated_replacement(
    input_len: nat,
    old_len: nat,
    new_len: nat,
    count: int,
) -> nat {
    let replacements = max_replacements(input_len, old_len, count);
    let removed = replacements * old_len;
    let kept = if removed <= input_len {
        (input_len - removed) as nat
    } else {
        0
    };
    held_size(kept + held_size(replacements * new_len))
}

/// Why a result of an estimated size is refused, if it is. Small results are
/// not checked.
pub open spec fn size_refusal(state: TrackerView, estimated: nat) -> Option<ResourceErrorView> {
    if estimated > LARGE_RESULT_THRESHOLD {
        memory_refusal(state, estimated)
    } else {
        None
    }
}

/// Why `count` items of `item_len` bytes are refused, if they are.
pub open spec fn repeat_refusal(
    state: TrackerView,
    item_len: nat,
    count: nat,
) -> Option<ResourceErrorView> {
    size_refusal(state, held_size(item_len * count))
}

/// Why the power of a number of `base_bits` bits is refused, if it is.
pub open spec fn power_refusal(
    state: TrackerView,
    base_bits: nat,
    exponent: nat,
) -> Option<ResourceErrorView> {
    if base_bits <= 1 {
        None
    } else {
        size_refusal(state, estimated_power(base_bits, exponent))
    }
}

/// Why the product of two numbers is refused, if it is.
pub open spec fn product_refusal(
    state: TrackerView,
    a_bits: nat,
    b_bits: nat,
) -> Option<ResourceErrorView> {
    size_refusal(state, estimated_bytes(a_bits + b_bits))
}

/// Why a left shift is refused, if it is.
pub open spec fn shift_refusal(
    state: TrackerView,
    value_bits: nat,
    shift_amount: nat,
) -> Option<ResourceErrorView> {
    if value_bits == 0 {
        None
    } else {
        size_refusal(state, estimated_bytes(value_bits + shift_amount))
    }
}

/// Why a division is refused, if it is.
pub open spec fn quotient_refusal(
    state: TrackerView,
    dividend_bits: nat,
) -> Option<ResourceErrorView> {
    size_refusal(state, estimated_bytes(dividend_bits))
}

/// Why a replacement is refused, if it is.
pub open spec fn replacement_refusal(
    state: TrackerView,
    input_len: nat,
    old_len: nat,
    new_len: nat,
    count: int,
) -> Option<ResourceErrorView> {
    size_refusal(state, estimated_replacement(input_len, old_len, new_len, count))
}

/// The product of two sizes, saturating.
pub(crate) fn saturating_product(a: usize, b: usize) -> (product: usize)
    ensures
        product == held_size(a as nat * b as nat),
{
    match a.checked_mul(b) {
        Some(product) => product,
        None => usize::MAX,
    }
}

/// The product of two counts of bits, saturating.
fn saturating_bit_product(a: u64, b: u64) -> (product: u64)
    ensures
        product == held_bits(a as nat * b as nat),
{
    match a.checked_mul(b) {
        Some(product) => product,
        None => u64::MAX,
    }
}

/// Pre-checks that an operation producing `item_len * count` bytes will not
/// exceed resource limits: sequence repeats, padding, and any other operation
/// whose result size is a simple product of two known values.
pub fn check_repeat_size(item_len: usize, count: usize, tracker: &ResourceTracker) -> (result:
    Result<(), ResourceError>)
    ensures
        refusal(result) == repeat_refusal(tracker@, item_len as nat, count as nat),
{
    check_estimated_size(saturating_product(item_len, count), tracker)
}

/// The estimate for `base ** exponent`: a number of `base_bits * exponent`
/// bits, four times over, as repeated squaring holds that many intermediate
/// values at its peak.
pub open spec fn estimated_power(base_bits: nat, exponent: nat) -> nat {
    held_size(estimated_bytes(base_bits * exponent) * 4)
}

/// Pre-checks that `base ** exponent` will not exceed resource limits. A base
/// of at most one significant bit (0, 1, -1) has a small power whatever the
/// exponent, so it is not checked.
pub fn check_pow_size(base_bits: u64, exponent: u64, tracker: &ResourceTracker) -> (result: Result<
    (),
    ResourceError,
>)
    ensures
        refusal(result) == power_refusal(tracker@, base_bits as nat, exponent as nat),
{
    if base_bits <= 1 {
        return Ok(());
    }
    let result_bytes: usize = estimate_bits_to_bytes(saturating_bit_product(base_bits, exponent));
    check_estimated_size(saturating_product(result_bytes, 4), tracker)
}

/// Pre-checks that an integer multiplication will not exceed resource limits.
/// The product of two numbers has at most `a_bits + b_bits` bits.
pub fn check_mult_size(a_bits: u64, b_bits: u64, tracker: &ResourceTracker) -> (result: Result<
    (),
    ResourceError,
>)
    ensures
        refusal(result) == product_refusal(tracker@, a_bits as nat, b_bits as nat),
{
    check_estimated_size(estimate_bits_to_bytes(a_bits.saturating_add(b_bits)), tracker)
}

/// Pre-checks that a left shift will not exceed resource limits. The result
/// has about `value_bits + shift_amount` bits; zero shifts to zero, so it is
/// not checked.
pub fn check_lshift_size(value_bits: u64, shift_amount: u64, tracker: &ResourceTracker) -> (result:
    Result<(), ResourceError>)
    ensures
        refusal(result) == shift_refusal(tracker@, value_bits as nat, shift_amount as nat),
{
    if value_bits == 0 {
        return Ok(());
    }
    check_estimated_size(estimate_bits_to_bytes(value_bits.saturating_add(shift_amount)), tracker)
}

/// Pre-checks that an integer division overflow promotion will not exceed
/// resource limits. The quotient is bounded by the dividend.
pub fn check_div_size(dividend_bits: u64, tracker: &ResourceTracker) -> (result: Result<
    (),
    ResourceError,
>)
    ensures
        refusal(result) == quotient_refusal(tracker@, dividend_bits as nat),
{
    check_estimated_size(estimate_bits_to_bytes(dividend_bits), tracker)
}

/// Pre-checks that a string or bytes replacement will not exceed resource
/// limits, so a small input cannot be amplified into a huge result before the
/// result itself is charged.
pub fn check_replace_size(
    input_len: usize,
    old_len: usize,
    new_len: usize,
    count: i64,
    tracker: &ResourceTracker,
) -> (result: Result<(), ResourceError>)
    ensures
        refusal(result) == replacement_refusal(
            tracker@,
            input_len as nat,
            old_len as nat,
            new_len as nat,
            count as int,
        ),
{
    let most: usize = match input_len.checked_div(old_len) {
        Some(most) => most,
        None => input_len.saturating_add(1),
    };
    let replacements: usize = if count < 0 {
        most
    } else {
        let count: usize = match usize::try_from(count) {
            Ok(count) => count,
            Err(_) => usize::MAX,
        };
        if most < count {
            most
        } else {
            count
        }
    };
    assert(replacements == max_replacements(input_len as nat, old_len as nat, count as int));
    let removed: usize = saturating_product(replacements, old_len);
    let added: usize = saturating_product(replacements, new_len);
    check_estimated_size(input_len.saturating_sub(removed).saturating_add(added), tracker)
}

/// Checks an estimated result size against the resource tracker, which is only
/// asked when the estimate exceeds [`LARGE_RESULT_THRESHOLD`].
pub fn check_estimated_size(estimated_bytes: usize, tracker: &ResourceTracker) -> (result: Result<
    (),
    ResourceError,
>)
    ensures
        refusal(result) == size_refusal(tracker@, estimated_bytes as nat),
{
    if estimated_bytes > LARGE_RESULT_THRESHOLD {
        tracker.check_large_result(estimated_bytes)?;
    }
    Ok(())
}

/// Converts an estimated bit count to bytes, saturating on overflow.
pub fn estimate_bits_to_bytes(bits: u64) -> (bytes: usize)
    ensures
        bytes == estimated_bytes(bits as nat),
{
    match usize::try_from(bits.saturating_add(7) / 8) {
        Ok(bytes) => bytes,
        Err(_) => usize::MAX,
    }
}

/// A result that would break the memory budget is refused before it is built,
/// however large: the estimate is the product itself, held at `usize::MAX`.
/// The budget must not itself be all that `usize` can represent while nothing
/// is charged to it.
pub proof fn law_oversize_result_is_refused(state: TrackerView, size: nat)
    requires
        size > LARGE_RESULT_THRESHOLD,
        state.memory + size > state.limits.max_memory,
        state.memory + usize::MAX > state.limits.max_memory,
    ensures
        size_refusal(state, held_size(size)) is Some,
{
}

/// A number that would break the memory budget is refused before it is
/// computed: of `bits` bits, or held four times over by repeated squaring. The
/// budget must be below the largest estimate there is.
pub proof fn law_oversize_number_is_refused(state: TrackerView, bits: nat)
    ensures
        bytes_of_bits(bits) > LARGE_RESULT_THRESHOLD && state.memory + bytes_of_bits(bits)
            > state.limits.max_memory && state.memory + held_size(u64::MAX as nat / 8)
            > state.limits.max_memory ==> size_refusal(state, estimated_bytes(bits)) is Some,
        bytes_of_bits(bits) * 4 > LARGE_RESULT_THRESHOLD && state.memory + bytes_of_bits(bits) * 4
            > state.limits.max_memory && state.memory + held_size(u64::MAX as nat / 8 * 4)
            > state.limits.max_memory ==> size_refusal(state, held_size(estimated_bytes(bits) * 4)) is Some,
{
}

/// Nothing that fits the remaining budget is refused.
pub proof fn law_fitting_result_is_accepted(state: TrackerView, size: nat, bits: nat)
    requires
        state.limits.max_memory <= usize::MAX,
    ensures
        state.memory + size <= state.limits.max_memory ==> size_refusal(state, held_size(size)) is None,
        state.memory + bytes_of_bits(bits) <= state.limits.max_memory ==> size_refusal(
            state,
            estimated_bytes(bits),
        ) is None,
{
}

/// The estimate of a replacement bounds its result: making any number of the
/// possible replacements gives at most that many bytes, unless the estimate is
/// at its maximum. With a substitute shorter than the pattern that holds when
/// all of them are made: each one less leaves the result longer.
pub proof fn law_replacement_is_bounded(
    input_len: nat,
    old_len: nat,
    new_len: nat,
    count: int,
    made: nat,
)
    requires
        input_len <= usize::MAX,
        made <= max_replacements(input_len, old_len, count),
        old_len <= new_len || made == max_replacements(input_len, old_len, count),
    ensures
        made * old_len <= input_len,
        ({
            let estimate = estimated_replacement(input_len, old_len, new_len, count);
            input_len - made * old_len + made * new_len <= estimate || estimate == usize::MAX
        }),
{
    let most = max_replacements(input_len, old_len, count);
    if old_len == 0 {
        assert(most * old_len == 0 && made * old_len == 0) by (nonlinear_arith)
            requires
                old_len == 0,
        ;
    } else {
        assert(most * old_len <= input_len) by (nonlinear_arith)
            requires
                old_len > 0,
                most <= input_len / old_len,
        ;
    }
    assert(made * old_len <= most * old_len) by (nonlinear_arith)
        requires
            made <= most,
    ;
    assert(made * new_len - made * old_len <= most * new_len - most * old_len) by (nonlinear_arith)
        requires
            made <= most,
            old_len <= new_len || made == most,
    ;
}

/// Whether a refusal goes by `size` bytes, a size without bounds, where sizes
/// beyond `most` are only known to be larger: a small result is never refused,
/// nor one that fits the remaining budget; every other one is, as long as the
/// budget is below the largest size that is told apart, and the refusal reports
/// what the memory would have come to.
pub open spec fn judged_by_size(
    state: TrackerView,
    refused: Option<ResourceErrorView>,
    size: nat,
    most: nat,
) -> bool {
    let limit = state.limits.max_memory;
    &&& size <= 100_000 ==> refused is None
    &&& state.memory + size <= limit ==> refused is None
    &&& size > 100_000 && state.memory + size > limit && state.memory + most > limit
        ==> refused is Some
    &&& 100_000 < size <= most && limit < state.memory + size <= usize::MAX ==> refused == Some(
        ResourceErrorView::Memory { limit, used: state.memory + size },
    )
    &&& 100_000 < size <= most && state.memory + size > usize::MAX ==> refused == Some(
        ResourceErrorView::MemoryUnrepresentable { limit },
    )
}

/// The smaller of two sizes.
pub open spec fn at_most(size: nat, most: nat) -> nat {
    if size <= most {
        size
    } else {
        most
    }
}

/// A repeat is judged by the product of its item's length and its count.
pub proof fn law_repeat_is_judged_by_its_length(state: TrackerView, item_len: nat, count: nat)
    requires
        state.limits.max_memory <= usize::MAX,
    ensures
        judged_by_size(
            state,
            repeat_refusal(state, item_len, count),
            item_len * count,
            usize::MAX as nat,
        ),
{
}

/// A power is judged by four times the bytes of a number as wide as its base,
/// `exponent` times over. The power of a base of at most one bit is never
/// refused.
pub proof fn law_power_is_judged_by_its_operands(
    state: TrackerView,
    base_bits: nat,
    exponent: nat,
    bytes: nat,
)
    requires
        state.limits.max_memory <= usize::MAX,
        bytes * 8 >= base_bits * exponent,
        base_bits * exponent > (bytes - 1) * 8,
    ensures
        base_bits <= 1 ==> power_refusal(state, base_bits, exponent) is None,
        base_bits > 1 ==> judged_by_size(
            state,
            power_refusal(state, base_bits, exponent),
            bytes * 4,
            at_most(usize::MAX as nat, 2_305_843_009_213_693_951 * 4),
        ),
{
}

/// A product is judged by the bytes of a number as wide as both factors
/// together.
pub proof fn law_product_is_judged_by_its_factors(
    state: TrackerView,
    a_bits: nat,
    b_bits: nat,
    bytes: nat,
)
    requires
        state.limits.max_memory <= usize::MAX,
        (bytes - 1) * 8 < a_bits + b_bits <= bytes * 8,
    ensures
        judged_by_size(
            state,
            product_refusal(state, a_bits, b_bits),
            bytes,
            at_most(usize::MAX as nat, 2_305_843_009_213_693_951),
        ),
        product_refusal(state, a_bits, b_bits) == product_refusal(state, b_bits, a_bits),
{
}

/// A left shift is judged by the bytes of a number wider than the shifted one by
/// the shift. Zero shifts to zero and is never refused.
pub proof fn law_shift_is_judged_by_its_operands(
    state: TrackerView,
    value_bits: nat,
    shift_amount: nat,
    bytes: nat,
)
    requires
        state.limits.max_memory <= usize::MAX,
        (bytes - 1) * 8 < value_bits + shift_amount <= bytes * 8,
    ensures
        value_bits == 0 ==> shift_refusal(state, value_bits, shift_amount) is None,
        value_bits > 0 ==> judged_by_size(
            state,
            shift_refusal(state, value_bits, shift_amount),
            bytes,
            at_most(usize::MAX as nat, 2_305_843_009_213_693_951),
        ),
{
}

/// A division is judged by the bytes of its dividend.
pub proof fn law_quotient_is_judged_by_its_dividend(
    state: TrackerView,
    dividend_bits: nat,
    bytes: nat,
)
    requires
        state.limits.max_memory <= usize::MAX,
        (bytes - 1) * 8 < dividend_bits <= bytes * 8,
    ensures
        judged_by_size(
            state,
            quotient_refusal(state, dividend_bits),
            bytes,
            at_most(usize::MAX as nat, 2_305_843_009_213_693_951),
        ),
{
}

/// Whether `made` replacements of a pattern can be made: that many occurrences
/// fit side by side, an empty pattern occurs once more than there are bytes, and
/// no more are made than asked for.
pub open spec fn can_replace(input_len: nat, old_len: nat, count: int, made: nat) -> bool {
    &&& old_len > 0 ==> made * old_len <= input_len
    &&& old_len == 0 ==> made <= input_len + 1
    &&& count >= 0 ==> made <= count
}

/// A replacement is judged by the length of its result when as many replacements
/// are made as can be.
pub proof fn law_replacement_is_judged_by_its_result(
    state: TrackerView,
    input_len: nat,
    old_len: nat,
    new_len: nat,
    count: int,
    made: nat,
)
    requires
        state.limits.max_memory <= usize::MAX,
        old_len > 0 || input_len < usize::MAX,
        can_replace(input_len, old_len, count, made),
        !can_replace(input_len, old_len, count, made + 1),
    ensures
        judged_by_size(
            state,
            replacement_refusal(state, input_len, old_len, new_len, count),
            (input_len - made * old_len + made * new_len) as nat,
            usize::MAX as nat,
        ),
{
    let most = max_replacements(input_len, old_len, count);
    if old_len == 0 {
        assert(made * old_len == 0) by (nonlinear_arith)
            requires
                old_len == 0,
        ;
    } else {
        let times = input_len / old_len;
        assert(times * old_len <= input_len < times * old_len + old_len) by (nonlinear_arith)
            requires
                old_len > 0,
                times == input_len / old_len,
        ;
        assert(made <= times) by (nonlinear_arith)
            requires
                old_len > 0,
                made * old_len <= input_len,
                input_len < times * old_len + old_len,
        ;
        if made < times {
            assert((made + 1) * old_len <= input_len) by (nonlinear_arith)
                requires
                    made + 1 <= times,
                    times * old_len <= input_len,
            ;
        }
    }
    assert(made == most);
    assert(made * old_len <= input_len);
}

} // verus!
