//! Building and capping text: decimal numbers, joined lists, and strings cut
//! to a byte budget without splitting a character.

use vstd::prelude::*;
use vstd::string::*;
use vstd::utf8::*;

verus! {

/// Byte cap for one text attribute; longer text is cut off and the record is
/// flagged as cut.
pub const ATTR_SIZE_LIMIT: usize = 65_536;

/// The character of a decimal digit.
pub open spec fn digit_char(digit: nat) -> char {
    (48 + digit) as char
}

/// The decimal digits of `n`, most significant first.
pub open spec fn decimal_text(n: nat) -> Seq<char>
    decreases n,
{
    if n < 10 {
        seq![digit_char(n)]
    } else {
        decimal_text(n / 10).push(digit_char(n % 10))
    }
}

/// The decimal digits of `n`, after a minus sign when it is negative.
pub open spec fn signed_text(n: int) -> Seq<char> {
    if n < 0 {
        "-"@ + decimal_text((-n) as nat)
    } else {
        decimal_text(n as nat)
    }
}

/// `parts` with `sep` between each two neighbours.
pub open spec fn join_text(parts: Seq<Seq<char>>, sep: Seq<char>) -> Seq<char>
    decreases parts.len(),
{
    if parts.len() == 0 {
        Seq::empty()
    } else if parts.len() == 1 {
        parts[0]
    } else {
        join_text(parts.drop_last(), sep) + sep + parts.last()
    }
}

/// The views of a sequence of strings.
pub open spec fn texts(strings: Seq<String>) -> Seq<Seq<char>> {
    strings.map_values(|s: String| s@)
}

/// The longest prefix of `text` that takes at most `limit` bytes of UTF-8.
pub open spec fn capped(text: Seq<char>, limit: nat) -> Seq<char>
    decreases text.len(),
{
    if encode_utf8(text).len() <= limit || text.len() == 0 {
        text
    } else {
        capped(text.drop_last(), limit)
    }
}

/// Whether `text` takes more than [`ATTR_SIZE_LIMIT`] bytes of UTF-8.
pub open spec fn oversize(text: Seq<char>) -> bool {
    encode_utf8(text).len() > ATTR_SIZE_LIMIT
}

/// The text an attribute carries: `text` capped at [`ATTR_SIZE_LIMIT`] bytes.
pub open spec fn attr_text(text: Seq<char>) -> Seq<char> {
    capped(text, ATTR_SIZE_LIMIT as nat)
}

/// One decimal digit as text.
fn digit_str(digit: u64) -> (text: &'static str)
    requires
        digit < 10,
    ensures
        text@ == seq![digit_char(digit as nat)],
{
    proof {
        reveal_strlit("0");
        reveal_strlit("1");
        reveal_strlit("2");
        reveal_strlit("3");
        reveal_strlit("4");
        reveal_strlit("5");
        reveal_strlit("6");
        reveal_strlit("7");
        reveal_strlit("8");
        reveal_strlit("9");
    }
    let text: &'static str = match digit {
        0 => "0",
        1 => "1",
        2 => "2",
        3 => "3",
        4 => "4",
        5 => "5",
        6 => "6",
        7 => "7",
        8 => "8",
        _ => "9",
    };
    assert(text@ =~= seq![digit_char(digit as nat)]);
    text
}

/// Appends the decimal digits of `n`.
pub fn push_decimal(out: &mut String, n: u64)
    ensures
        final(out)@ == old(out)@ + decimal_text(n as nat),
    decreases n,
{
    if n >= 10 {
        push_decimal(out, n / 10);
        out.append(digit_str(n % 10));
        assert(out@ =~= old(out)@ + decimal_text(n as nat));
    } else {
        out.append(digit_str(n));
    }
}

/// The decimal digits of `n`.
pub fn decimal(n: u64) -> (text: String)
    ensures
        text@ == decimal_text(n as nat),
{
    let mut out = String::new();
    push_decimal(&mut out, n);
    assert(out@ =~= decimal_text(n as nat));
    out
}

/// The decimal digits of `n`, after a minus sign when it is negative.
pub fn signed_decimal(n: i64) -> (text: String)
    ensures
        text@ == signed_text(n as int),
{
    let mut out = String::new();
    if n < 0 {
        out.append("-");
        let magnitude: u64 = (-(n as i128)) as u64;
        push_decimal(&mut out, magnitude);
    } else {
        push_decimal(&mut out, n as u64);
    }
    assert(out@ =~= signed_text(n as int));
    out
}

/// Bytes of UTF-8 that `text` takes.
pub fn byte_len(text: &str) -> (len: usize)
    ensures
        len == encode_utf8(text@).len(),
{
    text.as_bytes().len()
}

/// `parts` joined by `sep`.
pub fn join(parts: &Vec<String>, sep: &str) -> (joined: String)
    ensures
        joined@ == join_text(texts(parts@), sep@),
{
    let mut out = String::new();
    let mut i: usize = 0;
    while i < parts.len()
        invariant
            i <= parts.len(),
            out@ == join_text(texts(parts@).take(i as int), sep@),
        decreases parts.len() - i,
    {
        if i > 0 {
            out.append(sep);
        }
        out.append(parts[i].as_str());
        proof {
            let longer = texts(parts@).take(i + 1);
            assert(longer.drop_last() =~= texts(parts@).take(i as int));
            assert(longer.last() == parts@[i as int]@);
            assert(out@ =~= join_text(longer, sep@));
        }
        i += 1;
    }
    assert(texts(parts@).take(i as int) =~= texts(parts@));
    out
}

/// Encoding is compositional.
pub(crate) proof fn lemma_encode_concat(a: Seq<char>, b: Seq<char>)
    ensures
        encode_utf8(a + b) == encode_utf8(a) + encode_utf8(b),
    decreases a.len(),
{
    if a.len() == 0 {
        assert(a + b =~= b);
        assert(encode_utf8(a) + encode_utf8(b) =~= encode_utf8(b));
    } else {
        lemma_encode_concat(a.drop_first(), b);
        assert((a + b).drop_first() =~= a.drop_first() + b);
        assert(encode_utf8(a + b) =~= encode_utf8(a) + encode_utf8(b));
    }
}

/// A prefix that fits, followed by a character that no longer does, is the
/// longest prefix that fits.
proof fn lemma_capped_at(head: Seq<char>, rest: Seq<char>, limit: nat)
    requires
        encode_utf8(head).len() <= limit,
        rest.len() > 0,
        encode_utf8(head.push(rest[0])).len() > limit,
    ensures
        capped(head + rest, limit) == head,
    decreases rest.len(),
{
    let text = head + rest;
    assert(text =~= head.push(rest[0]) + rest.drop_first());
    lemma_encode_concat(head.push(rest[0]), rest.drop_first());
    assert(encode_utf8(text).len() > limit);
    assert(text.drop_last() =~= head + rest.drop_last());
    if rest.len() == 1 {
        assert(text.drop_last() =~= head);
        assert(capped(head, limit) == head);
    } else {
        lemma_capped_at(head, rest.drop_last(), limit);
    }
}

/// Right after the first character of what follows a boundary comes the next
/// boundary.
proof fn lemma_next_boundary(head: Seq<char>, rest: Seq<char>)
    requires
        rest.len() > 0,
    ensures
        is_char_boundary(encode_utf8(head + rest), encode_utf8(head.push(rest[0])).len() as int),
    decreases head.len(),
{
    broadcast use encode_utf8_valid_utf8;

    let text = head + rest;
    encode_utf8_first_scalar(text);
    let bytes = encode_utf8(text);
    assert(pop_first_scalar(bytes) =~= encode_utf8(text.drop_first()));
    if head.len() == 0 {
        assert(text =~= rest);
        assert(head.push(rest[0]) =~= seq![rest[0]]);
        assert(head.push(rest[0]).drop_first() =~= Seq::<char>::empty());
        assert(encode_utf8(Seq::<char>::empty()) =~= Seq::<u8>::empty());
        assert(encode_utf8(head.push(rest[0])) =~= encode_scalar(rest[0] as u32));
        assert(encode_scalar(rest[0] as u32).len() > 0);
        assert(is_char_boundary(pop_first_scalar(bytes), 0));
    } else {
        assert(text.drop_first() =~= head.drop_first() + rest);
        assert(head.push(rest[0]).drop_first() =~= head.drop_first().push(rest[0]));
        lemma_next_boundary(head.drop_first(), rest);
        lemma_encode_concat(head.push(rest[0]), rest.drop_first());
        assert(text =~= head.push(rest[0]) + rest.drop_first());
        assert(encode_scalar(head[0] as u32).len() > 0);
    }
}

/// Cuts `text` to at most [`ATTR_SIZE_LIMIT`] bytes on a character boundary;
/// the flag says whether anything was cut off.
pub fn truncate_str(text: &str) -> (result: (String, bool))
    ensures
        result.0@ == attr_text(text@),
        result.1 == oversize(text@),
{
    broadcast use encode_utf8_valid_utf8;

    let bytes = text.as_bytes();
    if bytes.len() <= ATTR_SIZE_LIMIT {
        return (text.to_owned(), false);
    }
    let mut end: usize = ATTR_SIZE_LIMIT;
    let ghost encoded = encode_utf8(text@);
    proof {
        is_char_boundary_start_end_of_seq(encoded);
    }
    while !text.is_char_boundary(end)
        invariant
            end <= ATTR_SIZE_LIMIT,
            encoded == encode_utf8(text@),
            valid_utf8(encoded),
            is_char_boundary(encoded, 0),
            forall|i: int| end < i <= ATTR_SIZE_LIMIT ==> !is_char_boundary(encoded, i),
        decreases end,
    {
        end -= 1;
    }
    let (head, rest) = text.split_at(end);
    proof {
        broadcast use encode_utf8_decode_utf8;

        decode_utf8_split(encoded, end as int);
        assert(decode_utf8(encoded) == text@);
        assert(head.spec_bytes() == encoded.subrange(0, end as int));
        assert(rest.spec_bytes() == encoded.subrange(end as int, encoded.len() as int));
        assert(decode_utf8(encode_utf8(head@)) == head@);
        assert(decode_utf8(encode_utf8(rest@)) == rest@);
        assert(text@ == head@ + rest@);
        assert(rest@.len() > 0) by {
            if rest@.len() == 0 {
                assert(encode_utf8(rest@).len() == 0);
            }
        }
        lemma_next_boundary(head@, rest@);
        let next = encode_utf8(head@.push(rest@[0])).len() as int;
        lemma_encode_concat(head@, seq![rest@[0]]);
        assert(head@.push(rest@[0]) =~= head@ + seq![rest@[0]]);
        assert(encode_utf8(seq![rest@[0]]).len() > 0);
        assert(next > end);
        assert(next > ATTR_SIZE_LIMIT);
        lemma_capped_at(head@, rest@, ATTR_SIZE_LIMIT as nat);
    }
    (head.to_owned(), true)
}

/// Decimal numbers are ASCII text.
pub proof fn lemma_decimal_is_ascii(n: nat)
    ensures
        is_ascii_chars(decimal_text(n)),
    decreases n,
{
    if n >= 10 {
        lemma_decimal_is_ascii(n / 10);
    }
}

/// Capped text is the longest prefix of the text within the byte budget: it
/// fits, every longer prefix does not, and it is the whole text exactly when
/// that fits.
pub proof fn law_capped_text(text: Seq<char>, limit: nat)
    ensures
        capped(text, limit).len() <= text.len(),
        capped(text, limit) == text.take(capped(text, limit).len() as int),
        encode_utf8(capped(text, limit)).len() <= limit,
        encode_utf8(text).len() <= limit <==> capped(text, limit) == text,
        forall|n: int|
            capped(text, limit).len() < n <= text.len() ==> encode_utf8(#[trigger] text.take(n)).len()
                > limit,
    decreases text.len(),
{
    if encode_utf8(text).len() <= limit || text.len() == 0 {
        assert(text.take(text.len() as int) =~= text);
    } else {
        law_capped_text(text.drop_last(), limit);
        let short = capped(text, limit);
        assert(text.drop_last().take(short.len() as int) =~= text.take(short.len() as int));
        assert forall|n: int| short.len() < n <= text.len() implies encode_utf8(
            #[trigger] text.take(n),
        ).len() > limit by {
            if n == text.len() {
                assert(text.take(n) =~= text);
            } else {
                assert(text.drop_last().take(n) =~= text.take(n));
            }
        }
    }
}

/// The number that decimal digits stand for.
pub open spec fn digits_value(digits: Seq<char>) -> int
    decreases digits.len(),
{
    if digits.len() == 0 {
        0
    } else {
        10 * digits_value(digits.drop_last()) + (digits.last() as int - '0' as int)
    }
}

/// Whether `text` is nothing but decimal digits.
pub open spec fn all_digits(text: Seq<char>) -> bool {
    text.len() > 0 && forall|i: int| 0 <= i < text.len() ==> '0' <= #[trigger] text[i] <= '9'
}

/// A number that is written out reads back as the same number: it is written in
/// digits alone, and with no zero in front.
pub proof fn law_decimal_reads_back(n: nat)
    ensures
        all_digits(decimal_text(n)),
        digits_value(decimal_text(n)) == n,
        n > 0 ==> decimal_text(n)[0] != '0',
        n == 0 ==> decimal_text(n).len() == 1,
    decreases n,
{
    let text = decimal_text(n);
    if n < 10 {
        assert(text.drop_last() =~= Seq::empty());
        assert(digits_value(text.drop_last()) == 0);
    } else {
        law_decimal_reads_back(n / 10);
        assert(text.drop_last() =~= decimal_text(n / 10));
        assert(text[0] == decimal_text(n / 10)[0]);
    }
}

/// A signed number reads back as the same number: a minus sign and its magnitude
/// when it is negative, its digits alone when it is not.
pub proof fn law_signed_decimal_reads_back(n: int)
    ensures
        n >= 0 ==> all_digits(signed_text(n)) && digits_value(signed_text(n)) == n,
        n < 0 ==> signed_text(n)[0] == '-' && all_digits(signed_text(n).skip(1)) && digits_value(
            signed_text(n).skip(1),
        ) == -n,
{
    if n < 0 {
        reveal_strlit("-");
        assert("-"@.len() == 1 && "-"@[0] == '-');
        law_decimal_reads_back((-n) as nat);
        assert(signed_text(n).skip(1) =~= decimal_text((-n) as nat));
    } else {
        law_decimal_reads_back(n as nat);
    }
}

/// Joining puts the separator between neighbours and nowhere else: nothing joins
/// to nothing, one part to itself, and two lists to their joined texts with the
/// separator between.
pub proof fn law_join_separates_neighbours(
    a: Seq<Seq<char>>,
    b: Seq<Seq<char>>,
    part: Seq<char>,
    sep: Seq<char>,
)
    ensures
        join_text(Seq::empty(), sep) == Seq::<char>::empty(),
        join_text(seq![part], sep) == part,
        a.len() > 0 && b.len() > 0 ==> join_text(a + b, sep) == join_text(a, sep) + sep + join_text(
            b,
            sep,
        ),
    decreases b.len(),
{
    if a.len() > 0 && b.len() > 0 {
        assert((a + b).drop_last() =~= a + b.drop_last());
        assert((a + b).last() == b.last());
        if b.len() == 1 {
            assert(a + b.drop_last() =~= a);
        } else {
            law_join_separates_neighbours(a, b.drop_last(), part, sep);
            assert(join_text(a, sep) + sep + join_text(b, sep) =~= join_text(
                a + b.drop_last(),
                sep,
            ) + sep + b.last());
        }
    }
}

/// An attribute's text takes at most 64 KiB of UTF-8, is a prefix of the whole
/// text and as long as it can be, and counts as cut exactly when something is
/// missing.
pub proof fn law_attribute_text_is_capped(text: Seq<char>)
    ensures
        ({
            let kept = attr_text(text);
            &&& encode_utf8(kept).len() <= 65_536
            &&& kept.len() <= text.len() && kept == text.take(kept.len() as int)
            &&& forall|n: int|
                kept.len() < n <= text.len() ==> encode_utf8(#[trigger] text.take(n)).len() > 65_536
            &&& oversize(text) <==> kept != text
            &&& oversize(text) <==> encode_utf8(text).len() > 65_536
        }),
{
    law_capped_text(text, 65_536);
}

/// Whether `text` begins with `head`.
pub open spec fn begins_with(text: Seq<char>, head: Seq<char>) -> bool {
    head.len() <= text.len() && text.take(head.len() as int) == head
}

/// Whether `text` ends with `tail`.
pub open spec fn ends_with(text: Seq<char>, tail: Seq<char>) -> bool {
    tail.len() <= text.len() && text.skip(text.len() - tail.len()) == tail
}

/// A list of strings is seen as their texts, one for one and in their order.
pub proof fn law_texts_keep_their_order(strings: Seq<String>, i: int)
    requires
        0 <= i < strings.len(),
    ensures
        texts(strings).len() == strings.len(),
        texts(strings)[i] == strings[i]@,
{
}

} // verus!
