//! Host-side HMAC signing of dump payloads.
//!
//! Dumps are persisted by callers and later fed back, where they reach
//! deserialization of interpreter state inside a worker. Every dump is
//! therefore signed with the pool's [`DumpKey`] and verified before it is ever
//! sent to a worker. The key lives only in the parent process; workers, which
//! run untrusted code, never see it.
//!
//! Signed payload layout:
//!
//! ```text
//! [version u8 = 0x01][tag: 32-byte HMAC-SHA256(key, context || inner)][inner]
//! ```
//!
//! where `inner` is the worker's opaque dump envelope, untouched. The context
//! separates the domain of the MAC, so a dump key reused elsewhere cannot be
//! made to sign or verify other data.

use crate::text::{begins_with, decimal_text, ends_with, push_decimal};
use hmac::{Hmac, Mac};
use sha2::Sha256;
use vstd::prelude::*;
use vstd::string::*;
use vstd::utf8::{encode_utf8, is_ascii_chars_encode_utf8};

verus! {

/// Minimum accepted [`DumpKey`] length; shorter keys are rejected at
/// construction so weak keys never make it into a pool.
pub const MIN_DUMP_KEY_LEN: usize = 16;

/// Length of a generated key.
pub const EPHEMERAL_KEY_LEN: usize = 32;

/// Format version prepended to every signed dump.
pub const SIGNED_DUMP_VERSION: u8 = 1;

/// HMAC-SHA256 output length in bytes.
pub const TAG_LEN: usize = 32;

/// Length of what precedes the inner envelope.
pub const HEADER_LEN: usize = 33;

/// Domain-separation prefix mixed into every MAC.
pub open spec fn context() -> Seq<u8> {
    encode_utf8("monty-dump-sign-v1"@)
}

/// The HMAC-SHA256 of a message under a key.
pub uninterp spec fn hmac_sha256_tag(key: Seq<u8>, message: Seq<u8>) -> Seq<u8>;

/// Computes the tag of `prefix` followed by `message` with `Hmac<Sha256>` of
/// the `hmac` crate: `new_from_slice`, which takes keys of any length, an
/// `update` with each part, and `finalize`. The tag is 32 bytes, and depends
/// on the key and on the two parts as one message.
#[verifier::external_body]
fn hmac_sha256(key: &[u8], prefix: &[u8], message: &[u8]) -> (tag: Vec<u8>)
    ensures
        tag@ == hmac_sha256_tag(key@, prefix@ + message@),
        tag@.len() == TAG_LEN,
{
    let mut mac = Hmac::<Sha256>::new_from_slice(key).expect("HMAC-SHA256 accepts keys of any length");
    mac.update(prefix);
    mac.update(message);
    mac.finalize().into_bytes().to_vec()
}

/// Compares `tag` in constant time with the tag of `prefix` followed by
/// `message`, by `Mac::verify_slice` of `Hmac<Sha256>`. It succeeds exactly
/// when the two tags are equal; a tag of another length equals none.
#[verifier::external_body]
fn hmac_sha256_verify(key: &[u8], prefix: &[u8], message: &[u8], tag: &[u8]) -> (authentic: bool)
    ensures
        authentic == (tag@ == hmac_sha256_tag(key@, prefix@ + message@)),
{
    let mut mac = Hmac::<Sha256>::new_from_slice(key).expect("HMAC-SHA256 accepts keys of any length");
    mac.update(prefix);
    mac.update(message);
    mac.verify_slice(tag).is_ok()
}

/// The error of the operating system's random number generator, from the
/// `getrandom` crate.
#[verifier::external_type_specification]
#[verifier::external_body]
pub struct ExRandomError(getrandom::Error);

/// Overwrites `dest` with random bytes from the operating system through
/// `getrandom::fill`, which keeps its length. Nothing is claimed of the bytes,
/// nor of when the generator fails.
#[verifier::external_body]
fn fill_random(dest: &mut Vec<u8>) -> (result: Result<(), getrandom::Error>)
    ensures
        final(dest)@.len() == old(dest)@.len(),
{
    getrandom::fill(dest)
}

/// A pool's dump-signing key.
///
/// A key supplied by the user makes dumps restorable across pools and
/// processes; a generated one only restores into the same pool instance. The
/// key has no debug form of its own: see [`DumpKey::debug_text`].
pub struct DumpKey(Vec<u8>);

impl View for DumpKey {
    type V = Seq<u8>;

    closed spec fn view(&self) -> Seq<u8> {
        self.0@
    }
}

/// Error from [`DumpKey::new`]: the supplied key is shorter than
/// [`MIN_DUMP_KEY_LEN`].
#[derive(Debug, Clone, Copy, PartialEq, Eq, Structural)]
pub struct InvalidDumpKey;

impl InvalidDumpKey {
    /// How this error reads.
    pub fn message(&self) -> (text: String)
        ensures
            text@ == "dump key must be at least "@ + decimal_text(MIN_DUMP_KEY_LEN as nat)
                + " bytes"@,
            text@ == "dump key must be at least 16 bytes"@,
    {
        proof {
            reveal_strlit("dump key must be at least ");
            reveal_strlit(" bytes");
            reveal_strlit("dump key must be at least 16 bytes");
            reveal_with_fuel(decimal_text, 2);
            assert("dump key must be at least "@ + decimal_text(16) + " bytes"@
                =~= "dump key must be at least 16 bytes"@);
        }
        let mut out = String::new();
        out.append("dump key must be at least ");
        push_decimal(&mut out, MIN_DUMP_KEY_LEN as u64);
        out.append(" bytes");
        assert(out@ =~= "dump key must be at least "@ + decimal_text(MIN_DUMP_KEY_LEN as nat)
            + " bytes"@);
        out
    }
}

/// Error from [`DumpKey::ephemeral`]: the operating system has no randomness
/// to give.
#[derive(Debug, Clone, Copy, PartialEq, Eq, Structural)]
pub struct RandomnessUnavailable;

impl RandomnessUnavailable {
    /// How this error reads.
    pub fn message(&self) -> (text: &'static str)
        ensures
            text@ == "OS randomness unavailable — cannot generate a dump signing key"@,
    {
        "OS randomness unavailable — cannot generate a dump signing key"
    }
}

/// Why bytes are not a dump signed with the key at hand.
#[derive(Debug, Clone, Copy, PartialEq, Eq, Structural)]
pub enum InvalidDump {
    /// Shorter than the version byte and the tag.
    TooShort,
    /// Signed in another format.
    UnsupportedVersion { version: u8 },
    /// The tag is not that of the inner envelope under this key.
    BadSignature,
}

/// How the refusal of a dump reads.
pub open spec fn invalid_dump_text(error: InvalidDump) -> Seq<char> {
    match error {
        InvalidDump::TooShort => "too short to be a signed dump"@,
        InvalidDump::UnsupportedVersion { version } => "unsupported signed-dump version "@
            + decimal_text(version as nat) + " (expected "@ + decimal_text(
            SIGNED_DUMP_VERSION as nat,
        ) + ")"@,
        InvalidDump::BadSignature => {
            "signature verification failed — the dump was signed with a different key or corrupted"@
        },
    }
}

impl InvalidDump {
    /// How this error reads.
    pub fn message(&self) -> (text: String)
        ensures
            text@ == invalid_dump_text(*self),
    {
        let mut out = String::new();
        match self {
            InvalidDump::TooShort => {
                out.append("too short to be a signed dump");
            },
            InvalidDump::UnsupportedVersion { version } => {
                out.append("unsupported signed-dump version ");
                push_decimal(&mut out, *version as u64);
                out.append(" (expected ");
                push_decimal(&mut out, SIGNED_DUMP_VERSION as u64);
                out.append(")");
            },
            InvalidDump::BadSignature => {
                out.append(
                    "signature verification failed — the dump was signed with a different key or corrupted",
                );
            },
        }
        assert(out@ =~= invalid_dump_text(*self));
        out
    }
}

/// The signed payload of a state with its tag.
pub open spec fn framed(tag: Seq<u8>, state: Seq<u8>) -> Seq<u8> {
    seq![SIGNED_DUMP_VERSION] + tag + state
}

/// The tag and the inner envelope of a signed payload, or why it has none.
pub open spec fn unframed(signed: Seq<u8>) -> Result<(Seq<u8>, Seq<u8>), InvalidDump> {
    if signed.len() < HEADER_LEN {
        Err(InvalidDump::TooShort)
    } else if signed[0] != SIGNED_DUMP_VERSION {
        Err(InvalidDump::UnsupportedVersion { version: signed[0] })
    } else {
        Ok(
            (
                signed.subrange(1, HEADER_LEN as int),
                signed.subrange(HEADER_LEN as int, signed.len() as int),
            ),
        )
    }
}

/// The tag of a dumped state under a key.
pub open spec fn dump_tag(key: Seq<u8>, state: Seq<u8>) -> Seq<u8> {
    hmac_sha256_tag(key, context() + state)
}

/// The signed payload of a dumped state under a key.
pub open spec fn signed_dump(key: Seq<u8>, state: Seq<u8>) -> Seq<u8> {
    framed(dump_tag(key, state), state)
}

/// What verifying a payload under a key finds: its inner envelope, or why it
/// is refused.
pub open spec fn verdict(key: Seq<u8>, signed: Seq<u8>) -> Result<Seq<u8>, InvalidDump> {
    match unframed(signed) {
        Err(error) => Err(error),
        Ok((tag, inner)) => if tag == dump_tag(key, inner) {
            Ok(inner)
        } else {
            Err(InvalidDump::BadSignature)
        },
    }
}

/// The outcome of a fallible operation on bytes, with the bytes by their view.
pub open spec fn bytes_result<E>(result: Result<Vec<u8>, E>) -> Result<Seq<u8>, E> {
    match result {
        Ok(bytes) => Ok(bytes@),
        Err(error) => Err(error),
    }
}

/// Prepends the version byte and the tag to a dumped state.
pub fn frame_signed(tag: &[u8], state: &[u8]) -> (signed: Vec<u8>)
    ensures
        signed@ == framed(tag@, state@),
{
    let mut signed: Vec<u8> = Vec::new();
    signed.push(SIGNED_DUMP_VERSION);
    signed.extend_from_slice(tag);
    signed.extend_from_slice(state);
    assert(signed@ =~= framed(tag@, state@));
    signed
}

/// Splits a signed payload into its tag and its inner envelope.
pub fn split_signed(signed: Vec<u8>) -> (result: Result<(Vec<u8>, Vec<u8>), InvalidDump>)
    ensures
        match result {
            Ok((tag, inner)) => unframed(signed@) == Ok::<(Seq<u8>, Seq<u8>), InvalidDump>(
                (tag@, inner@),
            ),
            Err(error) => unframed(signed@) == Err::<(Seq<u8>, Seq<u8>), InvalidDump>(error),
        },
{
    if signed.len() < HEADER_LEN {
        return Err(InvalidDump::TooShort);
    }
    let version: u8 = signed[0];
    if version != SIGNED_DUMP_VERSION {
        return Err(InvalidDump::UnsupportedVersion { version });
    }
    let ghost whole = signed@;
    let mut signed = signed;
    let inner = signed.split_off(HEADER_LEN);
    let tag = signed.split_off(1);
    assert(tag@ =~= whole.subrange(1, HEADER_LEN as int));
    assert(inner@ =~= whole.subrange(HEADER_LEN as int, whole.len() as int));
    Ok((tag, inner))
}

/// Hands out the inner envelope of a payload whose tag was found authentic.
pub fn release_inner(inner: Vec<u8>, authentic: bool) -> (result: Result<Vec<u8>, InvalidDump>)
    ensures
        bytes_result(result) == (if authentic {
            Ok(inner@)
        } else {
            Err(InvalidDump::BadSignature)
        }),
{
    if authentic {
        Ok(inner)
    } else {
        Err(InvalidDump::BadSignature)
    }
}

impl DumpKey {
    #[verifier::type_invariant]
    spec fn long_enough(self) -> bool {
        self.0@.len() >= MIN_DUMP_KEY_LEN
    }

    /// A key is never shorter than [`MIN_DUMP_KEY_LEN`].
    pub fn key_len(&self) -> (len: usize)
        ensures
            len == self@.len(),
            len >= MIN_DUMP_KEY_LEN,
    {
        proof {
            use_type_invariant(self);
        }
        self.0.len()
    }

    /// Wraps user-supplied key bytes, rejecting keys shorter than
    /// [`MIN_DUMP_KEY_LEN`].
    pub fn new(key: Vec<u8>) -> (result: Result<Self, InvalidDumpKey>)
        ensures
            result is Ok <==> key@.len() >= MIN_DUMP_KEY_LEN,
            result is Ok <==> key@.len() >= 16,
            result matches Ok(dump_key) ==> dump_key@ == key@,
    {
        if key.len() < MIN_DUMP_KEY_LEN {
            Err(InvalidDumpKey)
        } else {
            Ok(DumpKey(key))
        }
    }

    /// The key made of bytes the operating system's generator was asked to
    /// fill: those very bytes where it did, and none where it failed.
    pub fn from_random(bytes: Vec<u8>, filled: Result<(), getrandom::Error>) -> (result: Result<
        Self,
        RandomnessUnavailable,
    >)
        requires
            bytes@.len() == EPHEMERAL_KEY_LEN,
        ensures
            result is Ok <==> filled is Ok,
            result matches Ok(key) ==> key@ == bytes@,
    {
        match filled {
            Ok(()) => Ok(DumpKey(bytes)),
            Err(_) => Err(RandomnessUnavailable),
        }
    }

    /// Generates a random key from OS randomness, for a pool that was given
    /// none. Fails only where the operating system's generator does, which
    /// [`DumpKey::from_random`] states.
    pub fn ephemeral() -> (result: Result<Self, RandomnessUnavailable>)
        ensures
            result matches Ok(key) ==> key@.len() == EPHEMERAL_KEY_LEN,
            result matches Ok(key) ==> key@.len() == 32,
    {
        let mut bytes: Vec<u8> = vec![0u8; EPHEMERAL_KEY_LEN];
        let filled = fill_random(&mut bytes);
        DumpKey::from_random(bytes, filled)
    }

    /// Signs a worker dump envelope, prepending the version byte and the tag.
    /// Verifying the payload under the same key gives the envelope back.
    pub fn sign(&self, state: &[u8]) -> (signed: Vec<u8>)
        ensures
            signed@ == signed_dump(self@, state@),
            verdict(self@, signed@) == Ok::<Seq<u8>, InvalidDump>(state@),
    {
        let tag = hmac_sha256(self.0.as_slice(), "monty-dump-sign-v1".as_bytes(), state);
        proof {
            law_framing_round_trip(tag@, state@);
        }
        frame_signed(tag.as_slice(), state)
    }

    /// Verifies a signed dump and returns the inner worker envelope; bytes that
    /// are refused must not be sent to a worker.
    pub fn verify(&self, signed: Vec<u8>) -> (result: Result<Vec<u8>, InvalidDump>)
        ensures
            bytes_result(result) == verdict(self@, signed@),
    {
        match split_signed(signed) {
            Err(error) => Err(error),
            Ok((tag, inner)) => {
                let authentic = hmac_sha256_verify(
                    self.0.as_slice(),
                    "monty-dump-sign-v1".as_bytes(),
                    inner.as_slice(),
                    tag.as_slice(),
                );
                release_inner(inner, authentic)
            },
        }
    }

    /// The key as it may be logged: redacted, as key material must never reach
    /// logs.
    pub fn debug_text(&self) -> (text: &'static str)
        ensures
            text@ == "DumpKey(..)"@,
    {
        "DumpKey(..)"
    }
}

impl Clone for DumpKey {
    fn clone(&self) -> (key: Self)
        ensures
            key@ == self@,
    {
        proof {
            use_type_invariant(self);
        }
        let bytes = self.0.clone();
        assert(bytes@ =~= self.0@);
        DumpKey(bytes)
    }
}

/// Splitting a framed payload gives back the tag and the state it was made of.
pub proof fn law_framing_round_trip(tag: Seq<u8>, state: Seq<u8>)
    requires
        tag.len() == TAG_LEN,
    ensures
        unframed(framed(tag, state)) == Ok::<(Seq<u8>, Seq<u8>), InvalidDump>((tag, state)),
{
    let signed = framed(tag, state);
    assert(signed.subrange(1, HEADER_LEN as int) =~= tag);
    assert(signed.subrange(HEADER_LEN as int, signed.len() as int) =~= state);
}

/// Whatever verifies is exactly what signing its inner envelope gives: no
/// other bytes pass.
pub proof fn law_only_signed_dumps_verify(key: Seq<u8>, signed: Seq<u8>)
    requires
        verdict(key, signed) is Ok,
    ensures
        signed == signed_dump(key, verdict(key, signed)->Ok_0),
{
    assert(signed =~= signed_dump(key, verdict(key, signed)->Ok_0));
}

/// A payload changed in its tag alone is refused: two payloads that both
/// verify and carry the same envelope are the same.
pub proof fn law_one_payload_per_envelope(key: Seq<u8>, signed: Seq<u8>, other: Seq<u8>)
    requires
        verdict(key, signed) is Ok,
        verdict(key, other) is Ok,
        verdict(key, signed)->Ok_0 == verdict(key, other)->Ok_0,
    ensures
        signed == other,
{
    law_only_signed_dumps_verify(key, signed);
    law_only_signed_dumps_verify(key, other);
}

/// What every dump's tag is computed over in front of the dump itself: the bytes
/// of `monty-dump-sign-v1`.
pub open spec fn domain() -> Seq<u8> {
    seq![
        109, 111, 110, 116, 121, 45, 100, 117, 109, 112, 45, 115, 105, 103, 110, 45, 118, 49,
    ]
}

proof fn lemma_domain()
    ensures
        context() == domain(),
{
    reveal_strlit("monty-dump-sign-v1");
    is_ascii_chars_encode_utf8("monty-dump-sign-v1"@);
    assert(context() =~= domain());
}

/// A signed dump is the format's version, the tag of the dump in this use of the
/// key, and the dump, in this order.
pub proof fn law_signed_dump_is_version_tag_and_state(key: Seq<u8>, state: Seq<u8>)
    ensures
        ({
            let signed = signed_dump(key, state);
            let tag = hmac_sha256_tag(key, domain() + state);
            &&& signed.len() == 1 + tag.len() + state.len()
            &&& signed[0] == 1
            &&& signed.subrange(1, 1 + tag.len() as int) == tag
            &&& signed.skip(1 + tag.len() as int) == state
        }),
{
    lemma_domain();
    let signed = signed_dump(key, state);
    let tag = hmac_sha256_tag(key, domain() + state);
    assert(signed.subrange(1, 1 + tag.len() as int) =~= tag);
    assert(signed.skip(1 + tag.len() as int) =~= state);
}

/// Bytes are accepted if and only if they are long enough, of the format's
/// version, and tagged with the tag of what follows under this key; what follows
/// is then handed out. Otherwise the first of these that fails is the reason.
pub proof fn law_dumps_are_refused_by_the_first_fault(key: Seq<u8>, signed: Seq<u8>)
    ensures
        ({
            let found = verdict(key, signed);
            let inner = signed.skip(33);
            let authentic = signed.subrange(1, 33) == hmac_sha256_tag(key, domain() + inner);
            &&& signed.len() < 33 <==> found == Err::<Seq<u8>, InvalidDump>(InvalidDump::TooShort)
            &&& signed.len() >= 33 && signed[0] != 1 ==> found == Err::<Seq<u8>, InvalidDump>(
                InvalidDump::UnsupportedVersion { version: signed[0] },
            )
            &&& signed.len() >= 33 && signed[0] == 1 && authentic ==> found == Ok::<
                Seq<u8>,
                InvalidDump,
            >(inner)
            &&& signed.len() >= 33 && signed[0] == 1 && !authentic ==> found == Err::<
                Seq<u8>,
                InvalidDump,
            >(InvalidDump::BadSignature)
        }),
{
    lemma_domain();
    if signed.len() >= 33 {
        assert(signed.subrange(33, signed.len() as int) =~= signed.skip(33));
    }
}

/// A refused version is named, and then the one that is expected; the other
/// refusals are fixed.
pub proof fn law_refusals_say_what_is_wrong(version: u8)
    ensures
        ({
            let text = invalid_dump_text(InvalidDump::UnsupportedVersion { version });
            &&& begins_with(
                text,
                "unsupported signed-dump version "@ + decimal_text(version as nat),
            )
            &&& ends_with(text, " (expected 1)"@)
            &&& text.len() == 32 + decimal_text(version as nat).len() + 13
        }),
        invalid_dump_text(InvalidDump::TooShort) == "too short to be a signed dump"@,
        invalid_dump_text(InvalidDump::BadSignature)
            == "signature verification failed — the dump was signed with a different key or corrupted"@,
{
    reveal_strlit("unsupported signed-dump version ");
    reveal_strlit(" (expected ");
    reveal_strlit(")");
    reveal_strlit(" (expected 1)");
    let text = invalid_dump_text(InvalidDump::UnsupportedVersion { version });
    let head = "unsupported signed-dump version "@ + decimal_text(version as nat);
    assert(text.take(head.len() as int) =~= head);
    assert(decimal_text(1) == seq!['1']);
    assert(text.skip(head.len() as int) =~= " (expected 1)"@);
}

} // verus!
