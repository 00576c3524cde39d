//! Hard ceiling on a worker's address space, the kernel limit `RLIMIT_AS`.
//!
//! It bounds virtual address space: thread stacks, allocator arenas and file
//! mappings count too, so the ceiling must sit well above the sandbox budget it
//! backstops. A breach is unrecoverable; the worker dies wherever the failing
//! allocation happened.

use crate::text::{decimal_text, push_decimal};
use vstd::prelude::*;
use vstd::string::*;

verus! {

/// The least of the requested ceiling and the two inherited limits.
pub open spec fn clamped(bytes: u64, soft: u64, hard: u64) -> u64 {
    let requested = if bytes < soft {
        bytes
    } else {
        soft
    };
    if requested < hard {
        requested
    } else {
        hard
    }
}

/// How the failure to read the inherited limits reads.
pub open spec fn read_failure(error: Seq<char>) -> Seq<char> {
    "cannot read RLIMIT_AS: "@ + error
}

/// How the failure to set a limit reads.
pub open spec fn set_failure(limit: u64, error: Seq<char>) -> Seq<char> {
    "cannot set RLIMIT_AS to "@ + decimal_text(limit as nat) + " bytes: "@ + error
}

/// The ceiling to set, from the inherited soft and hard limits. An outer
/// sandbox may already impose something stricter, so the request is clamped to
/// both: more than the hard limit would fail outright, and more than the soft
/// one would loosen what this is meant to tighten.
pub fn plan(bytes: u64, inherited: Result<(u64, u64), String>) -> (limit: Result<u64, String>)
    ensures
        match (inherited, limit) {
            (Ok((soft, hard)), Ok(limit)) => limit == clamped(bytes, soft, hard),
            (Err(error), Err(text)) => text@ == read_failure(error@),
            _ => false,
        },
{
    match inherited {
        Ok((soft, hard)) => {
            let requested: u64 = if bytes < soft {
                bytes
            } else {
                soft
            };
            if requested < hard {
                Ok(requested)
            } else {
                Ok(hard)
            }
        },
        Err(error) => {
            let mut text = String::new();
            text.append("cannot read RLIMIT_AS: ");
            text.append(error.as_str());
            assert(text@ =~= read_failure(error@));
            Err(text)
        },
    }
}

/// What came of setting a ceiling.
pub fn settle(limit: u64, outcome: Result<(), String>) -> (result: Result<Option<u64>, String>)
    ensures
        match (outcome, result) {
            (Ok(()), Ok(in_force)) => in_force == Some(limit),
            (Err(error), Err(text)) => text@ == set_failure(limit, error@),
            _ => false,
        },
{
    match outcome {
        Ok(()) => Ok(Some(limit)),
        Err(error) => {
            let mut text = String::new();
            text.append("cannot set RLIMIT_AS to ");
            push_decimal(&mut text, limit);
            text.append(" bytes: ");
            text.append(error.as_str());
            assert(text@ =~= set_failure(limit, error@));
            Err(text)
        },
    }
}

/// Whether `result` is what lowering the limit came to, given what `read` and
/// `set` can return: the inherited limits decide which one limit is set.
pub open spec fn applied<R: FnOnce() -> Result<(u64, u64), String>, S: FnOnce(u64) -> Result<
    (),
    String,
>>(bytes: u64, read: R, set: S, result: Result<Option<u64>, String>) -> bool {
    exists|inherited: Result<(u64, u64), String>| #[trigger]
        read.ensures((), inherited) && match inherited {
            Err(error) => result matches Err(text) && text@ == read_failure(error@),
            Ok((soft, hard)) => {
                let limit = clamped(bytes, soft, hard);
                exists|outcome: Result<(), String>| #[trigger]
                    set.ensures((limit,), outcome) && match outcome {
                        Ok(()) => result == Ok::<Option<u64>, String>(Some(limit)),
                        Err(error) => result matches Err(text) && text@ == set_failure(
                            limit,
                            error@,
                        ),
                    }
            },
        }
}

/// Lowers this process's address-space limit to `bytes`, by `read`, which gives
/// the inherited soft and hard limits, and `set`, which sets both to one value,
/// so nothing later in the process can lift the ceiling again.
///
/// `Ok(Some(limit))` means the ceiling is in force at `limit` bytes; `Ok(None)`
/// that this platform has no usable limit and the process stays unbounded.
/// `Err` is a real failure: the caller asked for a guarantee that cannot be
/// honoured.
pub fn apply<R: FnOnce() -> Result<(u64, u64), String>, S: FnOnce(u64) -> Result<(), String>>(
    bytes: u64,
    supported: bool,
    read: R,
    set: S,
) -> (result: Result<Option<u64>, String>)
    requires
        read.requires(()),
        forall|limit: u64| set.requires((limit,)),
    ensures
        if supported {
            applied(bytes, read, set, result)
        } else {
            result == Ok::<Option<u64>, String>(None)
        },
{
    if !supported {
        return Ok(None);
    }
    let inherited = read();
    let ghost found = inherited;
    assert(read.ensures((), found));
    match plan(bytes, inherited) {
        Ok(limit) => {
            let outcome = set(limit);
            let ghost done = outcome;
            assert(set.ensures((limit,), done));
            settle(limit, outcome)
        },
        Err(text) => Err(text),
    }
}

/// The limit is never raised, neither above what was asked for nor above what
/// was inherited, and it is as high as both allow.
pub proof fn law_limit_is_never_raised(bytes: u64, soft: u64, hard: u64)
    ensures
        clamped(bytes, soft, hard) <= bytes,
        clamped(bytes, soft, hard) <= soft,
        clamped(bytes, soft, hard) <= hard,
        clamped(bytes, soft, hard) == bytes || clamped(bytes, soft, hard) == soft || clamped(
            bytes,
            soft,
            hard,
        ) == hard,
{
}

/// Once set, a limit stays: asking again, for whatever size, never lifts it.
pub proof fn law_limit_stays(bytes: u64, soft: u64, hard: u64, again: u64)
    ensures
        ({
            let limit = clamped(bytes, soft, hard);
            &&& clamped(again, limit, limit) <= limit
            &&& clamped(bytes, limit, limit) == limit
        }),
{
}

/// When lowering the limit succeeds, the limit in force is the one that was set,
/// and the least of what was asked for and both limits that were read. When it
/// fails, reading failed, or setting that limit did.
pub proof fn law_outcome_is_what_was_set<
    R: FnOnce() -> Result<(u64, u64), String>,
    S: FnOnce(u64) -> Result<(), String>,
>(bytes: u64, read: R, set: S, result: Result<Option<u64>, String>)
    requires
        applied(bytes, read, set, result),
    ensures
        result matches Ok(in_force) ==> in_force is Some && exists|soft: u64, hard: u64|
            #![trigger read.ensures((), Ok((soft, hard)))]
            {
                &&& read.ensures((), Ok((soft, hard)))
                &&& set.ensures((in_force->0,), Ok(()))
                &&& in_force->0 <= bytes && in_force->0 <= soft && in_force->0 <= hard
                &&& in_force->0 == bytes || in_force->0 == soft || in_force->0 == hard
            },
        result matches Err(text) ==> (exists|error: String| #[trigger]
            read.ensures((), Err(error)) && text@ == "cannot read RLIMIT_AS: "@ + error@) || (exists|
            limit: u64,
            error: String,
        | #[trigger]
            set.ensures((limit,), Err(error)) && limit <= bytes && text@
                == "cannot set RLIMIT_AS to "@ + decimal_text(limit as nat) + " bytes: "@ + error@),
{
    let inherited = choose|inherited: Result<(u64, u64), String>| #[trigger]
        read.ensures((), inherited) && match inherited {
            Err(error) => result matches Err(text) && text@ == read_failure(error@),
            Ok((soft, hard)) => {
                let limit = clamped(bytes, soft, hard);
                exists|outcome: Result<(), String>| #[trigger]
                    set.ensures((limit,), outcome) && match outcome {
                        Ok(()) => result == Ok::<Option<u64>, String>(Some(limit)),
                        Err(error) => result matches Err(text) && text@ == set_failure(
                            limit,
                            error@,
                        ),
                    }
            },
        };
    if let Ok((soft, hard)) = inherited {
        let limit = clamped(bytes, soft, hard);
        let outcome = choose|outcome: Result<(), String>| #[trigger]
            set.ensures((limit,), outcome) && match outcome {
                Ok(()) => result == Ok::<Option<u64>, String>(Some(limit)),
                Err(error) => result matches Err(text) && text@ == set_failure(limit, error@),
            };
        assert(set.ensures((limit,), outcome));
        assert(read.ensures((), Ok((soft, hard))));
        if outcome is Ok {
            assert(outcome->Ok_0 == ());
            assert(set.ensures((limit,), Ok(())));
            assert(result == Ok::<Option<u64>, String>(Some(limit)));
        }
    }
}

} // verus!
