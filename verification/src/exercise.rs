//! A training run over a corpus of scripts: what to do after each feed, and
//! what to count.
//!
//! Each script is fed to a session of its own with type checking on. One that
//! does not type check is fed once more with type checking off.

use crate::text::{begins_with, decimal_text, ends_with, push_decimal};
use vstd::prelude::*;
use vstd::string::*;

verus! {

/// The name of a script whose file name cannot be told.
pub const DEFAULT_SCRIPT_NAME: &'static str = "main.py";

/// How a feed came out.
#[derive(Debug, Clone, Copy, PartialEq, Eq, Structural)]
pub enum FeedOutcome {
    /// It ran to its end.
    Complete,
    /// It waits for the host.
    Suspended,
    /// It did not type check.
    Typing,
    /// It raised an exception.
    Runtime,
    /// The pool failed.
    Failed,
}

/// What to do with the session after a feed.
#[derive(Debug, Clone, Copy, PartialEq, Eq, Structural)]
pub enum Action {
    /// Finish it and go on.
    Finish,
    /// Drop it and go on.
    Abandon,
    /// Feed the script again without type checking.
    RetryUnchecked,
    /// End the run with the pool's error.
    Fail,
}

/// What to do after a feed. Only a feed with type checking on is retried.
pub open spec fn action_after(outcome: FeedOutcome, retry: bool) -> Action {
    match outcome {
        FeedOutcome::Complete => Action::Finish,
        FeedOutcome::Runtime => Action::Finish,
        FeedOutcome::Suspended => Action::Abandon,
        FeedOutcome::Failed => Action::Fail,
        FeedOutcome::Typing => if retry {
            Action::Fail
        } else {
            Action::RetryUnchecked
        },
    }
}

/// The counts of a training run.
#[derive(Debug, Clone, Copy, PartialEq, Eq, Structural)]
pub struct Tally {
    pub completed: u64,
    pub typing_errors: u64,
}

/// The counts after a feed.
pub open spec fn counted(tally: Tally, outcome: FeedOutcome, retry: bool) -> Tally {
    match outcome {
        FeedOutcome::Complete => Tally { completed: (tally.completed + 1) as u64, ..tally },
        FeedOutcome::Typing => if retry {
            tally
        } else {
            Tally { typing_errors: (tally.typing_errors + 1) as u64, ..tally }
        },
        _ => tally,
    }
}

/// How the counts of a run over `cases` scripts read.
pub open spec fn summary_text(tally: Tally, cases: nat) -> Seq<char> {
    "Exercised "@ + decimal_text(cases) + " test cases, "@ + decimal_text(tally.completed as nat)
        + " completed, "@ + decimal_text(tally.typing_errors as nat)
        + " retried without type checking"@
}

impl Tally {
    /// Nothing counted yet.
    pub fn new() -> (tally: Self)
        ensures
            tally == (Tally { completed: 0, typing_errors: 0 }),
    {
        Tally { completed: 0, typing_errors: 0 }
    }

    /// Counts a feed and says what to do next. `retry` tells a second feed,
    /// without type checking, from a first.
    pub fn after_feed(&mut self, outcome: FeedOutcome, retry: bool) -> (action: Action)
        requires
            old(self).completed < u64::MAX,
            old(self).typing_errors < u64::MAX,
        ensures
            *final(self) == counted(*old(self), outcome, retry),
            action == action_after(outcome, retry),
    {
        match outcome {
            FeedOutcome::Complete => {
                self.completed = self.completed + 1;
                Action::Finish
            },
            FeedOutcome::Runtime => Action::Finish,
            FeedOutcome::Suspended => Action::Abandon,
            FeedOutcome::Failed => Action::Fail,
            FeedOutcome::Typing => {
                if retry {
                    Action::Fail
                } else {
                    self.typing_errors = self.typing_errors + 1;
                    Action::RetryUnchecked
                }
            },
        }
    }

    /// How these counts read for a run over `cases` scripts.
    pub fn summary(&self, cases: usize) -> (text: String)
        ensures
            text@ == summary_text(*self, cases as nat),
    {
        let mut text = String::new();
        text.append("Exercised ");
        push_decimal(&mut text, cases as u64);
        text.append(" test cases, ");
        push_decimal(&mut text, self.completed);
        text.append(" completed, ");
        push_decimal(&mut text, self.typing_errors);
        text.append(" retried without type checking");
        assert(text@ =~= summary_text(*self, cases as nat));
        text
    }
}

/// The name a script runs under: its file name, where it can be told.
pub fn script_name(file_name: Option<&str>) -> (name: String)
    ensures
        name@ == match file_name {
            Some(name) => name@,
            None => DEFAULT_SCRIPT_NAME@,
        },
        file_name is None ==> name@ == "main.py"@,
{
    match file_name {
        Some(name) => name.to_owned(),
        None => DEFAULT_SCRIPT_NAME.to_owned(),
    }
}

/// A script is fed at most twice: the retry never asks for another.
pub proof fn law_a_script_is_retried_once(outcome: FeedOutcome)
    ensures
        action_after(outcome, true) != Action::RetryUnchecked,
{
}

/// One script adds at most one to each count, and a retry is counted exactly
/// when it is asked for.
pub proof fn law_a_script_counts_once(tally: Tally, first: FeedOutcome, second: FeedOutcome)
    requires
        tally.completed < u64::MAX,
        tally.typing_errors < u64::MAX,
    ensures
        ({
            let once = counted(tally, first, false);
            let after = if action_after(first, false) == Action::RetryUnchecked {
                counted(once, second, true)
            } else {
                once
            };
            &&& tally.completed <= after.completed <= tally.completed + 1
            &&& after.typing_errors == tally.typing_errors + if action_after(first, false)
                == Action::RetryUnchecked {
                1int
            } else {
                0
            }
        }),
{
}

/// What becomes of a script: one that ran to its end or raised is finished, one
/// that waits for the host is abandoned, a failure of the pool ends the run, and
/// one that does not type check is fed again without type checking, once.
pub proof fn law_sessions_go_on_by_their_outcome(outcome: FeedOutcome, retry: bool)
    ensures
        action_after(outcome, retry) == Action::Finish <==> (outcome is Complete
            || outcome is Runtime),
        action_after(outcome, retry) == Action::Abandon <==> outcome is Suspended,
        action_after(outcome, retry) == Action::RetryUnchecked <==> (outcome is Typing && !retry),
        action_after(outcome, retry) == Action::Fail <==> (outcome is Failed || (outcome is Typing
            && retry)),
{
}

/// A feed that ran to its end is counted as completed and no other one is; a feed
/// that is to be retried is counted as such and no other one is.
pub proof fn law_counts_go_by_the_outcome(tally: Tally, outcome: FeedOutcome, retry: bool)
    requires
        tally.completed < u64::MAX,
        tally.typing_errors < u64::MAX,
    ensures
        ({
            let after = counted(tally, outcome, retry);
            &&& outcome is Complete ==> after.completed == tally.completed + 1
            &&& !(outcome is Complete) ==> after.completed == tally.completed
            &&& outcome is Typing && !retry ==> after.typing_errors == tally.typing_errors + 1
            &&& !(outcome is Typing && !retry) ==> after.typing_errors == tally.typing_errors
        }),
{
}

/// The summary of a run says how many scripts it had, then how many completed,
/// then how many were retried.
pub proof fn law_summary_says_all_counts(tally: Tally, cases: nat)
    ensures
        ({
            let text = summary_text(tally, cases);
            let completed = decimal_text(tally.completed as nat);
            let retried = decimal_text(tally.typing_errors as nat);
            &&& begins_with(
                text,
                "Exercised "@ + decimal_text(cases) + " test cases, "@ + completed,
            )
            &&& ends_with(
                text,
                " completed, "@ + retried + " retried without type checking"@,
            )
            &&& text.len() == 10 + decimal_text(cases).len() + 13 + completed.len() + 12
                + retried.len() + 30
        }),
{
    reveal_strlit("Exercised ");
    reveal_strlit(" test cases, ");
    reveal_strlit(" completed, ");
    reveal_strlit(" retried without type checking");
    let text = summary_text(tally, cases);
    let head = "Exercised "@ + decimal_text(cases) + " test cases, "@ + decimal_text(
        tally.completed as nat,
    );
    assert(text.take(head.len() as int) =~= head);
    assert(text.skip(head.len() as int) =~= " completed, "@ + decimal_text(
        tally.typing_errors as nat,
    ) + " retried without type checking"@);
}

} // verus!
