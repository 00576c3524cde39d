//! What a breached resource limit is reported as.

use crate::text::{begins_with, decimal_text, ends_with, push_decimal};
use crate::time::{duration_text, Duration};
use vstd::prelude::*;
use vstd::string::*;

verus! {

/// Error returned when a resource limit is exceeded during execution.
///
/// This allows the sandbox to enforce strict limits on allocation count,
/// execution time, and memory usage.
#[derive(Debug, Clone, Copy, PartialEq, Eq, Structural)]
#[allow(inconsistent_fields)]
pub enum ResourceError {
    /// Maximum number of allocations exceeded.
    Allocation { limit: usize, count: usize },
    /// The attempted allocation count is not representable.
    AllocationUnrepresentable { limit: usize },
    /// Maximum execution time exceeded.
    Time { limit: Duration, elapsed: Duration },
    /// The attempted cumulative execution duration is not representable.
    TimeUnrepresentable { limit: Duration },
    /// Maximum memory usage exceeded.
    Memory { limit: usize, used: usize },
    /// The attempted memory usage is not representable.
    MemoryUnrepresentable { limit: usize },
    /// Maximum recursion depth exceeded.
    Recursion { limit: usize, depth: usize },
    /// The attempted recursion depth is not representable.
    RecursionUnrepresentable { limit: usize },
}

/// A resource error as numbers, durations in nanoseconds.
pub enum ResourceErrorView {
    Allocation { limit: nat, count: nat },
    AllocationUnrepresentable { limit: nat },
    Time { limit: nat, elapsed: nat },
    TimeUnrepresentable { limit: nat },
    Memory { limit: nat, used: nat },
    MemoryUnrepresentable { limit: nat },
    Recursion { limit: nat, depth: nat },
    RecursionUnrepresentable { limit: nat },
}

impl View for ResourceError {
    type V = ResourceErrorView;

    open spec fn view(&self) -> ResourceErrorView {
        match *self {
            ResourceError::Allocation { limit, count } => ResourceErrorView::Allocation {
                limit: limit as nat,
                count: count as nat,
            },
            ResourceError::AllocationUnrepresentable { limit } => {
                ResourceErrorView::AllocationUnrepresentable { limit: limit as nat }
            },
            ResourceError::Time { limit, elapsed } => ResourceErrorView::Time {
                limit: limit@,
                elapsed: elapsed@,
            },
            ResourceError::TimeUnrepresentable { limit } => {
                ResourceErrorView::TimeUnrepresentable { limit: limit@ }
            },
            ResourceError::Memory { limit, used } => ResourceErrorView::Memory {
                limit: limit as nat,
                used: used as nat,
            },
            ResourceError::MemoryUnrepresentable { limit } => {
                ResourceErrorView::MemoryUnrepresentable { limit: limit as nat }
            },
            ResourceError::Recursion { limit, depth } => ResourceErrorView::Recursion {
                limit: limit as nat,
                depth: depth as nat,
            },
            ResourceError::RecursionUnrepresentable { limit } => {
                ResourceErrorView::RecursionUnrepresentable { limit: limit as nat }
            },
        }
    }
}

/// The error a checked operation came back with, if any.
pub open spec fn refusal<T>(result: Result<T, ResourceError>) -> Option<ResourceErrorView> {
    match result {
        Ok(_) => None,
        Err(error) => Some(error@),
    }
}

/// How an exceeded time limit reads, from how the two durations read.
pub open spec fn time_text(elapsed: Seq<char>, limit: Seq<char>) -> Seq<char> {
    "time limit exceeded: "@ + elapsed + " > "@ + limit
}

/// How an unrepresentable execution time reads, from how the limit reads.
pub open spec fn unrepresentable_time_text(limit: Seq<char>) -> Seq<char> {
    "time limit exceeded: attempted duration is unrepresentable (limit: "@ + limit + ")"@
}

/// How an exceeded time limit reads, from how the two durations read.
pub fn time_message(elapsed: &str, limit: &str) -> (text: String)
    ensures
        text@ == time_text(elapsed@, limit@),
{
    let mut out = String::new();
    out.append("time limit exceeded: ");
    out.append(elapsed);
    out.append(" > ");
    out.append(limit);
    assert(out@ =~= time_text(elapsed@, limit@));
    out
}

/// How an unrepresentable execution time reads, from how the limit reads.
pub fn unrepresentable_time_message(limit: &str) -> (text: String)
    ensures
        text@ == unrepresentable_time_text(limit@),
{
    let mut out = String::new();
    out.append("time limit exceeded: attempted duration is unrepresentable (limit: ");
    out.append(limit);
    out.append(")");
    assert(out@ =~= unrepresentable_time_text(limit@));
    out
}

/// How a resource error reads.
pub open spec fn error_text(error: ResourceErrorView) -> Seq<char> {
    match error {
        ResourceErrorView::Allocation { limit, count } => "allocation limit exceeded: "@
            + decimal_text(count) + " > "@ + decimal_text(limit),
        ResourceErrorView::AllocationUnrepresentable { limit } => {
            "allocation limit exceeded: attempted count is unrepresentable (limit: "@
                + decimal_text(limit) + ")"@
        },
        ResourceErrorView::Time { limit, elapsed } => time_text(
            duration_text(elapsed),
            duration_text(limit),
        ),
        ResourceErrorView::TimeUnrepresentable { limit } => unrepresentable_time_text(
            duration_text(limit),
        ),
        ResourceErrorView::Memory { limit, used } => "memory limit exceeded: "@ + decimal_text(used)
            + " bytes > "@ + decimal_text(limit) + " bytes"@,
        ResourceErrorView::MemoryUnrepresentable { limit } => {
            "memory limit exceeded: attempted usage is unrepresentable (limit: "@ + decimal_text(
                limit,
            ) + " bytes)"@
        },
        ResourceErrorView::Recursion { .. } => "maximum recursion depth exceeded"@,
        ResourceErrorView::RecursionUnrepresentable { .. } => "maximum recursion depth exceeded"@,
    }
}

/// The classes of exception a resource error is raised as.
#[derive(Debug, Clone, Copy, PartialEq, Eq, Structural)]
pub enum ExcType {
    MemoryError,
    TimeoutError,
    RecursionError,
}

/// The class of exception a resource error is raised as.
pub open spec fn error_class(error: ResourceErrorView) -> ExcType {
    match error {
        ResourceErrorView::Allocation { .. } => ExcType::MemoryError,
        ResourceErrorView::AllocationUnrepresentable { .. } => ExcType::MemoryError,
        ResourceErrorView::Memory { .. } => ExcType::MemoryError,
        ResourceErrorView::MemoryUnrepresentable { .. } => ExcType::MemoryError,
        ResourceErrorView::Time { .. } => ExcType::TimeoutError,
        ResourceErrorView::TimeUnrepresentable { .. } => ExcType::TimeoutError,
        ResourceErrorView::Recursion { .. } => ExcType::RecursionError,
        ResourceErrorView::RecursionUnrepresentable { .. } => ExcType::RecursionError,
    }
}

/// An exception on its way up, with the stack frame that raised it when one is
/// known.
#[derive(Debug)]
pub struct ExceptionRaise<F> {
    pub exc_type: ExcType,
    pub message: String,
    pub frame: Option<F>,
}

/// An exception on its way up, with its message as text.
pub struct RaiseView<F> {
    pub exc_type: ExcType,
    pub message: Seq<char>,
    pub frame: Option<F>,
}

impl<F> View for ExceptionRaise<F> {
    type V = RaiseView<F>;

    open spec fn view(&self) -> RaiseView<F> {
        RaiseView { exc_type: self.exc_type, message: self.message@, frame: self.frame }
    }
}

impl ResourceError {
    /// How this error reads.
    pub fn message(&self) -> (text: String)
        ensures
            text@ == error_text(self@),
    {
        let mut out = String::new();
        match self {
            ResourceError::Allocation { limit, count } => {
                out.append("allocation limit exceeded: ");
                push_decimal(&mut out, *count as u64);
                out.append(" > ");
                push_decimal(&mut out, *limit as u64);
            },
            ResourceError::AllocationUnrepresentable { limit } => {
                out.append("allocation limit exceeded: attempted count is unrepresentable (limit: ");
                push_decimal(&mut out, *limit as u64);
                out.append(")");
            },
            ResourceError::Time { limit, elapsed } => {
                out = time_message(elapsed.debug_text().as_str(), limit.debug_text().as_str());
            },
            ResourceError::TimeUnrepresentable { limit } => {
                out = unrepresentable_time_message(limit.debug_text().as_str());
            },
            ResourceError::Memory { limit, used } => {
                out.append("memory limit exceeded: ");
                push_decimal(&mut out, *used as u64);
                out.append(" bytes > ");
                push_decimal(&mut out, *limit as u64);
                out.append(" bytes");
            },
            ResourceError::MemoryUnrepresentable { limit } => {
                out.append("memory limit exceeded: attempted usage is unrepresentable (limit: ");
                push_decimal(&mut out, *limit as u64);
                out.append(" bytes)");
            },
            ResourceError::Recursion { .. } | ResourceError::RecursionUnrepresentable { .. } => {
                out.append("maximum recursion depth exceeded");
            },
        }
        assert(out@ =~= error_text(self@));
        out
    }

    /// The exception this error is raised as, with the stack frame that raised
    /// it when one is known.
    #[must_use]
    pub fn into_exception<F>(self, frame: Option<F>) -> (raised: ExceptionRaise<F>)
        ensures
            raised@ == (RaiseView {
                exc_type: error_class(self@),
                message: error_text(self@),
                frame,
            }),
    {
        let exc_type = match &self {
            ResourceError::Allocation { .. } | ResourceError::AllocationUnrepresentable { .. } => {
                ExcType::MemoryError
            },
            ResourceError::Memory { .. } | ResourceError::MemoryUnrepresentable { .. } => {
                ExcType::MemoryError
            },
            ResourceError::Time { .. } | ResourceError::TimeUnrepresentable { .. } => {
                ExcType::TimeoutError
            },
            ResourceError::Recursion { .. } | ResourceError::RecursionUnrepresentable { .. } => {
                ExcType::RecursionError
            },
        };
        ExceptionRaise { exc_type, message: self.message(), frame }
    }
}

/// How a run ended early.
#[derive(Debug)]
pub enum RunError<F> {
    /// An exception sandboxed code can catch.
    Exc(ExceptionRaise<F>),
    /// An exception that ends the run whatever the sandboxed code does.
    UncatchableExc(ExceptionRaise<F>),
}

/// Whether sandboxed code can catch a resource error.
pub open spec fn catchable(error: ResourceErrorView) -> bool {
    error is Recursion || error is RecursionUnrepresentable
}

/// How a run ended early, with the exception's message as text.
pub struct RunErrorView<F> {
    pub catchable: bool,
    pub raised: RaiseView<F>,
}

impl<F> View for RunError<F> {
    type V = RunErrorView<F>;

    open spec fn view(&self) -> RunErrorView<F> {
        match *self {
            RunError::Exc(raised) => RunErrorView { catchable: true, raised: raised@ },
            RunError::UncatchableExc(raised) => RunErrorView { catchable: false, raised: raised@ },
        }
    }
}

impl<F> vstd::std_specs::convert::FromSpecImpl<ResourceError> for RunError<F> {
    /// The message is a `String`, known by its text alone, so what `from`
    /// returns is stated on `from` itself.
    open spec fn obeys_from_spec() -> bool {
        false
    }

    open spec fn from_spec(error: ResourceError) -> RunError<F> {
        arbitrary()
    }
}

impl<F> From<ResourceError> for RunError<F> {
    /// Recursion errors can be caught, as everywhere in the language. The other
    /// resource errors cannot, so untrusted code cannot suppress them.
    fn from(error: ResourceError) -> (run: RunError<F>)
        ensures
            run@ == (RunErrorView::<F> {
                catchable: catchable(error@),
                raised: RaiseView {
                    exc_type: error_class(error@),
                    message: error_text(error@),
                    frame: None,
                },
            }),
    {
        match error {
            ResourceError::Recursion { .. } | ResourceError::RecursionUnrepresentable { .. } => {
                RunError::Exc(error.into_exception(None))
            },
            _ => RunError::UncatchableExc(error.into_exception(None)),
        }
    }
}

/// Sandboxed code can catch recursion errors and no others: memory and time
/// limits end the run.
pub proof fn law_only_recursion_is_catchable(error: ResourceErrorView)
    ensures
        catchable(error) <==> error_class(error) == ExcType::RecursionError,
{
}

/// A memory limit, of bytes or of objects, is reported as a memory error, the
/// time limit as a timeout and the depth limit as a recursion error, which alone
/// can be caught; that the attempt cannot be counted makes no difference.
pub proof fn law_limits_raise_their_own_class(error: ResourceErrorView)
    ensures
        (error is Allocation || error is AllocationUnrepresentable || error is Memory
            || error is MemoryUnrepresentable) <==> error_class(error) == ExcType::MemoryError,
        (error is Time || error is TimeUnrepresentable) <==> error_class(error)
            == ExcType::TimeoutError,
        (error is Recursion || error is RecursionUnrepresentable) <==> error_class(error)
            == ExcType::RecursionError,
        catchable(error) <==> (error is Recursion || error is RecursionUnrepresentable),
{
}

/// A message says which limit was exceeded, then what was attempted, then the
/// limit; an attempt that cannot be counted is said to be unrepresentable. A
/// recursion error has no numbers.
pub proof fn law_messages_report_the_attempt_and_the_limit(
    limit: nat,
    attempted: nat,
)
    ensures
        ({
            let text = error_text(ResourceErrorView::Allocation { limit, count: attempted });
            &&& begins_with(text, "allocation limit exceeded: "@ + decimal_text(attempted) + " > "@)
            &&& ends_with(text, " > "@ + decimal_text(limit))
            &&& text.len() == 27 + decimal_text(attempted).len() + 3 + decimal_text(limit).len()
        }),
        ({
            let text = error_text(ResourceErrorView::Memory { limit, used: attempted });
            &&& begins_with(
                text,
                "memory limit exceeded: "@ + decimal_text(attempted) + " bytes > "@,
            )
            &&& ends_with(text, " bytes > "@ + decimal_text(limit) + " bytes"@)
            &&& text.len() == 23 + decimal_text(attempted).len() + 9 + decimal_text(limit).len() + 6
        }),
        ({
            let text = error_text(ResourceErrorView::AllocationUnrepresentable { limit });
            &&& begins_with(
                text,
                "allocation limit exceeded: attempted count is unrepresentable (limit: "@,
            )
            &&& ends_with(text, "(limit: "@ + decimal_text(limit) + ")"@)
            &&& text.len() == 70 + decimal_text(limit).len() + 1
        }),
        ({
            let text = error_text(ResourceErrorView::MemoryUnrepresentable { limit });
            &&& begins_with(
                text,
                "memory limit exceeded: attempted usage is unrepresentable (limit: "@,
            )
            &&& ends_with(text, "(limit: "@ + decimal_text(limit) + " bytes)"@)
            &&& text.len() == 66 + decimal_text(limit).len() + 7
        }),
        error_text(ResourceErrorView::Recursion { limit, depth: attempted })
            == "maximum recursion depth exceeded"@,
        error_text(ResourceErrorView::RecursionUnrepresentable { limit })
            == "maximum recursion depth exceeded"@,
{
    reveal_strlit("allocation limit exceeded: ");
    reveal_strlit(" > ");
    reveal_strlit("memory limit exceeded: ");
    reveal_strlit(" bytes > ");
    reveal_strlit(" bytes");
    reveal_strlit("allocation limit exceeded: attempted count is unrepresentable (limit: ");
    reveal_strlit("memory limit exceeded: attempted usage is unrepresentable (limit: ");
    reveal_strlit("(limit: ");
    reveal_strlit(")");
    reveal_strlit(" bytes)");
    let counted = error_text(ResourceErrorView::Allocation { limit, count: attempted });
    lemma_ends(
        counted,
        "allocation limit exceeded: "@ + decimal_text(attempted),
        " > "@ + decimal_text(limit),
    );
    lemma_begins(
        counted,
        "allocation limit exceeded: "@ + decimal_text(attempted) + " > "@,
        decimal_text(limit),
    );
    let used = error_text(ResourceErrorView::Memory { limit, used: attempted });
    lemma_ends(
        used,
        "memory limit exceeded: "@ + decimal_text(attempted),
        " bytes > "@ + decimal_text(limit) + " bytes"@,
    );
    lemma_begins(
        used,
        "memory limit exceeded: "@ + decimal_text(attempted) + " bytes > "@,
        decimal_text(limit) + " bytes"@,
    );
    let uncounted = error_text(ResourceErrorView::AllocationUnrepresentable { limit });
    let head = "allocation limit exceeded: attempted count is unrepresentable (limit: "@;
    lemma_begins(uncounted, head, decimal_text(limit) + ")"@);
    assert(head =~= head.take(62) + "(limit: "@);
    lemma_ends(uncounted, head.take(62), "(limit: "@ + decimal_text(limit) + ")"@);
    let unused = error_text(ResourceErrorView::MemoryUnrepresentable { limit });
    let head = "memory limit exceeded: attempted usage is unrepresentable (limit: "@;
    lemma_begins(unused, head, decimal_text(limit) + " bytes)"@);
    assert(head =~= head.take(58) + "(limit: "@);
    lemma_ends(unused, head.take(58), "(limit: "@ + decimal_text(limit) + " bytes)"@);
}

proof fn lemma_begins(text: Seq<char>, head: Seq<char>, tail: Seq<char>)
    requires
        text =~= head + tail,
    ensures
        begins_with(text, head),
{
    assert(text.take(head.len() as int) =~= head);
}

proof fn lemma_ends(text: Seq<char>, head: Seq<char>, tail: Seq<char>)
    requires
        text =~= head + tail,
    ensures
        ends_with(text, tail),
{
    assert(text.skip(text.len() - tail.len()) =~= tail);
}

/// A time limit's message says how much was used, then how much was allowed, each
/// as durations read.
pub proof fn law_time_messages_report_the_attempt_and_the_limit(limit: nat, elapsed: nat)
    ensures
        ({
            let text = error_text(ResourceErrorView::Time { limit, elapsed });
            &&& begins_with(text, "time limit exceeded: "@ + duration_text(elapsed) + " > "@)
            &&& ends_with(text, " > "@ + duration_text(limit))
            &&& text.len() == 21 + duration_text(elapsed).len() + 3 + duration_text(limit).len()
        }),
        ({
            let text = error_text(ResourceErrorView::TimeUnrepresentable { limit });
            &&& begins_with(
                text,
                "time limit exceeded: attempted duration is unrepresentable (limit: "@
                    + duration_text(limit),
            )
            &&& ends_with(text, duration_text(limit) + ")"@)
            &&& text.len() == 67 + duration_text(limit).len() + 1
        }),
{
    reveal_strlit("time limit exceeded: ");
    reveal_strlit(" > ");
    reveal_strlit("time limit exceeded: attempted duration is unrepresentable (limit: ");
    reveal_strlit(")");
    let used = error_text(ResourceErrorView::Time { limit, elapsed });
    lemma_ends(
        used,
        "time limit exceeded: "@ + duration_text(elapsed),
        " > "@ + duration_text(limit),
    );
    lemma_begins(
        used,
        "time limit exceeded: "@ + duration_text(elapsed) + " > "@,
        duration_text(limit),
    );
    let unused = error_text(ResourceErrorView::TimeUnrepresentable { limit });
    let head = "time limit exceeded: attempted duration is unrepresentable (limit: "@;
    lemma_begins(unused, head + duration_text(limit), ")"@);
    lemma_ends(unused, head, duration_text(limit) + ")"@);
}

} // verus!
