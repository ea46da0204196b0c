//! Answering one request, in two moves around the run of the command.
//!
//! [`plan`] looks at the cache and either has the answer or names the command
//! to run. Whoever called runs it, and hands what came of it to [`complete`],
//! which fixes up the quotes, remembers the answer where answers are
//! remembered, and makes the reply. Nothing holds the cache between the two
//! moves.

use crate::bridge::ExecFailure;
use crate::cache::ResponseCache;
use crate::operation::{cache_key_of, command_of, Command, CommandView, Operation, OperationView};
use crate::text::{normalize_quotes, normalized};
use vstd::prelude::*;
use vstd::string::*;

verus! {

/// Status of every reply that carries the worker's text.
pub const STATUS_OK: u16 = 200;

/// Status of the reply to a request whose command could not be run to its
/// end.
pub const STATUS_FAILED: u16 = 500;

/// A reply: the status and the plain-text body.
#[derive(Clone, Debug, PartialEq, Eq)]
pub struct Response {
    pub status: u16,
    pub body: String,
}

/// A reply as a mathematical value.
pub struct ResponseView {
    pub status: u16,
    pub body: Seq<char>,
}

impl View for Response {
    type V = ResponseView;

    open spec fn view(&self) -> ResponseView {
        ResponseView { status: self.status, body: self.body@ }
    }
}

/// The first move on a request.
#[derive(Clone, Debug, PartialEq, Eq)]
pub enum Step {
    /// The answer is at hand.
    Reply { response: Response },
    /// This command has to be run.
    Execute { command: Command },
}

/// A first move as a mathematical value.
pub enum StepView {
    Reply { response: ResponseView },
    Execute { command: CommandView },
}

impl View for Step {
    type V = StepView;

    open spec fn view(&self) -> StepView {
        match self {
            Step::Reply { response } => StepView::Reply { response: response@ },
            Step::Execute { command } => StepView::Execute { command: command@ },
        }
    }
}

/// The reply that carries `body`.
pub open spec fn ok_reply(body: Seq<char>) -> ResponseView {
    ResponseView { status: STATUS_OK, body }
}

/// The reply to a request whose command failed. It says nothing of why.
pub open spec fn failed_reply() -> ResponseView {
    ResponseView { status: STATUS_FAILED, body: Seq::empty() }
}

/// The first move on `op` with `cache`: the remembered answer where there is
/// one under the key of `op`, and the command of `op` in every other case.
pub open spec fn plan_of(op: OperationView, cache: Map<Seq<char>, Seq<char>>) -> StepView {
    match cache_key_of(op) {
        Some(key) => if cache.contains_key(key) {
            StepView::Reply { response: ok_reply(cache[key]) }
        } else {
            StepView::Execute { command: command_of(op) }
        },
        None => StepView::Execute { command: command_of(op) },
    }
}

/// The second move on `op`: the reply, and the cache as it is left.
///
/// What the command printed goes out with its quotes fixed up, whatever it
/// is, and is remembered under the key of `op` if `op` has one. A failed
/// command gives the failure status and leaves the cache alone.
pub open spec fn completion_of(
    op: OperationView,
    outcome: Result<Seq<char>, ExecFailure>,
    cache: Map<Seq<char>, Seq<char>>,
) -> (ResponseView, Map<Seq<char>, Seq<char>>) {
    match outcome {
        Ok(output) => {
            let body = normalized(output);
            match cache_key_of(op) {
                Some(key) => (ok_reply(body), cache.insert(key, body)),
                None => (ok_reply(body), cache),
            }
        },
        Err(_) => (failed_reply(), cache),
    }
}

/// The view of what came of a command.
pub open spec fn result_view(
    outcome: Result<String, ExecFailure>,
) -> Result<Seq<char>, ExecFailure> {
    match outcome {
        Ok(output) => Ok(output@),
        Err(failure) => Err(failure),
    }
}

/// Decides whether `op` can be answered from `cache` or has to run.
pub fn plan(op: &Operation, cache: &ResponseCache) -> (step: Step)
    ensures
        step@ == plan_of(op@, cache@),
{
    match op.cache_key() {
        Some(key) => match cache.lookup(key.as_str()) {
            Some(body) => Step::Reply { response: Response { status: STATUS_OK, body } },
            None => Step::Execute { command: op.command() },
        },
        None => Step::Execute { command: op.command() },
    }
}

/// Makes the reply to `op` from what came of its command, and remembers the
/// answer in `cache` where answers to `op` are remembered.
pub fn complete(
    op: &Operation,
    outcome: Result<String, ExecFailure>,
    cache: &mut ResponseCache,
) -> (response: Response)
    ensures
        (response@, final(cache)@) == completion_of(op@, result_view(outcome), old(cache)@),
        outcome is Err || cache_key_of(op@) is None
            ==> final(cache).entries() == old(cache).entries(),
        forall|other: Seq<char>|
            Some(other) != cache_key_of(op@) && #[trigger] old(cache).entries().contains_key(other)
                ==> final(cache).entries().contains_key(other)
                && final(cache).entries()[other] == old(cache).entries()[other],
{
    match outcome {
        Ok(output) => {
            let body = normalize_quotes(output.as_str());
            match op.cache_key() {
                Some(key) => {
                    cache.store(key, body.clone());
                },
                None => {},
            }
            Response { status: STATUS_OK, body }
        },
        Err(_) => failure(),
    }
}

/// The reply to a request that could not be answered: the failure status and
/// an empty body.
pub fn failure() -> (response: Response)
    ensures
        response@ == failed_reply(),
{
    Response { status: STATUS_FAILED, body: String::new() }
}

/// The body of the greeting for `name`.
pub open spec fn greeting(name: Seq<char>) -> Seq<char> {
    "Hello, "@ + name + "!"@
}

/// The reply of the liveness route: a greeting for `name`.
pub fn greet(name: &str) -> (response: Response)
    ensures
        response@ == ok_reply(greeting(name@)),
{
    let body = String::from_str("Hello, ").concat(name).concat("!");
    Response { status: STATUS_OK, body }
}

/// Once an answer is stored under the key of a remembered operation, the
/// operation is answered with it, and no command is named.
pub proof fn lemma_hit_short_circuits(
    op: OperationView,
    cache: Map<Seq<char>, Seq<char>>,
    answer: Seq<char>,
)
    requires
        cache_key_of(op) is Some,
    ensures
        plan_of(op, cache.insert(cache_key_of(op)->0, answer)) == (StepView::Reply {
            response: ok_reply(answer),
        }),
{
}

/// A remembered operation that missed and ran is a hit the next time: its
/// reply carries the fixed-up output, and the next plan gives that very
/// reply without a command.
pub proof fn lemma_miss_then_hit(
    op: OperationView,
    cache: Map<Seq<char>, Seq<char>>,
    output: Seq<char>,
)
    requires
        cache_key_of(op) is Some,
    ensures
        completion_of(op, Ok(output), cache).0 == ok_reply(normalized(output)),
        plan_of(op, completion_of(op, Ok(output), cache).1) == (StepView::Reply {
            response: completion_of(op, Ok(output), cache).0,
        }),
{
}

/// Where two handlers missed on the same request and both ran its command,
/// the answer that is stored last is the one that stays.
pub proof fn lemma_last_store_wins(
    op: OperationView,
    cache: Map<Seq<char>, Seq<char>>,
    earlier: Seq<char>,
    later: Seq<char>,
)
    requires
        cache_key_of(op) is Some,
    ensures
        plan_of(
            op,
            completion_of(op, Ok(later), completion_of(op, Ok(earlier), cache).1).1,
        ) == (StepView::Reply { response: ok_reply(normalized(later)) }),
{
}

/// An operation without a key runs its command every time: whatever the
/// cache holds, the plan names the command, and whatever came of the command,
/// the cache is left as it was, so that the next plan names it again.
pub proof fn lemma_uncached_always_executes(
    op: OperationView,
    cache: Map<Seq<char>, Seq<char>>,
    outcome: Result<Seq<char>, ExecFailure>,
)
    requires
        cache_key_of(op) is None,
    ensures
        plan_of(op, cache) == (StepView::Execute { command: command_of(op) }),
        completion_of(op, outcome, cache).1 == cache,
        plan_of(op, completion_of(op, outcome, cache).1) == (StepView::Execute {
            command: command_of(op),
        }),
{
}

/// A failed command is answered with the failure status and is never
/// remembered: the cache is left as it was.
pub proof fn lemma_failure_stores_nothing(
    op: OperationView,
    failure: ExecFailure,
    cache: Map<Seq<char>, Seq<char>>,
)
    ensures
        completion_of(op, Err(failure), cache) == (failed_reply(), cache),
        completion_of(op, Err(failure), cache).0.status != STATUS_OK,
{
}

} // verus!
