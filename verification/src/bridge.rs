//! Running one command in the worker container.
//!
//! A command runs in a session of its own: the runtime is asked for the
//! session, the session is started with its output attached, and the output
//! is read chunk by chunk until the runtime says it has ended. [`step`] takes
//! the current [`SessionPhase`] and what the runtime just answered, and says
//! what to do next. What the command printed is known only once the output
//! has ended; a session that breaks on the way yields no text at all.

use crate::operation::{Command, CommandView};
use vstd::prelude::*;
use vstd::string::*;

verus! {

/// What the runtime is asked when a session is opened.
#[derive(Clone, Debug, PartialEq, Eq)]
pub struct ExecRequest {
    pub container_id: String,
    pub argv: Vec<String>,
    pub attach_stdout: bool,
    pub attach_stderr: bool,
}

/// A session request as a mathematical value.
pub struct ExecRequestView {
    pub container_id: Seq<char>,
    pub argv: Seq<Seq<char>>,
    pub attach_stdout: bool,
    pub attach_stderr: bool,
}

impl View for ExecRequest {
    type V = ExecRequestView;

    open spec fn view(&self) -> ExecRequestView {
        ExecRequestView {
            container_id: self.container_id@,
            argv: self.argv.deep_view(),
            attach_stdout: self.attach_stdout,
            attach_stderr: self.attach_stderr,
        }
    }
}

/// The session that runs `command` in the container: the interpreter with
/// the script and the argument as its two parameters, standard output and
/// standard error both attached.
pub open spec fn exec_request_of(container_id: Seq<char>, command: CommandView) -> ExecRequestView {
    ExecRequestView {
        container_id,
        argv: seq!["python"@, command.script, command.argument],
        attach_stdout: true,
        attach_stderr: true,
    }
}

/// Builds the request for the session that runs `command` in the container.
pub fn exec_request(container_id: &str, command: &Command) -> (request: ExecRequest)
    ensures
        request@ == exec_request_of(container_id@, command@),
{
    let mut argv: Vec<String> = Vec::new();
    argv.push(String::from_str("python"));
    argv.push(command.script.clone());
    argv.push(command.argument.clone());
    let request = ExecRequest {
        container_id: String::from_str(container_id),
        argv,
        attach_stdout: true,
        attach_stderr: true,
    };
    assert(request@.argv =~= exec_request_of(container_id@, command@).argv);
    request
}

/// Why a session yielded no output.
#[derive(Clone, Copy, Debug, PartialEq, Eq, Structural)]
pub enum ExecFailure {
    /// The runtime did not open the session.
    CreateFailed,
    /// The runtime did not start the session.
    StartFailed,
    /// The session started without its output attached.
    NotAttached,
    /// The output broke off before its end.
    StreamBroken,
}

/// Where a session stands.
#[derive(Clone, Debug, PartialEq, Eq)]
pub enum SessionPhase {
    /// The runtime has been asked to open the session.
    Opening,
    /// The session exists and is being started.
    Attaching { exec_id: String },
    /// The output is being read; `collected` is what has come so far.
    Draining { collected: String },
    /// The output has ended.
    Finished { output: String },
    /// The session broke.
    Failed { failure: ExecFailure },
}

/// A session phase as a mathematical value.
pub enum SessionPhaseView {
    Opening,
    Attaching { exec_id: Seq<char> },
    Draining { collected: Seq<char> },
    Finished { output: Seq<char> },
    Failed { failure: ExecFailure },
}

impl View for SessionPhase {
    type V = SessionPhaseView;

    open spec fn view(&self) -> SessionPhaseView {
        match self {
            SessionPhase::Opening => SessionPhaseView::Opening,
            SessionPhase::Attaching { exec_id } => SessionPhaseView::Attaching {
                exec_id: exec_id@,
            },
            SessionPhase::Draining { collected } => SessionPhaseView::Draining {
                collected: collected@,
            },
            SessionPhase::Finished { output } => SessionPhaseView::Finished { output: output@ },
            SessionPhase::Failed { failure } => SessionPhaseView::Failed { failure: *failure },
        }
    }
}

/// What the runtime answered.
#[derive(Clone, Debug, PartialEq, Eq)]
pub enum SessionEvent {
    /// The session was opened under this name.
    Created { exec_id: String },
    /// The session could not be opened.
    CreateFailed,
    /// The session runs and its output can be read.
    Attached,
    /// The session runs, but its output is not attached.
    Detached,
    /// The session could not be started.
    StartFailed,
    /// The next piece of output.
    Chunk { text: String },
    /// Reading the output failed.
    StreamFailed,
    /// The output has ended.
    StreamEnded,
}

/// A session event as a mathematical value.
pub enum SessionEventView {
    Created { exec_id: Seq<char> },
    CreateFailed,
    Attached,
    Detached,
    StartFailed,
    Chunk { text: Seq<char> },
    StreamFailed,
    StreamEnded,
}

impl View for SessionEvent {
    type V = SessionEventView;

    open spec fn view(&self) -> SessionEventView {
        match self {
            SessionEvent::Created { exec_id } => SessionEventView::Created { exec_id: exec_id@ },
            SessionEvent::CreateFailed => SessionEventView::CreateFailed,
            SessionEvent::Attached => SessionEventView::Attached,
            SessionEvent::Detached => SessionEventView::Detached,
            SessionEvent::StartFailed => SessionEventView::StartFailed,
            SessionEvent::Chunk { text } => SessionEventView::Chunk { text: text@ },
            SessionEvent::StreamFailed => SessionEventView::StreamFailed,
            SessionEvent::StreamEnded => SessionEventView::StreamEnded,
        }
    }
}

/// What to do next in a session.
#[derive(Clone, Debug, PartialEq, Eq)]
pub enum SessionDirective {
    /// Start this session with its output attached, and report `Attached`,
    /// `Detached` or `StartFailed`.
    StartExec { exec_id: String },
    /// Read the next piece of output, and report `Chunk`, `StreamFailed` or
    /// `StreamEnded`.
    ReadNext,
    /// The session is over; its outcome can be taken.
    Stop,
    /// The event has no meaning in this phase; nothing is to be done.
    Ignore,
}

/// A session directive as a mathematical value.
pub enum SessionDirectiveView {
    StartExec { exec_id: Seq<char> },
    ReadNext,
    Stop,
    Ignore,
}

impl View for SessionDirective {
    type V = SessionDirectiveView;

    open spec fn view(&self) -> SessionDirectiveView {
        match self {
            SessionDirective::StartExec { exec_id } => SessionDirectiveView::StartExec {
                exec_id: exec_id@,
            },
            SessionDirective::ReadNext => SessionDirectiveView::ReadNext,
            SessionDirective::Stop => SessionDirectiveView::Stop,
            SessionDirective::Ignore => SessionDirectiveView::Ignore,
        }
    }
}

/// The rule of a session: the phase that follows `phase` on `event`, and what
/// is to be done.
///
/// Every piece of output is appended to what was collected before it. The
/// session finishes only when the output has ended, with all that was
/// collected. Any failure ends it with the failure alone: what had been
/// collected is dropped. An event that does not belong to the phase changes
/// nothing.
pub open spec fn session_transition(
    phase: SessionPhaseView,
    event: SessionEventView,
) -> (SessionPhaseView, SessionDirectiveView) {
    match (phase, event) {
        (SessionPhaseView::Opening, SessionEventView::Created { exec_id }) => (
            SessionPhaseView::Attaching { exec_id },
            SessionDirectiveView::StartExec { exec_id },
        ),
        (SessionPhaseView::Opening, SessionEventView::CreateFailed) => (
            SessionPhaseView::Failed { failure: ExecFailure::CreateFailed },
            SessionDirectiveView::Stop,
        ),
        (SessionPhaseView::Attaching { .. }, SessionEventView::Attached) => (
            SessionPhaseView::Draining { collected: Seq::empty() },
            SessionDirectiveView::ReadNext,
        ),
        (SessionPhaseView::Attaching { .. }, SessionEventView::Detached) => (
            SessionPhaseView::Failed { failure: ExecFailure::NotAttached },
            SessionDirectiveView::Stop,
        ),
        (SessionPhaseView::Attaching { .. }, SessionEventView::StartFailed) => (
            SessionPhaseView::Failed { failure: ExecFailure::StartFailed },
            SessionDirectiveView::Stop,
        ),
        (SessionPhaseView::Draining { collected }, SessionEventView::Chunk { text }) => (
            SessionPhaseView::Draining { collected: collected + text },
            SessionDirectiveView::ReadNext,
        ),
        (SessionPhaseView::Draining { .. }, SessionEventView::StreamFailed) => (
            SessionPhaseView::Failed { failure: ExecFailure::StreamBroken },
            SessionDirectiveView::Stop,
        ),
        (SessionPhaseView::Draining { collected }, SessionEventView::StreamEnded) => (
            SessionPhaseView::Finished { output: collected },
            SessionDirectiveView::Stop,
        ),
        _ => (phase, SessionDirectiveView::Ignore),
    }
}

/// What a session has come to: the text the command printed, the reason why
/// there is none, or nothing yet.
pub open spec fn outcome_of(phase: SessionPhaseView) -> Option<Result<Seq<char>, ExecFailure>> {
    match phase {
        SessionPhaseView::Finished { output } => Some(Ok(output)),
        SessionPhaseView::Failed { failure } => Some(Err(failure)),
        _ => None,
    }
}

/// The view of an outcome.
pub open spec fn outcome_view(
    outcome: Option<Result<String, ExecFailure>>,
) -> Option<Result<Seq<char>, ExecFailure>> {
    match outcome {
        Some(Ok(text)) => Some(Ok(text@)),
        Some(Err(failure)) => Some(Err(failure)),
        None => None,
    }
}

/// Takes one step of a session.
pub fn step(phase: SessionPhase, event: SessionEvent) -> (next: (SessionPhase, SessionDirective))
    ensures
        (next.0@, next.1@) == session_transition(phase@, event@),
{
    match (phase, event) {
        (SessionPhase::Opening, SessionEvent::Created { exec_id }) => {
            let started = exec_id.clone();
            (SessionPhase::Attaching { exec_id }, SessionDirective::StartExec { exec_id: started })
        },
        (SessionPhase::Opening, SessionEvent::CreateFailed) => (
            SessionPhase::Failed { failure: ExecFailure::CreateFailed },
            SessionDirective::Stop,
        ),
        (SessionPhase::Attaching { .. }, SessionEvent::Attached) => (
            SessionPhase::Draining { collected: String::new() },
            SessionDirective::ReadNext,
        ),
        (SessionPhase::Attaching { .. }, SessionEvent::Detached) => (
            SessionPhase::Failed { failure: ExecFailure::NotAttached },
            SessionDirective::Stop,
        ),
        (SessionPhase::Attaching { .. }, SessionEvent::StartFailed) => (
            SessionPhase::Failed { failure: ExecFailure::StartFailed },
            SessionDirective::Stop,
        ),
        (SessionPhase::Draining { collected }, SessionEvent::Chunk { text }) => (
            SessionPhase::Draining { collected: collected.concat(text.as_str()) },
            SessionDirective::ReadNext,
        ),
        (SessionPhase::Draining { .. }, SessionEvent::StreamFailed) => (
            SessionPhase::Failed { failure: ExecFailure::StreamBroken },
            SessionDirective::Stop,
        ),
        (SessionPhase::Draining { collected }, SessionEvent::StreamEnded) => (
            SessionPhase::Finished { output: collected },
            SessionDirective::Stop,
        ),
        (phase, _) => (phase, SessionDirective::Ignore),
    }
}

/// Takes the outcome of a session: `None` as long as it is neither finished
/// nor failed.
pub fn outcome(phase: SessionPhase) -> (result: Option<Result<String, ExecFailure>>)
    ensures
        outcome_view(result) == outcome_of(phase@),
{
    match phase {
        SessionPhase::Finished { output } => Some(Ok(output)),
        SessionPhase::Failed { failure } => Some(Err(failure)),
        _ => None,
    }
}

/// The phase reached from `phase` once `events` have been taken in order.
pub open spec fn session_after(
    phase: SessionPhaseView,
    events: Seq<SessionEventView>,
) -> SessionPhaseView
    decreases events.len(),
{
    if events.len() == 0 {
        phase
    } else {
        session_transition(session_after(phase, events.drop_last()), events.last()).0
    }
}

/// Pieces of text joined in their order.
pub open spec fn joined(chunks: Seq<Seq<char>>) -> Seq<char>
    decreases chunks.len(),
{
    if chunks.len() == 0 {
        Seq::empty()
    } else {
        joined(chunks.drop_last()) + chunks.last()
    }
}

/// The events by which the runtime hands over `chunks` one after the other.
pub open spec fn chunk_events(chunks: Seq<Seq<char>>) -> Seq<SessionEventView> {
    Seq::new(chunks.len(), |i: int| SessionEventView::Chunk { text: chunks[i] })
}

/// Taking some events and then some more is taking them all.
pub proof fn lemma_session_after_concat(
    phase: SessionPhaseView,
    first: Seq<SessionEventView>,
    second: Seq<SessionEventView>,
)
    ensures
        session_after(phase, first + second)
            == session_after(session_after(phase, first), second),
    decreases second.len(),
{
    if second.len() > 0 {
        lemma_session_after_concat(phase, first, second.drop_last());
        assert((first + second).drop_last() =~= first + second.drop_last());
    }
}

/// While the output is read, every piece is appended in the order in which
/// it came: after `chunks` the session holds what it held before, followed by
/// all of them joined.
pub proof fn lemma_drain_collects(collected: Seq<char>, chunks: Seq<Seq<char>>)
    ensures
        session_after(SessionPhaseView::Draining { collected }, chunk_events(chunks))
            == (SessionPhaseView::Draining { collected: collected + joined(chunks) }),
    decreases chunks.len(),
{
    if chunks.len() > 0 {
        lemma_drain_collects(collected, chunks.drop_last());
        assert(chunk_events(chunks).drop_last() =~= chunk_events(chunks.drop_last()));
        assert(collected + joined(chunks) =~= (collected + joined(chunks.drop_last()))
            + chunks.last());
    }
}

/// The events of a session that the runtime opens as `exec_id`, starts with
/// its output attached, and whose output comes as `chunks`.
pub open spec fn attached_run(
    exec_id: Seq<char>,
    chunks: Seq<Seq<char>>,
) -> Seq<SessionEventView> {
    seq![SessionEventView::Created { exec_id }, SessionEventView::Attached] + chunk_events(chunks)
}

proof fn lemma_attached_run(exec_id: Seq<char>, chunks: Seq<Seq<char>>)
    ensures
        session_after(SessionPhaseView::Opening, attached_run(exec_id, chunks))
            == (SessionPhaseView::Draining { collected: joined(chunks) }),
{
    let head = seq![SessionEventView::Created { exec_id }, SessionEventView::Attached];
    assert(session_after(SessionPhaseView::Opening, head) == (SessionPhaseView::Draining {
        collected: Seq::<char>::empty(),
    })) by {
        reveal_with_fuel(session_after, 3);
    }
    lemma_session_after_concat(SessionPhaseView::Opening, head, chunk_events(chunks));
    lemma_drain_collects(Seq::empty(), chunks);
}

/// A session whose output is read to its end yields every piece of it, in
/// the order of arrival, as one text. No output at all is the empty text, and
/// a success.
pub proof fn lemma_session_output(exec_id: Seq<char>, chunks: Seq<Seq<char>>)
    ensures
        outcome_of(
            session_after(
                SessionPhaseView::Opening,
                attached_run(exec_id, chunks).push(SessionEventView::StreamEnded),
            ),
        ) == Some(Ok::<Seq<char>, ExecFailure>(joined(chunks))),
{
    let run = attached_run(exec_id, chunks);
    lemma_attached_run(exec_id, chunks);
    assert(run.push(SessionEventView::StreamEnded).drop_last() =~= run);
}

/// A session whose output breaks off yields the failure and none of the
/// pieces that had come before.
pub proof fn lemma_broken_stream_discards(exec_id: Seq<char>, chunks: Seq<Seq<char>>)
    ensures
        outcome_of(
            session_after(
                SessionPhaseView::Opening,
                attached_run(exec_id, chunks).push(SessionEventView::StreamFailed),
            ),
        ) == Some(Err::<Seq<char>, ExecFailure>(ExecFailure::StreamBroken)),
{
    let run = attached_run(exec_id, chunks);
    lemma_attached_run(exec_id, chunks);
    assert(run.push(SessionEventView::StreamFailed).drop_last() =~= run);
}

/// A session that is over stays as it is, whatever is reported afterwards.
pub proof fn lemma_outcome_is_final(phase: SessionPhaseView, events: Seq<SessionEventView>)
    requires
        outcome_of(phase) is Some,
    ensures
        session_after(phase, events) == phase,
    decreases events.len(),
{
    if events.len() > 0 {
        lemma_outcome_is_final(phase, events.drop_last());
    }
}

/// A session yields a text only when the runtime has said that the output
/// ended: at some position `k` of what was reported stands `StreamEnded`,
/// taken while the output was being read, and the text is exactly what had
/// been collected until that moment.
pub proof fn lemma_finished_only_at_end(events: Seq<SessionEventView>) -> (k: int)
    requires
        session_after(SessionPhaseView::Opening, events) is Finished,
    ensures
        0 <= k < events.len(),
        events[k] is StreamEnded,
        session_after(SessionPhaseView::Opening, events.take(k)) == (SessionPhaseView::Draining {
            collected: session_after(SessionPhaseView::Opening, events)->output,
        }),
    decreases events.len(),
{
    let before = session_after(SessionPhaseView::Opening, events.drop_last());
    if before is Finished {
        let k = lemma_finished_only_at_end(events.drop_last());
        assert(events.drop_last().take(k) =~= events.take(k));
        k
    } else {
        events.len() - 1
    }
}

} // verus!
