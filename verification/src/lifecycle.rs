//! The worker container: what it is made of, and the life of the process
//! around it, from the image pull to the removal after an interrupt.
//!
//! Nothing here talks to a container runtime. [`advance`] takes the current
//! [`Phase`] and what just happened, and answers with the next phase and the
//! one thing to do next. Whoever drives it performs that thing and comes
//! back with the outcome.

use vstd::prelude::*;
use vstd::string::*;

verus! {

/// Shared memory given to the worker container, in bytes (1 GiB).
pub const SHM_SIZE: i64 = 1073741824;

/// Image the worker container is created from.
pub open spec fn worker_image() -> Seq<char> {
    "ultrafunk/undetected-chromedriver:latest"@
}

/// Name of the volume that holds the worker's scripts.
pub open spec fn worker_volume() -> Seq<char> {
    "scrapper-rust"@
}

/// Path inside the container at which that volume is mounted.
pub open spec fn worker_mount_target() -> Seq<char> {
    "/data"@
}

/// A named volume mounted into a container.
#[derive(Clone, Debug, PartialEq, Eq)]
pub struct VolumeMount {
    pub volume: String,
    pub target: String,
    pub read_only: bool,
}

/// A mount as a mathematical value.
pub struct VolumeMountView {
    pub volume: Seq<char>,
    pub target: Seq<char>,
    pub read_only: bool,
}

impl View for VolumeMount {
    type V = VolumeMountView;

    open spec fn view(&self) -> VolumeMountView {
        VolumeMountView { volume: self.volume@, target: self.target@, read_only: self.read_only }
    }
}

/// Everything the runtime is told when the worker container is created.
#[derive(Clone, Debug, PartialEq, Eq)]
pub struct ContainerSpec {
    pub image: String,
    pub tty: bool,
    pub entrypoint: Vec<String>,
    pub mounts: Vec<VolumeMount>,
    pub shm_size: i64,
}

/// A container description as a mathematical value.
pub struct ContainerSpecView {
    pub image: Seq<char>,
    pub tty: bool,
    pub entrypoint: Seq<Seq<char>>,
    pub mounts: Seq<VolumeMountView>,
    pub shm_size: int,
}

impl View for ContainerSpec {
    type V = ContainerSpecView;

    open spec fn view(&self) -> ContainerSpecView {
        ContainerSpecView {
            image: self.image@,
            tty: self.tty,
            entrypoint: Seq::new(self.entrypoint@.len(), |i: int| self.entrypoint@[i]@),
            mounts: Seq::new(self.mounts@.len(), |i: int| self.mounts@[i]@),
            shm_size: self.shm_size as int,
        }
    }
}

/// The one container this gateway ever creates: the fixed image on an
/// interactive terminal, started through its entrypoint script into a shell,
/// with the script volume mounted read-write and 1 GiB of shared memory.
pub open spec fn worker_spec() -> ContainerSpecView {
    ContainerSpecView {
        image: worker_image(),
        tty: true,
        entrypoint: seq!["./entrypoint.sh"@, "bash"@],
        mounts: seq![
            VolumeMountView {
                volume: worker_volume(),
                target: worker_mount_target(),
                read_only: false,
            },
        ],
        shm_size: SHM_SIZE as int,
    }
}

/// Builds the description of the worker container.
pub fn worker_container_spec() -> (spec: ContainerSpec)
    ensures
        spec@ == worker_spec(),
{
    let mut entrypoint: Vec<String> = Vec::new();
    entrypoint.push(String::from_str("./entrypoint.sh"));
    entrypoint.push(String::from_str("bash"));
    let mut mounts: Vec<VolumeMount> = Vec::new();
    mounts.push(
        VolumeMount {
            volume: String::from_str("scrapper-rust"),
            target: String::from_str("/data"),
            read_only: false,
        },
    );
    let spec = ContainerSpec {
        image: String::from_str("ultrafunk/undetected-chromedriver:latest"),
        tty: true,
        entrypoint,
        mounts,
        shm_size: SHM_SIZE,
    };
    assert(spec@.entrypoint =~= worker_spec().entrypoint);
    assert(spec@.mounts =~= worker_spec().mounts);
    spec
}

/// Where the process stands in the life of its container.
#[derive(Clone, Debug, PartialEq, Eq)]
pub enum Phase {
    /// Nothing has been asked of the runtime yet.
    Idle,
    /// The image pull is under way.
    Pulling,
    /// The container is being created.
    Creating,
    /// The container exists and is being started.
    Starting { id: String },
    /// The container runs and requests are served.
    Serving { id: String },
    /// An interrupt was seen and the container is being removed.
    ShuttingDown { id: String },
    /// The process is free to exit.
    Terminated,
    /// The container could not be created or started; the process cannot
    /// serve.
    Failed,
}

/// A phase as a mathematical value.
pub enum PhaseView {
    Idle,
    Pulling,
    Creating,
    Starting { id: Seq<char> },
    Serving { id: Seq<char> },
    ShuttingDown { id: Seq<char> },
    Terminated,
    Failed,
}

impl View for Phase {
    type V = PhaseView;

    open spec fn view(&self) -> PhaseView {
        match self {
            Phase::Idle => PhaseView::Idle,
            Phase::Pulling => PhaseView::Pulling,
            Phase::Creating => PhaseView::Creating,
            Phase::Starting { id } => PhaseView::Starting { id: id@ },
            Phase::Serving { id } => PhaseView::Serving { id: id@ },
            Phase::ShuttingDown { id } => PhaseView::ShuttingDown { id: id@ },
            Phase::Terminated => PhaseView::Terminated,
            Phase::Failed => PhaseView::Failed,
        }
    }
}

/// What the driver reports back.
#[derive(Clone, Debug, PartialEq, Eq)]
pub enum LifecycleEvent {
    /// The process has started.
    Boot,
    /// The image pull ran to its end.
    ImagePulled,
    /// The image pull failed; the image may still be at hand.
    PullFailed,
    /// The runtime created the container and named it.
    ContainerCreated { id: String },
    /// The runtime refused to create the container.
    CreateFailed,
    /// The container is running.
    ContainerStarted,
    /// The container could not be started.
    StartFailed,
    /// The interrupt signal arrived.
    Interrupt,
    /// Waiting for the interrupt signal failed.
    ListenFailed,
    /// The runtime removed the container.
    ContainerRemoved,
    /// The runtime could not remove the container, or it was gone already.
    RemoveFailed,
}

/// An event as a mathematical value.
pub enum LifecycleEventView {
    Boot,
    ImagePulled,
    PullFailed,
    ContainerCreated { id: Seq<char> },
    CreateFailed,
    ContainerStarted,
    StartFailed,
    Interrupt,
    ListenFailed,
    ContainerRemoved,
    RemoveFailed,
}

impl View for LifecycleEvent {
    type V = LifecycleEventView;

    open spec fn view(&self) -> LifecycleEventView {
        match self {
            LifecycleEvent::Boot => LifecycleEventView::Boot,
            LifecycleEvent::ImagePulled => LifecycleEventView::ImagePulled,
            LifecycleEvent::PullFailed => LifecycleEventView::PullFailed,
            LifecycleEvent::ContainerCreated { id } => LifecycleEventView::ContainerCreated {
                id: id@,
            },
            LifecycleEvent::CreateFailed => LifecycleEventView::CreateFailed,
            LifecycleEvent::ContainerStarted => LifecycleEventView::ContainerStarted,
            LifecycleEvent::StartFailed => LifecycleEventView::StartFailed,
            LifecycleEvent::Interrupt => LifecycleEventView::Interrupt,
            LifecycleEvent::ListenFailed => LifecycleEventView::ListenFailed,
            LifecycleEvent::ContainerRemoved => LifecycleEventView::ContainerRemoved,
            LifecycleEvent::RemoveFailed => LifecycleEventView::RemoveFailed,
        }
    }
}

/// The one thing to do next.
#[derive(Clone, Debug, PartialEq, Eq)]
pub enum Directive {
    /// Pull this image, and report `ImagePulled` or `PullFailed`.
    PullImage { image: String },
    /// Create this container, and report `ContainerCreated` or `CreateFailed`.
    CreateContainer { spec: ContainerSpec },
    /// Start this container, and report `ContainerStarted` or `StartFailed`.
    StartContainer { id: String },
    /// Serve requests against this container, wait for the interrupt signal,
    /// and report `Interrupt` or `ListenFailed`.
    Serve { id: String },
    /// Remove this container, and report `ContainerRemoved` or `RemoveFailed`.
    RemoveContainer { id: String, force: bool },
    /// Leave the process in the ordinary way.
    Exit,
    /// Give up: the process cannot serve.
    Abort,
    /// The event has no meaning in this phase; nothing is to be done.
    Ignore,
}

/// A directive as a mathematical value.
pub enum DirectiveView {
    PullImage { image: Seq<char> },
    CreateContainer { spec: ContainerSpecView },
    StartContainer { id: Seq<char> },
    Serve { id: Seq<char> },
    RemoveContainer { id: Seq<char>, force: bool },
    Exit,
    Abort,
    Ignore,
}

impl View for Directive {
    type V = DirectiveView;

    open spec fn view(&self) -> DirectiveView {
        match self {
            Directive::PullImage { image } => DirectiveView::PullImage { image: image@ },
            Directive::CreateContainer { spec } => DirectiveView::CreateContainer { spec: spec@ },
            Directive::StartContainer { id } => DirectiveView::StartContainer { id: id@ },
            Directive::Serve { id } => DirectiveView::Serve { id: id@ },
            Directive::RemoveContainer { id, force } => DirectiveView::RemoveContainer {
                id: id@,
                force: *force,
            },
            Directive::Exit => DirectiveView::Exit,
            Directive::Abort => DirectiveView::Abort,
            Directive::Ignore => DirectiveView::Ignore,
        }
    }
}

/// The rule of the lifecycle: the phase that follows `phase` on `event`, and
/// what is to be done.
///
/// Start-up is one chain without retry: pull, create, start, serve. The pull
/// is an attempt: the image may be at hand already, so the container is
/// created whether the pull succeeded or not. A container that cannot be
/// created or started ends the process. Only an interrupt seen while serving
/// leads to the removal, which is forced, and whose outcome does not keep the
/// process from exiting. An event that does not belong to the phase changes
/// nothing.
pub open spec fn transition(
    phase: PhaseView,
    event: LifecycleEventView,
) -> (PhaseView, DirectiveView) {
    match (phase, event) {
        (PhaseView::Idle, LifecycleEventView::Boot) => (
            PhaseView::Pulling,
            DirectiveView::PullImage { image: worker_image() },
        ),
        (PhaseView::Pulling, LifecycleEventView::ImagePulled) => (
            PhaseView::Creating,
            DirectiveView::CreateContainer { spec: worker_spec() },
        ),
        (PhaseView::Pulling, LifecycleEventView::PullFailed) => (
            PhaseView::Creating,
            DirectiveView::CreateContainer { spec: worker_spec() },
        ),
        (PhaseView::Creating, LifecycleEventView::ContainerCreated { id }) => (
            PhaseView::Starting { id },
            DirectiveView::StartContainer { id },
        ),
        (PhaseView::Creating, LifecycleEventView::CreateFailed) => (
            PhaseView::Failed,
            DirectiveView::Abort,
        ),
        (PhaseView::Starting { id }, LifecycleEventView::ContainerStarted) => (
            PhaseView::Serving { id },
            DirectiveView::Serve { id },
        ),
        (PhaseView::Starting { .. }, LifecycleEventView::StartFailed) => (
            PhaseView::Failed,
            DirectiveView::Abort,
        ),
        (PhaseView::Serving { id }, LifecycleEventView::Interrupt) => (
            PhaseView::ShuttingDown { id },
            DirectiveView::RemoveContainer { id, force: true },
        ),
        (PhaseView::Serving { .. }, LifecycleEventView::ListenFailed) => (
            PhaseView::Terminated,
            DirectiveView::Exit,
        ),
        (PhaseView::ShuttingDown { .. }, LifecycleEventView::ContainerRemoved) => (
            PhaseView::Terminated,
            DirectiveView::Exit,
        ),
        (PhaseView::ShuttingDown { .. }, LifecycleEventView::RemoveFailed) => (
            PhaseView::Terminated,
            DirectiveView::Exit,
        ),
        _ => (phase, DirectiveView::Ignore),
    }
}

/// Takes one step of the lifecycle.
pub fn advance(phase: Phase, event: LifecycleEvent) -> (next: (Phase, Directive))
    ensures
        (next.0@, next.1@) == transition(phase@, event@),
{
    match (phase, event) {
        (Phase::Idle, LifecycleEvent::Boot) => (
            Phase::Pulling,
            Directive::PullImage {
                image: String::from_str("ultrafunk/undetected-chromedriver:latest"),
            },
        ),
        (Phase::Pulling, LifecycleEvent::ImagePulled) => (
            Phase::Creating,
            Directive::CreateContainer { spec: worker_container_spec() },
        ),
        (Phase::Pulling, LifecycleEvent::PullFailed) => (
            Phase::Creating,
            Directive::CreateContainer { spec: worker_container_spec() },
        ),
        (Phase::Creating, LifecycleEvent::ContainerCreated { id }) => {
            let started = id.clone();
            (Phase::Starting { id }, Directive::StartContainer { id: started })
        },
        (Phase::Creating, LifecycleEvent::CreateFailed) => (Phase::Failed, Directive::Abort),
        (Phase::Starting { id }, LifecycleEvent::ContainerStarted) => {
            let served = id.clone();
            (Phase::Serving { id }, Directive::Serve { id: served })
        },
        (Phase::Starting { .. }, LifecycleEvent::StartFailed) => (Phase::Failed, Directive::Abort),
        (Phase::Serving { id }, LifecycleEvent::Interrupt) => {
            let removed = id.clone();
            (Phase::ShuttingDown { id }, Directive::RemoveContainer { id: removed, force: true })
        },
        (Phase::Serving { .. }, LifecycleEvent::ListenFailed) => (
            Phase::Terminated,
            Directive::Exit,
        ),
        (Phase::ShuttingDown { .. }, LifecycleEvent::ContainerRemoved) => (
            Phase::Terminated,
            Directive::Exit,
        ),
        (Phase::ShuttingDown { .. }, LifecycleEvent::RemoveFailed) => (
            Phase::Terminated,
            Directive::Exit,
        ),
        (phase, _) => (phase, Directive::Ignore),
    }
}

/// The phase reached from `phase` once `events` have been taken in order.
pub open spec fn phase_after(phase: PhaseView, events: Seq<LifecycleEventView>) -> PhaseView
    decreases events.len(),
{
    if events.len() == 0 {
        phase
    } else {
        transition(phase_after(phase, events.drop_last()), events.last()).0
    }
}

/// The phase in which a process that saw `events` since its start took the
/// event at position `i`.
pub open spec fn phase_before(events: Seq<LifecycleEventView>, i: int) -> PhaseView {
    phase_after(PhaseView::Idle, events.take(i))
}

/// What that process was told to do in answer to the event at position `i`.
pub open spec fn directive_at(events: Seq<LifecycleEventView>, i: int) -> DirectiveView {
    transition(phase_before(events, i), events[i]).1
}

/// How far a phase is along the lifecycle.
pub open spec fn rank(phase: PhaseView) -> nat {
    match phase {
        PhaseView::Idle => 0,
        PhaseView::Pulling => 1,
        PhaseView::Creating => 2,
        PhaseView::Starting { .. } => 3,
        PhaseView::Serving { .. } => 4,
        PhaseView::ShuttingDown { .. } => 5,
        PhaseView::Terminated => 6,
        PhaseView::Failed => 6,
    }
}

/// The place of a directive in the lifecycle; 0 for `Ignore`.
pub open spec fn stage(directive: DirectiveView) -> nat {
    match directive {
        DirectiveView::Ignore => 0,
        DirectiveView::PullImage { .. } => 1,
        DirectiveView::CreateContainer { .. } => 2,
        DirectiveView::StartContainer { .. } => 3,
        DirectiveView::Serve { .. } => 4,
        DirectiveView::RemoveContainer { .. } => 5,
        DirectiveView::Exit => 6,
        DirectiveView::Abort => 6,
    }
}

/// One step never goes back. A step that asks for something moves on to the
/// phase that the directive stands for; a step that asks for nothing stays.
pub proof fn lemma_step_progress(phase: PhaseView, event: LifecycleEventView)
    ensures
        ({
            let (next, directive) = transition(phase, event);
            &&& directive is Ignore ==> next == phase
            &&& !(directive is Ignore) ==> rank(phase) < rank(next)
            &&& !(directive is Ignore) ==> stage(directive) == rank(next)
        }),
{
}

proof fn lemma_phase_after_step(events: Seq<LifecycleEventView>, i: int)
    requires
        0 <= i < events.len(),
    ensures
        phase_before(events, i + 1) == transition(phase_before(events, i), events[i]).0,
{
    assert(events.take(i + 1).drop_last() =~= events.take(i));
}

/// The phases of a run never go back.
pub proof fn lemma_rank_monotone(events: Seq<LifecycleEventView>, i: int, j: int)
    requires
        0 <= i <= j <= events.len(),
    ensures
        rank(phase_before(events, i)) <= rank(phase_before(events, j)),
    decreases j - i,
{
    if i < j {
        lemma_rank_monotone(events, i, j - 1);
        lemma_phase_after_step(events, j - 1);
        lemma_step_progress(phase_before(events, j - 1), events[j - 1]);
    }
}

/// Whatever happens to a process, in whatever order, what it is told to do
/// comes in the order of the lifecycle: pull, create, start, serve, remove,
/// leave. A later directive stands strictly further along than an earlier
/// one.
pub proof fn lemma_directives_in_order(events: Seq<LifecycleEventView>, i: int, j: int)
    requires
        0 <= i < j < events.len(),
        !(directive_at(events, i) is Ignore),
        !(directive_at(events, j) is Ignore),
    ensures
        stage(directive_at(events, i)) < stage(directive_at(events, j)),
{
    lemma_phase_after_step(events, i);
    lemma_step_progress(phase_before(events, i), events[i]);
    lemma_rank_monotone(events, i + 1, j);
    lemma_phase_after_step(events, j);
    lemma_step_progress(phase_before(events, j), events[j]);
}

/// Over the life of a process the image is pulled at most once, at most one
/// container is created, it is started at most once, and at most one removal
/// is asked for.
pub proof fn lemma_single_container(events: Seq<LifecycleEventView>, i: int, j: int)
    requires
        0 <= i < events.len(),
        0 <= j < events.len(),
        stage(directive_at(events, i)) == stage(directive_at(events, j)),
        !(directive_at(events, i) is Ignore),
    ensures
        i == j,
{
    if i < j {
        lemma_directives_in_order(events, i, j);
    } else if j < i {
        lemma_directives_in_order(events, j, i);
    }
}

/// The container that a phase holds.
pub open spec fn held_container(phase: PhaseView) -> Option<Seq<char>> {
    match phase {
        PhaseView::Starting { id } => Some(id),
        PhaseView::Serving { id } => Some(id),
        PhaseView::ShuttingDown { id } => Some(id),
        _ => None,
    }
}

/// A process that holds a container after `n` events was given it by the
/// runtime: at an earlier position `k` the runtime reported that very
/// container as created, while the process was waiting for its one creation,
/// and the process went on to start it.
pub proof fn lemma_container_origin(events: Seq<LifecycleEventView>, n: int) -> (k: int)
    requires
        0 <= n <= events.len(),
        held_container(phase_before(events, n)) is Some,
    ensures
        0 <= k < n,
        phase_before(events, k) is Creating,
        events[k] == (LifecycleEventView::ContainerCreated {
            id: held_container(phase_before(events, n))->0,
        }),
        directive_at(events, k) == (DirectiveView::StartContainer {
            id: held_container(phase_before(events, n))->0,
        }),
    decreases n,
{
    if n == 0 {
        0
    } else {
        lemma_phase_after_step(events, n - 1);
        let before = phase_before(events, n - 1);
        if held_container(before) is Some {
            lemma_container_origin(events, n - 1)
        } else {
            n - 1
        }
    }
}

/// A removal is asked for only in answer to an interrupt, it is forced, and
/// it names the container that the runtime created for this process.
pub proof fn lemma_removal_only_after_interrupt(
    events: Seq<LifecycleEventView>,
    i: int,
) -> (k: int)
    requires
        0 <= i < events.len(),
        directive_at(events, i) is RemoveContainer,
    ensures
        events[i] is Interrupt,
        directive_at(events, i)->force,
        0 <= k < i,
        events[k] == (LifecycleEventView::ContainerCreated {
            id: directive_at(events, i)->RemoveContainer_id,
        }),
{
    lemma_container_origin(events, i)
}

/// Requests are served only by a process that went through the whole
/// start-up: the image was pulled, the worker container was created as
/// described by [`worker_spec`], and it was started.
pub proof fn lemma_serving_was_provisioned(
    events: Seq<LifecycleEventView>,
    i: int,
) -> (steps: (int, int, int))
    requires
        0 <= i < events.len(),
        directive_at(events, i) is Serve,
    ensures
        0 <= steps.0 < steps.1 < steps.2 < i,
        directive_at(events, steps.0) == (DirectiveView::PullImage { image: worker_image() }),
        directive_at(events, steps.1) == (DirectiveView::CreateContainer { spec: worker_spec() }),
        directive_at(events, steps.2) == (DirectiveView::StartContainer {
            id: directive_at(events, i)->Serve_id,
        }),
{
    let start = lemma_container_origin(events, i);
    let create = lemma_reached_creating(events, start);
    let pull = lemma_reached_pulling(events, create);
    (pull, create, start)
}

proof fn lemma_reached_creating(events: Seq<LifecycleEventView>, n: int) -> (k: int)
    requires
        0 <= n <= events.len(),
        phase_before(events, n) is Creating,
    ensures
        0 <= k < n,
        phase_before(events, k) is Pulling,
        directive_at(events, k) == (DirectiveView::CreateContainer { spec: worker_spec() }),
    decreases n,
{
    if n == 0 {
        0
    } else {
        lemma_phase_after_step(events, n - 1);
        if phase_before(events, n - 1) is Creating {
            lemma_reached_creating(events, n - 1)
        } else {
            n - 1
        }
    }
}

proof fn lemma_reached_pulling(events: Seq<LifecycleEventView>, n: int) -> (k: int)
    requires
        0 <= n <= events.len(),
        phase_before(events, n) is Pulling,
    ensures
        0 <= k < n,
        directive_at(events, k) == (DirectiveView::PullImage { image: worker_image() }),
    decreases n,
{
    if n == 0 {
        0
    } else {
        lemma_phase_after_step(events, n - 1);
        if phase_before(events, n - 1) is Pulling {
            lemma_reached_pulling(events, n - 1)
        } else {
            n - 1
        }
    }
}

} // verus!
