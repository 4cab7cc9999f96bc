//! The lifecycle of one sandboxed workload.
//!
//! An `Instance` holds what the shim knows of its workload: its id, whether
//! it was started, and the cell through which its exit status is published
//! exactly once. The work on the sandbox itself (building it, starting,
//! signalling and deleting its process, waiting for it to end) is done by
//! the caller, who also reads the clock; the instance decides what is
//! asked of the sandbox, in which order, and what each answer means.

use vstd::prelude::*;
use vstd::string::*;
use crate::cell::{after_set, wait_step_of, OneShotCell, WaitStep};
use crate::error::{Error, ErrorView, WireError};
use crate::signal::{is_signal_number, signal_from_number, signal_rejection};
use crate::status::{
    fallback_at, fallback_status, low_32_bits, signed_of, unsigned_of, ExitStatus, Timestamp,
    WaitOutcome,
};

verus! {

/// Where an instance stands in its life.
#[derive(Clone, Copy, Debug, PartialEq, Eq, Structural)]
pub enum Phase {
    /// Built and not started.
    Built,
    /// Started, with no exit status yet.
    Running,
    /// The exit status is published.
    Exited,
}

/// What the shim was told about the sandbox to build.
#[derive(Debug, PartialEq, Eq)]
pub struct SandboxConfig {
    pub namespace: String,
    pub bundle: String,
    pub stdin: String,
    pub stdout: String,
    pub stderr: String,
}

/// The request to build a sandbox that crosses into the isolated context.
#[derive(Debug, PartialEq, Eq)]
pub struct BuildRequest {
    pub id: String,
    pub namespace: String,
    pub bundle: String,
    /// The directory under which the roots of this engine's sandboxes lie.
    pub root_base: String,
    pub stdin: String,
    pub stdout: String,
    pub stderr: String,
    /// Whether the sandbox's process becomes a sibling of the builder.
    pub as_sibling: bool,
    /// Whether the sandbox's control groups are managed through systemd.
    pub use_systemd: bool,
}

/// The modules that a sandbox starts out with.
pub struct ModuleSet<M, P> {
    pub modules: Vec<M>,
    pub platform: P,
    /// What to warn of, where the modules could not be loaded.
    pub warning: Option<String>,
}

/// What has happened so far in starting the sandbox's process.
#[derive(Debug, PartialEq, Eq)]
pub enum StartEvent {
    /// The start was asked for.
    Asked,
    /// The sandbox was asked for the id of its process.
    Pid(Option<i32>),
    /// A watcher was to be bound to process `pid`.
    Bound { pid: i32, reply: Result<(), String> },
    /// The sandbox was told to start process `pid`.
    Launched { pid: i32, reply: Result<(), String> },
}

/// What is to be done next in starting the sandbox's process.
#[derive(Debug, PartialEq, Eq)]
pub enum StartAction {
    /// Ask the sandbox for the id of its process.
    ReadPid,
    /// Bind a watcher to process `pid`, which does not run yet.
    Bind { pid: i32 },
    /// Tell the sandbox to start process `pid`.
    Launch { pid: i32 },
    /// The process runs: let the watcher wait for its end in the
    /// background, and hand `pid` to whoever asked for the start.
    Watch { pid: u32 },
    /// The start has failed with this error.
    Fail(Error),
}

/// A `StartAction` with its texts as sequences of characters.
pub enum StartActionView {
    ReadPid,
    Bind { pid: i32 },
    Launch { pid: i32 },
    Watch { pid: u32 },
    Fail(ErrorView),
}

impl View for StartAction {
    type V = StartActionView;

    open spec fn view(&self) -> StartActionView {
        match self {
            StartAction::ReadPid => StartActionView::ReadPid,
            StartAction::Bind { pid } => StartActionView::Bind { pid: *pid },
            StartAction::Launch { pid } => StartActionView::Launch { pid: *pid },
            StartAction::Watch { pid } => StartActionView::Watch { pid: *pid },
            StartAction::Fail(err) => StartActionView::Fail(err@),
        }
    }
}

impl StartEvent {
    /// What follows the event: the id is read first, a watcher is bound to
    /// the process before it is started, and the watch begins once it
    /// runs. Whatever goes wrong ends the start with its error.
    pub open spec fn action(self) -> StartActionView {
        match self {
            StartEvent::Asked => StartActionView::ReadPid,
            StartEvent::Pid(Some(pid)) => StartActionView::Bind { pid },
            StartEvent::Pid(None) => StartActionView::Fail(
                ErrorView::Others("failed to get pid"@),
            ),
            StartEvent::Bound { pid, reply: Ok(_) } => StartActionView::Launch { pid },
            StartEvent::Bound { pid, reply: Err(cause) } => StartActionView::Fail(
                ErrorView::Others(cause@),
            ),
            StartEvent::Launched { pid, reply: Ok(_) } => StartActionView::Watch {
                pid: low_32_bits(pid as int) as u32,
            },
            StartEvent::Launched { pid, reply: Err(cause) } => StartActionView::Fail(
                ErrorView::Sandbox(cause@),
            ),
        }
    }

    /// What the event, seen at `at`, means for the instance: a start that
    /// has failed, a process that runs, or nothing yet.
    pub open spec fn effect(self, at: Timestamp) -> Option<Event> {
        match self.action() {
            StartActionView::Fail(_) => Some(Event::StartFailed { at }),
            StartActionView::Watch { pid } => Some(Event::Started),
            _ => None,
        }
    }
}

/// A signal to deliver to the sandbox.
#[derive(Clone, Copy, Debug, PartialEq, Eq, Structural)]
pub struct KillRequest {
    /// The number of the signal, which is one.
    pub number: i32,
    /// Whether every process of the sandbox gets the signal.
    pub all: bool,
}

/// A request to remove the sandbox.
#[derive(Clone, Copy, Debug, PartialEq, Eq, Structural)]
pub struct DeleteRequest {
    /// Whether a sandbox that still runs is killed first.
    pub force: bool,
}

/// A step in the life of an instance that bears on its exit status.
pub enum Event {
    /// The start failed, as seen at `at`.
    StartFailed { at: Timestamp },
    /// The process was started and is watched.
    Started,
    /// The watcher saw the process end.
    Finished { outcome: WaitOutcome, at: Timestamp },
    /// The watch ended at `at` without a word on the process.
    Abandoned { at: Timestamp },
}

/// An instance as the contracts see it.
pub struct InstanceView {
    pub id: Seq<char>,
    pub started: bool,
    pub exit: Option<ExitStatus>,
}

impl InstanceView {
    /// The instance with this id before anything has happened to it.
    pub open spec fn fresh(id: Seq<char>) -> InstanceView {
        InstanceView { id, started: false, exit: None }
    }

    pub open spec fn phase(self) -> Phase {
        if self.exit is Some {
            Phase::Exited
        } else if self.started {
            Phase::Running
        } else {
            Phase::Built
        }
    }

    /// The instance after `event`. An exit status is written once: an
    /// event that would publish one leaves a published status alone.
    pub open spec fn after(self, event: Event) -> InstanceView {
        match event {
            Event::StartFailed { at } => InstanceView {
                exit: after_set(self.exit, fallback_status(at)),
                ..self
            },
            Event::Started => InstanceView { started: true, ..self },
            Event::Finished { outcome, at } => InstanceView {
                exit: after_set(self.exit, outcome.status_at(at)),
                ..self
            },
            Event::Abandoned { at } => InstanceView {
                exit: after_set(self.exit, fallback_status(at)),
                ..self
            },
        }
    }

    /// The instance after a step of its start, seen at `at`.
    pub open spec fn after_start(self, event: StartEvent, at: Timestamp) -> InstanceView {
        match event.effect(at) {
            Some(effect) => self.after(effect),
            None => self,
        }
    }

    /// The instance after each of `events` in turn.
    pub open spec fn after_all(self, events: Seq<Event>) -> InstanceView
        decreases events.len(),
    {
        if events.len() == 0 {
            self
        } else {
            self.after(events[0]).after_all(events.drop_first())
        }
    }
}

/// `part` joined to the path `base`, as paths are joined on Unix: an
/// absolute `part` takes the place of `base`, and any other is put behind
/// `base`, after a slash unless `base` is empty or ends in one.
pub open spec fn joined(base: Seq<char>, part: Seq<char>) -> Seq<char> {
    if part.len() > 0 && part[0] == '/' {
        part
    } else if base.len() > 0 && base.last() != '/' {
        base + "/"@ + part
    } else {
        base + part
    }
}

/// The directory under which an engine's sandboxes have their roots:
/// `/run/containerd` joined with the engine's name.
pub open spec fn root_base_of(engine: Seq<char>) -> Seq<char> {
    joined("/run/containerd"@, engine)
}

/// The root directory of a sandbox: the directory of its namespace under
/// the root that its bundle names, or under `base` where it names none.
pub open spec fn effective_root_of(
    named: Option<Seq<char>>,
    base: Seq<char>,
    namespace: Seq<char>,
) -> Seq<char> {
    match named {
        Some(root) => joined(root, namespace),
        None => joined(base, namespace),
    }
}

/// The warning for an instance whose modules could not be loaded.
pub open spec fn module_warning(id: Seq<char>, cause: Seq<char>) -> Seq<char> {
    "Error obtaining wasm layers for container "@ + id
        + ".  Will attempt to use files inside container image. Error: "@ + cause
}

/// The text of the error for a signal number that no signal has.
pub open spec fn kill_rejection(number: int) -> Seq<char> {
    "invalid signal number: "@ + signal_rejection(number)
}

/// The number that `signal` stands for once it is read as a signed one.
pub open spec fn signal_number_of(signal: u32) -> int {
    if signal <= i32::MAX {
        signal as int
    } else {
        signal - 0x1_0000_0000
    }
}

/// Joins `part` to the path `base`.
pub fn join_paths(base: &str, part: &str) -> (dir: String)
    ensures
        dir@ == joined(base@, part@),
{
    if part.unicode_len() > 0 && part.get_char(0) == '/' {
        String::from_str(part)
    } else {
        let len = base.unicode_len();
        let mut dir = String::from_str(base);
        if len > 0 && base.get_char(len - 1) != '/' {
            dir.append("/");
        }
        dir.append(part);
        dir
    }
}

/// Computes the directory under which an engine's sandboxes have their
/// roots.
pub fn root_base(engine: &str) -> (dir: String)
    ensures
        dir@ == root_base_of(engine@),
{
    join_paths("/run/containerd", engine)
}

/// Computes the root directory of a sandbox from the root that its bundle
/// names, if it names one, the engine's directory and the namespace.
pub fn effective_root(named: Option<&str>, base: &str, namespace: &str) -> (dir: String)
    ensures
        dir@ == effective_root_of(
            match named {
                Some(root) => Some(root@),
                None => None,
            },
            base@,
            namespace@,
        ),
{
    match named {
        Some(root) => join_paths(root, namespace),
        None => join_paths(base, namespace),
    }
}

/// The modules to build the sandbox with. Where loading them failed the
/// sandbox is built all the same, without modules and for the default
/// platform, and the failure becomes a warning: the workload may be whole
/// in its image.
pub fn modules_or_image<M, P>(
    id: &str,
    loaded: Result<(Vec<M>, P), String>,
    default_platform: P,
) -> (set: ModuleSet<M, P>)
    ensures
        match loaded {
            Ok((modules, platform)) => {
                &&& set.modules == modules
                &&& set.platform == platform
                &&& set.warning is None
            },
            Err(cause) => {
                &&& set.modules@.len() == 0
                &&& set.platform == default_platform
                &&& set.warning matches Some(text)
                &&& text@ == module_warning(id@, cause@)
            },
        },
{
    match loaded {
        Ok((modules, platform)) => ModuleSet { modules, platform, warning: None },
        Err(cause) => {
            let mut text = String::from_str("Error obtaining wasm layers for container ");
            text.append(id);
            text.append(".  Will attempt to use files inside container image. Error: ");
            text.append(cause.as_str());
            ModuleSet { modules: Vec::new(), platform: default_platform, warning: Some(text) }
        },
    }
}

/// The request to build the sandbox of instance `id` for the engine named
/// `engine`: an init process in the given bundle, started as a sibling and
/// without systemd, rooted under the engine's directory.
pub fn build_request(id: &str, cfg: &SandboxConfig, engine: &str) -> (req: BuildRequest)
    ensures
        req.id@ == id@,
        req.namespace@ == cfg.namespace@,
        req.bundle@ == cfg.bundle@,
        req.root_base@ == root_base_of(engine@),
        req.stdin@ == cfg.stdin@,
        req.stdout@ == cfg.stdout@,
        req.stderr@ == cfg.stderr@,
        req.as_sibling,
        !req.use_systemd,
{
    BuildRequest {
        id: String::from_str(id),
        namespace: cfg.namespace.clone(),
        bundle: cfg.bundle.clone(),
        root_base: root_base(engine),
        stdin: cfg.stdin.clone(),
        stdout: cfg.stdout.clone(),
        stderr: cfg.stderr.clone(),
        as_sibling: true,
        use_systemd: false,
    }
}

/// The lifecycle controller of one workload.
pub struct Instance {
    id: String,
    started: bool,
    exit_code: OneShotCell<ExitStatus>,
}

impl View for Instance {
    type V = InstanceView;

    closed spec fn view(&self) -> InstanceView {
        InstanceView { id: self.id@, started: self.started, exit: self.exit_code@ }
    }
}

impl Instance {
    /// Makes the instance for a sandbox that was built in the isolated
    /// context, and keeps the sandbox's handle with it. A build that
    /// failed, or an isolated context that failed, gives no instance but
    /// the failure's description as an error.
    pub fn new<C>(id: String, built: Result<C, WireError>) -> (res: Result<(Instance, C), Error>)
        ensures
            match built {
                Ok(handle) => {
                    &&& res matches Ok((instance, kept))
                    &&& kept == handle
                    &&& instance@ == InstanceView::fresh(id@)
                },
                Err(failure) => {
                    &&& res matches Err(err)
                    &&& err@ == ErrorView::Others(failure.description())
                },
            },
    {
        match built {
            Ok(handle) => {
                let instance = Instance { id, started: false, exit_code: OneShotCell::new() };
                Ok((instance, handle))
            },
            Err(failure) => Err(failure.into_error()),
        }
    }

    /// The id that the instance was made with.
    pub fn id(&self) -> (id: &str)
        ensures
            id@ == self@.id,
    {
        self.id.as_str()
    }

    /// Where the instance stands.
    pub fn phase(&self) -> (phase: Phase)
        ensures
            phase == self@.phase(),
    {
        if self.exit_code.get().is_some() {
            Phase::Exited
        } else if self.started {
            Phase::Running
        } else {
            Phase::Built
        }
    }

    /// The published exit status, if there is one.
    pub fn exit_status(&self) -> (status: Option<ExitStatus>)
        ensures
            status == self@.exit,
    {
        match self.exit_code.get() {
            Some(status) => Some(*status),
            None => None,
        }
    }

    /// One step in starting the sandbox's process: takes in what has
    /// happened, seen at `now`, and says what to do next. The caller does
    /// it and comes back with what happened, until the step is `Watch` or
    /// `Fail`. A process that runs makes the instance started. A start
    /// that fails publishes the fallback status, so that no reader waits
    /// for a process that never ran.
    pub fn start(&mut self, event: StartEvent, now: Timestamp) -> (action: StartAction)
        ensures
            action@ == event.action(),
            final(self)@ == old(self)@.after_start(event, now),
    {
        match event {
            StartEvent::Asked => StartAction::ReadPid,
            StartEvent::Pid(Some(pid)) => StartAction::Bind { pid },
            StartEvent::Pid(None) => {
                self.publish_fallback(now);
                StartAction::Fail(Error::Others(String::from_str("failed to get pid")))
            },
            StartEvent::Bound { pid, reply: Ok(_) } => StartAction::Launch { pid },
            StartEvent::Bound { pid, reply: Err(cause) } => {
                self.publish_fallback(now);
                StartAction::Fail(Error::Others(cause))
            },
            StartEvent::Launched { pid, reply: Ok(_) } => {
                self.started = true;
                StartAction::Watch { pid: unsigned_of(pid) }
            },
            StartEvent::Launched { pid, reply: Err(cause) } => {
                self.publish_fallback(now);
                StartAction::Fail(Error::Sandbox(cause))
            },
        }
    }

    /// Publishes the status of a process that the watcher saw end at `now`,
    /// unless a status is published already.
    pub fn finish(&mut self, outcome: WaitOutcome, now: Timestamp)
        ensures
            final(self)@ == old(self)@.after(Event::Finished { outcome, at: now }),
    {
        let _ = self.exit_code.set(outcome.to_status(now));
    }

    /// Ends a watch that has nothing to report, at `now`: the fallback
    /// status is published unless a status is published already. This is
    /// what the release of the start's guard does, on every path.
    pub fn abandon(&mut self, now: Timestamp)
        ensures
            final(self)@ == old(self)@.after(Event::Abandoned { at: now }),
    {
        self.publish_fallback(now);
    }

    /// Validates `signal` and, if it is a signal's number, asks for its
    /// delivery to every process of the sandbox. For any other number
    /// nothing is asked of the sandbox.
    pub fn kill(&self, signal: u32) -> (res: Result<KillRequest, Error>)
        ensures
            is_signal_number(signal as int) ==> res == Ok::<KillRequest, Error>(
                KillRequest { number: signal as i32, all: true },
            ),
            !is_signal_number(signal as int) ==> {
                &&& res matches Err(err)
                &&& err@ == ErrorView::InvalidArgument(kill_rejection(signal_number_of(signal)))
            },
    {
        let number: i32 = signed_of(signal);
        match signal_from_number(number) {
            Ok(()) => Ok(KillRequest { number, all: true }),
            Err(cause) => {
                let mut text = String::from_str("invalid signal number: ");
                text.append(cause.as_str());
                Err(Error::InvalidArgument(text))
            },
        }
    }

    /// Asks for the removal of the sandbox, by force.
    pub fn delete(&self) -> (req: DeleteRequest)
        ensures
            req.force,
    {
        DeleteRequest { force: true }
    }

    /// One step of a wait for the exit status with an optional time limit,
    /// both in nanoseconds, after `waited` of waiting: a published status
    /// is handed out whatever the clock says. A wait that times out leaves
    /// the instance, its process and its watcher as they are.
    pub fn wait_timeout(&self, timeout: Option<u128>, waited: u128) -> (step: WaitStep<
        ExitStatus,
    >)
        ensures
            step == wait_step_of(self@.exit, timeout, waited),
    {
        match self.exit_code.wait_timeout(timeout, waited) {
            WaitStep::Ready(status) => WaitStep::Ready(*status),
            WaitStep::Park { remaining } => WaitStep::Park { remaining },
            WaitStep::TimedOut => WaitStep::TimedOut,
        }
    }

    /// Arms a guard on the exit cell with the fallback status and releases
    /// it at once.
    fn publish_fallback(&mut self, now: Timestamp)
        ensures
            final(self).id == old(self).id,
            final(self).started == old(self).started,
            final(self).exit_code@ == after_set(old(self).exit_code@, fallback_status(now)),
    {
        let fallback = move || -> (status: ExitStatus)
            ensures
                status == fallback_status(now),
            { fallback_at(now) };
        let guard = self.exit_code.set_guard_with(fallback);
        guard.release(&mut self.exit_code);
    }
}

/// A published exit status is final: whatever happens to the instance
/// afterwards, its status stays the one that was published first.
pub proof fn lemma_exit_status_is_final(state: InstanceView, events: Seq<Event>)
    requires
        state.exit is Some,
    ensures
        state.after_all(events).exit == state.exit,
    decreases events.len(),
{
    if events.len() > 0 {
        lemma_exit_status_is_final(state.after(events[0]), events.drop_first());
    }
}

/// The steps of a start come in one order: a watcher is bound only to a
/// process whose id was read, the process is started only once a watcher
/// is bound to it, and the watch begins only once the process was started;
/// every failure on the way, and nothing else, ends the start with an
/// error and leaves an exit status behind.
pub proof fn lemma_start_order(event: StartEvent, state: InstanceView, at: Timestamp)
    ensures
        event.action() is Bind <==> (event is Pid && event->Pid_0 is Some),
        event.action() is Bind ==> event.action()->Bind_pid == event->Pid_0->0,
        event.action() is Launch <==> (event is Bound && event->Bound_reply is Ok),
        event.action() is Launch ==> event.action()->Launch_pid == event->Bound_pid,
        event.action() is Watch <==> (event is Launched && event->Launched_reply is Ok),
        event.action() is Fail ==> state.after_start(event, at).exit is Some,
        !(event.action() is Fail) ==> state.after_start(event, at).exit == state.exit,
        state.after_start(event, at).started == (state.started || event.action() is Watch),
{
}

/// Once a start was attempted, the end of the watch leaves an exit status
/// behind on every path: the fallback status if the start failed or the
/// watch was abandoned, and the status of the watcher's outcome otherwise,
/// unless one was published before.
pub proof fn lemma_start_leaves_exit_status(
    state: InstanceView,
    outcome: WaitOutcome,
    started_at: Timestamp,
    ended_at: Timestamp,
)
    ensures
        state.after(Event::StartFailed { at: started_at }).exit is Some,
        state.after(Event::Started).after(Event::Finished { outcome, at: ended_at }).exit is Some,
        state.after(Event::Started).after(Event::Abandoned { at: ended_at }).exit is Some,
        state.exit is None ==> {
            &&& state.after(Event::StartFailed { at: started_at }).exit == Some(
                fallback_status(started_at),
            )
            &&& state.after(Event::Started).after(Event::Finished { outcome, at: ended_at }).exit
                == Some(outcome.status_at(ended_at))
            &&& state.after(Event::Started).after(Event::Abandoned { at: ended_at }).exit == Some(
                fallback_status(ended_at),
            )
        },
{
}

} // verus!
