//! Supervising the command of a container.
//!
//! The command runs in a child process that is set up step by step between
//! `fork` and `exec`. What the child does next, and what the parent makes of
//! the way the child ended, is decided here; the system calls are made by
//! whoever runs the supervisor.

use vstd::prelude::*;
use vstd::string::StringExecFns;
use crate::config::{NamespaceConfig, NamespaceConfigView};
use crate::error::{Error, ErrorView, FailureKind, IoFailure, IoFailureView};
use crate::manager::{action_views, ManagerView, NamespaceAction, NamespaceManager};
use crate::text::{chars_of, str_eq, string_texts};

verus! {

/// The exit code of a child whose command could not be started.
pub const EXIT_NOT_FOUND: i32 = 127;

/// The exit code of a child that could not be set up.
pub const EXIT_SETUP_FAILED: i32 = 126;

/// The exit code for a failure of the runtime itself, and for a way of
/// ending that is neither an exit nor a signal.
pub const EXIT_FAILURE: i32 = 1;

/// The signal that asks a process to interrupt what it does.
pub const SIGINT: i32 = 2;

/// The signal that asks a process to end.
pub const SIGTERM: i32 = 15;

/// The flags with which `/proc` is mounted anew: no set-user-ID programs, no
/// devices, no programs at all.
pub const PROC_MOUNT_FLAGS: u64 = 14;

/// What a command left behind.
#[derive(Debug, Clone, PartialEq, Eq)]
pub struct ExecutionResult {
    /// The exit code: that of the command, or 128 and the number of the
    /// signal that ended it.
    pub exit_code: i32,
    /// What the command wrote to its standard output.
    pub stdout: Vec<u8>,
    /// What the command wrote to its standard error.
    pub stderr: Vec<u8>,
}

/// How a child ended.
#[derive(Debug, Clone, Copy, PartialEq, Eq, Structural)]
pub enum Termination {
    /// It exited with this code.
    Exited {
        /// The code.
        code: i32,
    },
    /// It was ended by this signal.
    Signaled {
        /// The number of the signal.
        signal: u8,
    },
    /// It ended in some other way.
    Other,
}

impl Termination {
    /// The exit code that stands for this way of ending: the code of an
    /// exit, 128 and the number of a signal, else 1.
    pub open spec fn spec_exit_code(self) -> i32 {
        match self {
            Termination::Exited { code } => code,
            Termination::Signaled { signal } => (128 + signal) as i32,
            Termination::Other => EXIT_FAILURE,
        }
    }

    /// The exit code that stands for this way of ending.
    #[verifier::when_used_as_spec(spec_exit_code)]
    pub fn exit_code(self) -> (code: i32)
        ensures
            code == self.spec_exit_code(),
    {
        match self {
            Termination::Exited { code } => code,
            Termination::Signaled { signal } => 128 + (signal as i32),
            Termination::Other => EXIT_FAILURE,
        }
    }
}

/// What waiting for the child gave.
#[derive(Debug, Clone, PartialEq, Eq)]
pub enum WaitOutcome {
    /// The child exited with this code.
    Exited {
        /// The code.
        code: i32,
    },
    /// The child was ended by this signal.
    Signaled {
        /// The number of the signal.
        signal: u8,
    },
    /// The child was stopped or continued, or something else that is no end.
    Other,
    /// The wait failed.
    Failed {
        /// Why.
        failure: IoFailure,
    },
}

/// The mathematical content of a [`WaitOutcome`].
pub enum WaitView {
    Exited { code: i32 },
    Signaled { signal: u8 },
    Other,
    Failed { failure: IoFailureView },
}

impl View for WaitOutcome {
    type V = WaitView;

    open spec fn view(&self) -> WaitView {
        match *self {
            WaitOutcome::Exited { code } => WaitView::Exited { code },
            WaitOutcome::Signaled { signal } => WaitView::Signaled { signal },
            WaitOutcome::Other => WaitView::Other,
            WaitOutcome::Failed { failure } => WaitView::Failed { failure: failure@ },
        }
    }
}

/// What the parent does after a wait.
#[derive(Debug, Clone, Copy, PartialEq, Eq, Structural)]
pub enum WaitStep {
    /// The child has ended; this is its exit code.
    Done {
        /// The exit code.
        exit_code: i32,
    },
    /// Wait again.
    Again,
}

impl WaitView {
    /// What the parent does after a wait: it takes the exit code of a child
    /// that has ended, waits again after anything that is no end and after
    /// an interruption, takes zero where there is no child, and gives up
    /// where the wait failed otherwise.
    pub open spec fn step(self) -> Result<WaitStep, ErrorView> {
        match self {
            WaitView::Exited { code } => Ok(WaitStep::Done { exit_code: code }),
            WaitView::Signaled { signal } => Ok(
                WaitStep::Done { exit_code: (128 + signal) as i32 },
            ),
            WaitView::Other => Ok(WaitStep::Again),
            WaitView::Failed { failure } => match failure.kind {
                FailureKind::Interrupted => Ok(WaitStep::Again),
                FailureKind::NoChild => Ok(WaitStep::Done { exit_code: 0 }),
                _ => Err(ErrorView::namespace_failure("Failed to wait for child"@, failure)),
            },
        }
    }
}

/// Decides what the parent does after a wait.
pub fn wait_step(outcome: &WaitOutcome) -> (r: Result<WaitStep, Error>)
    ensures
        match outcome@.step() {
            Ok(step) => r == Ok::<WaitStep, Error>(step),
            Err(e) => r is Err && r->Err_0@ == e,
        },
{
    match outcome {
        WaitOutcome::Exited { code } => Ok(
            WaitStep::Done { exit_code: (Termination::Exited { code: *code }).exit_code() },
        ),
        WaitOutcome::Signaled { signal } => Ok(
            WaitStep::Done { exit_code: (Termination::Signaled { signal: *signal }).exit_code() },
        ),
        WaitOutcome::Other => Ok(WaitStep::Again),
        WaitOutcome::Failed { failure } => match failure.kind {
            FailureKind::Interrupted => Ok(WaitStep::Again),
            FailureKind::NoChild => Ok(WaitStep::Done { exit_code: 0 }),
            _ => Err(Error::namespace_failure("Failed to wait for child", failure)),
        },
    }
}

/// The signal to send to the child when the parent receives `signal`: the
/// request to end, for a request to interrupt; nothing for any other.
pub fn signal_to_forward(signal: i32) -> (forward: Option<i32>)
    ensures
        forward == if signal == SIGINT {
            Some(SIGTERM)
        } else {
            None::<i32>
        },
{
    if signal == SIGINT {
        Some(SIGTERM)
    } else {
        None
    }
}

// ---------------------------------------------------------------------------
// The command line
// ---------------------------------------------------------------------------

/// A shell that is asked to talk to its user when it is started without
/// arguments.
pub open spec fn is_shell(program: Seq<char>) -> bool {
    program == "/bin/bash"@ || program == "/bin/sh"@
}

/// The argument vector of a command: the program, its arguments, and `-i`
/// for a shell that was given none.
pub open spec fn argument_vector(program: Seq<char>, args: Seq<Seq<char>>) -> Seq<Seq<char>> {
    seq![program] + args + (if is_shell(program) && args.len() == 0 {
        seq!["-i"@]
    } else {
        Seq::empty()
    })
}

/// A text that can be handed to the kernel as one string: it holds no NUL.
pub open spec fn is_c_string(s: Seq<char>) -> bool {
    forall|i: int| 0 <= i < s.len() ==> s[i] != '\0'
}

/// Every text of `v` can be handed to the kernel as one string.
pub open spec fn all_c_strings(v: Seq<Seq<char>>) -> bool {
    forall|i: int| 0 <= i < v.len() ==> is_c_string(#[trigger] v[i])
}

/// Tests whether a text holds no NUL.
pub fn check_c_string(s: &str) -> (r: bool)
    ensures
        r == is_c_string(s@),
{
    let chars = chars_of(s);
    let mut i: usize = 0;
    while i < chars.len()
        invariant
            i <= chars.len(),
            chars@ == s@,
            forall|j: int| 0 <= j < i ==> s@[j] != '\0',
        decreases chars.len() - i,
    {
        if chars[i] == '\0' {
            return false;
        }
        i = i + 1;
    }
    true
}

/// The argument vector of a command.
pub fn build_argv(program: &str, args: &Vec<String>) -> (argv: Vec<String>)
    ensures
        string_texts(argv@) == argument_vector(program@, string_texts(args@)),
{
    let mut argv: Vec<String> = Vec::new();
    argv.push(String::from_str(program));
    let mut i: usize = 0;
    assert(string_texts(args@).take(0) =~= Seq::<Seq<char>>::empty());
    assert(string_texts(argv@) =~= seq![program@] + string_texts(args@).take(0));
    while i < args.len()
        invariant
            i <= args.len(),
            string_texts(argv@) == seq![program@] + string_texts(args@).take(i as int),
        decreases args.len() - i,
    {
        let ghost before = string_texts(argv@);
        let arg = args[i].clone();
        argv.push(arg);
        proof {
            assert(string_texts(argv@) =~= before.push(args@[i as int]@));
            assert(string_texts(args@).take(i + 1) =~= string_texts(args@).take(i as int).push(
                args@[i as int]@,
            ));
            assert(before.push(args@[i as int]@) =~= seq![program@] + string_texts(args@).take(
                i + 1,
            ));
        }
        i = i + 1;
    }
    assert(string_texts(args@).take(args.len() as int) =~= string_texts(args@));
    let ghost body = string_texts(argv@);
    let shell = str_eq(program, "/bin/bash") || str_eq(program, "/bin/sh");
    if shell && args.len() == 0 {
        argv.push(String::from_str("-i"));
        assert(string_texts(argv@) =~= body + seq!["-i"@]);
    } else {
        assert(string_texts(argv@) =~= body + Seq::<Seq<char>>::empty());
    }
    argv
}

// ---------------------------------------------------------------------------
// The child
// ---------------------------------------------------------------------------

/// Where the child stands on its way to the command.
#[derive(Debug, Clone, Copy, PartialEq, Eq, Structural)]
pub enum ChildState {
    /// There is no child yet.
    PreFork,
    /// The child exists.
    ChildBorn,
    /// Its standard output and error lead to the parent.
    FdsReady,
    /// It is in its namespaces, and has its names.
    Namespaced,
    /// It sees its own `/proc`.
    ProcReady,
    /// The command has taken the place of the child.
    Replaced,
    /// The child has given up with this exit code.
    Exited {
        /// The exit code.
        code: i32,
    },
    /// There never was a child: the parent reports the failure.
    Failed,
}

/// What has just happened to the child.
#[derive(Debug, Clone, Copy, PartialEq, Eq, Structural)]
pub enum ChildEvent {
    /// `fork` returned in the child.
    Forked,
    /// `fork` failed.
    ForkFailed,
    /// Standard output and error were led to the pipes.
    FdsRedirected,
    /// The namespaces were made and the names were set.
    NamespacesCreated,
    /// `/proc` was mounted anew.
    ProcRemounted,
    /// `/proc` could not be mounted anew.
    ProcRemountFailed,
    /// `exec` took place.
    Executed,
    /// `exec` returned: the command could not be started.
    ExecFailed,
    /// A step that must not fail has failed.
    Fatal,
}

/// What the child is to do next.
#[derive(Debug, Clone, Copy, PartialEq, Eq, Structural)]
pub enum ChildAction {
    /// Close the reading ends of the pipes and lead standard output and
    /// error to the writing ends.
    RedirectFds,
    /// Make the calls that bring the namespaces into being.
    CreateNamespaces,
    /// Unmount `/proc`, whether or not that works, and mount it anew.
    RemountProc,
    /// Change to the root directory, set `HOME` and `PWD`, and start the
    /// command.
    Exec,
    /// Leave at once with this exit code.
    Exit {
        /// The exit code.
        code: i32,
    },
    /// Nothing: the child is gone, or never was.
    Nothing,
}

impl ChildState {
    /// The state that follows when `event` happens in this state, and what
    /// the child is to do then. `remount` says whether the child gets a
    /// mount namespace and so its own `/proc`. Mounting `/proc` may fail;
    /// the child then stays where it is and goes on to the command. Any
    /// other failure, and anything that cannot happen in this state, ends
    /// the child.
    pub open spec fn spec_step(self, event: ChildEvent, remount: bool) -> (ChildState, ChildAction) {
        match (self, event) {
            (ChildState::PreFork, ChildEvent::Forked) => (
                ChildState::ChildBorn,
                ChildAction::RedirectFds,
            ),
            (ChildState::PreFork, ChildEvent::ForkFailed) => (
                ChildState::Failed,
                ChildAction::Nothing,
            ),
            (ChildState::ChildBorn, ChildEvent::FdsRedirected) => (
                ChildState::FdsReady,
                ChildAction::CreateNamespaces,
            ),
            (ChildState::FdsReady, ChildEvent::NamespacesCreated) => (
                ChildState::Namespaced,
                if remount {
                    ChildAction::RemountProc
                } else {
                    ChildAction::Exec
                },
            ),
            (ChildState::Namespaced, ChildEvent::ProcRemounted) => (
                ChildState::ProcReady,
                ChildAction::Exec,
            ),
            (ChildState::Namespaced, ChildEvent::ProcRemountFailed) => (
                ChildState::Namespaced,
                ChildAction::Exec,
            ),
            (ChildState::Namespaced, ChildEvent::Executed) => (
                ChildState::Replaced,
                ChildAction::Nothing,
            ),
            (ChildState::ProcReady, ChildEvent::Executed) => (
                ChildState::Replaced,
                ChildAction::Nothing,
            ),
            (ChildState::Namespaced, ChildEvent::ExecFailed) => (
                ChildState::Exited { code: EXIT_NOT_FOUND },
                ChildAction::Exit { code: EXIT_NOT_FOUND },
            ),
            (ChildState::ProcReady, ChildEvent::ExecFailed) => (
                ChildState::Exited { code: EXIT_NOT_FOUND },
                ChildAction::Exit { code: EXIT_NOT_FOUND },
            ),
            (ChildState::Replaced, _) => (ChildState::Replaced, ChildAction::Nothing),
            (ChildState::Failed, _) => (ChildState::Failed, ChildAction::Nothing),
            (ChildState::Exited { code }, _) => (
                ChildState::Exited { code },
                ChildAction::Nothing,
            ),
            (ChildState::PreFork, _) => (ChildState::Failed, ChildAction::Nothing),
            _ => (
                ChildState::Exited { code: EXIT_SETUP_FAILED },
                ChildAction::Exit { code: EXIT_SETUP_FAILED },
            ),
        }
    }

    /// The state that follows when `event` happens in this state, and what
    /// the child is to do then.
    #[verifier::when_used_as_spec(spec_step)]
    pub fn step(self, event: ChildEvent, remount: bool) -> (r: (ChildState, ChildAction))
        ensures
            r == self.spec_step(event, remount),
    {
        match (self, event) {
            (ChildState::PreFork, ChildEvent::Forked) => (
                ChildState::ChildBorn,
                ChildAction::RedirectFds,
            ),
            (ChildState::PreFork, ChildEvent::ForkFailed) => (
                ChildState::Failed,
                ChildAction::Nothing,
            ),
            (ChildState::ChildBorn, ChildEvent::FdsRedirected) => (
                ChildState::FdsReady,
                ChildAction::CreateNamespaces,
            ),
            (ChildState::FdsReady, ChildEvent::NamespacesCreated) => (
                ChildState::Namespaced,
                if remount {
                    ChildAction::RemountProc
                } else {
                    ChildAction::Exec
                },
            ),
            (ChildState::Namespaced, ChildEvent::ProcRemounted) => (
                ChildState::ProcReady,
                ChildAction::Exec,
            ),
            (ChildState::Namespaced, ChildEvent::ProcRemountFailed) => (
                ChildState::Namespaced,
                ChildAction::Exec,
            ),
            (ChildState::Namespaced, ChildEvent::Executed) => (
                ChildState::Replaced,
                ChildAction::Nothing,
            ),
            (ChildState::ProcReady, ChildEvent::Executed) => (
                ChildState::Replaced,
                ChildAction::Nothing,
            ),
            (ChildState::Namespaced, ChildEvent::ExecFailed) => (
                ChildState::Exited { code: EXIT_NOT_FOUND },
                ChildAction::Exit { code: EXIT_NOT_FOUND },
            ),
            (ChildState::ProcReady, ChildEvent::ExecFailed) => (
                ChildState::Exited { code: EXIT_NOT_FOUND },
                ChildAction::Exit { code: EXIT_NOT_FOUND },
            ),
            (ChildState::Replaced, _) => (ChildState::Replaced, ChildAction::Nothing),
            (ChildState::Failed, _) => (ChildState::Failed, ChildAction::Nothing),
            (ChildState::Exited { code }, _) => (
                ChildState::Exited { code },
                ChildAction::Nothing,
            ),
            (ChildState::PreFork, _) => (ChildState::Failed, ChildAction::Nothing),
            _ => (
                ChildState::Exited { code: EXIT_SETUP_FAILED },
                ChildAction::Exit { code: EXIT_SETUP_FAILED },
            ),
        }
    }

    /// The state after a run of events, from this state on.
    pub open spec fn after(self, events: Seq<ChildEvent>, remount: bool) -> ChildState
        decreases events.len(),
    {
        if events.len() == 0 {
            self
        } else {
            self.after(events.drop_last(), remount).spec_step(events.last(), remount).0
        }
    }

    /// How far the child has come on its way to the command.
    pub open spec fn rank(self) -> nat {
        match self {
            ChildState::PreFork => 0,
            ChildState::ChildBorn => 1,
            ChildState::FdsReady => 2,
            ChildState::Namespaced => 3,
            ChildState::ProcReady => 4,
            ChildState::Replaced => 5,
            ChildState::Exited { .. } => 5,
            ChildState::Failed => 5,
        }
    }

    /// Whether nothing more can happen to the child.
    pub open spec fn is_final(self) -> bool {
        self is Replaced || self is Exited || self is Failed
    }
}

/// The child never goes back; it leaves only with an exit code of 126 or
/// more; it is told to mount `/proc` only on entering its namespaces, and to
/// start the command only in its namespaces, and where `/proc` is to be
/// mounted, only after that was tried.
pub proof fn lemma_child_step(state: ChildState, event: ChildEvent, remount: bool)
    ensures
        state.spec_step(event, remount).0.rank() >= state.rank(),
        state.is_final() ==> state.spec_step(event, remount) == (state, ChildAction::Nothing),
        state.spec_step(event, remount).1 matches ChildAction::Exit { code } ==> code >= 126
            && state.spec_step(event, remount).0 == (ChildState::Exited { code }),
        state.spec_step(event, remount).1 is RemountProc ==> remount && state is FdsReady
            && event is NamespacesCreated,
        state.spec_step(event, remount).1 is Exec ==> state.spec_step(event, remount).0.rank() >= 3
            && (state is FdsReady || state is Namespaced),
        state.spec_step(event, remount).1 is CreateNamespaces ==> state is ChildBorn
            && event is FdsRedirected,
        remount && state.spec_step(event, remount).1 is Exec ==> state is Namespaced && (event
            is ProcRemounted || event is ProcRemountFailed),
{
}

/// Whatever happens, a child that has reached its namespaces has been
/// through every state before: it was born, and its output was led to the
/// parent, before the namespaces were made.
pub proof fn lemma_child_order(events: Seq<ChildEvent>, remount: bool)
    requires
        ChildState::PreFork.after(events, remount).rank() >= 3,
        !ChildState::PreFork.after(events, remount).is_final(),
    ensures
        exists|i: int, j: int, k: int|
            0 <= i < j < k < events.len() && events[i] is Forked && events[j] is FdsRedirected
                && events[k] is NamespacesCreated,
{
    lemma_reached(events, remount);
}

/// The events that must have happened for the child to stand where it does.
proof fn lemma_reached(events: Seq<ChildEvent>, remount: bool)
    ensures
        ({
            let s = ChildState::PreFork.after(events, remount);
            &&& s is ChildBorn ==> exists|i: int| 0 <= i < events.len() && events[i] is Forked
            &&& s is FdsReady ==> exists|i: int, j: int|
                0 <= i < j < events.len() && events[i] is Forked && events[j] is FdsRedirected
            &&& (s is Namespaced || s is ProcReady) ==> exists|i: int, j: int, k: int|
                0 <= i < j < k < events.len() && events[i] is Forked && events[j] is FdsRedirected
                    && events[k] is NamespacesCreated
        }),
    decreases events.len(),
{
    if events.len() > 0 {
        let before = events.drop_last();
        lemma_reached(before, remount);
        let p = ChildState::PreFork.after(before, remount);
        let s = ChildState::PreFork.after(events, remount);
        let last = events.len() - 1;
        assert(events.last() == events[last]);
        assert(forall|i: int| 0 <= i < before.len() ==> before[i] == events[i]);
        if s is ChildBorn {
            assert(p is PreFork && events[last] is Forked);
        }
        if s is FdsReady {
            assert(p is ChildBorn && events[last] is FdsRedirected);
            let i = choose|i: int| 0 <= i < before.len() && before[i] is Forked;
            assert(0 <= i < last < events.len() && events[i] is Forked && events[last]
                is FdsRedirected);
        }
        if s is Namespaced || s is ProcReady {
            if p is FdsReady {
                let (i, j) = choose|i: int, j: int|
                    0 <= i < j < before.len() && before[i] is Forked && before[j] is FdsRedirected;
                assert(0 <= i < j < last < events.len() && events[i] is Forked && events[j]
                    is FdsRedirected && events[last] is NamespacesCreated);
            } else {
                assert(p is Namespaced || p is ProcReady);
                let (i, j, k) = choose|i: int, j: int, k: int|
                    0 <= i < j < k < before.len() && before[i] is Forked && before[j]
                        is FdsRedirected && before[k] is NamespacesCreated;
                assert(0 <= i < j < k < events.len() && events[i] is Forked && events[j]
                    is FdsRedirected && events[k] is NamespacesCreated);
            }
        }
    }
}

// ---------------------------------------------------------------------------
// The executor
// ---------------------------------------------------------------------------

/// All that a child needs to know, worked out before it is made.
#[derive(Debug, Clone, PartialEq, Eq)]
pub struct ChildPlan {
    /// The calls that bring the namespaces into being, in order.
    pub namespace_actions: Vec<NamespaceAction>,
    /// Whether `/proc` is to be mounted anew.
    pub remount_proc: bool,
    /// The directory in which the command starts.
    pub working_directory: String,
    /// The variables to set in the environment, each with its value.
    pub environment: Vec<(String, String)>,
    /// The argument vector of the command; the program is its first entry.
    pub argv: Vec<String>,
}

/// The mathematical content of a [`ChildPlan`].
pub struct ChildPlanView {
    pub namespace_actions: Seq<crate::manager::ActionView>,
    pub remount_proc: bool,
    pub working_directory: Seq<char>,
    pub environment: Seq<(Seq<char>, Seq<char>)>,
    pub argv: Seq<Seq<char>>,
}

impl View for ChildPlan {
    type V = ChildPlanView;

    open spec fn view(&self) -> ChildPlanView {
        ChildPlanView {
            namespace_actions: action_views(self.namespace_actions@),
            remount_proc: self.remount_proc,
            working_directory: self.working_directory@,
            environment: variable_texts(self.environment@),
            argv: string_texts(self.argv@),
        }
    }
}

/// What the child is to do for the command `program` with the arguments
/// `args`, in the namespaces of `config`: make the namespaces, mount `/proc`
/// anew where it gets a mount namespace, and start the command in the root
/// directory with `HOME` and `PWD` set. A program or an argument that holds
/// a NUL cannot be handed to the kernel, and is refused.
pub open spec fn child_plan(
    config: NamespaceConfigView,
    program: Seq<char>,
    args: Seq<Seq<char>>,
) -> Result<ChildPlanView, ErrorView> {
    if !is_c_string(program) {
        Err(ErrorView::InvalidConfig { message: "Invalid program path"@ })
    } else if !all_c_strings(args) {
        Err(ErrorView::InvalidConfig { message: "Invalid argument"@ })
    } else {
        Ok(
            ChildPlanView {
                namespace_actions: (ManagerView { config, created: false }).plan(),
                remount_proc: config.mount,
                working_directory: "/"@,
                environment: child_environment(),
                argv: argument_vector(program, args),
            },
        )
    }
}

/// The names and values of some variables.
pub open spec fn variable_texts(v: Seq<(String, String)>) -> Seq<(Seq<char>, Seq<char>)> {
    v.map_values(|p: (String, String)| (p.0@, p.1@))
}

/// The variables that every command finds in its environment.
pub open spec fn child_environment() -> Seq<(Seq<char>, Seq<char>)> {
    seq![("HOME"@, "/root"@), ("PWD"@, "/"@)]
}

/// Runs commands in namespaces of their own.
#[derive(Debug, PartialEq, Eq)]
pub struct NamespaceExecutor {
    config: NamespaceConfig,
}

impl View for NamespaceExecutor {
    type V = NamespaceConfigView;

    closed spec fn view(&self) -> NamespaceConfigView {
        self.config@
    }
}

impl NamespaceExecutor {
    /// An executor for the given configuration. This never fails.
    pub fn new(config: NamespaceConfig) -> (r: Result<NamespaceExecutor, Error>)
        ensures
            r is Ok,
            r->Ok_0@ == config@,
    {
        Ok(NamespaceExecutor { config })
    }

    /// The configuration.
    pub fn config(&self) -> (config: &NamespaceConfig)
        ensures
            config@ == self@,
    {
        &self.config
    }

    /// Works out what the child is to do for the command `program` with the
    /// arguments `args`. A program or an argument that holds a NUL cannot be
    /// handed to the kernel, and is refused.
    pub fn plan(&self, program: &str, args: &Vec<String>) -> (r: Result<ChildPlan, Error>)
        ensures
            match child_plan(self@, program@, string_texts(args@)) {
                Ok(plan) => r is Ok && r->Ok_0@ == plan,
                Err(e) => r is Err && r->Err_0@ == e,
            },
    {
        if !check_c_string(program) {
            return Err(Error::invalid_config("Invalid program path"));
        }
        let mut i: usize = 0;
        while i < args.len()
            invariant
                i <= args.len(),
                is_c_string(program@),
                forall|j: int| 0 <= j < i ==> is_c_string(#[trigger] string_texts(args@)[j]),
            decreases args.len() - i,
        {
            if !check_c_string(args[i].as_str()) {
                assert(!is_c_string(string_texts(args@)[i as int]));
                return Err(Error::invalid_config("Invalid argument"));
            }
            assert(string_texts(args@)[i as int] == args@[i as int]@);
            i = i + 1;
        }
        let manager = NamespaceManager::new(self.config.clone());
        let namespace_actions = manager.create_plan();
        let mut environment: Vec<(String, String)> = Vec::new();
        environment.push((String::from_str("HOME"), String::from_str("/root")));
        environment.push((String::from_str("PWD"), String::from_str("/")));
        assert(variable_texts(environment@) =~= child_environment());
        Ok(
            ChildPlan {
                namespace_actions,
                remount_proc: self.config.mount,
                working_directory: String::from_str("/"),
                environment,
                argv: build_argv(program, args),
            },
        )
    }

    /// Puts together what a command left behind.
    pub fn result(termination: Termination, stdout: Vec<u8>, stderr: Vec<u8>) -> (r:
        ExecutionResult)
        ensures
            r.exit_code == termination.spec_exit_code(),
            r.stdout == stdout,
            r.stderr == stderr,
    {
        ExecutionResult { exit_code: termination.exit_code(), stdout, stderr }
    }
}

} // verus!
