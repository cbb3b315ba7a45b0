//! The control group of one container in the unified hierarchy.
//!
//! A controller names the group's directory, knows whether the group is
//! active, and says which files are to be written or read for each
//! operation. The caller performs the reads and writes and hands back what
//! the kernel answered.

use vstd::prelude::*;
use vstd::string::StringExecFns;
use crate::error::{Error, ErrorView, FailureKind, IoFailure, IoFailureView};
use crate::resources::{CpuLimit, MemoryLimit, MemorySize, ResourceStats};
use crate::stats::{
    cpu_times, io_totals, listed_pids, parse_cpu_stat, parse_io_stat, parse_pid_list,
    parse_single_value, single_value,
};
use crate::text::{
    chars_of, concat2, concat3, decimal, lines, push_decimal, push_signed_decimal, same_text,
    signed_decimal, split_tokens, texts, tokens,
};
use crate::types::{ContainerId, ProcessId};

verus! {

/// The milliseconds to wait between moving the last processes out of a group
/// and removing its directory.
pub const KERNEL_CLEANUP_DELAY_MS: u64 = 10;

/// Where a controller stands in its life.
#[derive(Debug, Clone, Copy, PartialEq, Eq, Structural)]
pub enum Phase {
    /// The controller is made; its directory may not exist yet.
    Created,
    /// The directory exists and the group takes limits and processes.
    Active,
    /// The group has been given up. Nothing follows.
    Cleaned,
}

/// A file to write, with the text to write to it.
#[derive(Debug, Clone, PartialEq, Eq)]
pub struct FileWrite {
    /// The file.
    pub path: String,
    /// The text to write.
    pub content: String,
    /// What to say went wrong where the write fails.
    pub purpose: String,
}

/// The mathematical content of a [`FileWrite`].
pub struct FileWriteView {
    pub path: Seq<char>,
    pub content: Seq<char>,
    pub purpose: Seq<char>,
}

impl View for FileWrite {
    type V = FileWriteView;

    open spec fn view(&self) -> FileWriteView {
        FileWriteView { path: self.path@, content: self.content@, purpose: self.purpose@ }
    }
}

/// The views of a sequence of writes.
pub open spec fn write_views(writes: Seq<FileWrite>) -> Seq<FileWriteView> {
    writes.map_values(|w: FileWrite| w@)
}

/// One step in bringing a control group into being.
#[derive(Debug, Clone, PartialEq, Eq)]
pub enum SetupStep {
    /// See that the unified hierarchy is mounted: this file must exist.
    CheckHierarchy {
        /// The file.
        path: String,
    },
    /// Make the directory and the directories above it, unless they exist.
    EnsureDirectory {
        /// The directory.
        path: String,
    },
    /// Try to switch on the required controllers for the groups below this
    /// directory. A failure here is of no account.
    EnableControllers {
        /// The directory.
        path: String,
    },
    /// Make the directory of the group itself; a directory that exists is
    /// taken over. A failure here is final.
    CreateLeaf {
        /// The directory.
        path: String,
    },
}

/// The mathematical content of a [`SetupStep`].
pub enum SetupStepView {
    CheckHierarchy { path: Seq<char> },
    EnsureDirectory { path: Seq<char> },
    EnableControllers { path: Seq<char> },
    CreateLeaf { path: Seq<char> },
}

impl View for SetupStep {
    type V = SetupStepView;

    open spec fn view(&self) -> SetupStepView {
        match *self {
            SetupStep::CheckHierarchy { path } => SetupStepView::CheckHierarchy { path: path@ },
            SetupStep::EnsureDirectory { path } => SetupStepView::EnsureDirectory { path: path@ },
            SetupStep::EnableControllers { path } => SetupStepView::EnableControllers {
                path: path@,
            },
            SetupStep::CreateLeaf { path } => SetupStepView::CreateLeaf { path: path@ },
        }
    }
}

impl SetupStepView {
    /// What is reported where the step fails: nothing for the controllers,
    /// which are switched on as far as that goes; for every other step the
    /// error that ends the setup.
    pub open spec fn failure(self, failure: IoFailureView) -> Option<ErrorView> {
        match self {
            SetupStepView::CheckHierarchy { .. } => Some(
                ErrorView::CGroup { message: "CGroup v2 is not mounted at /sys/fs/cgroup"@ },
            ),
            SetupStepView::EnsureDirectory { path } => Some(
                ErrorView::cgroup_failure("Failed to create directory "@ + path, failure),
            ),
            SetupStepView::EnableControllers { .. } => None,
            SetupStepView::CreateLeaf { path } => Some(
                ErrorView::cgroup_failure("Failed to create container directory "@ + path, failure),
            ),
        }
    }
}

impl SetupStep {
    /// What is reported where the step fails, if anything.
    pub fn failure(&self, failure: &IoFailure) -> (r: Option<Error>)
        ensures
            match self@.failure(failure@) {
                Some(e) => r is Some && r->0@ == e,
                None => r is None,
            },
    {
        match self {
            SetupStep::CheckHierarchy { .. } => Some(
                Error::cgroup("CGroup v2 is not mounted at /sys/fs/cgroup"),
            ),
            SetupStep::EnsureDirectory { path } => {
                let what = concat2("Failed to create directory ", path.as_str());
                Some(Error::cgroup_failure(what.as_str(), failure))
            },
            SetupStep::EnableControllers { .. } => None,
            SetupStep::CreateLeaf { path } => {
                let what = concat2("Failed to create container directory ", path.as_str());
                Some(Error::cgroup_failure(what.as_str(), failure))
            },
        }
    }
}

/// The views of a sequence of steps.
pub open spec fn step_views(steps: Seq<SetupStep>) -> Seq<SetupStepView> {
    steps.map_values(|s: SetupStep| s@)
}

/// What reading one statistics file gave: its text, or why it could not be read.
pub type FileRead = Result<String, IoFailure>;

/// The mathematical content of a [`FileRead`].
pub open spec fn read_view(r: FileRead) -> Result<Seq<char>, IoFailureView> {
    match r {
        Ok(text) => Ok(text@),
        Err(failure) => Err(failure@),
    }
}

/// The statistics files of a group.
#[derive(Debug, Clone, PartialEq, Eq)]
pub struct StatPaths {
    /// `cpu.stat`
    pub cpu_stat: String,
    /// `memory.current`
    pub memory_current: String,
    /// `memory.peak`
    pub memory_peak: String,
    /// `memory.swap.current`
    pub swap_current: String,
    /// `memory.swap.peak`
    pub swap_peak: String,
    /// `io.stat`
    pub io_stat: String,
}

/// What reading the statistics files of a group gave.
#[derive(Debug, PartialEq, Eq)]
pub struct StatFiles {
    /// `cpu.stat`
    pub cpu_stat: FileRead,
    /// `memory.current`
    pub memory_current: FileRead,
    /// `memory.peak`
    pub memory_peak: FileRead,
    /// `memory.swap.current`
    pub swap_current: FileRead,
    /// `memory.swap.peak`
    pub swap_peak: FileRead,
    /// `io.stat`
    pub io_stat: FileRead,
}

/// The mathematical content of [`StatFiles`].
pub struct StatFilesView {
    pub cpu_stat: Result<Seq<char>, IoFailureView>,
    pub memory_current: Result<Seq<char>, IoFailureView>,
    pub memory_peak: Result<Seq<char>, IoFailureView>,
    pub swap_current: Result<Seq<char>, IoFailureView>,
    pub swap_peak: Result<Seq<char>, IoFailureView>,
    pub io_stat: Result<Seq<char>, IoFailureView>,
}

impl View for StatFiles {
    type V = StatFilesView;

    open spec fn view(&self) -> StatFilesView {
        StatFilesView {
            cpu_stat: read_view(self.cpu_stat),
            memory_current: read_view(self.memory_current),
            memory_peak: read_view(self.memory_peak),
            swap_current: read_view(self.swap_current),
            swap_peak: read_view(self.swap_peak),
            io_stat: read_view(self.io_stat),
        }
    }
}

/// The number in a file that may be missing: zero where it is.
pub open spec fn value_or_zero(read: Result<Seq<char>, IoFailureView>) -> u64 {
    match read {
        Ok(text) => single_value(text),
        Err(_) => 0,
    }
}

/// The snapshot that the statistics files give: an error where `cpu.stat`,
/// `memory.current` or `memory.peak` could not be read, in this order; zero
/// for a swap file or an `io.stat` that could not.
pub open spec fn snapshot_of(files: StatFilesView) -> Result<ResourceStats, ErrorView> {
    match files.cpu_stat {
        Err(failure) => Err(ErrorView::cgroup_failure("Failed to read cpu.stat"@, failure)),
        Ok(cpu) => match files.memory_current {
            Err(failure) => Err(
                ErrorView::cgroup_failure("Failed to read memory.current"@, failure),
            ),
            Ok(current) => match files.memory_peak {
                Err(failure) => Err(
                    ErrorView::cgroup_failure("Failed to read memory.peak"@, failure),
                ),
                Ok(peak) => Ok(
                    ResourceStats {
                        cpu_usage: cpu_times(cpu).0,
                        cpu_throttled: cpu_times(cpu).1,
                        memory_current: MemorySize(single_value(current)),
                        memory_peak: MemorySize(single_value(peak)),
                        swap_current: MemorySize(value_or_zero(files.swap_current)),
                        swap_peak: MemorySize(value_or_zero(files.swap_peak)),
                        io_read_bytes: match files.io_stat {
                            Ok(io) => io_totals(io).0,
                            Err(_) => 0,
                        },
                        io_write_bytes: match files.io_stat {
                            Ok(io) => io_totals(io).1,
                            Err(_) => 0,
                        },
                    },
                ),
            },
        },
    }
}

/// The controllers that are switched on for a subtree, given the text of
/// `cgroup.controllers` and of `cgroup.subtree_control`: of `cpu`, `memory`
/// and `io`, in this order, those that are available and not yet enabled,
/// each as the token to write.
pub open spec fn controllers_to_enable(available: Seq<char>, enabled: Seq<char>) -> Seq<
    Seq<char>,
> {
    (if tokens(available).contains("cpu"@) && !tokens(enabled).contains("cpu"@) {
        seq!["+cpu"@]
    } else {
        Seq::empty()
    }) + (if tokens(available).contains("memory"@) && !tokens(enabled).contains("memory"@) {
        seq!["+memory"@]
    } else {
        Seq::empty()
    }) + (if tokens(available).contains("io"@) && !tokens(enabled).contains("io"@) {
        seq!["+io"@]
    } else {
        Seq::empty()
    })
}

/// Of `cpu`, `memory` and `io`, in this order, those that the text of
/// `cgroup.controllers` does not offer.
pub open spec fn controllers_missing(available: Seq<char>) -> Seq<Seq<char>> {
    (if !tokens(available).contains("cpu"@) {
        seq!["cpu"@]
    } else {
        Seq::empty()
    }) + (if !tokens(available).contains("memory"@) {
        seq!["memory"@]
    } else {
        Seq::empty()
    }) + (if !tokens(available).contains("io"@) {
        seq!["io"@]
    } else {
        Seq::empty()
    })
}

/// The writes that move the listed processes to the root group, one write
/// for each process.
pub open spec fn reparent_plan(pids: Seq<i32>) -> Seq<FileWriteView> {
    pids.map_values(
        |pid: i32|
            FileWriteView {
                path: "/sys/fs/cgroup/cgroup.procs"@,
                content: signed_decimal(pid as int),
                purpose: "Could not move process to root cgroup"@,
            },
    )
}

/// The mathematical content of a [`CGroupController`].
pub struct ControllerView {
    pub id: Seq<char>,
    pub path: Seq<char>,
    pub phase: Phase,
}

impl ControllerView {
    /// The directory of the group of the container `id`.
    pub open spec fn directory(id: Seq<char>) -> Seq<char> {
        "/sys/fs/cgroup/vortex/"@ + id
    }

    /// The path of the controller is the directory of the group of its
    /// container. Every controller is so.
    pub open spec fn well_formed(self) -> bool {
        self.path == Self::directory(self.id)
    }

    /// The controller of the container `id` as it is made.
    pub open spec fn created(id: Seq<char>) -> ControllerView {
        ControllerView { id, path: Self::directory(id), phase: Phase::Created }
    }

    /// A file in the directory of the group.
    pub open spec fn file(self, name: Seq<char>) -> Seq<char> {
        self.path + "/"@ + name
    }

    /// The group takes limits and processes.
    pub open spec fn is_active(self) -> bool {
        self.phase is Active
    }

    /// The steps that bring the group into being: the check for the unified
    /// hierarchy, the runtime's own subtree, the controllers at the root and
    /// in the subtree, then the group itself.
    pub open spec fn setup_plan(self) -> Seq<SetupStepView> {
        seq![
            SetupStepView::CheckHierarchy { path: "/sys/fs/cgroup/cgroup.controllers"@ },
            SetupStepView::EnsureDirectory { path: "/sys/fs/cgroup/vortex"@ },
            SetupStepView::EnableControllers { path: "/sys/fs/cgroup"@ },
            SetupStepView::EnableControllers { path: "/sys/fs/cgroup/vortex"@ },
            SetupStepView::CreateLeaf { path: self.path },
        ]
    }

    /// The controller after its directory was made, or could not be made.
    pub open spec fn activated(self, made: Result<(), IoFailureView>) -> ControllerView {
        if self.phase is Created && made is Ok {
            ControllerView { phase: Phase::Active, ..self }
        } else {
            self
        }
    }

    /// What making the directory leads to: nothing to report where the group
    /// is active afterwards, the failure where the directory could not be
    /// made, and a group that was given up stays so.
    pub open spec fn activation(self, made: Result<(), IoFailureView>) -> Result<(), ErrorView> {
        match self.phase {
            Phase::Active => Ok(()),
            Phase::Cleaned => Err(ErrorView::not_active()),
            Phase::Created => match made {
                Ok(_) => Ok(()),
                Err(failure) => Err(
                    ErrorView::cgroup_failure(
                        "Failed to create container directory "@ + self.path,
                        failure,
                    ),
                ),
            },
        }
    }

    /// The write that sets the processor limit.
    pub open spec fn cpu_limit_write(self, limit: CpuLimit) -> Result<FileWriteView, ErrorView> {
        if self.is_active() {
            Ok(
                FileWriteView {
                    path: self.file("cpu.max"@),
                    content: signed_decimal(limit.cores.0 as int) + " "@ + decimal(100_000),
                    purpose: "Failed to set CPU limit"@,
                },
            )
        } else {
            Err(ErrorView::not_active())
        }
    }

    /// The writes that set the memory limit: `memory.max`, then
    /// `memory.swap.max` where swap space is limited.
    pub open spec fn memory_limit_writes(self, limit: MemoryLimit) -> Result<
        Seq<FileWriteView>,
        ErrorView,
    > {
        if self.is_active() {
            let memory = FileWriteView {
                path: self.file("memory.max"@),
                content: decimal(limit.limit.0 as nat),
                purpose: "Failed to set memory limit"@,
            };
            match limit.swap {
                Some(swap) => Ok(
                    seq![
                        memory,
                        FileWriteView {
                            path: self.file("memory.swap.max"@),
                            content: decimal(swap.0 as nat),
                            purpose: "Failed to set swap limit"@,
                        },
                    ],
                ),
                None => Ok(seq![memory]),
            }
        } else {
            Err(ErrorView::not_active())
        }
    }

    /// The write that lifts the processor limit.
    pub open spec fn cpu_limit_removal(self) -> Result<FileWriteView, ErrorView> {
        if self.is_active() {
            Ok(
                FileWriteView {
                    path: self.file("cpu.max"@),
                    content: "max 100000"@,
                    purpose: "Failed to remove CPU limit"@,
                },
            )
        } else {
            Err(ErrorView::not_active())
        }
    }

    /// The write that lifts the memory limit.
    pub open spec fn memory_limit_removal(self) -> Result<FileWriteView, ErrorView> {
        if self.is_active() {
            Ok(
                FileWriteView {
                    path: self.file("memory.max"@),
                    content: "max"@,
                    purpose: "Failed to remove memory limit"@,
                },
            )
        } else {
            Err(ErrorView::not_active())
        }
    }

    /// The write that puts a process into the group.
    pub open spec fn process_write(self, pid: ProcessId) -> Result<FileWriteView, ErrorView> {
        if self.is_active() {
            Ok(
                FileWriteView {
                    path: self.file("cgroup.procs"@),
                    content: signed_decimal(pid.0 as int),
                    purpose: "Failed to add process "@ + signed_decimal(pid.0 as int),
                },
            )
        } else {
            Err(ErrorView::not_active())
        }
    }

    /// The snapshot that the statistics files give for this group.
    pub open spec fn stats(self, files: StatFilesView) -> Result<ResourceStats, ErrorView> {
        if self.is_active() {
            snapshot_of(files)
        } else {
            Err(ErrorView::not_active())
        }
    }

    /// The controller after the group was given up. Giving up a group that
    /// is not active changes nothing.
    pub open spec fn cleaned(self) -> ControllerView {
        if self.phase is Active {
            ControllerView { phase: Phase::Cleaned, ..self }
        } else {
            self
        }
    }
}

/// What is to be done to give up a group, in this order: read the list of
/// its processes and move each to the root group, wait, remove the directory.
#[derive(Debug, Clone, PartialEq, Eq)]
pub struct CleanupPlan {
    /// The file that lists the processes of the group.
    pub procs_file: String,
    /// The milliseconds to wait before the directory is removed.
    pub delay_ms: u64,
    /// The directory to remove.
    pub directory: String,
}

/// The control group of one container.
#[derive(Debug, PartialEq, Eq)]
pub struct CGroupController {
    container_id: ContainerId,
    path: String,
    phase: Phase,
}

impl View for CGroupController {
    type V = ControllerView;

    closed spec fn view(&self) -> ControllerView {
        ControllerView { id: self.container_id@, path: self.path@, phase: self.phase }
    }
}

/// Of a text of controller names, whether `name` is one of them.
fn offers(names: &Vec<Vec<char>>, name: &str) -> (r: bool)
    ensures
        r == texts(names@).contains(name@),
{
    let wanted = chars_of(name);
    let mut i: usize = 0;
    while i < names.len()
        invariant
            i <= names.len(),
            wanted@ == name@,
            forall|j: int| 0 <= j < i ==> texts(names@)[j] != name@,
        decreases names.len() - i,
    {
        if same_text(&names[i], &wanted) {
            assert(texts(names@)[i as int] == name@);
            return true;
        }
        assert(texts(names@)[i as int] == names@[i as int]@);
        i = i + 1;
    }
    false
}

/// Appends `token` to `out` where `wanted` holds.
fn push_token_if(out: &mut Vec<&'static str>, wanted: bool, token: &'static str)
    ensures
        crate::config::name_texts(final(out)@) == crate::config::name_texts(old(out)@) + (if wanted {
            seq![token@]
        } else {
            Seq::empty()
        }),
{
    if wanted {
        out.push(token);
    }
    assert(crate::config::name_texts(out@) =~= crate::config::name_texts(old(out)@) + (if wanted {
        seq![token@]
    } else {
        Seq::empty()
    }));
}

/// The tokens to write to `cgroup.subtree_control`, one write for each,
/// given the text of `cgroup.controllers` and of `cgroup.subtree_control`.
pub fn enable_commands(available: &str, enabled: &str) -> (commands: Vec<&'static str>)
    ensures
        crate::config::name_texts(commands@) == controllers_to_enable(available@, enabled@),
{
    let a = split_tokens(&chars_of(available));
    let e = split_tokens(&chars_of(enabled));
    let cpu = offers(&a, "cpu") && !offers(&e, "cpu");
    let memory = offers(&a, "memory") && !offers(&e, "memory");
    let io = offers(&a, "io") && !offers(&e, "io");
    let mut commands: Vec<&'static str> = Vec::new();
    push_token_if(&mut commands, cpu, "+cpu");
    assert(crate::config::name_texts(commands@) =~= if cpu {
        seq!["+cpu"@]
    } else {
        Seq::empty()
    });
    push_token_if(&mut commands, memory, "+memory");
    push_token_if(&mut commands, io, "+io");
    commands
}

/// Of `cpu`, `memory` and `io`, those that the text of `cgroup.controllers`
/// does not offer.
pub fn missing_controllers(available: &str) -> (missing: Vec<&'static str>)
    ensures
        crate::config::name_texts(missing@) == controllers_missing(available@),
{
    let a = split_tokens(&chars_of(available));
    let cpu = !offers(&a, "cpu");
    let memory = !offers(&a, "memory");
    let io = !offers(&a, "io");
    let mut missing: Vec<&'static str> = Vec::new();
    push_token_if(&mut missing, cpu, "cpu");
    assert(crate::config::name_texts(missing@) =~= if cpu {
        seq!["cpu"@]
    } else {
        Seq::empty()
    });
    push_token_if(&mut missing, memory, "memory");
    push_token_if(&mut missing, io, "io");
    missing
}

/// The writes that move the processes listed in the text of `cgroup.procs`
/// to the root group. A write that fails is passed over.
pub fn reparent_writes(procs: &str) -> (writes: Vec<FileWrite>)
    ensures
        write_views(writes@) == reparent_plan(listed_pids(lines(procs@))),
{
    let pids = parse_pid_list(procs);
    let mut writes: Vec<FileWrite> = Vec::new();
    let mut i: usize = 0;
    while i < pids.len()
        invariant
            i <= pids.len(),
            write_views(writes@) == reparent_plan(pids@.take(i as int)),
        decreases pids.len() - i,
    {
        let mut content = String::new();
        push_signed_decimal(&mut content, pids[i] as i64);
        let write = FileWrite {
            path: String::from_str("/sys/fs/cgroup/cgroup.procs"),
            content,
            purpose: String::from_str("Could not move process to root cgroup"),
        };
        let ghost before = writes@;
        writes.push(write);
        proof {
            assert(pids@.take(i + 1) =~= pids@.take(i as int).push(pids@[i as int]));
            assert(write_views(writes@) =~= write_views(before).push(write@));
            assert(Seq::<char>::empty() + signed_decimal(pids@[i as int] as int) =~= signed_decimal(
                pids@[i as int] as int,
            ));
            assert(reparent_plan(pids@.take(i + 1)) =~= reparent_plan(pids@.take(i as int)).push(
                write@,
            ));
        }
        i = i + 1;
    }
    assert(pids@.take(pids.len() as int) =~= pids@);
    writes
}

/// The number in the text of a file that may be missing.
fn read_or_zero(read: &FileRead) -> (n: u64)
    ensures
        n == value_or_zero(read_view(*read)),
{
    match read {
        Ok(text) => parse_single_value(text.as_str()),
        Err(_) => 0,
    }
}

/// Puts the statistics files of a group together to a snapshot.
pub fn snapshot(files: &StatFiles) -> (r: Result<ResourceStats, Error>)
    ensures
        match snapshot_of(files@) {
            Ok(stats) => r == Ok::<ResourceStats, Error>(stats),
            Err(e) => r is Err && r->Err_0@ == e,
        },
{
    let cpu = match &files.cpu_stat {
        Ok(text) => parse_cpu_stat(text.as_str()),
        Err(failure) => {
            return Err(Error::cgroup_failure("Failed to read cpu.stat", failure));
        },
    };
    let current = match &files.memory_current {
        Ok(text) => parse_single_value(text.as_str()),
        Err(failure) => {
            return Err(Error::cgroup_failure("Failed to read memory.current", failure));
        },
    };
    let peak = match &files.memory_peak {
        Ok(text) => parse_single_value(text.as_str()),
        Err(failure) => {
            return Err(Error::cgroup_failure("Failed to read memory.peak", failure));
        },
    };
    let io = match &files.io_stat {
        Ok(text) => parse_io_stat(text.as_str()),
        Err(_) => (0, 0),
    };
    Ok(
        ResourceStats {
            cpu_usage: cpu.0,
            cpu_throttled: cpu.1,
            memory_current: MemorySize(current),
            memory_peak: MemorySize(peak),
            swap_current: MemorySize(read_or_zero(&files.swap_current)),
            swap_peak: MemorySize(read_or_zero(&files.swap_peak)),
            io_read_bytes: io.0,
            io_write_bytes: io.1,
        },
    )
}

impl CGroupController {
    #[verifier::type_invariant]
    spec fn well_formed(self) -> bool {
        self.path@ == ControllerView::directory(self.container_id@)
    }

    /// The controller of the group of `container_id`. The group is not
    /// active until its directory has been made.
    pub fn new(container_id: ContainerId) -> (c: CGroupController)
        ensures
            c@ == ControllerView::created(container_id@),
    {
        let path = concat2("/sys/fs/cgroup/vortex/", container_id.as_str());
        CGroupController { container_id, path, phase: Phase::Created }
    }

    /// The container whose group this is.
    pub fn container_id(&self) -> (id: &ContainerId)
        ensures
            id@ == self@.id,
    {
        &self.container_id
    }

    /// The directory of the group.
    pub fn path(&self) -> (path: &str)
        ensures
            path@ == self@.path,
            self@.well_formed(),
    {
        proof {
            use_type_invariant(self);
        }
        self.path.as_str()
    }

    /// Whether the group takes limits and processes.
    pub fn is_active(&self) -> (r: bool)
        ensures
            r == self@.is_active(),
    {
        match self.phase {
            Phase::Active => true,
            _ => false,
        }
    }

    /// Where the controller stands in its life.
    pub fn phase(&self) -> (phase: Phase)
        ensures
            phase == self@.phase,
    {
        self.phase
    }

    /// A file in the directory of the group.
    fn file(&self, name: &str) -> (path: String)
        ensures
            path@ == self@.file(name@),
    {
        proof {
            use_type_invariant(self);
        }
        concat3(self.path.as_str(), "/", name)
    }

    /// The steps that bring the group into being, in the order in which they
    /// are to be taken.
    pub fn setup_steps(&self) -> (steps: Vec<SetupStep>)
        ensures
            step_views(steps@) == self@.setup_plan(),
    {
        proof {
            use_type_invariant(self);
        }
        let mut steps: Vec<SetupStep> = Vec::new();
        steps.push(
            SetupStep::CheckHierarchy { path: String::from_str("/sys/fs/cgroup/cgroup.controllers") },
        );
        steps.push(SetupStep::EnsureDirectory { path: String::from_str("/sys/fs/cgroup/vortex") });
        steps.push(SetupStep::EnableControllers { path: String::from_str("/sys/fs/cgroup") });
        steps.push(
            SetupStep::EnableControllers { path: String::from_str("/sys/fs/cgroup/vortex") },
        );
        steps.push(SetupStep::CreateLeaf { path: self.path.clone() });
        assert(step_views(steps@) =~= self@.setup_plan());
        steps
    }

    /// Takes note that the directory of the group was made, or could not be
    /// made. The group is active once its directory exists.
    pub fn activate(&mut self, made: Result<(), IoFailure>) -> (r: Result<(), Error>)
        ensures
            final(self)@ == old(self)@.activated(
                match made {
                    Ok(_) => Ok(()),
                    Err(failure) => Err(failure@),
                },
            ),
            match old(self)@.activation(
                match made {
                    Ok(_) => Ok(()),
                    Err(failure) => Err(failure@),
                },
            ) {
                Ok(_) => r is Ok,
                Err(e) => r is Err && r->Err_0@ == e,
            },
    {
        proof {
            use_type_invariant(&*self);
        }
        match self.phase {
            Phase::Active => Ok(()),
            Phase::Cleaned => Err(Error::not_active()),
            Phase::Created => match made {
                Ok(_) => {
                    self.phase = Phase::Active;
                    Ok(())
                },
                Err(failure) => {
                    let what = concat2(
                        "Failed to create container directory ",
                        self.path.as_str(),
                    );
                    Err(Error::cgroup_failure(what.as_str(), &failure))
                },
            },
        }
    }

    /// The write that sets the processor limit: the quota and the period,
    /// in microseconds, to `cpu.max`.
    pub fn set_cpu_limit(&self, limit: CpuLimit) -> (r: Result<FileWrite, Error>)
        ensures
            match self@.cpu_limit_write(limit) {
                Ok(w) => r is Ok && r->Ok_0@ == w,
                Err(e) => r is Err && r->Err_0@ == e,
            },
    {
        if !self.is_active() {
            return Err(Error::not_active());
        }
        let (quota, period) = limit.cores.to_quota();
        let mut content = String::new();
        push_signed_decimal(&mut content, quota);
        content.append(" ");
        push_decimal(&mut content, period as u64);
        assert(content@ =~= signed_decimal(limit.cores.0 as int) + " "@ + decimal(100_000));
        Ok(
            FileWrite {
                path: self.file("cpu.max"),
                content,
                purpose: String::from_str("Failed to set CPU limit"),
            },
        )
    }

    /// The writes that set the memory limit: the bytes to `memory.max`, then
    /// the bytes of swap space to `memory.swap.max` where that is limited.
    pub fn set_memory_limit(&self, limit: MemoryLimit) -> (r: Result<Vec<FileWrite>, Error>)
        ensures
            match self@.memory_limit_writes(limit) {
                Ok(w) => r is Ok && write_views(r->Ok_0@) == w,
                Err(e) => r is Err && r->Err_0@ == e,
            },
    {
        if !self.is_active() {
            return Err(Error::not_active());
        }
        let mut writes: Vec<FileWrite> = Vec::new();
        let memory = FileWrite {
            path: self.file("memory.max"),
            content: crate::text::decimal_string(limit.limit.0),
            purpose: String::from_str("Failed to set memory limit"),
        };
        writes.push(memory);
        match limit.swap {
            Some(swap) => {
                let write = FileWrite {
                    path: self.file("memory.swap.max"),
                    content: crate::text::decimal_string(swap.0),
                    purpose: String::from_str("Failed to set swap limit"),
                };
                writes.push(write);
            },
            None => {},
        }
        assert(write_views(writes@) =~= self@.memory_limit_writes(limit)->Ok_0);
        Ok(writes)
    }

    /// The write that lifts the processor limit.
    pub fn remove_cpu_limit(&self) -> (r: Result<FileWrite, Error>)
        ensures
            match self@.cpu_limit_removal() {
                Ok(w) => r is Ok && r->Ok_0@ == w,
                Err(e) => r is Err && r->Err_0@ == e,
            },
    {
        if !self.is_active() {
            return Err(Error::not_active());
        }
        Ok(
            FileWrite {
                path: self.file("cpu.max"),
                content: String::from_str("max 100000"),
                purpose: String::from_str("Failed to remove CPU limit"),
            },
        )
    }

    /// The write that lifts the memory limit.
    pub fn remove_memory_limit(&self) -> (r: Result<FileWrite, Error>)
        ensures
            match self@.memory_limit_removal() {
                Ok(w) => r is Ok && r->Ok_0@ == w,
                Err(e) => r is Err && r->Err_0@ == e,
            },
    {
        if !self.is_active() {
            return Err(Error::not_active());
        }
        Ok(
            FileWrite {
                path: self.file("memory.max"),
                content: String::from_str("max"),
                purpose: String::from_str("Failed to remove memory limit"),
            },
        )
    }

    /// The write that puts a process into the group: its number to
    /// `cgroup.procs`.
    pub fn add_process(&self, pid: ProcessId) -> (r: Result<FileWrite, Error>)
        ensures
            match self@.process_write(pid) {
                Ok(w) => r is Ok && r->Ok_0@ == w,
                Err(e) => r is Err && r->Err_0@ == e,
            },
    {
        if !self.is_active() {
            return Err(Error::not_active());
        }
        let content = pid.to_string();
        let purpose = concat2("Failed to add process ", content.as_str());
        Ok(FileWrite { path: self.file("cgroup.procs"), content, purpose })
    }

    /// The statistics files of the group, to be read for a snapshot.
    pub fn stat_paths(&self) -> (r: Result<StatPaths, Error>)
        ensures
            self@.is_active() ==> r is Ok && {
                let paths = r->Ok_0;
                &&& paths.cpu_stat@ == self@.file("cpu.stat"@)
                &&& paths.memory_current@ == self@.file("memory.current"@)
                &&& paths.memory_peak@ == self@.file("memory.peak"@)
                &&& paths.swap_current@ == self@.file("memory.swap.current"@)
                &&& paths.swap_peak@ == self@.file("memory.swap.peak"@)
                &&& paths.io_stat@ == self@.file("io.stat"@)
            },
            !self@.is_active() ==> r is Err && r->Err_0@ == ErrorView::not_active(),
    {
        if !self.is_active() {
            return Err(Error::not_active());
        }
        Ok(
            StatPaths {
                cpu_stat: self.file("cpu.stat"),
                memory_current: self.file("memory.current"),
                memory_peak: self.file("memory.peak"),
                swap_current: self.file("memory.swap.current"),
                swap_peak: self.file("memory.swap.peak"),
                io_stat: self.file("io.stat"),
            },
        )
    }

    /// The snapshot that the statistics files of the group give.
    pub fn stats(&self, files: &StatFiles) -> (r: Result<ResourceStats, Error>)
        ensures
            match self@.stats(files@) {
                Ok(stats) => r == Ok::<ResourceStats, Error>(stats),
                Err(e) => r is Err && r->Err_0@ == e,
            },
    {
        if !self.is_active() {
            return Err(Error::not_active());
        }
        snapshot(files)
    }

    /// What is to be done to give up the group; nothing where the group is
    /// not active.
    pub fn cleanup_plan(&self) -> (plan: Option<CleanupPlan>)
        ensures
            plan is Some == self@.is_active(),
            plan matches Some(p) ==> {
                &&& p.procs_file@ == self@.file("cgroup.procs"@)
                &&& p.delay_ms == KERNEL_CLEANUP_DELAY_MS
                &&& p.directory@ == self@.path
            },
    {
        proof {
            use_type_invariant(self);
        }
        if self.is_active() {
            Some(
                CleanupPlan {
                    procs_file: self.file("cgroup.procs"),
                    delay_ms: KERNEL_CLEANUP_DELAY_MS,
                    directory: self.path.clone(),
                },
            )
        } else {
            None
        }
    }

    /// Gives up the group. This never fails, and giving up a group that is
    /// not active changes nothing.
    pub fn cleanup(&mut self) -> (r: Result<(), Error>)
        ensures
            r is Ok,
            final(self)@ == old(self)@.cleaned(),
    {
        proof {
            use_type_invariant(&*self);
        }
        match self.phase {
            Phase::Active => {
                self.phase = Phase::Cleaned;
            },
            _ => {},
        }
        Ok(())
    }

    /// The warning to give where the directory of the group could not be
    /// removed, and so stays behind; none where it was not there any more.
    pub fn removal_warning(&self, failure: &IoFailure) -> (warning: Option<String>)
        ensures
            failure@.kind is NotFound ==> warning is None,
            !(failure@.kind is NotFound) ==> warning is Some && warning->0@
                == "Failed to remove cgroup directory "@ + self@.path + ": "@ + failure@.detail,
    {
        proof {
            use_type_invariant(self);
        }
        if failure.kind == FailureKind::NotFound {
            return None;
        }
        let mut warning = concat2("Failed to remove cgroup directory ", self.path.as_str());
        warning.append(": ");
        warning.append(failure.detail.as_str());
        Some(warning)
    }
}

/// Giving up a group twice is giving it up once, and a group that was given
/// up is not active: every operation on it reports that and nothing else.
pub proof fn lemma_cleanup_is_final(
    c: ControllerView,
    cpu: CpuLimit,
    memory: MemoryLimit,
    pid: ProcessId,
    files: StatFilesView,
)
    ensures
        c.cleaned().cleaned() == c.cleaned(),
        !c.cleaned().is_active(),
        c.cleaned().cpu_limit_write(cpu) == Err::<FileWriteView, ErrorView>(
            ErrorView::not_active(),
        ),
        c.cleaned().memory_limit_writes(memory) == Err::<Seq<FileWriteView>, ErrorView>(
            ErrorView::not_active(),
        ),
        c.cleaned().cpu_limit_removal() == Err::<FileWriteView, ErrorView>(ErrorView::not_active()),
        c.cleaned().memory_limit_removal() == Err::<FileWriteView, ErrorView>(
            ErrorView::not_active(),
        ),
        c.cleaned().process_write(pid) == Err::<FileWriteView, ErrorView>(ErrorView::not_active()),
        c.cleaned().stats(files) == Err::<ResourceStats, ErrorView>(ErrorView::not_active()),
{
}

/// What is written to `memory.max` reads back as the limit.
pub proof fn lemma_memory_limit_round_trip(c: ControllerView, limit: MemoryLimit)
    requires
        c.is_active(),
    ensures
        c.memory_limit_writes(limit) is Ok,
        single_value(c.memory_limit_writes(limit)->Ok_0[0].content) == limit.limit.0,
        limit.swap matches Some(swap) ==> c.memory_limit_writes(limit)->Ok_0.len() == 2
            && single_value(c.memory_limit_writes(limit)->Ok_0[1].content) == swap.0,
{
    lemma_written_number(limit.limit.0);
    if let Some(swap) = limit.swap {
        lemma_written_number(swap.0);
    }
}

/// The decimal text of a number, read as a file with a single value, gives
/// the number.
pub proof fn lemma_written_number(n: u64)
    ensures
        single_value(decimal(n as nat)) == n,
{
    let s = decimal(n as nat);
    crate::text::lemma_decimal_digits(n as nat);
    crate::text::lemma_decimal_round_trip(n);
    assert(crate::text::is_digit(s[0]) && crate::text::is_digit(s.last()));
    crate::text::lemma_trimmed_unchanged(s);
}

/// Limits and processes are taken only once the directory of the group has
/// been made: a controller that was just made refuses them.
pub proof fn lemma_directory_comes_first(id: Seq<char>, cpu: CpuLimit, pid: ProcessId)
    ensures
        ({
            let c = ControllerView::created(id);
            &&& c.well_formed()
            &&& c.cpu_limit_write(cpu) is Err
            &&& c.process_write(pid) is Err
            &&& c.activated(Ok(())).is_active()
            &&& c.activated(Ok(())).cpu_limit_write(cpu) is Ok
        }),
{
}

} // verus!
