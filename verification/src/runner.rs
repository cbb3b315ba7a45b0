//! One run of a container, from the check of the environment to the exit
//! status.

use vstd::prelude::*;
use vstd::string::StringExecFns;
use crate::config::{option_text, NamespaceConfig, NamespaceConfigView};
use crate::error::{Error, ErrorView};
use crate::executor::{
    child_plan, ChildPlan, ChildPlanView, ExecutionResult, NamespaceExecutor, EXIT_FAILURE,
};
use crate::resources::CpuCores;
use crate::text::string_texts;
use crate::types::{id_rejection, valid_id, ContainerId};

verus! {

/// The most megabytes of memory that a container can be given: a terabyte.
pub const MAX_MEMORY_MB: u64 = 1_048_576;

/// The most processors that a container can be given, in
/// hundred-thousandths of one core: 128 cores.
pub const MAX_CPU: i64 = 12_800_000;

/// Checks that containers can be run here: by the user with the effective
/// user ID `euid`, on a system where the unified control-group hierarchy is
/// mounted or not, as `cgroup_v2` says.
pub fn validate_environment(euid: u32, cgroup_v2: bool) -> (r: Result<(), Error>)
    ensures
        euid == 0 && cgroup_v2 ==> r is Ok,
        euid != 0 ==> r is Err && r->Err_0@ == (ErrorView::PermissionDenied {
            operation: "run containers (root is required)"@,
        }),
        euid == 0 && !cgroup_v2 ==> r is Err && r->Err_0@ == (ErrorView::CGroup {
            message: "CGroup v2 is not mounted at /sys/fs/cgroup"@,
        }),
{
    if euid != 0 {
        return Err(Error::permission_denied("run containers (root is required)"));
    }
    if !cgroup_v2 {
        return Err(Error::cgroup("CGroup v2 is not mounted at /sys/fs/cgroup"));
    }
    Ok(())
}

/// Makes the identifier of the container, or refuses the text.
pub fn create_container_id(id: &str) -> (r: Result<ContainerId, Error>)
    ensures
        valid_id(id@) ==> r is Ok && r->Ok_0@ == id@,
        !valid_id(id@) ==> r is Err && r->Err_0@ == (ErrorView::InvalidConfig {
            message: id_rejection(id@),
        }),
{
    ContainerId::new(id)
}

/// Checks a processor limit: more than nothing, and at most 128 cores.
pub fn validate_cpu_limit(cores: CpuCores) -> (r: Result<(), Error>)
    ensures
        0 < cores.0 <= MAX_CPU ==> r is Ok,
        cores.0 <= 0 ==> r is Err && r->Err_0@ == (ErrorView::InvalidConfig {
            message: "CPU limit must be positive"@,
        }),
        cores.0 > MAX_CPU ==> r is Err && r->Err_0@ == (ErrorView::InvalidConfig {
            message: "CPU limit too high (max 128 cores)"@,
        }),
{
    if cores.0 <= 0 {
        return Err(Error::invalid_config("CPU limit must be positive"));
    }
    if cores.0 > MAX_CPU {
        return Err(Error::invalid_config("CPU limit too high (max 128 cores)"));
    }
    Ok(())
}

/// Checks a memory limit in megabytes: more than nothing, and at most a
/// terabyte.
pub fn validate_memory_limit(mb: u64) -> (r: Result<(), Error>)
    ensures
        0 < mb <= MAX_MEMORY_MB ==> r is Ok,
        mb == 0 ==> r is Err && r->Err_0@ == (ErrorView::InvalidConfig {
            message: "Memory limit must be positive"@,
        }),
        mb > MAX_MEMORY_MB ==> r is Err && r->Err_0@ == (ErrorView::InvalidConfig {
            message: "Memory limit too high (max 1TB)"@,
        }),
{
    if mb == 0 {
        return Err(Error::invalid_config("Memory limit must be positive"));
    }
    if mb > MAX_MEMORY_MB {
        return Err(Error::invalid_config("Memory limit too high (max 1TB)"));
    }
    Ok(())
}

/// The configuration of the namespaces of a run: none where namespaces are
/// switched off, else the least isolation, with the host name where one is
/// given. This never fails.
pub fn setup_namespace_config(no_namespaces: bool, hostname: Option<String>) -> (r: Result<
    NamespaceConfig,
    Error,
>)
    ensures
        r is Ok,
        r->Ok_0@ == if no_namespaces {
            NamespaceConfigView::none()
        } else {
            NamespaceConfigView { hostname: option_text(hostname), ..NamespaceConfigView::minimal() }
        },
{
    if no_namespaces {
        return Ok(NamespaceConfig::none());
    }
    let config = NamespaceConfig::minimal();
    match hostname {
        Some(name) => Ok(config.with_hostname(name.as_str())),
        None => Ok(config),
    }
}

/// The host name of a container that was given none: its identifier.
pub fn hostname_from_id(config: NamespaceConfig, id: &ContainerId) -> (c: NamespaceConfig)
    ensures
        c@ == if config@.hostname is Some {
            config@
        } else {
            NamespaceConfigView { hostname: Some(id@), ..config@ }
        },
{
    if config.hostname.is_some() {
        config
    } else {
        config.with_hostname(id.as_str())
    }
}

/// What running `command` in the namespaces of `ns_config` comes to: an
/// error for a command without a program, else what the executor plans for
/// the program, which stands first, and its arguments.
pub open spec fn launch(config: NamespaceConfigView, command: Seq<Seq<char>>) -> Result<
    ChildPlanView,
    ErrorView,
> {
    if command.len() == 0 {
        Err(ErrorView::InvalidConfig { message: "No command specified"@ })
    } else {
        child_plan(config, command[0], command.skip(1))
    }
}

/// Works out the run of `command` in the namespaces of `ns_config`, up to
/// the point where a child is to be made.
pub fn execute_in_namespace(ns_config: NamespaceConfig, command: &Vec<String>) -> (r: Result<
    ChildPlan,
    Error,
>)
    ensures
        match launch(ns_config@, string_texts(command@)) {
            Ok(plan) => r is Ok && r->Ok_0@ == plan,
            Err(e) => r is Err && r->Err_0@ == e,
        },
{
    if command.len() == 0 {
        return Err(Error::invalid_config("No command specified"));
    }
    let mut args: Vec<String> = Vec::new();
    let mut i: usize = 1;
    assert(string_texts(args@) =~= string_texts(command@).subrange(1, 1));
    while i < command.len()
        invariant
            1 <= i <= command.len(),
            string_texts(args@) == string_texts(command@).subrange(1, i as int),
        decreases command.len() - i,
    {
        let ghost before = string_texts(args@);
        args.push(command[i].clone());
        assert(string_texts(args@) =~= before.push(command@[i as int]@));
        assert(string_texts(command@).subrange(1, i + 1) =~= string_texts(command@).subrange(
            1,
            i as int,
        ).push(command@[i as int]@));
        i = i + 1;
    }
    assert(string_texts(command@).subrange(1, command.len() as int) =~= string_texts(
        command@,
    ).skip(1));
    assert(string_texts(command@)[0] == command@[0]@);
    match NamespaceExecutor::new(ns_config) {
        Ok(executor) => executor.plan(command[0].as_str(), &args),
        Err(e) => Err(e),
    }
}

/// A stage of a run.
#[derive(Debug, Clone, Copy, PartialEq, Eq, Structural)]
pub enum RunStage {
    /// Check the user and the control-group hierarchy.
    ValidateEnvironment,
    /// Make the identifier of the container.
    BuildContainerId,
    /// Bring the control group into being.
    CreateController,
    /// Write the processor and memory limits.
    WriteLimits,
    /// Make the configuration of the namespaces.
    BuildNamespaceConfig,
    /// Start the monitor, over a second handle on the same control group.
    StartMonitor,
    /// Run the command and gather what it leaves behind.
    Execute,
    /// Stop the monitor and empty its queue of events.
    StopMonitor,
    /// Give up the control group.
    Cleanup,
    /// Leave with the exit status of the command.
    Exit,
}

/// The stages of a run, in order; those of the monitor only where
/// monitoring is asked for.
pub open spec fn run_plan(monitoring: bool) -> Seq<RunStage> {
    seq![
        RunStage::ValidateEnvironment,
        RunStage::BuildContainerId,
        RunStage::CreateController,
        RunStage::WriteLimits,
        RunStage::BuildNamespaceConfig,
    ] + (if monitoring {
        seq![RunStage::StartMonitor]
    } else {
        Seq::empty()
    }) + seq![RunStage::Execute] + (if monitoring {
        seq![RunStage::StopMonitor]
    } else {
        Seq::empty()
    }) + seq![RunStage::Cleanup, RunStage::Exit]
}

/// The stages of a run, in the order in which they are gone through.
pub fn run_stages(monitoring: bool) -> (stages: Vec<RunStage>)
    ensures
        stages@ == run_plan(monitoring),
{
    let mut stages: Vec<RunStage> = Vec::new();
    stages.push(RunStage::ValidateEnvironment);
    stages.push(RunStage::BuildContainerId);
    stages.push(RunStage::CreateController);
    stages.push(RunStage::WriteLimits);
    stages.push(RunStage::BuildNamespaceConfig);
    if monitoring {
        stages.push(RunStage::StartMonitor);
    }
    stages.push(RunStage::Execute);
    if monitoring {
        stages.push(RunStage::StopMonitor);
    }
    stages.push(RunStage::Cleanup);
    stages.push(RunStage::Exit);
    assert(stages@ =~= run_plan(monitoring));
    stages
}

/// What is left to undo when a run ends at `stage`, be it by a failure there
/// or after the command: the monitor is stopped where it was started, then
/// the control group is given up where it was made. What was set up last is
/// undone first.
pub open spec fn teardown_plan(stage: RunStage, monitoring: bool) -> Seq<RunStage> {
    match stage {
        RunStage::ValidateEnvironment => Seq::empty(),
        RunStage::BuildContainerId => Seq::empty(),
        RunStage::CreateController => Seq::empty(),
        RunStage::WriteLimits => seq![RunStage::Cleanup],
        RunStage::BuildNamespaceConfig => seq![RunStage::Cleanup],
        RunStage::StartMonitor => seq![RunStage::Cleanup],
        RunStage::Execute => if monitoring {
            seq![RunStage::StopMonitor, RunStage::Cleanup]
        } else {
            seq![RunStage::Cleanup]
        },
        RunStage::StopMonitor => seq![RunStage::Cleanup],
        RunStage::Cleanup => Seq::empty(),
        RunStage::Exit => Seq::empty(),
    }
}

/// What is left to undo when a run ends at `stage`.
pub fn teardown(stage: RunStage, monitoring: bool) -> (stages: Vec<RunStage>)
    ensures
        stages@ == teardown_plan(stage, monitoring),
{
    let mut stages: Vec<RunStage> = Vec::new();
    match stage {
        RunStage::WriteLimits | RunStage::BuildNamespaceConfig | RunStage::StartMonitor
        | RunStage::StopMonitor => {
            stages.push(RunStage::Cleanup);
        },
        RunStage::Execute => {
            if monitoring {
                stages.push(RunStage::StopMonitor);
            }
            stages.push(RunStage::Cleanup);
        },
        _ => {},
    }
    assert(stages@ =~= teardown_plan(stage, monitoring));
    stages
}

/// The exit status of the runtime: that of the command, or 1 where the run
/// failed.
pub fn exit_status(outcome: &Result<ExecutionResult, Error>) -> (status: i32)
    ensures
        status == match *outcome {
            Ok(result) => result.exit_code,
            Err(_) => EXIT_FAILURE,
        },
{
    match outcome {
        Ok(result) => result.exit_code,
        Err(_) => EXIT_FAILURE,
    }
}

/// The one line that tells the user of a failed run.
pub fn error_line(e: &Error) -> (line: String)
    ensures
        line@ == "Error: "@ + e@.description(),
{
    let text = e.to_string();
    crate::text::concat2("Error: ", text.as_str())
}

/// In every run the control group is made before limits are written, the
/// limits are written before the command runs, the monitor runs only
/// around the command, and the control group is given up after all that.
pub proof fn lemma_run_order(monitoring: bool)
    ensures
        ({
            let plan = run_plan(monitoring);
            &&& plan.no_duplicates()
            &&& plan.contains(RunStage::StartMonitor) == monitoring
            &&& plan.contains(RunStage::StopMonitor) == monitoring
            &&& plan[0] == RunStage::ValidateEnvironment
            &&& plan.last() == RunStage::Exit
            &&& forall|i: int, j: int|
                0 <= i < plan.len() && 0 <= j < plan.len() && plan[i] == RunStage::CreateController
                    && plan[j] == RunStage::WriteLimits ==> i < j
            &&& forall|i: int, j: int|
                0 <= i < plan.len() && 0 <= j < plan.len() && plan[i] == RunStage::WriteLimits
                    && plan[j] == RunStage::Execute ==> i < j
            &&& forall|i: int, j: int|
                0 <= i < plan.len() && 0 <= j < plan.len() && plan[i] == RunStage::StartMonitor
                    && plan[j] == RunStage::Execute ==> i < j
            &&& forall|i: int, j: int|
                0 <= i < plan.len() && 0 <= j < plan.len() && plan[i] == RunStage::Execute
                    && plan[j] == RunStage::StopMonitor ==> i < j
            &&& forall|i: int, j: int|
                0 <= i < plan.len() && 0 <= j < plan.len() && plan[i] == RunStage::Execute
                    && plan[j] == RunStage::Cleanup ==> i < j
        }),
{
    let plan = run_plan(monitoring);
    if monitoring {
        assert(plan =~= seq![
            RunStage::ValidateEnvironment,
            RunStage::BuildContainerId,
            RunStage::CreateController,
            RunStage::WriteLimits,
            RunStage::BuildNamespaceConfig,
            RunStage::StartMonitor,
            RunStage::Execute,
            RunStage::StopMonitor,
            RunStage::Cleanup,
            RunStage::Exit,
        ]);
        assert(plan[5] == RunStage::StartMonitor);
        assert(plan[7] == RunStage::StopMonitor);
    } else {
        assert(plan =~= seq![
            RunStage::ValidateEnvironment,
            RunStage::BuildContainerId,
            RunStage::CreateController,
            RunStage::WriteLimits,
            RunStage::BuildNamespaceConfig,
            RunStage::Execute,
            RunStage::Cleanup,
            RunStage::Exit,
        ]);
    }
}

} // verus!
