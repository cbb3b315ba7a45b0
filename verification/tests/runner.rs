use vortex::error::Error;
use vortex::executor::ExecutionResult;
use vortex::resources::CpuCores;
use vortex::runner::{
    create_container_id, error_line, execute_in_namespace, exit_status, hostname_from_id,
    run_stages, setup_namespace_config, teardown, validate_cpu_limit, validate_environment,
    validate_memory_limit,
};
use vortex::runner::RunStage::{
    BuildContainerId, BuildNamespaceConfig, Cleanup, CreateController, Execute, Exit, StartMonitor,
    StopMonitor, ValidateEnvironment, WriteLimits,
};
use vortex::security::SecurityManager;
use vortex::{ContainerId, NamespaceConfig};

fn invalid(message: &str) -> Result<(), Error> {
    Err(Error::InvalidConfig { message: message.to_string() })
}

#[test]
fn the_environment_needs_root_and_cgroup_v2() {
    assert_eq!(validate_environment(0, true), Ok(()));
    assert_eq!(
        validate_environment(1000, true),
        Err(Error::PermissionDenied { operation: "run containers (root is required)".to_string() })
    );
    assert_eq!(
        validate_environment(1000, false),
        Err(Error::PermissionDenied { operation: "run containers (root is required)".to_string() })
    );
    assert_eq!(
        validate_environment(0, false),
        Err(Error::CGroup { message: "CGroup v2 is not mounted at /sys/fs/cgroup".to_string() })
    );
}

#[test]
fn id_rejection() {
    for id in ["bad id", "", &"a".repeat(65)] {
        assert!(matches!(ContainerId::new(id), Err(Error::InvalidConfig { .. })));
        assert!(matches!(create_container_id(id), Err(Error::InvalidConfig { .. })));
    }
    assert_eq!(create_container_id("e2e-1").unwrap().as_str(), "e2e-1");
}

#[test]
fn limits_must_be_in_range() {
    assert_eq!(validate_memory_limit(0), invalid("Memory limit must be positive"));
    assert_eq!(validate_memory_limit(1), Ok(()));
    assert_eq!(validate_memory_limit(512), Ok(()));
    assert_eq!(validate_memory_limit(1_048_576), Ok(()));
    assert_eq!(validate_memory_limit(1_048_577), invalid("Memory limit too high (max 1TB)"));

    let cores = CpuCores::from_hundred_thousandths;
    assert_eq!(validate_cpu_limit(cores(0)), invalid("CPU limit must be positive"));
    assert_eq!(validate_cpu_limit(cores(-1)), invalid("CPU limit must be positive"));
    assert_eq!(validate_cpu_limit(cores(1)), Ok(()));
    assert_eq!(validate_cpu_limit(cores(150_000)), Ok(()));
    assert_eq!(validate_cpu_limit(cores(12_800_000)), Ok(()));
    assert_eq!(validate_cpu_limit(cores(12_800_001)), invalid("CPU limit too high (max 128 cores)"));
}

#[test]
fn namespaces_of_a_run() {
    let off = setup_namespace_config(true, Some("ignored".to_string())).unwrap();
    assert_eq!(off, NamespaceConfig::none());
    let plain = setup_namespace_config(false, None).unwrap();
    assert_eq!(plain, NamespaceConfig::minimal());
    let named = setup_namespace_config(false, Some("web".to_string())).unwrap();
    assert_eq!(named, NamespaceConfig::minimal().with_hostname("web"));

    let id = ContainerId::new("c-1").unwrap();
    assert_eq!(hostname_from_id(plain, &id).hostname.as_deref(), Some("c-1"));
    assert_eq!(hostname_from_id(named, &id).hostname.as_deref(), Some("web"));
}

#[test]
fn a_command_is_a_program_and_its_arguments() {
    assert_eq!(
        execute_in_namespace(NamespaceConfig::minimal(), &Vec::new()),
        Err(Error::InvalidConfig { message: "No command specified".to_string() })
    );
    let plan = execute_in_namespace(
        NamespaceConfig::minimal(),
        &vec!["/bin/echo".to_string(), "hello".to_string(), "you".to_string()],
    )
    .unwrap();
    assert_eq!(plan.argv, vec!["/bin/echo", "hello", "you"]);
    assert!(plan.remount_proc);
    assert_eq!(plan.namespace_actions.len(), 1);

    let plan = execute_in_namespace(NamespaceConfig::none(), &vec!["/bin/sh".to_string()]).unwrap();
    assert_eq!(plan.argv, vec!["/bin/sh", "-i"]);
    assert!(!plan.remount_proc);
    assert!(plan.namespace_actions.is_empty());
    assert_eq!(plan.working_directory, "/");

    assert_eq!(
        execute_in_namespace(NamespaceConfig::none(), &vec!["/bin/\0sh".to_string()]),
        Err(Error::InvalidConfig { message: "Invalid program path".to_string() })
    );
    assert_eq!(
        execute_in_namespace(NamespaceConfig::none(), &vec!["/bin/sh".to_string(), "\0".to_string()]),
        Err(Error::InvalidConfig { message: "Invalid argument".to_string() })
    );
}

#[test]
fn stages_of_a_run() {
    assert_eq!(
        run_stages(false),
        vec![ValidateEnvironment, BuildContainerId, CreateController, WriteLimits, BuildNamespaceConfig, Execute, Cleanup, Exit]
    );
    assert_eq!(
        run_stages(true),
        vec![
            ValidateEnvironment, BuildContainerId, CreateController, WriteLimits, BuildNamespaceConfig,
            StartMonitor, Execute, StopMonitor, Cleanup, Exit
        ]
    );
}

#[test]
fn teardown_undoes_what_was_set_up() {
    for monitoring in [false, true] {
        for stage in [ValidateEnvironment, BuildContainerId, CreateController, Cleanup, Exit] {
            assert!(teardown(stage, monitoring).is_empty());
        }
        for stage in [WriteLimits, BuildNamespaceConfig, StartMonitor, StopMonitor] {
            assert_eq!(teardown(stage, monitoring), vec![Cleanup]);
        }
    }
    assert_eq!(teardown(Execute, false), vec![Cleanup]);
    assert_eq!(teardown(Execute, true), vec![StopMonitor, Cleanup]);
}

#[test]
fn the_exit_status_is_that_of_the_command() {
    let done = |exit_code| Ok(ExecutionResult { exit_code, stdout: Vec::new(), stderr: Vec::new() });
    assert_eq!(exit_status(&done(0)), 0);
    assert_eq!(exit_status(&done(137)), 137);
    assert_eq!(exit_status(&done(127)), 127);
    assert_eq!(exit_status(&Err(Error::ChannelSend)), 1);
    assert_eq!(error_line(&Error::ChannelSend), "Error: Channel send error");
    assert_eq!(
        error_line(&Error::CGroup { message: "CGroup not active".to_string() }),
        "Error: CGroup error: CGroup not active"
    );
}

#[test]
fn the_security_manager_exists() {
    assert_eq!(SecurityManager::new(), SecurityManager::default());
}
