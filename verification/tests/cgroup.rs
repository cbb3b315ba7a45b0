use vortex::backend::{MockBackend, ResourceBackend};
use vortex::controller::{
    enable_commands, missing_controllers, reparent_writes, snapshot, CGroupController, FileWrite,
    Phase, SetupStep, StatFiles, StatPaths,
};
use vortex::error::{Error, FailureKind, IoFailure};
use vortex::resources::{CpuCores, CpuLimit, CpuTime, MemoryLimit, MemorySize, ResourceStats};
use vortex::stats::{parse_cpu_stat, parse_io_stat, parse_pid_list, parse_single_value};
use vortex::{ContainerId, ProcessId};

fn cores(c: f64) -> CpuCores {
    CpuCores::from_hundred_thousandths((c * 100_000.0).round() as i64)
}

fn as_mb(m: MemorySize) -> f64 {
    m.as_bytes() as f64 / (1024.0 * 1024.0)
}

fn active(id: &str) -> CGroupController {
    let mut c = CGroupController::new(ContainerId::new(id).unwrap());
    c.activate(Ok(())).unwrap();
    c
}

fn missing(name: &str) -> Result<String, IoFailure> {
    Err(IoFailure {
        kind: FailureKind::NotFound,
        detail: format!("No such file or directory (os error 2): {}", name),
    })
}

fn files(cpu: &str, current: &str, peak: &str) -> StatFiles {
    StatFiles {
        cpu_stat: Ok(cpu.to_string()),
        memory_current: Ok(current.to_string()),
        memory_peak: Ok(peak.to_string()),
        swap_current: missing("memory.swap.current"),
        swap_peak: missing("memory.swap.peak"),
        io_stat: missing("io.stat"),
    }
}

// --- the backend in memory ---------------------------------------------------

#[test]
fn backend_test_mock_backend_lifecycle() {
    let mut backend = MockBackend::new();

    // Set CPU limit
    let cpu_limit = CpuLimit::new(cores(1.5));
    backend.set_cpu_limit(cpu_limit).unwrap();
    assert_eq!(backend.call_count(), 1);
    assert!(backend.cpu_limit().is_some());

    // Set memory limit
    let mem_limit = MemoryLimit::new(MemorySize::from_mb(512));
    backend.set_memory_limit(mem_limit).unwrap();
    assert_eq!(backend.call_count(), 2);

    // Add processes
    let pid1 = ProcessId::from_raw(123);
    let pid2 = ProcessId::from_raw(456);

    backend.add_process(pid1).unwrap();
    backend.add_process(pid2).unwrap();
    assert!(backend.has_process(pid1));
    assert!(backend.has_process(pid2));
    assert_eq!(backend.call_count(), 4);

    // Read stats multiple times
    let stats1 = backend.stats().unwrap();
    let stats2 = backend.stats().unwrap();

    // Stats should grow
    assert!(stats2.cpu_usage > stats1.cpu_usage);
    assert!(stats2.memory_current >= stats1.memory_current);

    // Cleanup
    backend.cleanup().unwrap();
    assert!(!backend.has_process(pid1));
}

#[test]
fn test_mock_backend_stats_growth() {
    let mut backend = MockBackend::new();

    let mut prev_stats = backend.stats().unwrap();

    for _ in 0..5 {
        let stats = backend.stats().unwrap();

        // CPU should always increase
        assert!(stats.cpu_usage >= prev_stats.cpu_usage);

        // Memory peak should be monotonic
        assert!(stats.memory_peak >= prev_stats.memory_peak);

        prev_stats = stats;
    }
}

#[test]
fn test_mock_backend_duplicate_process() {
    let mut backend = MockBackend::new();
    let pid = ProcessId::from_raw(123);

    // Add same process twice
    backend.add_process(pid).unwrap();
    backend.add_process(pid).unwrap();

    // Should only be counted once
    assert!(backend.has_process(pid));
    assert_eq!(backend.process_count(), 1);
    assert_eq!(backend.call_count(), 2);
}

#[test]
fn integration_tests_test_mock_backend_lifecycle() {
    let mut backend = MockBackend::new();

    // Set CPU limit
    let cpu_limit = CpuLimit::new(cores(1.0));
    backend.set_cpu_limit(cpu_limit).unwrap();

    // Set memory limit
    let memory_limit = MemoryLimit::new(MemorySize::from_mb(512));
    backend.set_memory_limit(memory_limit).unwrap();

    // Add process
    let pid = ProcessId::from_raw(12345);
    backend.add_process(pid).unwrap();

    // Get stats
    let stats = backend.stats().unwrap();
    assert!(stats.cpu_usage >= CpuTime::from_micros(0));
    assert!(stats.memory_current.as_bytes() > 0);
}

#[test]
fn test_mock_backend_stats_increase() {
    let mut backend = MockBackend::new();

    let stats1 = backend.stats().unwrap();
    let stats2 = backend.stats().unwrap();

    assert!(stats2.cpu_usage >= stats1.cpu_usage);
    assert!(stats2.memory_current >= stats1.memory_current);
}

#[test]
fn test_mock_backend_multiple_processes() {
    let mut backend = MockBackend::new();

    backend.add_process(ProcessId::from_raw(100)).unwrap();
    backend.add_process(ProcessId::from_raw(200)).unwrap();
    backend.add_process(ProcessId::from_raw(300)).unwrap();

    let stats = backend.stats().unwrap();
    assert!(stats.cpu_usage >= CpuTime::from_micros(0));
}

#[test]
fn test_mock_backend_concurrent_access() {
    let mut backend = MockBackend::new();

    for i in 0..10 {
        // Set limits
        let cpu_limit = CpuLimit::new(cores(1.0));
        backend.set_cpu_limit(cpu_limit).unwrap();

        // Add process
        let pid = ProcessId::from_raw(1000 + i);
        backend.add_process(pid).unwrap();

        // Get stats
        let _stats = backend.stats().unwrap();
    }
    assert_eq!(backend.call_count(), 30);
    assert_eq!(backend.process_count(), 10);
}

#[test]
fn test_resource_stats_values() {
    let mut backend = MockBackend::new();

    let stats = backend.stats().unwrap();

    assert!(stats.cpu_usage.as_millis() < 10_000); // Less than 10 seconds
    assert!(as_mb(stats.memory_current) < 10_000.0); // Less than 10 GB
    assert!(stats.memory_peak >= stats.memory_current); // Peak >= current
}

#[test]
fn test_cpu_limit_format() {
    let c = cores(2.0);
    let (quota, period) = c.to_quota();
    assert_eq!(quota, 200_000);
    assert_eq!(period, 100_000);
}

#[test]
fn test_memory_limit_format() {
    let mem = MemorySize::from_mb(512);
    assert_eq!(mem.as_bytes(), 536_870_912);
}

#[test]
fn mock_stats_grow_by_fixed_steps() {
    let mut backend = MockBackend::default();
    let first = backend.stats().unwrap();
    assert_eq!(first.cpu_usage, CpuTime::from_millis(100));
    assert_eq!(first.memory_current, MemorySize::from_mb(10));
    assert_eq!(first.memory_peak, MemorySize::from_mb(10));
    let second = backend.stats().unwrap();
    assert_eq!(second.cpu_usage, CpuTime::from_millis(200));
    assert_eq!(second.memory_current, MemorySize::from_mb(20));
    for _ in 0..100 {
        backend.stats().unwrap();
    }
    let late = backend.stats().unwrap();
    assert_eq!(late.memory_current, MemorySize::from_mb(500));
    assert_eq!(late.memory_peak, MemorySize::from_mb(500));
    assert_eq!(late.cpu_usage, CpuTime::from_millis(10_300));
    assert_eq!(backend.call_count(), 103);
}

#[test]
fn mock_stats_start_from_what_was_set() {
    let mut backend = MockBackend::new();
    let mut stats = ResourceStats::default();
    stats.memory_current = MemorySize::from_bytes(3 * 1024 * 1024 + 17);
    stats.memory_peak = MemorySize::from_gb(1);
    stats.cpu_usage = CpuTime::from_micros(u64::MAX - 5);
    stats.cpu_throttled = CpuTime::from_secs(4);
    stats.io_read_bytes = 11;
    backend.set_mock_stats(stats);
    assert_eq!(backend.call_count(), 0);
    let next = backend.stats().unwrap();
    assert_eq!(next.memory_current, MemorySize::from_mb(13));
    assert_eq!(next.memory_peak, MemorySize::from_gb(1));
    assert_eq!(next.cpu_usage, CpuTime::from_micros(u64::MAX));
    assert_eq!(next.cpu_throttled, CpuTime::from_secs(4));
    assert_eq!(next.io_read_bytes, 11);
    // Memory in use above the cap falls back to the cap.
    let mut stats = ResourceStats::default();
    stats.memory_current = MemorySize::from_gb(4);
    backend.set_mock_stats(stats);
    assert_eq!(backend.stats().unwrap().memory_current, MemorySize::from_mb(500));
}

#[test]
fn mock_cleanup_forgets_everything() {
    let mut backend = MockBackend::new();
    backend.set_cpu_limit(CpuLimit::new(cores(2.0))).unwrap();
    backend.set_memory_limit(MemoryLimit::with_swap(MemorySize::from_mb(1), MemorySize::from_mb(2))).unwrap();
    backend.add_process(ProcessId::from_raw(1)).unwrap();
    backend.stats().unwrap();
    assert_eq!(backend.memory_limit().unwrap().swap, Some(MemorySize::from_mb(2)));
    assert_eq!(backend.cpu_limit().unwrap().cores.to_quota().0, 200_000);
    assert!(backend.cleanup().is_ok());
    assert!(backend.cleanup().is_ok());
    assert_eq!(backend.call_count(), 0);
    assert!(backend.cpu_limit().is_none());
    assert!(backend.memory_limit().is_none());
    assert!(!backend.has_process(ProcessId::from_raw(1)));
    assert_eq!(backend.stats().unwrap().cpu_usage, CpuTime::from_millis(100));
}

// --- the controller ------------------------------------------------------------

#[test]
fn limit_round_trip() {
    let controller = active("e2e-1");
    let cpu = controller.set_cpu_limit(CpuLimit::new(cores(1.5))).unwrap();
    assert_eq!(cpu.path, "/sys/fs/cgroup/vortex/e2e-1/cpu.max");
    assert_eq!(cpu.content, "150000 100000");
    let memory = controller.set_memory_limit(MemoryLimit::new(MemorySize::from_mb(512))).unwrap();
    assert_eq!(memory.len(), 1);
    assert_eq!(memory[0].path, "/sys/fs/cgroup/vortex/e2e-1/memory.max");
    assert_eq!(memory[0].content, "536870912");
}

#[test]
fn memory_limit_with_swap_writes_two_files() {
    let controller = active("swap");
    let writes = controller
        .set_memory_limit(MemoryLimit::with_swap(MemorySize::from_mb(512), MemorySize::from_mb(1024)))
        .unwrap();
    assert_eq!(
        writes,
        vec![
            FileWrite {
                path: "/sys/fs/cgroup/vortex/swap/memory.max".to_string(),
                content: "536870912".to_string(),
                purpose: "Failed to set memory limit".to_string(),
            },
            FileWrite {
                path: "/sys/fs/cgroup/vortex/swap/memory.swap.max".to_string(),
                content: "1073741824".to_string(),
                purpose: "Failed to set swap limit".to_string(),
            },
        ]
    );
}

#[test]
fn limits_are_lifted_with_max() {
    let controller = active("lift");
    assert_eq!(
        controller.remove_cpu_limit().unwrap(),
        FileWrite {
            path: "/sys/fs/cgroup/vortex/lift/cpu.max".to_string(),
            content: "max 100000".to_string(),
            purpose: "Failed to remove CPU limit".to_string(),
        }
    );
    assert_eq!(
        controller.remove_memory_limit().unwrap(),
        FileWrite {
            path: "/sys/fs/cgroup/vortex/lift/memory.max".to_string(),
            content: "max".to_string(),
            purpose: "Failed to remove memory limit".to_string(),
        }
    );
}

#[test]
fn a_process_is_attached_by_its_number() {
    let controller = active("procs");
    assert_eq!(
        controller.add_process(ProcessId::from_raw(4711)).unwrap(),
        FileWrite {
            path: "/sys/fs/cgroup/vortex/procs/cgroup.procs".to_string(),
            content: "4711".to_string(),
            purpose: "Failed to add process 4711".to_string(),
        }
    );
}

#[test]
fn a_new_controller_is_not_active() {
    let id = ContainerId::new("fresh").unwrap();
    let controller = CGroupController::new(id.clone());
    assert_eq!(controller.container_id(), &id);
    assert_eq!(controller.path(), "/sys/fs/cgroup/vortex/fresh");
    assert!(!controller.is_active());
    assert_eq!(controller.phase(), Phase::Created);
    assert_eq!(controller.set_cpu_limit(CpuLimit::new(cores(1.0))), Err(Error::not_active()));
    assert!(controller.cleanup_plan().is_none());
}

#[test]
fn setup_goes_from_the_root_to_the_leaf() {
    let controller = CGroupController::new(ContainerId::new("web").unwrap());
    assert_eq!(
        controller.setup_steps(),
        vec![
            SetupStep::CheckHierarchy { path: "/sys/fs/cgroup/cgroup.controllers".to_string() },
            SetupStep::EnsureDirectory { path: "/sys/fs/cgroup/vortex".to_string() },
            SetupStep::EnableControllers { path: "/sys/fs/cgroup".to_string() },
            SetupStep::EnableControllers { path: "/sys/fs/cgroup/vortex".to_string() },
            SetupStep::CreateLeaf { path: "/sys/fs/cgroup/vortex/web".to_string() },
        ]
    );
}

#[test]
fn only_the_controllers_may_fail_during_setup() {
    let controller = CGroupController::new(ContainerId::new("web").unwrap());
    let busy = IoFailure::new(FailureKind::Busy, "Device or resource busy (os error 16)");
    let denied = IoFailure::from_errno(13);
    let reports: Vec<Option<Error>> =
        controller.setup_steps().iter().map(|step| step.failure(&busy)).collect();
    assert_eq!(
        reports,
        vec![
            Some(Error::CGroup { message: "CGroup v2 is not mounted at /sys/fs/cgroup".to_string() }),
            Some(Error::CGroup {
                message: "Failed to create directory /sys/fs/cgroup/vortex: Device or resource busy (os error 16)".to_string()
            }),
            None,
            None,
            Some(Error::CGroup {
                message: "Failed to create container directory /sys/fs/cgroup/vortex/web: Device or resource busy (os error 16)".to_string()
            }),
        ]
    );
    let leaf = SetupStep::CreateLeaf { path: "/sys/fs/cgroup/vortex/web".to_string() };
    assert_eq!(
        leaf.failure(&denied),
        Some(Error::PermissionDenied {
            operation: "Failed to create container directory /sys/fs/cgroup/vortex/web: EACCES: Permission denied".to_string()
        })
    );
}

#[test]
fn activation_follows_the_leaf_directory() {
    let mut controller = CGroupController::new(ContainerId::new("web").unwrap());
    let failure = IoFailure { kind: FailureKind::Other, detail: "Read-only file system (os error 30)".to_string() };
    assert_eq!(
        controller.activate(Err(failure)),
        Err(Error::CGroup {
            message: "Failed to create container directory /sys/fs/cgroup/vortex/web: Read-only file system (os error 30)".to_string()
        })
    );
    assert!(!controller.is_active());
    let denied = IoFailure { kind: FailureKind::PermissionDenied, detail: "Permission denied (os error 13)".to_string() };
    assert_eq!(
        controller.activate(Err(denied.clone())),
        Err(Error::PermissionDenied {
            operation: "Failed to create container directory /sys/fs/cgroup/vortex/web: Permission denied (os error 13)".to_string()
        })
    );
    assert!(controller.activate(Ok(())).is_ok());
    assert!(controller.is_active());
    assert_eq!(controller.phase(), Phase::Active);
    // Adopting the group again changes nothing.
    assert!(controller.activate(Ok(())).is_ok());
    assert!(controller.activate(Err(denied)).is_ok());
    assert!(controller.is_active());
}

#[test]
fn cleanup_is_idempotent_and_final() {
    let mut controller = active("bye");
    let plan = controller.cleanup_plan().unwrap();
    assert_eq!(plan.procs_file, "/sys/fs/cgroup/vortex/bye/cgroup.procs");
    assert_eq!(plan.delay_ms, 10);
    assert_eq!(plan.directory, "/sys/fs/cgroup/vortex/bye");
    assert!(controller.cleanup().is_ok());
    assert!(!controller.is_active());
    assert_eq!(controller.phase(), Phase::Cleaned);
    assert!(controller.cleanup().is_ok());
    assert_eq!(controller.phase(), Phase::Cleaned);
    assert!(controller.cleanup_plan().is_none());

    let not_active = Err(Error::CGroup { message: "CGroup not active".to_string() });
    assert_eq!(controller.set_cpu_limit(CpuLimit::new(cores(1.0))), not_active);
    assert_eq!(controller.remove_cpu_limit(), not_active);
    assert_eq!(controller.remove_memory_limit(), not_active);
    assert_eq!(controller.add_process(ProcessId::from_raw(1)), not_active);
    assert_eq!(
        controller.set_memory_limit(MemoryLimit::new(MemorySize::from_mb(1))),
        Err(Error::not_active())
    );
    assert_eq!(controller.stats(&files("", "0", "0")), Err(Error::not_active()));
    assert_eq!(controller.activate(Ok(())), Err(Error::not_active()));
    assert!(!controller.is_active());
}

#[test]
fn test_stats_inactive() {
    let controller = CGroupController::new(ContainerId::new("test").unwrap());
    let result = controller.stats(&files("usage_usec 1\n", "1", "1"));
    assert!(result.is_err());
}

#[test]
fn a_leaked_directory_is_a_warning() {
    let controller = active("leak");
    let busy = IoFailure::new(FailureKind::Busy, "Device or resource busy (os error 16)");
    assert_eq!(
        controller.removal_warning(&busy).as_deref(),
        Some("Failed to remove cgroup directory /sys/fs/cgroup/vortex/leak: Device or resource busy (os error 16)")
    );
    let denied = IoFailure::from_errno(1);
    assert_eq!(
        controller.removal_warning(&denied).as_deref(),
        Some("Failed to remove cgroup directory /sys/fs/cgroup/vortex/leak: EPERM: Operation not permitted")
    );
    // A directory that is gone already has not leaked.
    assert_eq!(controller.removal_warning(&IoFailure::from_errno(2)), None);
}

#[test]
fn controllers_are_enabled_one_by_one() {
    assert_eq!(
        enable_commands("cpuset cpu io memory hugetlb pids rdma misc\n", ""),
        vec!["+cpu", "+memory", "+io"]
    );
    assert_eq!(enable_commands("cpuset cpu io memory pids\n", "cpu memory\n"), vec!["+io"]);
    assert_eq!(enable_commands("cpu io memory", "io memory cpu"), Vec::<&str>::new());
    assert_eq!(enable_commands("memory", ""), vec!["+memory"]);
    assert_eq!(enable_commands("", "cpu"), Vec::<&str>::new());
    // Names are compared as whole tokens: `cpuset` is not `cpu`.
    assert_eq!(enable_commands("cpuset", ""), Vec::<&str>::new());
    assert_eq!(enable_commands("cpu cpuset", "cpuset"), vec!["+cpu"]);
    assert_eq!(missing_controllers("cpuset cpu io memory pids\n"), Vec::<&str>::new());
    assert_eq!(missing_controllers("cpuset pids\n"), vec!["cpu", "memory", "io"]);
    assert_eq!(missing_controllers("io cpu"), vec!["memory"]);
}

#[test]
fn processes_are_moved_to_the_root_group() {
    let writes = reparent_writes("12\n 34 \n\nnot-a-pid\n-5\n+6\n99999999999\n56");
    let contents: Vec<&str> = writes.iter().map(|w| w.content.as_str()).collect();
    assert_eq!(contents, vec!["12", "34", "-5", "6", "56"]);
    for w in &writes {
        assert_eq!(w.path, "/sys/fs/cgroup/cgroup.procs");
        assert_eq!(w.purpose, "Could not move process to root cgroup");
    }
    assert!(reparent_writes("").is_empty());
}

// --- statistics ------------------------------------------------------------------

const CPU_STAT: &str = "usage_usec 12345678\nuser_usec 1234567\nsystem_usec 890123\nnr_periods 456\nnr_throttled 123\nthrottled_usec 45678\n";
const IO_STAT: &str = "8:0 rbytes=1234567 wbytes=890123 rios=456 wios=789\n8:16 rbytes=111222 wbytes=333444 rios=55 wios=66\n";

#[test]
fn cpu_stat_is_read_by_key() {
    assert_eq!(
        parse_cpu_stat(CPU_STAT),
        (CpuTime::from_micros(12_345_678), CpuTime::from_micros(45_678))
    );
    assert_eq!(parse_cpu_stat(""), (CpuTime::from_micros(0), CpuTime::from_micros(0)));
    assert_eq!(parse_cpu_stat("usage_usec 7"), (CpuTime::from_micros(7), CpuTime::from_micros(0)));
    assert_eq!(parse_cpu_stat("throttled_usec\t9\r\n"), (CpuTime::from_micros(0), CpuTime::from_micros(9)));
    // Lines that are not a key and one value are passed over.
    assert_eq!(parse_cpu_stat("usage_usec 1 2\nusage_usec\n  usage_usec   3  \n").0, CpuTime::from_micros(3));
    // The last line for a key holds, and a value that is no number gives zero.
    assert_eq!(parse_cpu_stat("usage_usec 1\nusage_usec 2\n").0, CpuTime::from_micros(2));
    assert_eq!(parse_cpu_stat("usage_usec 1\nusage_usec x\n").0, CpuTime::from_micros(0));
    assert_eq!(parse_cpu_stat("usage_usec 18446744073709551616\n").0, CpuTime::from_micros(0));
    assert_eq!(parse_cpu_stat("usage_usec 18446744073709551615\n").0, CpuTime::from_micros(u64::MAX));
}

#[test]
fn io_stat_is_summed_over_devices() {
    assert_eq!(parse_io_stat(IO_STAT), (1_234_567 + 111_222, 890_123 + 333_444));
    assert_eq!(parse_io_stat(""), (0, 0));
    assert_eq!(parse_io_stat("8:0\n"), (0, 0));
    assert_eq!(parse_io_stat("rbytes=5\n"), (0, 0));
    assert_eq!(parse_io_stat("8:0 rbytes=5 rbytes=6 wbytes=x wbytes= rbytes\n"), (11, 0));
    assert_eq!(parse_io_stat("8:0 rbytes=5=6 wbytes=+7"), (0, 7));
    assert_eq!(
        parse_io_stat("8:0 rbytes=18446744073709551615\n8:1 rbytes=1 wbytes=2\n"),
        (u64::MAX, 2)
    );
}

#[test]
fn single_values_are_trimmed() {
    assert_eq!(parse_single_value("536870912\n"), 536_870_912);
    assert_eq!(parse_single_value("  42\t\r\n"), 42);
    assert_eq!(parse_single_value("max\n"), 0);
    assert_eq!(parse_single_value(""), 0);
    assert_eq!(parse_single_value("4 2"), 0);
    assert_eq!(parse_single_value("-1"), 0);
    assert_eq!(parse_single_value("+1"), 1);
}

#[test]
fn pid_lists_are_read_line_by_line() {
    assert_eq!(parse_pid_list("1\n22\n333\n"), vec![1, 22, 333]);
    assert_eq!(parse_pid_list("1 2\n3\n"), vec![3]);
    assert_eq!(parse_pid_list("2147483647\n2147483648\n-2147483648\n-2147483649\n"), vec![i32::MAX, i32::MIN]);
    assert_eq!(parse_pid_list(""), Vec::<i32>::new());
}

fn reference_cpu_stat(content: &str) -> (u64, u64) {
    let mut usage = 0u64;
    let mut throttled = 0u64;
    for line in content.lines() {
        let parts: Vec<&str> = line.split_whitespace().collect();
        if parts.len() != 2 {
            continue;
        }
        match parts[0] {
            "usage_usec" => usage = parts[1].parse().unwrap_or(0),
            "throttled_usec" => throttled = parts[1].parse().unwrap_or(0),
            _ => {}
        }
    }
    (usage, throttled)
}

fn reference_io_stat(content: &str) -> (u64, u64) {
    let mut read = 0u64;
    let mut write = 0u64;
    for line in content.lines() {
        let parts: Vec<&str> = line.split_whitespace().collect();
        if parts.len() < 2 {
            continue;
        }
        for part in &parts[1..] {
            if let Some((key, value)) = part.split_once('=') {
                match key {
                    "rbytes" => read = read.saturating_add(value.parse::<u64>().unwrap_or(0)),
                    "wbytes" => write = write.saturating_add(value.parse::<u64>().unwrap_or(0)),
                    _ => {}
                }
            }
        }
    }
    (read, write)
}

fn reference_pids(content: &str) -> Vec<i32> {
    content.lines().filter_map(|l| l.trim().parse::<i32>().ok()).collect()
}

#[test]
fn parsers_agree_with_the_standard_library() {
    let pieces = [
        "usage_usec", "throttled_usec", "rbytes", "wbytes", "rbytes=", "wbytes=", "=", " ", "  ",
        "\t", "\n", "\r\n", "\r", "0", "1", "42", "+7", "-7", "007", "18446744073709551615",
        "18446744073709551616", "x", "8:0", "\u{a0}", "\u{2003}", "\u{85}", "é", "2147483647",
        "2147483648", "-2147483648", "+", "-", "\u{b}", "\u{c}",
    ];
    let mut x: u64 = 0x2545_F491_4F6C_DD1D;
    let mut next = |n: usize| {
        x ^= x << 13;
        x ^= x >> 7;
        x ^= x << 17;
        (x % n as u64) as usize
    };
    for _ in 0..20_000 {
        let len = next(12);
        let mut text = String::new();
        for _ in 0..len {
            text.push_str(pieces[next(pieces.len())]);
        }
        let (usage, throttled) = reference_cpu_stat(&text);
        assert_eq!(parse_cpu_stat(&text), (CpuTime::from_micros(usage), CpuTime::from_micros(throttled)), "{:?}", text);
        assert_eq!(parse_io_stat(&text), reference_io_stat(&text), "{:?}", text);
        assert_eq!(parse_pid_list(&text), reference_pids(&text), "{:?}", text);
        assert_eq!(parse_single_value(&text), text.trim().parse::<u64>().unwrap_or(0), "{:?}", text);
    }
}

#[test]
fn a_snapshot_is_put_together_from_the_files() {
    let all = StatFiles {
        cpu_stat: Ok(CPU_STAT.to_string()),
        memory_current: Ok("104857600\n".to_string()),
        memory_peak: Ok("157286400\n".to_string()),
        swap_current: Ok("4096\n".to_string()),
        swap_peak: Ok("8192\n".to_string()),
        io_stat: Ok(IO_STAT.to_string()),
    };
    let expected = ResourceStats {
        cpu_usage: CpuTime::from_micros(12_345_678),
        cpu_throttled: CpuTime::from_micros(45_678),
        memory_current: MemorySize::from_mb(100),
        memory_peak: MemorySize::from_mb(150),
        swap_current: MemorySize::from_bytes(4096),
        swap_peak: MemorySize::from_bytes(8192),
        io_read_bytes: 1_345_789,
        io_write_bytes: 1_223_567,
    };
    assert_eq!(snapshot(&all), Ok(expected));
    assert_eq!(active("snap").stats(&all), Ok(expected));

    // Swap files and io.stat may be missing; a number that cannot be read is zero.
    let some = files(CPU_STAT, "max\n", "157286400\n");
    let stats = snapshot(&some).unwrap();
    assert_eq!(stats.memory_current, MemorySize::from_bytes(0));
    assert_eq!(stats.memory_peak, MemorySize::from_mb(150));
    assert_eq!(stats.swap_current, MemorySize::from_bytes(0));
    assert_eq!(stats.swap_peak, MemorySize::from_bytes(0));
    assert_eq!((stats.io_read_bytes, stats.io_write_bytes), (0, 0));
}

#[test]
fn a_snapshot_needs_cpu_and_memory_files() {
    let gone = |name: &str| IoFailure { kind: FailureKind::NotFound, detail: format!("No such file or directory (os error 2): {}", name) };
    let mut f = files(CPU_STAT, "1", "2");
    f.memory_peak = Err(gone("p"));
    assert_eq!(
        snapshot(&f),
        Err(Error::CGroup { message: "Failed to read memory.peak: No such file or directory (os error 2): p".to_string() })
    );
    f.memory_current = Err(gone("c"));
    assert_eq!(
        snapshot(&f),
        Err(Error::CGroup { message: "Failed to read memory.current: No such file or directory (os error 2): c".to_string() })
    );
    f.cpu_stat = Err(IoFailure { kind: FailureKind::PermissionDenied, detail: "Permission denied (os error 13)".to_string() });
    assert_eq!(
        snapshot(&f),
        Err(Error::PermissionDenied { operation: "Failed to read cpu.stat: Permission denied (os error 13)".to_string() })
    );
}

#[test]
fn statistics_are_read_from_six_files() {
    let controller = active("six");
    let at = |name: &str| format!("/sys/fs/cgroup/vortex/six/{}", name);
    assert_eq!(
        controller.stat_paths(),
        Ok(StatPaths {
            cpu_stat: at("cpu.stat"),
            memory_current: at("memory.current"),
            memory_peak: at("memory.peak"),
            swap_current: at("memory.swap.current"),
            swap_peak: at("memory.swap.peak"),
            io_stat: at("io.stat"),
        })
    );
    let fresh = CGroupController::new(ContainerId::new("six").unwrap());
    assert_eq!(fresh.stat_paths(), Err(Error::not_active()));
}

#[test]
fn test_create_cgroup() {
    let id = ContainerId::new("test-cgroup").unwrap();
    let mut cgroup = CGroupController::new(id);
    assert_eq!(cgroup.setup_steps().len(), 5);

    // Without the privilege to make the directory the group stays inactive.
    let denied = IoFailure::from_errno(13);
    if let Err(e) = cgroup.activate(Err(denied)) {
        println!("Expected error (need root): {}", e.to_string());
    }
    assert!(!cgroup.is_active());
}

#[test]
fn test_set_cpu_limit() {
    let id = ContainerId::new("test-cpu-limit").unwrap();
    let cgroup = active("test-cpu-limit");
    assert_eq!(cgroup.container_id(), &id);

    let limit = CpuLimit::new(cores(1.5));
    let write = cgroup.set_cpu_limit(limit).unwrap();
    assert_eq!(write.path, "/sys/fs/cgroup/vortex/test-cpu-limit/cpu.max");
    assert_eq!(write.content, "150000 100000");
    assert_eq!(write.purpose, "Failed to set CPU limit");
}

#[test]
fn test_set_limits() {
    let cgroup = active("test-limits");

    // Test CPU limit
    let cpu_limit = CpuLimit::new(cores(1.5));
    assert_eq!(cgroup.set_cpu_limit(cpu_limit).unwrap().content, "150000 100000");

    // Test memory limit
    let mem_limit = MemoryLimit::with_swap(MemorySize::from_mb(512), MemorySize::from_mb(1024));
    let writes = cgroup.set_memory_limit(mem_limit).unwrap();
    assert_eq!(writes[0].content, "536870912");
    assert_eq!(writes[1].content, "1073741824");
}

#[test]
fn test_remove_limits() {
    let cgroup = active("test-remove-limits");

    // Set limits first
    assert!(cgroup.set_cpu_limit(CpuLimit::new(cores(1.0))).is_ok());
    assert!(cgroup.set_memory_limit(MemoryLimit::new(MemorySize::from_mb(256))).is_ok());

    // Now remove them
    assert_eq!(cgroup.remove_cpu_limit().unwrap().content, "max 100000");
    assert_eq!(cgroup.remove_memory_limit().unwrap().content, "max");
}

#[test]
fn test_real_cgroup_controller() {
    let container_id = ContainerId::new("test-real-cgroup").unwrap();

    // Create controller
    let mut controller = CGroupController::new(container_id.clone());
    controller.activate(Ok(())).unwrap();

    // Set CPU limit
    let cpu_limit = CpuLimit::new(cores(1.0));
    assert_eq!(controller.set_cpu_limit(cpu_limit).unwrap().content, "100000 100000");

    // Set memory limit
    let memory_limit = MemoryLimit::new(MemorySize::from_mb(512));
    assert_eq!(controller.set_memory_limit(memory_limit).unwrap()[0].content, "536870912");

    // Get stats
    let stats = controller.stats(&files("usage_usec 5\n", "1\n", "2\n")).unwrap();
    assert!(stats.cpu_usage >= CpuTime::from_micros(0));

    // Cleanup
    controller.cleanup().unwrap();
    assert!(!controller.is_active());
}
