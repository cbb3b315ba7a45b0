use vortex::backend::{MockBackend, ResourceBackend};
use vortex::error::Error;
use vortex::events::{ContainerEvent, Delivery, Severity};
use vortex::monitor::{get_memory_limit, ResourceMonitor};
use vortex::resources::{CpuLimit, CpuTime, MemoryLimit, MemorySize, ResourceStats};
use vortex::{ContainerId, ProcessId};

fn sample(throttled_us: u64, current: u64, peak: u64) -> ResourceStats {
    let mut stats = ResourceStats::default();
    stats.cpu_throttled = CpuTime::from_micros(throttled_us);
    stats.memory_current = MemorySize::from_bytes(current);
    stats.memory_peak = MemorySize::from_bytes(peak);
    stats
}

fn started(id: &str) -> ResourceMonitor {
    let mut monitor = ResourceMonitor::new(ContainerId::new(id).unwrap(), 1).with_events();
    monitor.start(0);
    monitor
}

#[test]
fn monitor_test_monitor_lifecycle() {
    let mut backend = MockBackend::new();
    let id = ContainerId::new("test").unwrap();
    let mut monitor = ResourceMonitor::new(id, 1);

    monitor.start(0);
    assert!(monitor.is_running());
    monitor.on_tick(backend.stats(), 1);

    monitor.stop();
    assert!(!monitor.is_running());
}

#[test]
fn monitor_test_monitor_with_events() {
    let mut backend = MockBackend::new();
    let id = ContainerId::new("test").unwrap();
    let mut monitor = ResourceMonitor::new(id, 1).with_events();

    // Should receive started event
    let events = monitor.start(0);
    assert!(matches!(events[0], ContainerEvent::Started { .. }));

    // Should receive stats update
    let events = monitor.on_tick(backend.stats(), 1);
    assert!(matches!(events[0], ContainerEvent::StatsUpdate { .. }));

    monitor.stop();
}

#[test]
fn monitor_test_monitor_stop_before_start() {
    let id = ContainerId::new("test").unwrap();
    let mut monitor = ResourceMonitor::new(id, 1);

    // Stop before starting (should not panic)
    monitor.stop();
}

#[test]
fn integration_tests_test_monitor_lifecycle() {
    let mut backend = MockBackend::new();
    let container_id = ContainerId::new("test-monitor").unwrap();

    let mut monitor = ResourceMonitor::new(container_id, 1);
    monitor.start(0);
    monitor.on_tick(backend.stats(), 1);
    monitor.on_tick(backend.stats(), 2);
    monitor.stop();
    assert!(monitor.on_tick(backend.stats(), 3).is_empty());
}

#[test]
fn integration_tests_test_monitor_with_events() {
    let mut backend = MockBackend::new();
    let container_id = ContainerId::new("test-events").unwrap();

    let mut monitor = ResourceMonitor::new(container_id.clone(), 1).with_events();
    let mut events = monitor.start(0);
    for now in 1..=3 {
        events.extend(monitor.on_tick(backend.stats(), now));
    }

    let mut event_count = 0;
    for event in events {
        match event {
            ContainerEvent::StatsUpdate { id, .. } => {
                assert_eq!(id, container_id);
                event_count += 1;
            }
            _ => {}
        }
    }
    monitor.stop();

    assert!(event_count >= 2, "Expected at least 2 events, got {}", event_count);
}

#[test]
fn integration_tests_test_monitor_stop_before_start() {
    let container_id = ContainerId::new("test-stop").unwrap();
    let mut monitor = ResourceMonitor::new(container_id, 1);
    monitor.stop();
    assert!(!monitor.is_running());
}

#[test]
fn test_monitor_multiple_stop_calls() {
    let container_id = ContainerId::new("test-multi-stop").unwrap();
    let mut monitor = ResourceMonitor::new(container_id, 1);
    monitor.start(0);

    monitor.stop();
    monitor.stop();
    monitor.stop();
    assert!(!monitor.is_running());
}

#[test]
fn mock_monitor_events() {
    let mut backend = MockBackend::new();
    let id = ContainerId::new("mock").unwrap();
    let mut monitor = ResourceMonitor::new(id.clone(), 1).with_events();
    let mut events = monitor.start(100);
    events.extend(monitor.on_tick(backend.stats(), 101));
    events.extend(monitor.on_tick(backend.stats(), 102));

    assert_eq!(events[0], ContainerEvent::Started { id: id.clone(), timestamp: 100 });
    let updates: Vec<ResourceStats> = events
        .iter()
        .filter_map(|e| match e {
            ContainerEvent::StatsUpdate { stats, .. } => Some(*stats),
            _ => None,
        })
        .collect();
    assert_eq!(updates.len(), 2);
    assert!(updates[1].cpu_usage > updates[0].cpu_usage);
    for (i, e) in events.iter().enumerate() {
        assert_eq!(e.container_id(), &id);
        assert_eq!(matches!(e, ContainerEvent::Started { .. }), i == 0);
    }
}

#[test]
fn a_monitor_without_a_sink_is_silent() {
    let mut backend = MockBackend::new();
    let mut monitor = ResourceMonitor::new(ContainerId::new("quiet").unwrap(), 5);
    assert_eq!(monitor.interval_secs(), 5);
    assert_eq!(monitor.container_id().as_str(), "quiet");
    assert!(monitor.start(0).is_empty());
    assert!(monitor.on_tick(backend.stats(), 1).is_empty());
    assert!(monitor.is_running());
}

#[test]
fn throttling_is_reported_above_a_tenth_of_a_second() {
    let id = ContainerId::new("slow").unwrap();
    let mut monitor = started("slow");
    // The first sample has nothing to compare with.
    let events = monitor.on_tick(Ok(sample(5_000_000, 0, 0)), 1);
    assert_eq!(events.len(), 1);
    // Exactly the threshold: nothing.
    let events = monitor.on_tick(Ok(sample(5_100_000, 0, 0)), 2);
    assert_eq!(events.len(), 1);
    // One microsecond more.
    let events = monitor.on_tick(Ok(sample(5_200_001, 0, 0)), 3);
    assert_eq!(
        events,
        vec![
            ContainerEvent::CpuThrottled { id: id.clone(), duration: CpuTime::from_micros(100_001), timestamp: 3 },
            ContainerEvent::StatsUpdate { id: id.clone(), stats: sample(5_200_001, 0, 0), timestamp: 3 },
        ]
    );
    // A counter that falls is no throttling.
    let events = monitor.on_tick(Ok(sample(0, 0, 0)), 4);
    assert_eq!(events.len(), 1);
}

#[test]
fn memory_pressure_is_reported_above_four_fifths() {
    let id = ContainerId::new("full").unwrap();
    let mut monitor = started("full");
    monitor.on_tick(Ok(sample(0, 10, 1000)), 1);
    // Exactly 80 %: nothing.
    let events = monitor.on_tick(Ok(sample(0, 800, 1000)), 2);
    assert_eq!(events.len(), 1);
    // Above 80 %, and grown.
    let events = monitor.on_tick(Ok(sample(0, 801, 1000)), 3);
    assert_eq!(
        events,
        vec![
            ContainerEvent::MemoryPressure { id: id.clone(), current: 801, limit: 1000, timestamp: 3 },
            ContainerEvent::StatsUpdate { id: id.clone(), stats: sample(0, 801, 1000), timestamp: 3 },
        ]
    );
    // Not grown: nothing.
    let events = monitor.on_tick(Ok(sample(0, 801, 1000)), 4);
    assert_eq!(events.len(), 1);
    // No limit to go by where the peak is not above the memory in use.
    let events = monitor.on_tick(Ok(sample(0, 2000, 2000)), 5);
    assert_eq!(events.len(), 1);
    // Both at once, throttling first.
    let events = monitor.on_tick(Ok(sample(200_000, u64::MAX - 1, u64::MAX)), 6);
    assert_eq!(events.len(), 3);
    assert!(matches!(events[0], ContainerEvent::CpuThrottled { .. }));
    assert!(matches!(events[1], ContainerEvent::MemoryPressure { .. }));
    assert_eq!(events[1].pressure_tenths(), 1000);
}

#[test]
fn the_assumed_limit_is_the_peak() {
    assert_eq!(get_memory_limit(&sample(0, 10, 20)), Some(20));
    assert_eq!(get_memory_limit(&sample(0, 20, 20)), None);
    assert_eq!(get_memory_limit(&sample(0, 30, 20)), None);
}

#[test]
fn the_monitor_ends_when_the_group_is_gone() {
    let mut monitor = started("gone");
    let other = Error::CGroup { message: "Failed to read cpu.stat: Input/output error (os error 5)".to_string() };
    assert!(monitor.on_tick(Err(other), 1).is_empty());
    assert!(monitor.is_running());
    let gone = Error::CGroup { message: "Failed to read cpu.stat: No such file or directory (os error 2)".to_string() };
    assert!(monitor.on_tick(Err(gone), 2).is_empty());
    assert!(!monitor.is_running());
    assert!(monitor.on_tick(Ok(sample(0, 0, 0)), 3).is_empty());

    // The text of an error number counts as well.
    let mut monitor = started("gone");
    assert!(monitor.on_tick(Err(Error::System { errno: 2 }), 1).is_empty());
    assert!(!monitor.is_running());
    let mut monitor = started("gone");
    assert!(monitor.on_tick(Err(Error::System { errno: 1 }), 1).is_empty());
    assert!(monitor.is_running());
}

#[test]
fn a_restart_forgets_the_last_sample() {
    let mut monitor = started("again");
    monitor.on_tick(Ok(sample(0, 0, 0)), 1);
    monitor.stop();
    let events = monitor.start(10);
    assert_eq!(events.len(), 1);
    let events = monitor.on_tick(Ok(sample(10_000_000, 0, 0)), 11);
    assert_eq!(events.len(), 1);
}

#[test]
fn test_event_container_id() {
    let id = ContainerId::new("test").unwrap();
    let event = ContainerEvent::Started { id: id.clone(), timestamp: 0 };

    assert_eq!(event.container_id(), &id);
}

#[test]
fn test_event_critical() {
    let id = ContainerId::new("test").unwrap();

    let event = ContainerEvent::Error { id: id.clone(), message: "test".to_string(), timestamp: 0 };
    assert!(event.is_critical());

    let event = ContainerEvent::Started { id, timestamp: 0 };
    assert!(!event.is_critical());
}

fn one_of_each() -> Vec<ContainerEvent> {
    let id = ContainerId::new("box").unwrap();
    vec![
        ContainerEvent::Started { id: id.clone(), timestamp: 1 },
        ContainerEvent::CpuThrottled { id: id.clone(), duration: CpuTime::from_millis(250), timestamp: 2 },
        ContainerEvent::MemoryPressure { id: id.clone(), current: 850, limit: 1000, timestamp: 3 },
        ContainerEvent::Exiting { id: id.clone(), exit_code: -3, timestamp: 4 },
        ContainerEvent::StatsUpdate { id: id.clone(), stats: ResourceStats::default(), timestamp: 5 },
        ContainerEvent::Error { id, message: "oops".to_string(), timestamp: 6 },
    ]
}

#[test]
fn events_tell_what_they_are() {
    let events = one_of_each();
    let names: Vec<&str> = events.iter().map(|e| e.kind_name()).collect();
    assert_eq!(names, vec!["started", "cpu_throttled", "memory_pressure", "exiting", "stats_update", "error"]);
    let times: Vec<u64> = events.iter().map(|e| e.timestamp()).collect();
    assert_eq!(times, vec![1, 2, 3, 4, 5, 6]);
    let weights: Vec<Severity> = events.iter().map(|e| e.severity()).collect();
    assert_eq!(
        weights,
        vec![Severity::Info, Severity::Warn, Severity::Warn, Severity::Info, Severity::Trace, Severity::Error]
    );
    let heads: Vec<&str> = events.iter().map(|e| e.headline()).collect();
    assert_eq!(
        heads,
        vec!["Container started", "CPU throttled", "Memory pressure", "Container exiting", "Stats update", "Container error"]
    );
    let critical: Vec<bool> = events.iter().map(|e| e.is_critical()).collect();
    assert_eq!(critical, vec![false, false, true, false, false, true]);
    let texts: Vec<String> = events.iter().map(|e| e.to_string()).collect();
    assert_eq!(
        texts,
        vec![
            "Container box started",
            "Container box CPU throttled for 250ms",
            "Container box memory at 85.0%",
            "Container box exiting with code -3",
            "Container box stats update",
            "Container box error: oops",
        ]
    );
}

#[test]
fn a_full_queue_drops_what_can_be_spared() {
    for e in one_of_each() {
        assert_eq!(e.delivery(false), Delivery::Queue);
        let expected = if e.is_critical() { Delivery::Emergency } else { Delivery::Drop };
        assert_eq!(e.delivery(true), expected);
    }
}

#[test]
fn pressure_in_tenths_of_a_percent() {
    let id = ContainerId::new("p").unwrap();
    let e = |current, limit| ContainerEvent::MemoryPressure { id: id.clone(), current, limit, timestamp: 0 };
    assert_eq!(e(850, 1000).pressure_tenths(), 850);
    assert_eq!(e(1, 3).pressure_tenths(), 333);
    assert_eq!(e(2, 3).pressure_tenths(), 667);
    assert_eq!(e(1, 2000).pressure_tenths(), 0);
    assert_eq!(e(3, 2000).pressure_tenths(), 2);
    assert_eq!(e(5, 0).pressure_tenths(), 0);
    assert_eq!(e(u64::MAX, 1).pressure_tenths(), u64::MAX);
    assert_eq!(e(1, 3).to_string(), "Container p memory at 33.3%");
    assert_eq!(ContainerEvent::Started { id: id.clone(), timestamp: 0 }.pressure_tenths(), 0);
}

#[test]
fn a_known_limit_is_used_from_the_first_sample() {
    let id = ContainerId::new("known").unwrap();
    let mut monitor = ResourceMonitor::new(id.clone(), 1)
        .with_events()
        .with_memory_limit(MemorySize::from_bytes(1000));
    monitor.start(0);
    let events = monitor.on_tick(Ok(sample(0, 900, 900)), 1);
    assert_eq!(
        events,
        vec![
            ContainerEvent::MemoryPressure { id: id.clone(), current: 900, limit: 1000, timestamp: 1 },
            ContainerEvent::StatsUpdate { id: id.clone(), stats: sample(0, 900, 900), timestamp: 1 },
        ]
    );
    // Still above four fifths, though not grown: reported again.
    let events = monitor.on_tick(Ok(sample(0, 900, 5000)), 2);
    assert_eq!(events.len(), 2);
    let events = monitor.on_tick(Ok(sample(0, 800, 5000)), 3);
    assert_eq!(events.len(), 1);
}

#[test]
fn a_limit_of_nothing_is_no_limit() {
    let id = ContainerId::new("zero").unwrap();
    let mut monitor = ResourceMonitor::new(id.clone(), 1)
        .with_events()
        .with_memory_limit(MemorySize::from_bytes(0));
    monitor.start(0);
    // Memory in use, no limit to go by: the sample alone.
    let events = monitor.on_tick(Ok(sample(0, 900, 900)), 1);
    assert_eq!(events, vec![ContainerEvent::StatsUpdate { id: id.clone(), stats: sample(0, 900, 900), timestamp: 1 }]);
    // The peak is gone by again, as for a monitor that was told no limit.
    let events = monitor.on_tick(Ok(sample(0, 950, 1000)), 2);
    assert_eq!(
        events,
        vec![
            ContainerEvent::MemoryPressure { id: id.clone(), current: 950, limit: 1000, timestamp: 2 },
            ContainerEvent::StatsUpdate { id: id.clone(), stats: sample(0, 950, 1000), timestamp: 2 },
        ]
    );
    let events = monitor.on_tick(Ok(sample(0, 950, 1000)), 3);
    assert_eq!(events.len(), 1);
}

#[test]
fn polling_asks_the_backend_while_the_monitor_runs() {
    let mut backend = MockBackend::new();
    let id = ContainerId::new("poll").unwrap();
    let mut monitor = ResourceMonitor::new(id.clone(), 1).with_events();

    // Not started: the backend is left alone.
    let (answer, events) = monitor.poll(&mut backend, 0);
    assert!(answer.is_none() && events.is_empty());
    assert_eq!(backend.call_count(), 0);

    monitor.start(0);
    let (first, events) = monitor.poll(&mut backend, 1);
    let first = first.unwrap().unwrap();
    assert_eq!(first.cpu_usage, CpuTime::from_millis(100));
    assert_eq!(events, vec![ContainerEvent::StatsUpdate { id: id.clone(), stats: first, timestamp: 1 }]);
    let (second, _) = monitor.poll(&mut backend, 2);
    let second = second.unwrap().unwrap();
    assert!(second.cpu_usage > first.cpu_usage);
    assert!(second.memory_peak >= first.memory_peak);
    assert_eq!(backend.call_count(), 2);

    monitor.stop();
    let (answer, events) = monitor.poll(&mut backend, 3);
    assert!(answer.is_none() && events.is_empty());
    assert_eq!(backend.call_count(), 2);
}

/// A backend whose group is gone after a number of samples.
struct Fading {
    left: u32,
    asked: u32,
}

impl ResourceBackend for Fading {
    fn reported(&self) -> ResourceStats {
        ResourceStats::default()
    }

    fn set_cpu_limit(&mut self, _limit: CpuLimit) -> Result<(), Error> {
        Ok(())
    }

    fn set_memory_limit(&mut self, _limit: MemoryLimit) -> Result<(), Error> {
        Ok(())
    }

    fn add_process(&mut self, _pid: ProcessId) -> Result<(), Error> {
        Ok(())
    }

    fn stats(&mut self) -> Result<ResourceStats, Error> {
        self.asked += 1;
        if self.left == 0 {
            return Err(Error::CGroup {
                message: "Failed to read cpu.stat: No such file or directory (os error 2)".to_string(),
            });
        }
        self.left -= 1;
        if self.left == 0 {
            return Err(Error::CGroup { message: "Failed to read cpu.stat: busy".to_string() });
        }
        Ok(sample(0, 0, 0))
    }

    fn cleanup(&mut self) -> Result<(), Error> {
        Ok(())
    }
}

#[test]
fn polling_hands_back_what_the_backend_answered() {
    let mut backend = Fading { left: 2, asked: 0 };
    let mut monitor = started("fading");

    let (answer, events) = monitor.poll(&mut backend, 1);
    assert_eq!(answer, Some(Ok(sample(0, 0, 0))));
    assert_eq!(events.len(), 1);

    // A failure that does not say that the group is gone: the monitor goes on.
    let (answer, events) = monitor.poll(&mut backend, 2);
    assert_eq!(answer, Some(Err(Error::CGroup { message: "Failed to read cpu.stat: busy".to_string() })));
    assert!(events.is_empty());
    assert!(monitor.is_running());

    // The group is gone: the monitor ends, and asks no more.
    let (answer, events) = monitor.poll(&mut backend, 3);
    assert_eq!(
        answer,
        Some(Err(Error::CGroup {
            message: "Failed to read cpu.stat: No such file or directory (os error 2)".to_string()
        }))
    );
    assert!(events.is_empty());
    assert!(!monitor.is_running());
    let (answer, events) = monitor.poll(&mut backend, 4);
    assert!(answer.is_none() && events.is_empty());
    assert_eq!(backend.asked, 3);
}

#[test]
fn errors_are_copied_whole() {
    let errors = vec![
        Error::Io { message: "a".to_string() },
        Error::CGroup { message: "b".to_string() },
        Error::Namespace { message: "c".to_string() },
        Error::PermissionDenied { operation: "d".to_string() },
        Error::InvalidConfig { message: "e".to_string() },
        Error::System { errno: 2 },
        Error::ChannelSend,
        Error::TaskJoin { message: "f".to_string() },
    ];
    for e in &errors {
        assert_eq!(&e.clone(), e);
    }
}
