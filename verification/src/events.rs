//! What happens to a container, as reported to whoever watches it.

use vstd::prelude::*;
use vstd::string::StringExecFns;
use crate::resources::{rounded_quotient, saturated, time_display, CpuTime, ResourceStats};
use crate::text::{decimal, digit_char, push_decimal, signed_decimal, push_signed_decimal};
use crate::types::ContainerId;

verus! {

/// An event in the life of a container. Every event names the container and
/// carries the time at which it was made, in seconds since the Unix epoch.
#[derive(Debug, Clone, PartialEq, Eq)]
pub enum ContainerEvent {
    /// The container has started.
    Started {
        /// The container.
        id: ContainerId,
        /// When the event was made.
        timestamp: u64,
    },
    /// The container was held back by its processor limit.
    CpuThrottled {
        /// The container.
        id: ContainerId,
        /// For how long it was held back since the sample before.
        duration: CpuTime,
        /// When the event was made.
        timestamp: u64,
    },
    /// The container uses more than four fifths of its memory limit.
    MemoryPressure {
        /// The container.
        id: ContainerId,
        /// The bytes in use.
        current: u64,
        /// The limit, in bytes.
        limit: u64,
        /// When the event was made.
        timestamp: u64,
    },
    /// The container is about to exit.
    Exiting {
        /// The container.
        id: ContainerId,
        /// The exit code of its command.
        exit_code: i32,
        /// When the event was made.
        timestamp: u64,
    },
    /// A new sample of the container's usage.
    StatsUpdate {
        /// The container.
        id: ContainerId,
        /// The sample.
        stats: ResourceStats,
        /// When the event was made.
        timestamp: u64,
    },
    /// Something went wrong.
    Error {
        /// The container.
        id: ContainerId,
        /// What went wrong.
        message: String,
        /// When the event was made.
        timestamp: u64,
    },
}

/// The mathematical content of a [`ContainerEvent`].
pub enum EventView {
    Started { id: Seq<char>, timestamp: u64 },
    CpuThrottled { id: Seq<char>, duration: CpuTime, timestamp: u64 },
    MemoryPressure { id: Seq<char>, current: u64, limit: u64, timestamp: u64 },
    Exiting { id: Seq<char>, exit_code: i32, timestamp: u64 },
    StatsUpdate { id: Seq<char>, stats: ResourceStats, timestamp: u64 },
    Error { id: Seq<char>, message: Seq<char>, timestamp: u64 },
}

impl View for ContainerEvent {
    type V = EventView;

    open spec fn view(&self) -> EventView {
        match *self {
            ContainerEvent::Started { id, timestamp } => EventView::Started { id: id@, timestamp },
            ContainerEvent::CpuThrottled { id, duration, timestamp } => EventView::CpuThrottled {
                id: id@,
                duration,
                timestamp,
            },
            ContainerEvent::MemoryPressure {
                id,
                current,
                limit,
                timestamp,
            } => EventView::MemoryPressure { id: id@, current, limit, timestamp },
            ContainerEvent::Exiting { id, exit_code, timestamp } => EventView::Exiting {
                id: id@,
                exit_code,
                timestamp,
            },
            ContainerEvent::StatsUpdate { id, stats, timestamp } => EventView::StatsUpdate {
                id: id@,
                stats,
                timestamp,
            },
            ContainerEvent::Error { id, message, timestamp } => EventView::Error {
                id: id@,
                message: message@,
                timestamp,
            },
        }
    }
}

/// The views of a sequence of events.
pub open spec fn event_views(events: Seq<ContainerEvent>) -> Seq<EventView> {
    events.map_values(|e: ContainerEvent| e@)
}

/// `current` is more than `percent` hundredths of `limit`.
pub open spec fn exceeds_percent(current: u64, limit: u64, percent: nat) -> bool {
    current * 100 > percent * limit
}

/// How much an event weighs in a record of what happened.
#[derive(Debug, Clone, Copy, PartialEq, Eq, Structural)]
pub enum Severity {
    /// Worth a look only when every step is followed.
    Trace,
    /// The ordinary course of things.
    Info,
    /// Something that wants attention.
    Warn,
    /// Something that went wrong.
    Error,
}

/// How an event is handed on when its queue may be full.
#[derive(Debug, Clone, Copy, PartialEq, Eq, Structural)]
pub enum Delivery {
    /// Put the event in the queue.
    Queue,
    /// The queue is full and the event can be spared: drop it.
    Drop,
    /// The queue is full and the event must not be lost: hand it on by the
    /// path that has no bound.
    Emergency,
}

impl EventView {
    /// The container that the event is about.
    pub open spec fn id(self) -> Seq<char> {
        match self {
            EventView::Started { id, .. } => id,
            EventView::CpuThrottled { id, .. } => id,
            EventView::MemoryPressure { id, .. } => id,
            EventView::Exiting { id, .. } => id,
            EventView::StatsUpdate { id, .. } => id,
            EventView::Error { id, .. } => id,
        }
    }

    /// When the event was made.
    pub open spec fn timestamp(self) -> u64 {
        match self {
            EventView::Started { timestamp, .. } => timestamp,
            EventView::CpuThrottled { timestamp, .. } => timestamp,
            EventView::MemoryPressure { timestamp, .. } => timestamp,
            EventView::Exiting { timestamp, .. } => timestamp,
            EventView::StatsUpdate { timestamp, .. } => timestamp,
            EventView::Error { timestamp, .. } => timestamp,
        }
    }

    /// The events that must reach an operator: memory pressure and errors.
    pub open spec fn is_critical(self) -> bool {
        self is MemoryPressure || self is Error
    }

    /// The name of the kind of event, as it is written in records.
    pub open spec fn kind_name(self) -> Seq<char> {
        match self {
            EventView::Started { .. } => "started"@,
            EventView::CpuThrottled { .. } => "cpu_throttled"@,
            EventView::MemoryPressure { .. } => "memory_pressure"@,
            EventView::Exiting { .. } => "exiting"@,
            EventView::StatsUpdate { .. } => "stats_update"@,
            EventView::Error { .. } => "error"@,
        }
    }

    /// How much the event weighs in a record.
    pub open spec fn severity(self) -> Severity {
        match self {
            EventView::Started { .. } => Severity::Info,
            EventView::CpuThrottled { .. } => Severity::Warn,
            EventView::MemoryPressure { .. } => Severity::Warn,
            EventView::Exiting { .. } => Severity::Info,
            EventView::StatsUpdate { .. } => Severity::Trace,
            EventView::Error { .. } => Severity::Error,
        }
    }

    /// The few words that head the record of the event.
    pub open spec fn headline(self) -> Seq<char> {
        match self {
            EventView::Started { .. } => "Container started"@,
            EventView::CpuThrottled { .. } => "CPU throttled"@,
            EventView::MemoryPressure { .. } => "Memory pressure"@,
            EventView::Exiting { .. } => "Container exiting"@,
            EventView::StatsUpdate { .. } => "Stats update"@,
            EventView::Error { .. } => "Container error"@,
        }
    }

    /// How the event is handed on: queued while there is room, else dropped
    /// unless it is critical.
    pub open spec fn delivery(self, queue_full: bool) -> Delivery {
        if !queue_full {
            Delivery::Queue
        } else if self.is_critical() {
            Delivery::Emergency
        } else {
            Delivery::Drop
        }
    }

    /// The share of the limit in use, in tenths of a percent, rounded to the
    /// nearest tenth and a half to the even one, as far as 64 bits hold it.
    /// Nothing where the limit is zero.
    pub open spec fn pressure_tenths(current: u64, limit: u64) -> u64 {
        if limit == 0 {
            0
        } else {
            saturated(rounded_quotient((current * 1000) as nat, limit as nat) as int)
        }
    }

    /// The line by which the event is shown to the user.
    pub open spec fn description(self) -> Seq<char> {
        match self {
            EventView::Started { id, .. } => "Container "@ + id + " started"@,
            EventView::CpuThrottled { id, duration, .. } => "Container "@ + id
                + " CPU throttled for "@ + time_display(duration.0),
            EventView::MemoryPressure { id, current, limit, .. } => "Container "@ + id
                + " memory at "@ + decimal((Self::pressure_tenths(current, limit) / 10) as nat)
                + seq!['.', digit_char((Self::pressure_tenths(current, limit) % 10) as nat), '%'],
            EventView::Exiting { id, exit_code, .. } => "Container "@ + id
                + " exiting with code "@ + signed_decimal(exit_code as int),
            EventView::StatsUpdate { id, .. } => "Container "@ + id + " stats update"@,
            EventView::Error { id, message, .. } => "Container "@ + id + " error: "@ + message,
        }
    }
}

impl ContainerEvent {
    /// The container that the event is about.
    pub fn container_id(&self) -> (id: &ContainerId)
        ensures
            id@ == self@.id(),
    {
        match self {
            ContainerEvent::Started { id, .. } => id,
            ContainerEvent::CpuThrottled { id, .. } => id,
            ContainerEvent::MemoryPressure { id, .. } => id,
            ContainerEvent::Exiting { id, .. } => id,
            ContainerEvent::StatsUpdate { id, .. } => id,
            ContainerEvent::Error { id, .. } => id,
        }
    }

    /// When the event was made, in seconds since the Unix epoch.
    pub fn timestamp(&self) -> (t: u64)
        ensures
            t == self@.timestamp(),
    {
        match self {
            ContainerEvent::Started { timestamp, .. } => *timestamp,
            ContainerEvent::CpuThrottled { timestamp, .. } => *timestamp,
            ContainerEvent::MemoryPressure { timestamp, .. } => *timestamp,
            ContainerEvent::Exiting { timestamp, .. } => *timestamp,
            ContainerEvent::StatsUpdate { timestamp, .. } => *timestamp,
            ContainerEvent::Error { timestamp, .. } => *timestamp,
        }
    }

    /// Whether the event must reach an operator.
    pub fn is_critical(&self) -> (r: bool)
        ensures
            r == self@.is_critical(),
    {
        match self {
            ContainerEvent::MemoryPressure { .. } => true,
            ContainerEvent::Error { .. } => true,
            _ => false,
        }
    }

    /// The name of the kind of event, as it is written in records.
    pub fn kind_name(&self) -> (name: &'static str)
        ensures
            name@ == self@.kind_name(),
    {
        match self {
            ContainerEvent::Started { .. } => "started",
            ContainerEvent::CpuThrottled { .. } => "cpu_throttled",
            ContainerEvent::MemoryPressure { .. } => "memory_pressure",
            ContainerEvent::Exiting { .. } => "exiting",
            ContainerEvent::StatsUpdate { .. } => "stats_update",
            ContainerEvent::Error { .. } => "error",
        }
    }

    /// How much the event weighs in a record.
    pub fn severity(&self) -> (severity: Severity)
        ensures
            severity == self@.severity(),
    {
        match self {
            ContainerEvent::Started { .. } => Severity::Info,
            ContainerEvent::CpuThrottled { .. } => Severity::Warn,
            ContainerEvent::MemoryPressure { .. } => Severity::Warn,
            ContainerEvent::Exiting { .. } => Severity::Info,
            ContainerEvent::StatsUpdate { .. } => Severity::Trace,
            ContainerEvent::Error { .. } => Severity::Error,
        }
    }

    /// The few words that head the record of the event.
    pub fn headline(&self) -> (headline: &'static str)
        ensures
            headline@ == self@.headline(),
    {
        match self {
            ContainerEvent::Started { .. } => "Container started",
            ContainerEvent::CpuThrottled { .. } => "CPU throttled",
            ContainerEvent::MemoryPressure { .. } => "Memory pressure",
            ContainerEvent::Exiting { .. } => "Container exiting",
            ContainerEvent::StatsUpdate { .. } => "Stats update",
            ContainerEvent::Error { .. } => "Container error",
        }
    }

    /// How the event is handed on when its queue is full or not.
    pub fn delivery(&self, queue_full: bool) -> (d: Delivery)
        ensures
            d == self@.delivery(queue_full),
    {
        if !queue_full {
            Delivery::Queue
        } else if self.is_critical() {
            Delivery::Emergency
        } else {
            Delivery::Drop
        }
    }

    /// The share of the memory limit in use, in tenths of a percent; nothing
    /// for other events and for a limit of zero.
    pub fn pressure_tenths(&self) -> (tenths: u64)
        ensures
            tenths == match self@ {
                EventView::MemoryPressure { current, limit, .. } => EventView::pressure_tenths(
                    current,
                    limit,
                ),
                _ => 0,
            },
    {
        match self {
            ContainerEvent::MemoryPressure { current, limit, .. } => {
                if *limit == 0 {
                    0
                } else {
                    let n: u128 = (*current as u128) * 1000;
                    let unit: u128 = *limit as u128;
                    let q = n / unit;
                    let r = n % unit;
                    assert(q <= n) by (nonlinear_arith)
                        requires
                            q == n / unit,
                            unit > 0,
                    ;
                    assert(r < unit) by (nonlinear_arith)
                        requires
                            r == n % unit,
                            unit > 0,
                    ;
                    let rounded = if r * 2 > unit || (r * 2 == unit && q % 2 == 1) {
                        q + 1
                    } else {
                        q
                    };
                    if rounded > u64::MAX as u128 {
                        u64::MAX
                    } else {
                        rounded as u64
                    }
                }
            },
            _ => 0,
        }
    }

    /// The line by which the event is shown to the user.
    pub fn to_string(&self) -> (s: String)
        ensures
            s@ == self@.description(),
    {
        let mut s = String::from_str("Container ");
        s.append(self.container_id().as_str());
        match self {
            ContainerEvent::Started { .. } => {
                s.append(" started");
            },
            ContainerEvent::CpuThrottled { duration, .. } => {
                s.append(" CPU throttled for ");
                let shown = duration.to_string();
                s.append(shown.as_str());
            },
            ContainerEvent::MemoryPressure { .. } => {
                let tenths = self.pressure_tenths();
                s.append(" memory at ");
                push_decimal(&mut s, tenths / 10);
                s.append(".");
                push_decimal(&mut s, tenths % 10);
                s.append("%");
                proof {
                    reveal_strlit(".");
                    reveal_strlit("%");
                    let d = (tenths % 10) as nat;
                    assert(decimal(d) == seq![digit_char(d)]);
                    assert("."@ + seq![digit_char(d)] + "%"@ =~= seq!['.', digit_char(d), '%']);
                }
            },
            ContainerEvent::Exiting { exit_code, .. } => {
                s.append(" exiting with code ");
                push_signed_decimal(&mut s, *exit_code as i64);
            },
            ContainerEvent::StatsUpdate { .. } => {
                s.append(" stats update");
            },
            ContainerEvent::Error { message, .. } => {
                s.append(" error: ");
                s.append(message.as_str());
            },
        }
        assert(s@ =~= self@.description());
        s
    }
}

} // verus!
