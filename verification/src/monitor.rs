//! The decisions of the resource monitor.
//!
//! A monitor looks at one sample of a container's usage after the other and
//! says which events are to be sent. Whoever runs it keeps the time, asks
//! the backend for the samples and sends the events on.

use vstd::prelude::*;
use crate::backend::{MockView, ResourceBackend, MOCK_CPU_STEP_US};
use crate::error::{Error, ErrorView};
use crate::events::{event_views, exceeds_percent, ContainerEvent, EventView};
use crate::resources::{CpuTime, MemorySize, ResourceStats};
use crate::text::{contains, str_contains};
use crate::types::ContainerId;

verus! {

/// The throttled time between two samples, in microseconds, above which a
/// throttling event is sent.
pub const THROTTLE_THRESHOLD_US: u64 = 100_000;

/// The hundredths of the memory limit above which a pressure event is sent.
pub const PRESSURE_PERCENT: u64 = 80;

/// The memory limit that a sample lets one assume: its peak, where that is
/// above the memory in use.
pub open spec fn assumed_memory_limit(stats: ResourceStats) -> Option<u64> {
    if stats.memory_peak.0 > stats.memory_current.0 {
        Some(stats.memory_peak.0)
    } else {
        None
    }
}

/// The memory limit that a sample lets one assume.
pub fn get_memory_limit(stats: &ResourceStats) -> (limit: Option<u64>)
    ensures
        limit == assumed_memory_limit(*stats),
{
    if stats.memory_peak.0 > stats.memory_current.0 {
        Some(stats.memory_peak.0)
    } else {
        None
    }
}

/// What a failed sample means: the group of the container is gone where the
/// error speaks of a file that is not there.
pub open spec fn container_gone(e: ErrorView) -> bool {
    contains(e.description(), "No such file"@)
}

/// What the backend answered when it was asked for a sample.
pub type Sample = Result<ResourceStats, Error>;

/// The mathematical content of a [`Sample`].
pub open spec fn sample_view(sample: Sample) -> Result<ResourceStats, ErrorView> {
    match sample {
        Ok(stats) => Ok(stats),
        Err(e) => Err(e@),
    }
}

/// The mathematical content of a [`ResourceMonitor`].
pub struct MonitorView {
    pub id: Seq<char>,
    pub interval_secs: u64,
    pub emits: bool,
    pub memory_limit: Option<u64>,
    pub running: bool,
    pub last: Option<ResourceStats>,
}

impl MonitorView {
    /// Between `previous` and `stats` the container was throttled for more
    /// than the threshold.
    pub open spec fn throttled(previous: ResourceStats, stats: ResourceStats) -> bool {
        stats.cpu_throttled.0 - previous.cpu_throttled.0 > THROTTLE_THRESHOLD_US
    }

    /// The memory limit that the monitor was told. A limit of nothing is
    /// no limit.
    pub open spec fn known_limit(self) -> Option<u64> {
        match self.memory_limit {
            Some(limit) => if limit > 0 {
                Some(limit)
            } else {
                None
            },
            None => None,
        }
    }

    /// The memory limit against which `stats` is judged, if any: the limit
    /// that the monitor was told, else the limit that `stats` lets one
    /// assume, and that only while the memory in use grows.
    pub open spec fn limit_for(self, stats: ResourceStats) -> Option<u64> {
        match self.known_limit() {
            Some(limit) => Some(limit),
            None => match self.last {
                Some(previous) => if stats.memory_current.0 > previous.memory_current.0 {
                    assumed_memory_limit(stats)
                } else {
                    None
                },
                None => None,
            },
        }
    }

    /// The memory in use is above four fifths of the limit against which
    /// `stats` is judged.
    pub open spec fn pressed(self, stats: ResourceStats) -> bool {
        self.limit_for(stats) matches Some(limit) && exceeds_percent(
            stats.memory_current.0,
            limit,
            PRESSURE_PERCENT as nat,
        )
    }

    /// The events that starting the monitor sends.
    pub open spec fn start_events(self, now: u64) -> Seq<EventView> {
        if self.emits {
            seq![EventView::Started { id: self.id, timestamp: now }]
        } else {
            Seq::empty()
        }
    }

    /// The monitor after it was started.
    pub open spec fn started(self) -> MonitorView {
        MonitorView { running: true, last: None, ..self }
    }

    /// The events that a sample sends: throttling, judged against the
    /// sample before, then memory pressure, then the sample itself.
    pub open spec fn sample_events(self, stats: ResourceStats, now: u64) -> Seq<EventView> {
        (match self.last {
            Some(previous) => if Self::throttled(previous, stats) {
                seq![
                    EventView::CpuThrottled {
                        id: self.id,
                        duration: CpuTime((stats.cpu_throttled.0 - previous.cpu_throttled.0) as u64),
                        timestamp: now,
                    },
                ]
            } else {
                Seq::empty()
            },
            None => Seq::empty(),
        }) + (if self.pressed(stats) {
            seq![
                EventView::MemoryPressure {
                    id: self.id,
                    current: stats.memory_current.0,
                    limit: self.limit_for(stats)->0,
                    timestamp: now,
                },
            ]
        } else {
            Seq::empty()
        }) + seq![EventView::StatsUpdate { id: self.id, stats, timestamp: now }]
    }

    /// The events that a tick sends: none from a monitor that does not run
    /// or does not emit, none for a failed sample.
    pub open spec fn tick_events(self, sample: Result<ResourceStats, ErrorView>, now: u64) -> Seq<
        EventView,
    > {
        match sample {
            Ok(stats) => if self.running && self.emits {
                self.sample_events(stats, now)
            } else {
                Seq::empty()
            },
            Err(_) => Seq::empty(),
        }
    }

    /// The monitor after a tick: it remembers a sample, stops where the
    /// group of the container is gone, and goes on after any other failure.
    pub open spec fn ticked(self, sample: Result<ResourceStats, ErrorView>) -> MonitorView {
        if !self.running {
            self
        } else {
            match sample {
                Ok(stats) => MonitorView { last: Some(stats), ..self },
                Err(e) => if container_gone(e) {
                    MonitorView { running: false, ..self }
                } else {
                    self
                },
            }
        }
    }

    /// The events of a whole run: those of the start, then those of one tick
    /// after the other, each with the time at which it came.
    pub open spec fn run_events(
        self,
        start: u64,
        ticks: Seq<(Result<ResourceStats, ErrorView>, u64)>,
    ) -> Seq<EventView>
        decreases ticks.len(),
    {
        if ticks.len() == 0 {
            self.start_events(start)
        } else {
            let before = ticks.drop_last();
            self.run_events(start, before) + self.after_ticks(before).tick_events(
                ticks.last().0,
                ticks.last().1,
            )
        }
    }

    /// The monitor after it was started and has seen `ticks`.
    pub open spec fn after_ticks(self, ticks: Seq<(Result<ResourceStats, ErrorView>, u64)>)
        -> MonitorView
        decreases ticks.len(),
    {
        if ticks.len() == 0 {
            self.started()
        } else {
            self.after_ticks(ticks.drop_last()).ticked(ticks.last().0)
        }
    }
}

/// The monitor of one container.
#[derive(Debug)]
pub struct ResourceMonitor {
    container_id: ContainerId,
    interval_secs: u64,
    emits: bool,
    memory_limit: Option<u64>,
    running: bool,
    last: Option<ResourceStats>,
}

impl View for ResourceMonitor {
    type V = MonitorView;

    closed spec fn view(&self) -> MonitorView {
        MonitorView {
            id: self.container_id@,
            interval_secs: self.interval_secs,
            emits: self.emits,
            memory_limit: self.memory_limit,
            running: self.running,
            last: self.last,
        }
    }
}

impl ResourceMonitor {
    /// A monitor of `container_id` that wants a sample every `interval_secs`
    /// seconds. It sends no events, knows no memory limit and does not run yet.
    pub fn new(container_id: ContainerId, interval_secs: u64) -> (m: ResourceMonitor)
        ensures
            m@ == (MonitorView {
                id: container_id@,
                interval_secs,
                emits: false,
                memory_limit: None,
                running: false,
                last: None,
            }),
    {
        ResourceMonitor {
            container_id,
            interval_secs,
            emits: false,
            memory_limit: None,
            running: false,
            last: None,
        }
    }

    /// The same monitor, which now judges the memory in use against
    /// `limit`. A limit of nothing is no limit.
    pub fn with_memory_limit(self, limit: MemorySize) -> (m: ResourceMonitor)
        ensures
            m@ == (MonitorView { memory_limit: Some(limit.0), ..self@ }),
    {
        let mut m = self;
        m.memory_limit = Some(limit.0);
        m
    }

    /// The same monitor, which now sends events.
    pub fn with_events(self) -> (m: ResourceMonitor)
        ensures
            m@ == (MonitorView { emits: true, ..self@ }),
    {
        let mut m = self;
        m.emits = true;
        m
    }

    /// The container that is watched.
    pub fn container_id(&self) -> (id: &ContainerId)
        ensures
            id@ == self@.id,
    {
        &self.container_id
    }

    /// The seconds between two samples.
    pub fn interval_secs(&self) -> (secs: u64)
        ensures
            secs == self@.interval_secs,
    {
        self.interval_secs
    }

    /// Whether the monitor runs: it was started and neither stopped nor
    /// found the group of its container gone.
    pub fn is_running(&self) -> (r: bool)
        ensures
            r == self@.running,
    {
        self.running
    }

    /// Starts the monitor at the time `now`, and says which events to send.
    pub fn start(&mut self, now: u64) -> (events: Vec<ContainerEvent>)
        ensures
            final(self)@ == old(self)@.started(),
            event_views(events@) == old(self)@.start_events(now),
    {
        self.running = true;
        self.last = None;
        let mut events: Vec<ContainerEvent> = Vec::new();
        if self.emits {
            events.push(ContainerEvent::Started { id: self.container_id.clone(), timestamp: now });
        }
        assert(event_views(events@) =~= old(self)@.start_events(now));
        events
    }

    /// Stops the monitor: no tick after this sends anything.
    pub fn stop(&mut self)
        ensures
            final(self)@ == (MonitorView { running: false, ..old(self)@ }),
    {
        self.running = false;
    }

    /// The memory limit against which `stats` is judged, if any.
    fn limit_for(&self, stats: &ResourceStats) -> (limit: Option<u64>)
        ensures
            limit == self@.limit_for(*stats),
    {
        let known = match self.memory_limit {
            Some(limit) => if limit > 0 {
                Some(limit)
            } else {
                None
            },
            None => None,
        };
        match known {
            Some(limit) => Some(limit),
            None => match self.last {
                Some(previous) => if stats.memory_current.0 > previous.memory_current.0 {
                    get_memory_limit(stats)
                } else {
                    None
                },
                None => None,
            },
        }
    }

    /// The events that a sample sends.
    fn events_of(&self, stats: ResourceStats, now: u64) -> (events: Vec<ContainerEvent>)
        ensures
            event_views(events@) == self@.sample_events(stats, now),
    {
        let mut events: Vec<ContainerEvent> = Vec::new();
        assert(event_views(events@) =~= Seq::<EventView>::empty());
        match self.last {
            Some(previous) => {
                let throttled = stats.cpu_throttled.0 > previous.cpu_throttled.0
                    && stats.cpu_throttled.0 - previous.cpu_throttled.0 > THROTTLE_THRESHOLD_US;
                if throttled {
                    let event = ContainerEvent::CpuThrottled {
                        id: self.container_id.clone(),
                        duration: CpuTime(stats.cpu_throttled.0 - previous.cpu_throttled.0),
                        timestamp: now,
                    };
                    events.push(event);
                    assert(event_views(events@) =~= seq![event@]);
                }
            },
            None => {},
        }
        let ghost first = event_views(events@);
        match self.limit_for(&stats) {
            Some(limit) => {
                if (stats.memory_current.0 as u128) * 100 > (PRESSURE_PERCENT as u128) * (
                limit as u128) {
                    let event = ContainerEvent::MemoryPressure {
                        id: self.container_id.clone(),
                        current: stats.memory_current.0,
                        limit,
                        timestamp: now,
                    };
                    events.push(event);
                    assert(event_views(events@) =~= first + seq![event@]);
                } else {
                    assert(event_views(events@) =~= first + Seq::<EventView>::empty());
                }
            },
            None => {
                assert(event_views(events@) =~= first + Seq::<EventView>::empty());
            },
        }
        let ghost before = event_views(events@);
        let update = ContainerEvent::StatsUpdate {
            id: self.container_id.clone(),
            stats,
            timestamp: now,
        };
        events.push(update);
        assert(event_views(events@) =~= before + seq![update@]);
        events
    }

    /// Takes the answer of the backend at the time `now`, and says which
    /// events to send. A monitor that does not run sends nothing and
    /// remembers nothing.
    pub fn on_tick(&mut self, sample: Sample, now: u64) -> (events: Vec<ContainerEvent>)
        ensures
            final(self)@ == old(self)@.ticked(sample_view(sample)),
            event_views(events@) == old(self)@.tick_events(sample_view(sample), now),
    {
        if !self.running {
            let events: Vec<ContainerEvent> = Vec::new();
            assert(event_views(events@) =~= Seq::<EventView>::empty());
            return events;
        }
        match sample {
            Ok(stats) => {
                let events = if self.emits {
                    self.events_of(stats, now)
                } else {
                    Vec::new()
                };
                assert(!self.emits ==> event_views(events@) =~= Seq::<EventView>::empty());
                self.last = Some(stats);
                events
            },
            Err(e) => {
                let text = e.to_string();
                if str_contains(text.as_str(), "No such file") {
                    self.running = false;
                }
                let events: Vec<ContainerEvent> = Vec::new();
                assert(event_views(events@) =~= Seq::<EventView>::empty());
                events
            },
        }
    }

    /// Asks `backend` for a sample at the time `now` and takes it as
    /// `on_tick` does; a monitor that does not run leaves the backend alone.
    /// Hands back what the backend answered, where it was asked, and the
    /// events to send.
    pub fn poll<B: ResourceBackend>(&mut self, backend: &mut B, now: u64) -> (r: (
        Option<Sample>,
        Vec<ContainerEvent>,
    ))
        ensures
            r.0 is Some == old(self)@.running,
            r.0 is None ==> {
                &&& r.1@.len() == 0
                &&& final(self)@ == old(self)@
                &&& final(backend).reported() == old(backend).reported()
            },
            r.0 matches Some(sample) ==> {
                &&& final(self)@ == old(self)@.ticked(sample_view(sample))
                &&& event_views(r.1@) == old(self)@.tick_events(sample_view(sample), now)
                &&& sample matches Ok(stats) ==> old(backend).reported().not_after(stats)
                &&& sample matches Ok(stats) ==> final(backend).reported() == stats
                &&& sample is Err ==> final(backend).reported() == old(backend).reported()
            },
    {
        if !self.running {
            return (None, Vec::new());
        }
        let sample = backend.stats();
        let answer: Sample = match &sample {
            Ok(stats) => Ok(*stats),
            Err(e) => Err(e.clone()),
        };
        let events = self.on_tick(sample, now);
        (Some(answer), events)
    }
}

/// Every event of a sample names the container of the monitor, the sample
/// itself comes last, and an event of memory pressure stands for more than
/// eighty hundredths of its limit.
pub proof fn lemma_sample_events(m: MonitorView, stats: ResourceStats, now: u64)
    ensures
        m.sample_events(stats, now).len() >= 1,
        m.sample_events(stats, now).last() == (EventView::StatsUpdate {
            id: m.id,
            stats,
            timestamp: now,
        }),
        forall|i: int|
            0 <= i < m.sample_events(stats, now).len() ==> {
                let e = #[trigger] m.sample_events(stats, now)[i];
                &&& e.id() == m.id
                &&& e.timestamp() == now
                &&& !(e is Started)
                &&& e matches EventView::MemoryPressure { current, limit, .. } ==> limit > 0
                    && exceeds_percent(current, limit, 80)
            },
{
}

/// The monitor that has seen some ticks is the monitor that was started, but
/// for whether it runs and which sample it remembers.
pub proof fn lemma_after_ticks(m: MonitorView, ticks: Seq<(Result<ResourceStats, ErrorView>, u64)>)
    ensures
        m.after_ticks(ticks).id == m.id,
        m.after_ticks(ticks).emits == m.emits,
        m.after_ticks(ticks).interval_secs == m.interval_secs,
    decreases ticks.len(),
{
    if ticks.len() > 0 {
        lemma_after_ticks(m, ticks.drop_last());
    }
}

/// The events of a run are in the order in which they were made. The first
/// event of a monitor that emits is `Started`, and it is the only one;
/// every event names the container of the monitor; and every event of
/// memory pressure has a limit above nothing and stands for more than
/// eighty hundredths of it.
pub proof fn lemma_event_ordering(
    m: MonitorView,
    start: u64,
    ticks: Seq<(Result<ResourceStats, ErrorView>, u64)>,
)
    ensures
        m.emits ==> m.run_events(start, ticks).len() >= 1 && m.run_events(start, ticks)[0] == (
        EventView::Started { id: m.id, timestamp: start }),
        !m.emits ==> m.run_events(start, ticks).len() == 0,
        forall|i: int|
            0 <= i < m.run_events(start, ticks).len() ==> {
                let e = #[trigger] m.run_events(start, ticks)[i];
                &&& e.id() == m.id
                &&& (e is Started <==> i == 0)
                &&& e matches EventView::MemoryPressure { current, limit, .. } ==> limit > 0
                    && exceeds_percent(current, limit, 80)
            },
    decreases ticks.len(),
{
    if ticks.len() > 0 {
        let before = ticks.drop_last();
        lemma_event_ordering(m, start, before);
        lemma_after_ticks(m, before);
        let state = m.after_ticks(before);
        let head = m.run_events(start, before);
        let tail = state.tick_events(ticks.last().0, ticks.last().1);
        match ticks.last().0 {
            Ok(stats) => {
                lemma_sample_events(state, stats, ticks.last().1);
            },
            Err(_) => {},
        }
        assert forall|i: int| 0 <= i < (head + tail).len() implies {
            let e = #[trigger] (head + tail)[i];
            &&& e.id() == m.id
            &&& (e is Started <==> i == 0)
            &&& e matches EventView::MemoryPressure { current, limit, .. } ==> limit > 0
                && exceeds_percent(current, limit, 80)
        } by {
            if i < head.len() {
                assert((head + tail)[i] == head[i]);
            } else {
                assert((head + tail)[i] == tail[i - head.len()]);
                assert(tail.len() > 0);
                assert(state.running && state.emits);
            }
        }
    }
}

/// A monitor that emits and is polled twice over the backend in memory sends
/// `Started` first, then each of the two samples, the second with more
/// processor time used than the first, for as long as the time can be counted.
pub proof fn lemma_mock_run(m: MonitorView, backend: MockView, start: u64, first: u64, second: u64)
    requires
        m.emits,
        backend.stats.cpu_usage.0 + 2 * MOCK_CPU_STEP_US <= u64::MAX,
    ensures
        ({
            let one = backend.sampled().stats;
            let two = backend.sampled().sampled().stats;
            let events = m.run_events(start, seq![(Ok(one), first), (Ok(two), second)]);
            &&& events[0] == (EventView::Started { id: m.id, timestamp: start })
            &&& events.contains(EventView::StatsUpdate { id: m.id, stats: one, timestamp: first })
            &&& events.last() == (EventView::StatsUpdate { id: m.id, stats: two, timestamp: second })
            &&& two.cpu_usage.0 > one.cpu_usage.0
        }),
{
    let one = backend.sampled().stats;
    let two = backend.sampled().sampled().stats;
    let none: Seq<(Result<ResourceStats, ErrorView>, u64)> = Seq::empty();
    let ticks1 = seq![(Ok::<ResourceStats, ErrorView>(one), first)];
    let ticks2 = seq![(Ok::<ResourceStats, ErrorView>(one), first), (Ok(two), second)];
    assert(ticks1.drop_last() =~= none);
    assert(ticks2.drop_last() =~= ticks1);
    assert(m.after_ticks(none) == m.started());
    assert(m.run_events(start, none) == m.start_events(start));
    let s1 = m.after_ticks(ticks1);
    assert(s1 == m.started().ticked(Ok(one)));
    let e1 = m.started().tick_events(Ok(one), first);
    let e2 = s1.tick_events(Ok(two), second);
    lemma_sample_events(m.started(), one, first);
    lemma_sample_events(s1, two, second);
    let events = m.run_events(start, ticks2);
    assert(m.run_events(start, ticks1) == m.start_events(start) + e1);
    assert(events == m.start_events(start) + e1 + e2);
    assert(events[0] == m.start_events(start)[0]);
    let at = m.start_events(start).len() + e1.len() - 1;
    assert(events[at] == e1.last());
    assert(events.last() == e2.last());
    crate::backend::lemma_growth(backend.stats);
    crate::backend::lemma_growth(one);
}

/// A monitor that was stopped, or has found the group of its container
/// gone, sends nothing more and stays as it is.
pub proof fn lemma_stopped_is_silent(
    m: MonitorView,
    sample: Result<ResourceStats, ErrorView>,
    now: u64,
)
    requires
        !m.running,
    ensures
        m.tick_events(sample, now).len() == 0,
        m.ticked(sample) == m,
{
}

} // verus!
