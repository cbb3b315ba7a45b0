//! A resource backend that lives in memory.
//!
//! It keeps the limits and the processes it is given and answers `stats`
//! with a usage that grows from call to call, so that what is built on a
//! backend can be tried without a kernel.

use vstd::prelude::*;
use crate::error::Error;
use crate::resources::{saturated, CpuLimit, CpuTime, MemoryLimit, MemorySize, ResourceStats, MB};
use crate::types::ProcessId;

verus! {

/// What controls the resources of one container: it takes limits and
/// processes, reports the usage, and in the end gives everything up.
///
/// Within one run, from the first operation to `cleanup`, what `stats`
/// reports never falls in the counters that only grow: the processor time
/// used and the peaks of memory and swap space.
pub trait ResourceBackend {
    /// The usage that `stats` reported last in this run; nothing used, before
    /// the first report.
    spec fn reported(&self) -> ResourceStats;

    /// Sets the processor limit. The last limit set is the one that holds.
    fn set_cpu_limit(&mut self, limit: CpuLimit) -> (r: Result<(), Error>)
        ensures
            final(self).reported() == old(self).reported(),
    ;

    /// Sets the memory limit, and the limit on swap space where one is given.
    fn set_memory_limit(&mut self, limit: MemoryLimit) -> (r: Result<(), Error>)
        ensures
            final(self).reported() == old(self).reported(),
    ;

    /// Puts a process under the limits. A process that is there already
    /// stays there once.
    fn add_process(&mut self, pid: ProcessId) -> (r: Result<(), Error>)
        ensures
            final(self).reported() == old(self).reported(),
    ;

    /// Reports the usage.
    fn stats(&mut self) -> (r: Result<ResourceStats, Error>)
        ensures
            r matches Ok(stats) ==> old(self).reported().not_after(stats),
            r matches Ok(stats) ==> final(self).reported() == stats,
            r is Err ==> final(self).reported() == old(self).reported(),
    ;

    /// Gives up everything that the backend holds. This ends the run.
    fn cleanup(&mut self) -> (r: Result<(), Error>)
    ;
}

/// The processor time that one call of `stats` adds, in microseconds.
pub const MOCK_CPU_STEP_US: u64 = 100_000;

/// The megabytes that one call of `stats` adds to the memory in use.
pub const MOCK_MEMORY_STEP_MB: u64 = 10;

/// The megabytes at which the memory in use stops growing.
pub const MOCK_MEMORY_CAP_MB: u64 = 500;

/// The mathematical content of a [`MockBackend`].
pub struct MockView {
    pub cpu_limit: Option<CpuLimit>,
    pub memory_limit: Option<MemoryLimit>,
    pub processes: Seq<ProcessId>,
    pub stats: ResourceStats,
    pub call_count: nat,
}

/// The memory in use after one more call of `stats`: the whole megabytes in
/// use and ten more, but no more than five hundred.
pub open spec fn grown_memory(current: MemorySize) -> MemorySize {
    let mb = current.0 / MB + MOCK_MEMORY_STEP_MB;
    if mb > MOCK_MEMORY_CAP_MB {
        MemorySize((MOCK_MEMORY_CAP_MB * MB) as u64)
    } else {
        MemorySize((mb * MB) as u64)
    }
}

/// The usage after one more call of `stats`: a tenth of a second more of
/// processor time, memory grown, and the peak raised to the memory in use.
pub open spec fn grown(stats: ResourceStats) -> ResourceStats {
    let current = grown_memory(stats.memory_current);
    ResourceStats {
        cpu_usage: CpuTime(saturated(stats.cpu_usage.0 + MOCK_CPU_STEP_US)),
        memory_current: current,
        memory_peak: if current.0 > stats.memory_peak.0 {
            current
        } else {
            stats.memory_peak
        },
        ..stats
    }
}

/// The count after one more call, as far as the machine can count.
pub open spec fn counted(n: nat) -> nat {
    if n < usize::MAX {
        n + 1
    } else {
        n
    }
}

impl MockView {
    /// No process is kept twice.
    pub open spec fn well_formed(self) -> bool {
        self.processes.no_duplicates()
    }

    /// The backend as it is made, and as `cleanup` leaves it.
    pub open spec fn fresh() -> MockView {
        MockView {
            cpu_limit: None,
            memory_limit: None,
            processes: Seq::empty(),
            stats: ResourceStats::zero(),
            call_count: 0,
        }
    }

    /// The backend after a processor limit was set.
    pub open spec fn with_cpu_limit(self, limit: CpuLimit) -> MockView {
        MockView { cpu_limit: Some(limit), call_count: counted(self.call_count), ..self }
    }

    /// The backend after a memory limit was set.
    pub open spec fn with_memory_limit(self, limit: MemoryLimit) -> MockView {
        MockView { memory_limit: Some(limit), call_count: counted(self.call_count), ..self }
    }

    /// The backend after a process was added; a process that is there
    /// already is not added again.
    pub open spec fn with_process(self, pid: ProcessId) -> MockView {
        MockView {
            processes: if self.processes.contains(pid) {
                self.processes
            } else {
                self.processes.push(pid)
            },
            call_count: counted(self.call_count),
            ..self
        }
    }

    /// The backend after `stats` was called.
    pub open spec fn sampled(self) -> MockView {
        MockView { stats: grown(self.stats), call_count: counted(self.call_count), ..self }
    }

    /// The backend after `n` calls of `stats`.
    pub open spec fn sampled_times(self, n: nat) -> MockView
        decreases n,
    {
        if n == 0 {
            self
        } else {
            self.sampled_times((n - 1) as nat).sampled()
        }
    }
}

/// The processes of `processes`, and `pid` behind them.
fn with_process(processes: &Vec<ProcessId>, pid: ProcessId) -> (r: Vec<ProcessId>)
    ensures
        r@ == processes@.push(pid),
{
    let mut r: Vec<ProcessId> = Vec::new();
    let mut i: usize = 0;
    while i < processes.len()
        invariant
            i <= processes.len(),
            r@ == processes@.take(i as int),
        decreases processes.len() - i,
    {
        r.push(processes[i]);
        assert(processes@.take(i + 1) == processes@.take(i as int).push(processes@[i as int]));
        i = i + 1;
    }
    assert(processes@.take(processes.len() as int) == processes@);
    r.push(pid);
    r
}

/// A backend in memory.
#[derive(Debug)]
pub struct MockBackend {
    cpu_limit: Option<CpuLimit>,
    memory_limit: Option<MemoryLimit>,
    processes: Vec<ProcessId>,
    stats: ResourceStats,
    call_count: usize,
}

impl View for MockBackend {
    type V = MockView;

    closed spec fn view(&self) -> MockView {
        MockView {
            cpu_limit: self.cpu_limit,
            memory_limit: self.memory_limit,
            processes: self.processes@,
            stats: self.stats,
            call_count: self.call_count as nat,
        }
    }
}

impl MockBackend {
    #[verifier::type_invariant]
    spec fn well_formed(self) -> bool {
        self.processes@.no_duplicates()
    }

    /// A backend without limits and processes, in which nothing was used.
    pub fn new() -> (b: MockBackend)
        ensures
            b@ == MockView::fresh(),
            b@.well_formed(),
    {
        MockBackend {
            cpu_limit: None,
            memory_limit: None,
            processes: Vec::new(),
            stats: ResourceStats::default(),
            call_count: 0,
        }
    }

    /// Counts one more call.
    fn count(&mut self)
        ensures
            final(self)@ == (MockView { call_count: counted(old(self)@.call_count), ..old(self)@ }),
    {
        proof {
            use_type_invariant(&*self);
        }
        if self.call_count < usize::MAX {
            self.call_count = self.call_count + 1;
        }
    }

    /// How many calls of the five operations were made.
    pub fn call_count(&self) -> (n: usize)
        ensures
            n == self@.call_count,
    {
        self.call_count
    }

    /// How many processes were added.
    pub fn process_count(&self) -> (n: usize)
        ensures
            n == self@.processes.len(),
            self@.well_formed(),
    {
        proof {
            use_type_invariant(self);
        }
        self.processes.len()
    }

    /// Whether `pid` was added.
    pub fn has_process(&self, pid: ProcessId) -> (r: bool)
        ensures
            r == self@.processes.contains(pid),
    {
        let mut i: usize = 0;
        while i < self.processes.len()
            invariant
                i <= self.processes.len(),
                forall|j: int| 0 <= j < i ==> self.processes@[j] != pid,
            decreases self.processes.len() - i,
        {
            if self.processes[i] == pid {
                return true;
            }
            i = i + 1;
        }
        false
    }

    /// Sets the usage from which the next call of `stats` goes on.
    pub fn set_mock_stats(&mut self, stats: ResourceStats)
        ensures
            final(self)@ == (MockView { stats, ..old(self)@ }),
    {
        proof {
            use_type_invariant(&*self);
        }
        self.stats = stats;
    }

    /// The processor limit that was set last.
    pub fn cpu_limit(&self) -> (limit: Option<CpuLimit>)
        ensures
            limit == self@.cpu_limit,
    {
        self.cpu_limit
    }

    /// The memory limit that was set last.
    pub fn memory_limit(&self) -> (limit: Option<MemoryLimit>)
        ensures
            limit == self@.memory_limit,
    {
        self.memory_limit
    }
}

impl ResourceBackend for MockBackend {
    open spec fn reported(&self) -> ResourceStats {
        self@.stats
    }

    fn set_cpu_limit(&mut self, limit: CpuLimit) -> (r: Result<(), Error>)
        ensures
            r is Ok,
            final(self)@ == old(self)@.with_cpu_limit(limit),
    {
        proof {
            use_type_invariant(&*self);
        }
        self.cpu_limit = Some(limit);
        self.count();
        Ok(())
    }

    fn set_memory_limit(&mut self, limit: MemoryLimit) -> (r: Result<(), Error>)
        ensures
            r is Ok,
            final(self)@ == old(self)@.with_memory_limit(limit),
    {
        proof {
            use_type_invariant(&*self);
        }
        self.memory_limit = Some(limit);
        self.count();
        Ok(())
    }

    fn add_process(&mut self, pid: ProcessId) -> (r: Result<(), Error>)
        ensures
            r is Ok,
            final(self)@ == old(self)@.with_process(pid),
    {
        if !self.has_process(pid) {
            let added = with_process(&self.processes, pid);
            proof {
                use_type_invariant(&*self);
                lemma_mock_processes(self@, pid);
            }
            self.processes = added;
        }
        self.count();
        Ok(())
    }

    fn stats(&mut self) -> (r: Result<ResourceStats, Error>)
        ensures
            r == Ok::<ResourceStats, Error>(grown(old(self)@.stats)),
            final(self)@ == old(self)@.sampled(),
    {
        proof {
            use_type_invariant(&*self);
        }
        self.count();
        let mb: u64 = self.stats.memory_current.0 / MB;
        let grown_mb: u64 = if mb > MOCK_MEMORY_CAP_MB - MOCK_MEMORY_STEP_MB {
            MOCK_MEMORY_CAP_MB
        } else {
            mb + MOCK_MEMORY_STEP_MB
        };
        let current = MemorySize(grown_mb * MB);
        let peak = if current.0 > self.stats.memory_peak.0 {
            current
        } else {
            self.stats.memory_peak
        };
        let stats = ResourceStats {
            cpu_usage: self.stats.cpu_usage.saturating_add(CpuTime(MOCK_CPU_STEP_US)),
            cpu_throttled: self.stats.cpu_throttled,
            memory_current: current,
            memory_peak: peak,
            swap_current: self.stats.swap_current,
            swap_peak: self.stats.swap_peak,
            io_read_bytes: self.stats.io_read_bytes,
            io_write_bytes: self.stats.io_write_bytes,
        };
        self.stats = stats;
        Ok(stats)
    }

    fn cleanup(&mut self) -> (r: Result<(), Error>)
        ensures
            r is Ok,
            final(self)@ == MockView::fresh(),
    {
        proof {
            use_type_invariant(&*self);
        }
        self.cpu_limit = None;
        self.memory_limit = None;
        self.processes = Vec::new();
        self.stats = ResourceStats::default();
        self.call_count = 0;
        Ok(())
    }
}

impl Default for MockBackend {
    /// A backend without limits and processes, in which nothing was used.
    fn default() -> (b: MockBackend)
        ensures
            b@ == MockView::fresh(),
    {
        MockBackend::new()
    }
}

/// One call of `stats` lowers neither the processor time used nor a peak,
/// and leaves the peak of memory at or above the memory in use; on a
/// backend that counts less than five hundred seconds short of the longest
/// time, it raises the processor time.
pub proof fn lemma_growth(stats: ResourceStats)
    ensures
        stats.not_after(grown(stats)),
        grown(stats).memory_peak.0 >= grown(stats).memory_current.0,
        grown(stats).memory_current.0 > 0,
        stats.cpu_usage.0 + MOCK_CPU_STEP_US <= u64::MAX ==> grown(stats).cpu_usage.0
            > stats.cpu_usage.0,
{
}

/// From call to call of `stats` the processor time used and the peaks never
/// fall: what an earlier call returned is not after what a later call returns.
pub proof fn lemma_stats_monotone(m: MockView, i: nat, j: nat)
    requires
        i <= j,
    ensures
        m.sampled_times(i).stats.not_after(m.sampled_times(j).stats),
    decreases j - i,
{
    if i < j {
        lemma_stats_monotone(m, i, (j - 1) as nat);
        lemma_growth(m.sampled_times((j - 1) as nat).stats);
    }
}

/// A process that is added is there, and there once: adding it again
/// changes nothing but the count of calls, and no process is ever kept twice.
pub proof fn lemma_mock_processes(m: MockView, pid: ProcessId)
    requires
        m.well_formed(),
    ensures
        m.with_process(pid).processes.contains(pid),
        m.with_process(pid).with_process(pid).processes == m.with_process(pid).processes,
        m.with_process(pid).well_formed(),
        m.sampled().processes == m.processes,
        MockView::fresh().well_formed(),
{
    let once = m.with_process(pid).processes;
    if !m.processes.contains(pid) {
        assert(once.last() == pid);
        assert forall|i: int, j: int| 0 <= i < once.len() && 0 <= j < once.len() && i != j implies once[i]
            != once[j] by {
            if i < m.processes.len() && j < m.processes.len() {
                assert(once[i] == m.processes[i] && once[j] == m.processes[j]);
            } else if i < m.processes.len() {
                assert(m.processes.contains(once[i]));
            } else {
                assert(m.processes.contains(once[j]));
            }
        }
    }
}

} // verus!
