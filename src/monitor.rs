use vstd::prelude::*;

use crate::media::MediaInfo;
use crate::text::same_text;

verus! {

/// Processor load.
#[derive(Clone, Debug)]
pub struct CpuInfo {
    pub cores: u32,
    /// Mean usage over all cores, in hundredths of a percent (0 to 10000).
    pub usage_centi: u32,
    pub model: String,
}

/// Memory, in bytes.
#[derive(Clone, Copy, Debug, PartialEq, Eq, Structural)]
pub struct MemoryInfo {
    pub total: u64,
    pub used: u64,
    pub free: u64,
}

#[derive(Clone, Copy, Debug, PartialEq, Eq, Structural)]
pub struct BatteryInfo {
    /// Charge level, in thousandths (0 to 1000).
    pub level_milli: u32,
    pub charging: bool,
    /// Full capacity over design capacity, in thousandths, if known.
    pub health_milli: Option<u32>,
    /// Estimated seconds until empty, if known.
    pub time_to_empty: Option<u64>,
}

#[derive(Clone, Debug)]
pub struct DiskInfo {
    pub name: String,
    /// Bytes.
    pub total: u64,
    pub available: u64,
    /// File system type.
    pub fs: String,
}

#[derive(Clone, Debug)]
pub struct NetworkInfo {
    pub name: String,
    /// Total bytes received and sent.
    pub received: u64,
    pub transmitted: u64,
}

/// The metrics collected for the categories asked for; the others stay absent.
#[derive(Clone, Debug)]
pub struct SystemData {
    pub cpu: Option<CpuInfo>,
    pub memory: Option<MemoryInfo>,
    pub battery: Option<BatteryInfo>,
    pub disk: Option<Vec<DiskInfo>>,
    pub network: Option<Vec<NetworkInfo>>,
    pub media: Option<MediaInfo>,
}

impl SystemData {
    pub fn empty() -> (r: SystemData)
        ensures
            r.cpu is None && r.memory is None && r.battery is None,
            r.disk is None && r.network is None && r.media is None,
    {
        SystemData { cpu: None, memory: None, battery: None, disk: None, network: None, media: None }
    }
}

/// Which metric categories a request asks for.
#[derive(Clone, Copy, Debug, PartialEq, Eq, Structural)]
pub struct Categories {
    pub cpu: bool,
    pub memory: bool,
    pub disk: bool,
    pub network: bool,
    pub battery: bool,
    pub media: bool,
}

pub open spec fn names(cs: Seq<String>, name: Seq<char>) -> bool {
    exists|i: int| 0 <= i < cs.len() && cs[i]@ == name
}

pub open spec fn categories_of(cs: Seq<String>) -> Categories {
    Categories {
        cpu: names(cs, "cpu"@),
        memory: names(cs, "memory"@),
        disk: names(cs, "disk"@),
        network: names(cs, "network"@),
        battery: names(cs, "battery"@),
        media: names(cs, "media"@),
    }
}

fn asks_for(cs: &Vec<String>, name: &str) -> (r: bool)
    ensures
        r == names(cs@, name@),
{
    let mut i: usize = 0;
    while i < cs.len()
        invariant
            i <= cs@.len(),
            forall|j: int| 0 <= j < i ==> cs@[j]@ != name@,
        decreases cs@.len() - i,
    {
        if same_text(cs[i].as_str(), name) {
            return true;
        }
        i = i + 1;
    }
    false
}

/// Reads the category names of a request: "cpu", "memory", "disk", "network", "battery",
/// "media"; other names are ignored.
pub fn requested_categories(cs: &Vec<String>) -> (r: Categories)
    ensures
        r == categories_of(cs@),
{
    Categories {
        cpu: asks_for(cs, "cpu"),
        memory: asks_for(cs, "memory"),
        disk: asks_for(cs, "disk"),
        network: asks_for(cs, "network"),
        battery: asks_for(cs, "battery"),
        media: asks_for(cs, "media"),
    }
}

/// The mean of per-core usages, rounded down; zero with no core.
pub fn mean_usage(per_core: &Vec<u32>) -> (r: u32)
    ensures
        per_core@.len() == 0 ==> r == 0,
        per_core@.len() > 0 ==> r == sum_of(per_core@, per_core@.len() as int) / (per_core@.len() as int),
{
    let n = per_core.len();
    if n == 0 {
        return 0;
    }
    let mut total: u128 = 0;
    let mut i: usize = 0;
    while i < n
        invariant
            n == per_core@.len(),
            i <= n,
            total == sum_of(per_core@, i as int),
            total <= u32::MAX * i,
            i <= usize::MAX,
        decreases n - i,
    {
        total = total + per_core[i] as u128;
        i = i + 1;
    }
    proof {
        let t = total as int;
        let m = n as int;
        assert(t / m <= u32::MAX) by (nonlinear_arith)
            requires
                t <= u32::MAX * m,
                m > 0,
                t >= 0,
        ;
    }
    (total / n as u128) as u32
}

pub open spec fn sum_of(s: Seq<u32>, n: int) -> int
    decreases n,
{
    if n <= 0 {
        0
    } else {
        sum_of(s, n - 1) + s[n - 1]
    }
}

/// The control shared with the background monitor: whether it runs, and what it polls.
#[derive(Clone, Debug)]
pub struct MonitorControl {
    pub running: bool,
    pub categories: Vec<String>,
}

impl MonitorControl {
    pub fn new() -> (r: MonitorControl)
        ensures
            !r.running,
            r.categories@.len() == 0,
    {
        MonitorControl { running: false, categories: Vec::new() }
    }

    /// Marks the monitor as running; `false` when it was already running, in which case no
    /// second monitor is to be started.
    pub fn start(&mut self) -> (started: bool)
        ensures
            started == !old(self).running,
            final(self).running,
            final(self).categories@ == old(self).categories@,
    {
        let was = self.running;
        self.running = true;
        !was
    }
}

/// Stops the background monitor at its next poll.
pub fn stop_monitor(control: &mut MonitorControl)
    ensures
        !final(control).running,
        final(control).categories@ == old(control).categories@,
{
    control.running = false;
}

/// Replaces the categories the monitor polls; an empty list pauses polling.
pub fn set_poll_categories(control: &mut MonitorControl, categories: Vec<String>)
    ensures
        final(control).categories@ == categories@,
        final(control).running == old(control).running,
{
    control.categories = categories;
}

/// What the monitor does at one poll.
#[derive(Clone, Copy, Debug, PartialEq, Eq, Structural)]
pub enum PollStep {
    /// The monitor was stopped: end.
    Stop,
    /// Nothing to poll: sleep for the interval and look again.
    Idle,
    /// Collect these categories, emit them, then sleep for the interval.
    Collect(Categories),
}

pub fn poll_step(control: &MonitorControl) -> (r: PollStep)
    ensures
        !control.running ==> r == PollStep::Stop,
        control.running && control.categories@.len() == 0 ==> r == PollStep::Idle,
        control.running && control.categories@.len() > 0 ==> r == PollStep::Collect(
            categories_of(control.categories@),
        ),
{
    if !control.running {
        PollStep::Stop
    } else if control.categories.len() == 0 {
        PollStep::Idle
    } else {
        PollStep::Collect(requested_categories(&control.categories))
    }
}

} // verus!
