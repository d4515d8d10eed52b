use vstd::prelude::*;

verus! {

/// Memory information.
#[derive(Debug, Clone, Copy, PartialEq, Eq, Structural)]
pub struct MemoryInfo {
    /// Total physical memory in bytes
    pub total: u64,
    /// Used physical memory in bytes
    pub used: u64,
    /// Free physical memory in bytes
    pub free: u64,
    /// Available physical memory in bytes
    pub available: u64,
    /// Total swap memory in bytes
    pub swap_total: u64,
    /// Used swap memory in bytes
    pub swap_used: u64,
}

/// Network connectivity status.
#[derive(Debug, Clone, Copy, PartialEq, Eq, Structural)]
pub enum NetworkConnectivity {
    /// No network connectivity
    Disconnected,
    /// Limited network connectivity
    Limited,
    /// Full network connectivity
    Full,
    /// Unknown network connectivity
    Unknown,
}

/// Network interface information.
#[derive(Debug)]
pub struct NetworkInterface {
    /// Interface name
    pub name: String,
    /// MAC address
    pub mac_address: Option<String>,
    /// IP addresses
    pub ip_addresses: Vec<String>,
    /// Received bytes
    pub received: u64,
    /// Transmitted bytes
    pub transmitted: u64,
}

/// Network information.
#[derive(Debug)]
pub struct NetworkInfo {
    /// Network interfaces
    pub interfaces: Vec<NetworkInterface>,
    /// Total received bytes
    pub total_received: u64,
    /// Total transmitted bytes
    pub total_transmitted: u64,
    /// Received bytes per second
    pub received_per_sec: Option<u64>,
    /// Transmitted bytes per second
    pub transmitted_per_sec: Option<u64>,
    /// Network connectivity status
    pub connectivity: NetworkConnectivity,
}

/// Battery state.
#[derive(Debug, Clone, Copy, PartialEq, Eq, Structural)]
pub enum BatteryState {
    /// Battery is charging
    Charging,
    /// Battery is discharging
    Discharging,
    /// Battery is fully charged
    Full,
    /// Battery state is unknown
    Unknown,
}

/// Battery information; the charge is held in hundredths of a percent.
#[derive(Debug, Clone, Copy, PartialEq, Eq, Structural)]
pub struct BatteryInfo {
    /// Battery charge in hundredths of a percent (0-10000)
    pub percentage_hundredths: u32,
    /// Battery state
    pub state: BatteryState,
    /// Remaining time in seconds
    pub remaining_time: Option<u64>,
}

/// Operating system information.
#[derive(Debug)]
pub struct OsInfo {
    /// Operating system name
    pub name: String,
    /// Operating system version
    pub version: String,
    /// Operating system architecture
    pub architecture: String,
    /// Operating system hostname
    pub hostname: String,
}

/// What the adaptation logic reads of the detected system resources.
#[derive(Debug)]
pub struct ResourceSnapshot {
    /// Number of logical CPU cores
    pub logical_cores: usize,
    /// Memory information
    pub memory: MemoryInfo,
    /// Network information
    pub network: NetworkInfo,
    /// Battery information, where the system has a battery
    pub battery: Option<BatteryInfo>,
}

/// Disk information; sizes in bytes.
#[derive(Debug, Clone, Copy, PartialEq, Eq, Structural)]
pub struct DiskInfo {
    /// Total disk space
    pub total: u64,
    /// Used disk space
    pub used: u64,
    /// Free disk space
    pub free: u64,
    /// Disk read bytes per second
    pub read_bytes_per_sec: Option<u64>,
    /// Disk write bytes per second
    pub write_bytes_per_sec: Option<u64>,
}

/// What the caller read of one disk: its size and the space left on it.
#[derive(Debug, Clone, Copy, PartialEq, Eq, Structural)]
pub struct DiskReading {
    pub total: u64,
    pub available: u64,
}

/// The sum of the sizes of `ds`.
pub open spec fn sum_total(ds: Seq<DiskReading>) -> int
    decreases ds.len(),
{
    if ds.len() == 0 { 0 } else { sum_total(ds.drop_last()) + ds.last().total }
}

/// The sum of the space left on `ds`.
pub open spec fn sum_available(ds: Seq<DiskReading>) -> int
    decreases ds.len(),
{
    if ds.len() == 0 { 0 } else { sum_available(ds.drop_last()) + ds.last().available }
}

/// The sum of the bytes received on `ns`.
pub open spec fn sum_received(ns: Seq<NetworkInterface>) -> int
    decreases ns.len(),
{
    if ns.len() == 0 { 0 } else { sum_received(ns.drop_last()) + ns.last().received }
}

/// The sum of the bytes transmitted on `ns`.
pub open spec fn sum_transmitted(ns: Seq<NetworkInterface>) -> int
    decreases ns.len(),
{
    if ns.len() == 0 { 0 } else { sum_transmitted(ns.drop_last()) + ns.last().transmitted }
}

/// The sums over the disks can be taken: no disk has more space left than
/// its size, and the totals fit.
pub open spec fn disks_summable(ds: Seq<DiskReading>) -> bool {
    &&& forall|i: int| 0 <= i < ds.len() ==> (#[trigger] ds[i]).available <= ds[i].total
    &&& sum_total(ds) <= u64::MAX
}

proof fn lemma_disk_sums(ds: Seq<DiskReading>, i: int)
    requires
        0 <= i <= ds.len(),
        forall|j: int| 0 <= j < ds.len() ==> (#[trigger] ds[j]).available <= ds[j].total,
    ensures
        0 <= sum_available(ds.take(i)) <= sum_total(ds.take(i)) <= sum_total(ds),
    decreases ds.len() - i,
{
    if i < ds.len() {
        lemma_disk_sums(ds, i + 1);
        assert(ds.take(i + 1).drop_last() =~= ds.take(i));
    } else {
        assert(ds.take(i) =~= ds);
    }
    lemma_disk_sums_prefix(ds.take(i));
}

proof fn lemma_disk_sums_prefix(ds: Seq<DiskReading>)
    requires
        forall|j: int| 0 <= j < ds.len() ==> (#[trigger] ds[j]).available <= ds[j].total,
    ensures
        0 <= sum_available(ds) <= sum_total(ds),
    decreases ds.len(),
{
    if ds.len() > 0 {
        lemma_disk_sums_prefix(ds.drop_last());
    }
}

/// Disk input and output counters: sysinfo offers none, so both are 0.
pub fn calculate_disk_io(disks: &Vec<DiskReading>) -> (r: (u64, u64))
    ensures
        r == (0u64, 0u64),
{
    (0, 0)
}

/// Disk information from the disks read, with the given transfer rates.
pub fn disk_info(disks: &Vec<DiskReading>, rates: (Option<u64>, Option<u64>)) -> (r: DiskInfo)
    requires
        disks_summable(disks@),
    ensures
        r.total == sum_total(disks@),
        r.free == sum_available(disks@),
        r.used == sum_total(disks@) - sum_available(disks@),
        r.read_bytes_per_sec == rates.0,
        r.write_bytes_per_sec == rates.1,
{
    let mut total: u64 = 0;
    let mut free: u64 = 0;
    let mut i: usize = 0;
    while i < disks.len()
        invariant
            i <= disks@.len(),
            disks_summable(disks@),
            total == sum_total(disks@.take(i as int)),
            free == sum_available(disks@.take(i as int)),
        decreases disks@.len() - i,
    {
        proof {
            lemma_disk_sums(disks@, i + 1);
            assert(disks@.take(i + 1).drop_last() =~= disks@.take(i as int));
        }
        total = total + disks[i].total;
        free = free + disks[i].available;
        i = i + 1;
    }
    assert(disks@.take(i as int) =~= disks@);
    proof { lemma_disk_sums_prefix(disks@); }
    DiskInfo { total, used: total - free, free, read_bytes_per_sec: rates.0, write_bytes_per_sec: rates.1 }
}

/// Network information from the interfaces read, with the given transfer
/// rates; the connectivity is not determined and stays unknown.
pub fn network_info(interfaces: Vec<NetworkInterface>, rates: (Option<u64>, Option<u64>)) -> (r: NetworkInfo)
    requires
        sum_received(interfaces@) <= u64::MAX,
        sum_transmitted(interfaces@) <= u64::MAX,
    ensures
        r.interfaces@ == interfaces@,
        r.total_received == sum_received(interfaces@),
        r.total_transmitted == sum_transmitted(interfaces@),
        r.received_per_sec == rates.0,
        r.transmitted_per_sec == rates.1,
        r.connectivity == NetworkConnectivity::Unknown,
{
    let mut received: u64 = 0;
    let mut transmitted: u64 = 0;
    let mut i: usize = 0;
    while i < interfaces.len()
        invariant
            i <= interfaces@.len(),
            sum_received(interfaces@) <= u64::MAX,
            sum_transmitted(interfaces@) <= u64::MAX,
            received == sum_received(interfaces@.take(i as int)),
            transmitted == sum_transmitted(interfaces@.take(i as int)),
        decreases interfaces@.len() - i,
    {
        proof {
            lemma_network_prefix(interfaces@, i + 1);
            assert(interfaces@.take(i + 1).drop_last() =~= interfaces@.take(i as int));
        }
        received = received + interfaces[i].received;
        transmitted = transmitted + interfaces[i].transmitted;
        i = i + 1;
    }
    assert(interfaces@.take(i as int) =~= interfaces@);
    NetworkInfo {
        interfaces,
        total_received: received,
        total_transmitted: transmitted,
        received_per_sec: rates.0,
        transmitted_per_sec: rates.1,
        connectivity: NetworkConnectivity::Unknown,
    }
}

proof fn lemma_network_prefix(ns: Seq<NetworkInterface>, i: int)
    requires
        0 <= i <= ns.len(),
    ensures
        0 <= sum_received(ns.take(i)) <= sum_received(ns),
        0 <= sum_transmitted(ns.take(i)) <= sum_transmitted(ns),
    decreases ns.len() - i,
{
    lemma_network_nonneg(ns.take(i));
    if i < ns.len() {
        lemma_network_prefix(ns, i + 1);
        assert(ns.take(i + 1).drop_last() =~= ns.take(i));
    } else {
        assert(ns.take(i) =~= ns);
    }
}

proof fn lemma_network_nonneg(ns: Seq<NetworkInterface>)
    ensures
        sum_received(ns) >= 0,
        sum_transmitted(ns) >= 0,
    decreases ns.len(),
{
    if ns.len() > 0 {
        lemma_network_nonneg(ns.drop_last());
    }
}

/// The rate of a counter that grew by `delta` over `elapsed_ms`
/// milliseconds, in units per second, rounded down.
pub open spec fn per_second(delta: u64, elapsed_ms: u64) -> int {
    (delta as int * 1000) / (elapsed_ms as int)
}

fn rate(delta: u64, elapsed_ms: u64) -> (r: u64)
    requires
        elapsed_ms >= 1000,
    ensures
        r == per_second(delta, elapsed_ms),
{
    let wide: u128 = (delta as u128) * 1000 / (elapsed_ms as u128);
    let ghost d = delta as int;
    let ghost e = elapsed_ms as int;
    assert((d * 1000) / e <= d) by (nonlinear_arith)
        requires
            d >= 0,
            e >= 1000,
    {
        assert(d * 1000 <= d * e);
    }
    wide as u64
}

/// The resource detector's memory of the last readings, from which the
/// network and disk transfer rates are computed; times are milliseconds.
#[derive(Debug, Clone, Copy)]
pub struct ResourceDetector {
    /// Last update time
    pub last_update_ms: u64,
    /// Previous network received bytes
    pub prev_received: u64,
    /// Previous network transmitted bytes
    pub prev_transmitted: u64,
    /// Previous disk read bytes
    pub prev_read_bytes: u64,
    /// Previous disk write bytes
    pub prev_write_bytes: u64,
    /// Last network update time
    pub last_network_update_ms: u64,
    /// Last disk update time
    pub last_disk_update_ms: u64,
    /// Network bytes per second (received, transmitted)
    pub network_bytes_per_sec: (Option<u64>, Option<u64>),
    /// Disk bytes per second (read, written)
    pub disk_bytes_per_sec: (Option<u64>, Option<u64>),
}

/// Milliseconds from `then` to `now`, or 0 when `now` comes first.
pub open spec fn since(then: u64, now: u64) -> int {
    if now >= then { now - then } else { 0 }
}

impl ResourceDetector {
    /// Start detecting at time `now_ms`, with the network counters read then.
    pub fn new(now_ms: u64, total_received: u64, total_transmitted: u64) -> (r: Self)
        ensures
            r.last_update_ms == now_ms,
            r.prev_received == total_received,
            r.prev_transmitted == total_transmitted,
            r.prev_read_bytes == 0 && r.prev_write_bytes == 0,
            r.last_network_update_ms == now_ms && r.last_disk_update_ms == now_ms,
            r.network_bytes_per_sec == (None::<u64>, None::<u64>),
            r.disk_bytes_per_sec == (None::<u64>, None::<u64>),
    {
        let (read, write) = calculate_disk_io(&Vec::new());
        ResourceDetector {
            last_update_ms: now_ms,
            prev_received: total_received,
            prev_transmitted: total_transmitted,
            prev_read_bytes: read,
            prev_write_bytes: write,
            last_network_update_ms: now_ms,
            last_disk_update_ms: now_ms,
            network_bytes_per_sec: (None, None),
            disk_bytes_per_sec: (None, None),
        }
    }

    /// Whether the readings are stale at `now_ms`: more than a second old.
    pub fn needs_refresh(&self, now_ms: u64) -> (r: bool)
        ensures
            r == (since(self.last_update_ms, now_ms) > 1000),
    {
        now_ms >= self.last_update_ms && now_ms - self.last_update_ms > 1000
    }

    /// Take new readings at `now_ms`: once a second or more has passed since
    /// the rates were last computed, they are computed again from the
    /// growth of the counters.
    pub fn refresh(&mut self, now_ms: u64, total_received: u64, total_transmitted: u64, disks: &Vec<DiskReading>)
        requires
            since(old(self).last_network_update_ms, now_ms) >= 1000 ==>
                total_received >= old(self).prev_received && total_transmitted >= old(self).prev_transmitted,
            since(old(self).last_disk_update_ms, now_ms) >= 1000 ==>
                old(self).prev_read_bytes == 0 && old(self).prev_write_bytes == 0,
        ensures
            final(self).last_update_ms == now_ms,
            since(old(self).last_network_update_ms, now_ms) >= 1000 ==> {
                &&& final(self).network_bytes_per_sec == (
                    Some(per_second((total_received - old(self).prev_received) as u64,
                        since(old(self).last_network_update_ms, now_ms) as u64) as u64),
                    Some(per_second((total_transmitted - old(self).prev_transmitted) as u64,
                        since(old(self).last_network_update_ms, now_ms) as u64) as u64),
                )
                &&& final(self).prev_received == total_received
                &&& final(self).prev_transmitted == total_transmitted
                &&& final(self).last_network_update_ms == now_ms
            },
            since(old(self).last_network_update_ms, now_ms) < 1000 ==> {
                &&& final(self).network_bytes_per_sec == old(self).network_bytes_per_sec
                &&& final(self).prev_received == old(self).prev_received
                &&& final(self).prev_transmitted == old(self).prev_transmitted
                &&& final(self).last_network_update_ms == old(self).last_network_update_ms
            },
            since(old(self).last_disk_update_ms, now_ms) >= 1000 ==> {
                &&& final(self).disk_bytes_per_sec == (Some(0u64), Some(0u64))
                &&& final(self).prev_read_bytes == 0 && final(self).prev_write_bytes == 0
                &&& final(self).last_disk_update_ms == now_ms
            },
            since(old(self).last_disk_update_ms, now_ms) < 1000 ==> {
                &&& final(self).disk_bytes_per_sec == old(self).disk_bytes_per_sec
                &&& final(self).prev_read_bytes == old(self).prev_read_bytes
                &&& final(self).prev_write_bytes == old(self).prev_write_bytes
                &&& final(self).last_disk_update_ms == old(self).last_disk_update_ms
            },
    {
        let network_elapsed = if now_ms >= self.last_network_update_ms { now_ms - self.last_network_update_ms } else { 0 };
        if network_elapsed >= 1000 {
            let received_per_sec = rate(total_received - self.prev_received, network_elapsed);
            let transmitted_per_sec = rate(total_transmitted - self.prev_transmitted, network_elapsed);
            self.network_bytes_per_sec = (Some(received_per_sec), Some(transmitted_per_sec));
            self.prev_received = total_received;
            self.prev_transmitted = total_transmitted;
            self.last_network_update_ms = now_ms;
        }
        let (total_read, total_write) = calculate_disk_io(disks);
        let disk_elapsed = if now_ms >= self.last_disk_update_ms { now_ms - self.last_disk_update_ms } else { 0 };
        if disk_elapsed >= 1000 {
            let read_per_sec = rate(total_read - self.prev_read_bytes, disk_elapsed);
            let write_per_sec = rate(total_write - self.prev_write_bytes, disk_elapsed);
            assert(per_second(0, disk_elapsed) == 0);
            self.disk_bytes_per_sec = (Some(read_per_sec), Some(write_per_sec));
            self.prev_read_bytes = total_read;
            self.prev_write_bytes = total_write;
            self.last_disk_update_ms = now_ms;
        }
        self.last_update_ms = now_ms;
    }
}

} // verus!
