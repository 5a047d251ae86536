//! A simulated machine: two controllable fans whose reported speed follows
//! the duty they were set to, and a metrics monitor driven by a refresh
//! counter.
use vstd::prelude::*;
use crate::hardware::{
    Capabilities, CoreError, Fan, HardwareInfo, MonitorCapabilities, SystemInfo,
    unknown_fan_message,
};
use crate::text::str_eq;
use crate::messages::ProcessSort;
use crate::ranking::top_by_key;

verus! {

struct FanState {
    id: String,
    label: String,
    min_rpm: u32,
    max_rpm: u32,
    duty: u8,
}

/// One simulated fan: its id, label, speed range and duty in percent.
pub struct FanStateView {
    pub id: Seq<char>,
    pub label: Seq<char>,
    pub min_rpm: u32,
    pub max_rpm: u32,
    pub duty: u8,
}

/// The simulated machine.
pub struct MockProvider {
    fans: Vec<FanState>,
}

/// The speed a simulated fan reports at `duty` percent: its minimum plus that
/// share of its range, rounded down.
pub open spec fn mock_rpm(min_rpm: u32, max_rpm: u32, duty: u8) -> int {
    min_rpm + (max_rpm - min_rpm) * duty / 100
}

/// A duty in percent, capped at 100.
pub open spec fn capped_duty(duty: u8) -> u8 {
    if duty > 100 {
        100
    } else {
        duty
    }
}

/// No two of the fans `s` share an id.
pub open spec fn fan_ids_distinct(s: Seq<FanStateView>) -> bool {
    forall|a: int, b: int|
        0 <= a < s.len() && 0 <= b < s.len() && a != b ==> #[trigger] s[a].id != #[trigger] s[b].id
}

/// A simulated fan with id `id` is among `s`.
pub open spec fn has_fan(s: Seq<FanStateView>, id: Seq<char>) -> bool {
    exists|i: int| 0 <= i < s.len() && #[trigger] s[i].id == id
}

impl MockProvider {
    /// The simulated fans, in order.
    pub closed spec fn fan_states(&self) -> Seq<FanStateView> {
        self.fans@.map_values(
            |f: FanState|
                FanStateView {
                    id: f.id@,
                    label: f.label@,
                    min_rpm: f.min_rpm,
                    max_rpm: f.max_rpm,
                    duty: f.duty,
                },
        )
    }

    /// Every fan's range is ordered and its duty is at most 100, and no two
    /// fans share an id.
    #[verifier::type_invariant]
    closed spec fn inv(&self) -> bool {
        &&& forall|i: int|
            0 <= i < self.fans@.len() ==> #[trigger] self.fans@[i].min_rpm <= self.fans@[i].max_rpm
                && self.fans@[i].duty <= 100
        &&& forall|a: int, b: int|
            0 <= a < self.fans@.len() && 0 <= b < self.fans@.len() && a != b ==> #[trigger] self.fans@[a].id@
                != #[trigger] self.fans@[b].id@
    }

    /// A machine with a CPU fan (600–2400 RPM at 45 %) and a GPU fan
    /// (500–2200 RPM at 38 %).
    pub fn new() -> (r: Self)
        ensures
            r.fan_states() == seq![
                FanStateView {
                    id: "fan.cpu"@,
                    label: "CPU Fan"@,
                    min_rpm: 600,
                    max_rpm: 2400,
                    duty: 45,
                },
                FanStateView {
                    id: "fan.gpu"@,
                    label: "GPU Fan"@,
                    min_rpm: 500,
                    max_rpm: 2200,
                    duty: 38,
                },
            ],
    {
        let mut fans: Vec<FanState> = Vec::new();
        fans.push(
            FanState {
                id: String::from_str("fan.cpu"),
                label: String::from_str("CPU Fan"),
                min_rpm: 600,
                max_rpm: 2400,
                duty: 45,
            },
        );
        fans.push(
            FanState {
                id: String::from_str("fan.gpu"),
                label: String::from_str("GPU Fan"),
                min_rpm: 500,
                max_rpm: 2200,
                duty: 38,
            },
        );
        proof {
            reveal_strlit("fan.cpu");
            reveal_strlit("fan.gpu");
            assert(fans@[0].id@[4] != fans@[1].id@[4]);
        }
        let r = MockProvider { fans };
        assert(r.fan_states() =~= seq![
            FanStateView {
                id: "fan.cpu"@,
                label: "CPU Fan"@,
                min_rpm: 600,
                max_rpm: 2400,
                duty: 45,
            },
            FanStateView {
                id: "fan.gpu"@,
                label: "GPU Fan"@,
                min_rpm: 500,
                max_rpm: 2200,
                duty: 38,
            },
        ]);
        r
    }

    /// The backend's name.
    pub fn name(&self) -> (r: &'static str)
        ensures
            r@ == "mock"@,
    {
        "mock"
    }

    /// The simulated machine reads temperatures and fans and controls fans.
    pub fn capabilities(&self) -> (r: Capabilities)
        ensures
            r == (Capabilities { read_temps: true, read_fans: true, control_fans: true }),
    {
        Capabilities { read_temps: true, read_fans: true, control_fans: true }
    }

    /// The simulated machine's description.
    pub fn hardware_info(&self) -> (r: HardwareInfo)
        ensures
            r.cpu@ == "Mock CPU (8C/16T @ 4.5GHz)"@,
            r.gpu matches Some(g) && g@ == "Mock GPU 16GB"@,
            r.motherboard matches Some(m) && m@ == "Mock Mainboard X1"@,
            r.memory matches Some(m) && m@ == "32 GB"@,
            r.os@ == "Simulated"@,
    {
        HardwareInfo {
            cpu: String::from_str("Mock CPU (8C/16T @ 4.5GHz)"),
            gpu: Some(String::from_str("Mock GPU 16GB")),
            motherboard: Some(String::from_str("Mock Mainboard X1")),
            memory: Some(String::from_str("32 GB")),
            os: String::from_str("Simulated"),
        }
    }

    /// Every simulated fan as a backend reports it: controllable, with its
    /// range, its duty, and the speed that duty gives.
    pub fn fans(&self) -> (r: Vec<Fan>)
        ensures
            r@.len() == self.fan_states().len(),
            forall|i: int|
                0 <= i < r@.len() ==> {
                    let s = #[trigger] self.fan_states()[i];
                    let f = r@[i];
                    &&& f.id@ == s.id
                    &&& f.label@ == s.label
                    &&& f.rpm == mock_rpm(s.min_rpm, s.max_rpm, s.duty)
                    &&& f.min_rpm == Some(s.min_rpm)
                    &&& f.max_rpm == Some(s.max_rpm)
                    &&& f.duty_percent == Some(s.duty)
                    &&& f.controllable
                },
            fan_ids_distinct(self.fan_states()),
    {
        proof {
            use_type_invariant(self);
        }
        let mut out: Vec<Fan> = Vec::new();
        let mut i: usize = 0;
        while i < self.fans.len()
            invariant
                i <= self.fans@.len(),
                out@.len() == i,
                forall|k: int|
                    0 <= k < self.fans@.len() ==> #[trigger] self.fans@[k].min_rpm
                        <= self.fans@[k].max_rpm && self.fans@[k].duty <= 100,
                forall|k: int|
                    0 <= k < i ==> {
                        let s = #[trigger] self.fan_states()[k];
                        let f = out@[k];
                        &&& f.id@ == s.id
                        &&& f.label@ == s.label
                        &&& f.rpm == mock_rpm(s.min_rpm, s.max_rpm, s.duty)
                        &&& f.min_rpm == Some(s.min_rpm)
                        &&& f.max_rpm == Some(s.max_rpm)
                        &&& f.duty_percent == Some(s.duty)
                        &&& f.controllable
                    },
            decreases self.fans@.len() - i,
        {
            let st = &self.fans[i];
            let span: u64 = (st.max_rpm - st.min_rpm) as u64;
            let duty: u64 = st.duty as u64;
            proof {
                assert(span * duty / 100 <= span) by (nonlinear_arith)
                    requires
                        duty <= 100,
                ;
                assert(span * duty <= span * 100) by (nonlinear_arith)
                    requires
                        duty <= 100,
                ;
            }
            let rpm: u32 = (st.min_rpm as u64 + span * duty / 100) as u32;
            out.push(
                Fan {
                    id: st.id.clone(),
                    label: st.label.clone(),
                    rpm,
                    min_rpm: Some(st.min_rpm),
                    max_rpm: Some(st.max_rpm),
                    duty_percent: Some(st.duty),
                    controllable: true,
                },
            );
            i += 1;
        }
        out
    }

    /// Sets the duty of the first fan with id `fan_id`, capped at 100 %;
    /// every other fan, and every range, stays as it was. An unknown id
    /// changes nothing and is reported as not found.
    pub fn set_fan_duty(&mut self, fan_id: &str, duty_percent: u8) -> (r: Result<(), CoreError>)
        ensures
            r is Ok <==> exists|i: int|
                0 <= i < old(self).fan_states().len() && #[trigger] old(self).fan_states()[i].id
                    == fan_id@,
            r is Err ==> final(self).fan_states() == old(self).fan_states() && (r matches Err(
                CoreError::NotFound(m),
            ) && m@ == unknown_fan_message(fan_id@)),
            r is Ok ==> exists|i: int|
                0 <= i < old(self).fan_states().len() && old(self).fan_states()[i].id == fan_id@
                    && (forall|k: int| 0 <= k < i ==> old(self).fan_states()[k].id != fan_id@)
                    && final(self).fan_states() == old(self).fan_states().update(
                    i,
                    FanStateView { duty: capped_duty(duty_percent), ..old(self).fan_states()[i] },
                ),
            fan_ids_distinct(old(self).fan_states()),
            fan_ids_distinct(final(self).fan_states()),
    {
        proof {
            use_type_invariant(&*self);
            assert forall|a: int, b: int|
                0 <= a < self.fan_states().len() && 0 <= b < self.fan_states().len() && a != b implies #[trigger] self.fan_states()[a].id
                != #[trigger] self.fan_states()[b].id by {
                assert(self.fans@[a].id@ != self.fans@[b].id@);
            }
        }
        let mut i: usize = 0;
        while i < self.fans.len()
            invariant
                i <= self.fans@.len(),
                self.fan_states() == old(self).fan_states(),
                forall|k: int|
                    0 <= k < self.fans@.len() ==> #[trigger] self.fans@[k].min_rpm
                        <= self.fans@[k].max_rpm && self.fans@[k].duty <= 100,
                forall|k: int| 0 <= k < i ==> self.fan_states()[k].id != fan_id@,
                forall|a: int, b: int|
                    0 <= a < self.fans@.len() && 0 <= b < self.fans@.len() && a != b
                        ==> #[trigger] self.fans@[a].id@ != #[trigger] self.fans@[b].id@,
                fan_ids_distinct(old(self).fan_states()),
            decreases self.fans@.len() - i,
        {
            if str_eq(self.fans[i].id.as_str(), fan_id) {
                let d: u8 = if duty_percent > 100 {
                    100
                } else {
                    duty_percent
                };
                let ghost before = self.fan_states();
                let updated = FanState {
                    id: self.fans[i].id.clone(),
                    label: self.fans[i].label.clone(),
                    min_rpm: self.fans[i].min_rpm,
                    max_rpm: self.fans[i].max_rpm,
                    duty: d,
                };
                let ghost old_fans = self.fans@;
                assert(updated.min_rpm <= updated.max_rpm && updated.duty <= 100);
                let mut fans = Vec::new();
                std::mem::swap(&mut fans, &mut self.fans);
                assert(fans@ == old_fans);
                fans.set(i, updated);
                assert forall|k: int| 0 <= k < fans@.len() implies #[trigger] fans@[k].min_rpm
                    <= fans@[k].max_rpm && fans@[k].duty <= 100 by {
                    if k != i {
                        assert(fans@[k] == old_fans[k]);
                    }
                }
                assert forall|a: int, b: int|
                    0 <= a < fans@.len() && 0 <= b < fans@.len() && a != b implies #[trigger] fans@[a].id@
                    != #[trigger] fans@[b].id@ by {
                    assert(old_fans[a].id@ != old_fans[b].id@);
                    if a != i {
                        assert(fans@[a] == old_fans[a]);
                    }
                    if b != i {
                        assert(fans@[b] == old_fans[b]);
                    }
                }
                self.fans = fans;
                assert(self.fan_states() =~= before.update(
                    i as int,
                    FanStateView { duty: capped_duty(duty_percent), ..before[i as int] },
                ));
                return Ok(());
            }
            i += 1;
        }
        let mut m = String::from_str("fan id '");
        m.append(fan_id);
        m.append("'");
        assert(forall|k: int| 0 <= k < old(self).fan_states().len() ==> #[trigger] old(
            self,
        ).fan_states()[k].id != fan_id@);
        Err(CoreError::NotFound(m))
    }
}

impl MockProvider {
    /// Hands fan `fan_id` back to automatic control. The simulated fans have
    /// no automatic mode of their own, so a known fan stays as it is; an
    /// unknown id is reported as not found.
    pub fn set_fan_auto(&self, fan_id: &str) -> (r: Result<(), CoreError>)
        ensures
            r is Ok <==> has_fan(self.fan_states(), fan_id@),
            r matches Err(e) ==> (e matches CoreError::NotFound(m) && m@ == unknown_fan_message(
                fan_id@,
            )),
    {
        let mut i: usize = 0;
        while i < self.fans.len()
            invariant
                i <= self.fans@.len(),
                forall|k: int| 0 <= k < i ==> self.fan_states()[k].id != fan_id@,
            decreases self.fans@.len() - i,
        {
            if str_eq(self.fans[i].id.as_str(), fan_id) {
                assert(self.fan_states()[i as int].id == fan_id@);
                return Ok(());
            }
            i += 1;
        }
        let mut m = String::from_str("fan id '");
        m.append(fan_id);
        m.append("'");
        Err(CoreError::NotFound(m))
    }
}

/// At full duty a simulated fan reports its maximum speed.
pub proof fn lemma_full_duty_runs_at_max(min_rpm: u32, max_rpm: u32)
    requires
        min_rpm <= max_rpm,
    ensures
        mock_rpm(min_rpm, max_rpm, 100) == max_rpm,
{
}

/// A simulated fan's reported speed never leaves its range, and never drops
/// when its duty rises.
pub proof fn lemma_mock_rpm_in_range_and_monotone(min_rpm: u32, max_rpm: u32, d1: u8, d2: u8)
    requires
        min_rpm <= max_rpm,
        d1 <= d2 <= 100,
    ensures
        min_rpm <= mock_rpm(min_rpm, max_rpm, d1) <= mock_rpm(min_rpm, max_rpm, d2) <= max_rpm,
{
    let span: int = max_rpm - min_rpm;
    assert(span * d1 / 100 <= span * d2 / 100) by (nonlinear_arith)
        requires
            0 <= span,
            d1 <= d2,
    ;
    assert(span * d2 / 100 <= span) by (nonlinear_arith)
        requires
            0 <= span,
            d2 <= 100,
    ;
    assert(0 <= span * d1 / 100) by (nonlinear_arith)
        requires
            0 <= span,
            0 <= d1,
    ;
}

/// The simulated metrics monitor.
/// A network link's name and byte counters since boot.
#[derive(Clone, Debug, PartialEq, Eq)]
pub struct NetCounters {
    pub name: String,
    pub rx_total: u64,
    pub tx_total: u64,
}

/// Bytes in a gibibyte.
pub const GIB: u64 = 1073741824;

pub struct MockMonitor {
    tick: u64,
}

impl MockMonitor {
    /// How many times the monitor has been refreshed, modulo 2^64.
    pub closed spec fn ticks(&self) -> u64 {
        self.tick
    }

    /// How many times the monitor has been refreshed, modulo 2^64.
    pub fn tick(&self) -> (r: u64)
        ensures
            r == self.ticks(),
    {
        self.tick
    }

    /// A monitor that has not been refreshed yet.
    pub fn new() -> (r: Self)
        ensures
            r.ticks() == 0,
    {
        MockMonitor { tick: 0 }
    }

    /// The monitor's name.
    pub fn name(&self) -> (r: &'static str)
        ensures
            r@ == "mock"@,
    {
        "mock"
    }

    /// The simulated monitor reports every kind of metric.
    pub fn capabilities(&self) -> (r: MonitorCapabilities)
        ensures
            r == (MonitorCapabilities {
                cpu: true,
                memory: true,
                disks: true,
                networks: true,
                processes: true,
                battery: true,
            }),
    {
        MonitorCapabilities {
            cpu: true,
            memory: true,
            disks: true,
            networks: true,
            processes: true,
            battery: true,
        }
    }

    /// Advances the simulation by one step.
    pub fn refresh(&mut self)
        ensures
            final(self).ticks() == (if old(self).ticks() == u64::MAX {
                0
            } else {
                (old(self).ticks() + 1) as u64
            }),
    {
        self.tick = self.tick.wrapping_add(1);
    }

    /// The simulated network links: one, `en0`, whose byte counters since
    /// boot start at 4 800 000 000 received and 980 000 000 sent and grow by
    /// 2 000 000 and 500 000 bytes a refresh.
    pub fn networks(&self) -> (r: Vec<NetCounters>)
        requires
            4_800_000_000 + self.ticks() * 2_000_000 <= u64::MAX,
        ensures
            r@.len() == 1,
            r@[0].name@ == "en0"@,
            r@[0].rx_total == 4_800_000_000 + self.ticks() * 2_000_000,
            r@[0].tx_total == 980_000_000 + self.ticks() * 500_000,
    {
        let mut v: Vec<NetCounters> = Vec::new();
        v.push(
            NetCounters {
                name: String::from_str("en0"),
                rx_total: 4_800_000_000u64 + self.tick * 2_000_000,
                tx_total: 980_000_000u64 + self.tick * 500_000,
            },
        );
        v
    }

    /// The simulated system disk's size, used and available bytes: 1000 GiB
    /// with 612 GiB used.
    pub fn disk_byte_totals(&self) -> (r: (u64, u64, u64))
        ensures
            r.0 == 1000 * GIB,
            r.1 == 612 * GIB,
            r.2 == 388 * GIB,
    {
        let total: u64 = 1000 * GIB;
        let used: u64 = 612 * GIB;
        (total, used, total - used)
    }

    /// The simulated operating system.
    pub fn system_info(&self) -> (r: SystemInfo)
        ensures
            r.host_name matches Some(h) && h@ == "mockbook"@,
            r.os_name matches Some(o) && o@ == "Simulated OS"@,
            r.os_version matches Some(v) && v@ == "1.0"@,
            r.kernel_version matches Some(k) && k@ == "mock-1"@,
            r.arch@ == "aarch64"@,
            r.uptime_secs == 3 * 3600 + 42 * 60,
            r.logical_cores == 8,
            r.physical_cores == Some(8usize),
    {
        SystemInfo {
            host_name: Some(String::from_str("mockbook")),
            os_name: Some(String::from_str("Simulated OS")),
            os_version: Some(String::from_str("1.0")),
            kernel_version: Some(String::from_str("mock-1")),
            arch: String::from_str("aarch64"),
            uptime_secs: 3 * 3600 + 42 * 60,
            logical_cores: 8,
            physical_cores: Some(8),
        }
    }
}

/// One simulated process: its id, name, CPU use in tenths of a percent, and
/// resident memory in bytes.
#[derive(Debug, PartialEq, Eq)]
pub struct MockProcess {
    pub pid: u32,
    pub name: String,
    pub cpu_tenths: u32,
    pub memory: u64,
}

/// A simulated process as plain values.
pub open spec fn process_view(p: MockProcess) -> (u32, Seq<char>, u32, u64) {
    (p.pid, p.name@, p.cpu_tenths, p.memory)
}

/// The simulated machine's processes, as listed.
pub open spec fn mock_process_table() -> Seq<(u32, Seq<char>, u32, u64)> {
    seq![
        (412u32, "firefox"@, 324u32, 1_400_000_000u64),
        (88u32, "WindowServer"@, 141u32, 620_000_000u64),
        (901u32, "rust-analyzer"@, 97u32, 980_000_000u64),
        (33u32, "kernel_task"@, 62u32, 220_000_000u64),
        (555u32, "Code Helper"@, 31u32, 540_000_000u64),
    ]
}

/// The process `x` is among `r`.
pub open spec fn shown(r: Seq<MockProcess>, x: (u32, Seq<char>, u32, u64)) -> bool {
    exists|i: int| 0 <= i < r.len() && process_view(r[i]) == x
}

/// What a process is ranked by under `sort`.
pub open spec fn process_rank(p: (u32, Seq<char>, u32, u64), sort: ProcessSort) -> u64 {
    match sort {
        ProcessSort::Cpu => p.2 as u64,
        ProcessSort::Memory => p.3,
    }
}

fn keyed_process(pid: u32, name: &str, cpu_tenths: u32, memory: u64, sort: ProcessSort) -> (r: (
    u64,
    MockProcess,
))
    ensures
        process_view(r.1) == (pid, name@, cpu_tenths, memory),
        r.0 == process_rank(process_view(r.1), sort),
{
    let key: u64 = match sort {
        ProcessSort::Cpu => cpu_tenths as u64,
        ProcessSort::Memory => memory,
    };
    (key, MockProcess { pid, name: String::from_str(name), cpu_tenths, memory })
}

impl MockMonitor {
    /// The `limit` busiest simulated processes by `sort`, busiest first: of
    /// the simulated process table, no process twice, and every process left
    /// out ranks no higher than any kept one.
    pub fn processes(&self, limit: usize, sort: ProcessSort) -> (r: Vec<MockProcess>)
        ensures
            r@.len() == (if limit < 5 {
                limit as int
            } else {
                5
            }),
            forall|i: int, j: int|
                0 <= i < j < r@.len() ==> process_rank(process_view(r@[i]), sort) >= process_rank(
                    process_view(r@[j]),
                    sort,
                ),
            forall|i: int|
                0 <= i < r@.len() ==> mock_process_table().contains(process_view(#[trigger] r@[i])),
            forall|i: int, j: int| 0 <= i < j < r@.len() ==> r@[i].pid != r@[j].pid,
            forall|k: int|
                0 <= k < 5 && !shown(r@, #[trigger] mock_process_table()[k]) ==> forall|i: int|
                    0 <= i < r@.len() ==> process_rank(mock_process_table()[k], sort)
                        <= process_rank(process_view(#[trigger] r@[i]), sort),
    {
        broadcast use vstd::seq_lib::group_to_multiset_ensures;

        let mut keyed: Vec<(u64, MockProcess)> = Vec::new();
        keyed.push(keyed_process(412, "firefox", 324, 1_400_000_000, sort));
        keyed.push(keyed_process(88, "WindowServer", 141, 620_000_000, sort));
        keyed.push(keyed_process(901, "rust-analyzer", 97, 980_000_000, sort));
        keyed.push(keyed_process(33, "kernel_task", 62, 220_000_000, sort));
        keyed.push(keyed_process(555, "Code Helper", 31, 540_000_000, sort));
        let ghost table = keyed@;
        proof {
            assert forall|k: int| 0 <= k < 5 implies process_view(#[trigger] table[k].1)
                == mock_process_table()[k] && table[k].0 == process_rank(
                mock_process_table()[k],
                sort,
            ) by {}
            assert(table.no_duplicates()) by {
                assert forall|a: int, b: int| 0 <= a < 5 && 0 <= b < 5 && a != b implies table[a]
                    != table[b] by {
                    assert(table[a].1.pid != table[b].1.pid);
                }
            }
            table.lemma_multiset_has_no_duplicates();
        }
        let top = top_by_key(keyed, limit);
        proof {
            assert forall|i: int| 0 <= i < top@.len() implies exists|k: int|
                0 <= k < 5 && #[trigger] top@[i] == table[k] by {
                assert(top@.to_multiset().count(top@[i]) > 0) by {
                    assert(top@.contains(top@[i]));
                }
                assert(table.to_multiset().count(top@[i]) > 0);
                assert(table.contains(top@[i]));
            }
            assert forall|x: (u64, MockProcess)| top@.to_multiset().contains(x) implies top@.to_multiset().count(
                x,
            ) == 1 by {
                assert(table.to_multiset().count(x) >= top@.to_multiset().count(x));
                assert(table.to_multiset().contains(x));
            }
            top@.lemma_multiset_has_no_duplicates_conv();
        }
        let ghost ranked = top@;
        let mut rest = top;
        let mut out: Vec<MockProcess> = Vec::new();
        while rest.len() > 0
            invariant
                out@.len() + rest@.len() == ranked.len(),
                rest@ == ranked.skip(out@.len() as int),
                forall|k: int| 0 <= k < out@.len() ==> #[trigger] out@[k] == ranked[k].1,
            decreases rest@.len(),
        {
            let ghost before = rest@;
            let item = rest.remove(0);
            assert(item == before[0]);
            assert(rest@ =~= ranked.skip(out@.len() as int + 1));
            out.push(item.1);
        }
        proof {
            assert forall|i: int| 0 <= i < out@.len() implies ranked[i].0 == process_rank(
                process_view(#[trigger] out@[i]),
                sort,
            ) && mock_process_table().contains(process_view(out@[i])) by {
                let k = choose|k: int| 0 <= k < 5 && ranked[i] == table[k];
                assert(mock_process_table()[k] == process_view(out@[i]));
            }
            assert forall|i: int, j: int| 0 <= i < j < out@.len() implies out@[i].pid != out@[j].pid by {
                let a = choose|k: int| 0 <= k < 5 && ranked[i] == table[k];
                let b = choose|k: int| 0 <= k < 5 && ranked[j] == table[k];
                assert(ranked[i] != ranked[j]);
                assert(a != b);
            }
            assert forall|k: int|
                0 <= k < 5 && !shown(out@, #[trigger] mock_process_table()[k]) implies forall|i: int|
                    0 <= i < out@.len() ==> process_rank(mock_process_table()[k], sort)
                        <= process_rank(process_view(#[trigger] out@[i]), sort) by {
                let x = table[k];
                assert(table.to_multiset().count(x) > 0) by {
                    assert(table.contains(x));
                }
                assert(!ranked.contains(x)) by {
                    if ranked.contains(x) {
                        let i = choose|i: int| 0 <= i < ranked.len() && ranked[i] == x;
                        assert(process_view(out@[i]) == mock_process_table()[k]);
                    }
                }
                assert(ranked.to_multiset().count(x) == 0);
                assert forall|i: int| 0 <= i < out@.len() implies process_rank(
                    mock_process_table()[k],
                    sort,
                ) <= process_rank(process_view(#[trigger] out@[i]), sort) by {
                    assert(x.0 <= ranked[i].0);
                    let b = choose|m: int| 0 <= m < 5 && ranked[i] == table[m];
                }
            }
        }
        out
    }
}

} // verus!
