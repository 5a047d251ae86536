//! Which temperature the menu bar shows, and the name it shows it under.
//!
//! The selection works on readings by their sensor id and family. A reading's
//! temperature enters only through `order`, a number that orders like the
//! temperature (none when the reading is not a number), so that the hottest of
//! a set can be picked; the temperature of a selection is the mean of the
//! readings it names, which the caller computes.
use vstd::prelude::*;
use crate::settings::{ResolvedLanguage, SensorKind, TemperatureSource};
use crate::text::{has_substring, starts_with, str_eq, str_has_substring, str_starts_with};

verus! {

/// One temperature reading: the sensor's id, its family, and a number that
/// orders like its temperature, or `None` when the reading is not a number.
#[derive(Clone, Debug)]
pub struct TempReading {
    pub id: String,
    pub kind: SensorKind,
    pub order: Option<u64>,
}

/// Why a reading was chosen, which decides how it is named.
#[derive(Clone, Copy, Debug, PartialEq, Eq, Structural)]
pub enum LabelHint {
    CpuAverage,
    Hottest,
    System,
}

/// The reading the menu bar shows: the id it is shown under, the readings
/// whose mean is its temperature (one reading: that reading's own), and why
/// it was chosen.
#[derive(Clone, Debug)]
pub struct SelectedTemperature {
    pub id: String,
    pub readings: Vec<usize>,
    pub label_hint: Option<LabelHint>,
}

impl View for SelectedTemperature {
    type V = (Seq<char>, Seq<usize>, Option<LabelHint>);

    open spec fn view(&self) -> (Seq<char>, Seq<usize>, Option<LabelHint>) {
        (self.id@, self.readings@, self.label_hint)
    }
}

/// A selection, or none, by its view.
pub open spec fn selection_view(r: Option<SelectedTemperature>) -> Option<
    (Seq<char>, Seq<usize>, Option<LabelHint>),
> {
    match r {
        Some(t) => Some(t@),
        None => None,
    }
}

/// An index, or none, as an integer.
pub open spec fn index_view(r: Option<usize>) -> Option<int> {
    match r {
        Some(i) => Some(i as int),
        None => None,
    }
}

/// `a` is strictly hotter than `b`; a reading that is not a number compares
/// with nothing.
pub open spec fn beats(a: Option<u64>, b: Option<u64>) -> bool {
    match (a, b) {
        (Some(x), Some(y)) => x > y,
        _ => false,
    }
}

/// The readings among which the hottest is picked.
#[derive(Clone, Copy, Debug, PartialEq, Eq, Structural)]
pub enum Among {
    All,
    Cpu,
    StableCpuAverage,
}

/// The ids of the stable SMC readings of the CPU average.
pub open spec fn is_stable_cpu_average_id(id: Seq<char>) -> bool {
    id == "cpu.smc.die"@ || id == "cpu.smc.aggregate"@ || id == "cpu.smc.summary"@
}

/// `t` is one of the readings that `f` admits.
pub open spec fn among(f: Among, t: TempReading) -> bool {
    match f {
        Among::All => true,
        Among::Cpu => t.kind == SensorKind::Cpu,
        Among::StableCpuAverage => {
            t.kind == SensorKind::Cpu && !has_substring(t.id@, "hot"@) && is_stable_cpu_average_id(
                t.id@,
            )
        },
    }
}

/// Of the first `n` readings that `f` admits, the one kept as hottest when
/// they are taken in order and each replaces the one kept so far unless that
/// one is strictly hotter.
pub open spec fn running_max(s: Seq<TempReading>, f: Among, n: int) -> Option<int>
    decreases n,
{
    if n <= 0 {
        None
    } else {
        let prev = running_max(s, f, n - 1);
        if !among(f, s[n - 1]) {
            prev
        } else {
            match prev {
                Some(a) => if beats(s[a].order, s[n - 1].order) {
                    Some(a)
                } else {
                    Some(n - 1)
                },
                None => Some(n - 1),
            }
        }
    }
}

/// The hottest of the readings that `f` admits, ties going to the later one.
pub open spec fn hottest_of(s: Seq<TempReading>, f: Among) -> Option<int> {
    running_max(s, f, s.len() as int)
}

/// A test that a reading is looked up by.
#[derive(Clone, Copy, Debug, PartialEq, Eq, Structural)]
pub enum Probe {
    /// `cpu.die` as a CPU reading that is no hottest-reading.
    CpuDieAverage,
    /// `cpu.die`.
    CpuDie,
    /// `cpu.iohid.tdie` or `cpu.iohid.cpu`.
    IohidDie,
    IohidTdie,
    IohidCpu,
    SmcSummary,
    SmcAggregate,
    /// `cpu.die.hot`.
    DieHot,
    /// Any CPU reading whose id mentions `hot`.
    HotCpu,
}

/// `t` passes the test `p`.
pub open spec fn holds(p: Probe, t: TempReading) -> bool {
    match p {
        Probe::CpuDieAverage => t.id@ == "cpu.die"@ && t.kind == SensorKind::Cpu && !has_substring(
            t.id@,
            "hot"@,
        ),
        Probe::CpuDie => t.id@ == "cpu.die"@,
        Probe::IohidDie => t.id@ == "cpu.iohid.tdie"@ || t.id@ == "cpu.iohid.cpu"@,
        Probe::IohidTdie => t.id@ == "cpu.iohid.tdie"@,
        Probe::IohidCpu => t.id@ == "cpu.iohid.cpu"@,
        Probe::SmcSummary => t.id@ == "cpu.smc.summary"@,
        Probe::SmcAggregate => t.id@ == "cpu.smc.aggregate"@,
        Probe::DieHot => t.id@ == "cpu.die.hot"@,
        Probe::HotCpu => t.kind == SensorKind::Cpu && has_substring(t.id@, "hot"@),
    }
}

/// The first reading that passes `p`.
pub open spec fn first_of(s: Seq<TempReading>, p: Probe) -> Option<int> {
    if exists|i: int| 0 <= i < s.len() && #[trigger] holds(p, s[i]) {
        Some(
            choose|i: int|
                0 <= i < s.len() && #[trigger] holds(p, s[i]) && forall|j: int|
                    0 <= j < i ==> !holds(p, s[j]),
        )
    } else {
        None
    }
}

/// A reading that enters the CPU average: a CPU reading that is a number and
/// is no hottest, proximity, airflow, ambient, board or memory reading.
pub open spec fn averaged(t: TempReading) -> bool {
    &&& t.kind == SensorKind::Cpu
    &&& !has_substring(t.id@, "hot"@)
    &&& !has_substring(t.id@, "proximity"@)
    &&& !has_substring(t.id@, "airflow"@)
    &&& !has_substring(t.id@, "ambient"@)
    &&& !has_substring(t.id@, "board"@)
    &&& !has_substring(t.id@, "memory"@)
    &&& t.order is Some
}

/// The positions, in order, of the readings among the first `n` that enter
/// the CPU average.
pub open spec fn averaged_upto(s: Seq<TempReading>, n: int) -> Seq<usize>
    decreases n,
{
    if n <= 0 {
        Seq::empty()
    } else if averaged(s[n - 1]) {
        averaged_upto(s, n - 1).push((n - 1) as usize)
    } else {
        averaged_upto(s, n - 1)
    }
}

/// The positions of the readings that enter the CPU average.
pub open spec fn averaged_readings(s: Seq<TempReading>) -> Seq<usize> {
    averaged_upto(s, s.len() as int)
}

/// The selection of the one reading at `i`.
pub open spec fn single(s: Seq<TempReading>, i: int, hint: Option<LabelHint>) -> Option<
    (Seq<char>, Seq<usize>, Option<LabelHint>),
> {
    Some((s[i].id@, seq![i as usize], hint))
}

/// `a`, or `b` when `a` is none.
pub open spec fn either(
    a: Option<(Seq<char>, Seq<usize>, Option<LabelHint>)>,
    b: Option<(Seq<char>, Seq<usize>, Option<LabelHint>)>,
) -> Option<(Seq<char>, Seq<usize>, Option<LabelHint>)> {
    match a {
        Some(x) => Some(x),
        None => b,
    }
}

/// The first reading that passes `p`, with no hint.
pub open spec fn by_probe(s: Seq<TempReading>, p: Probe) -> Option<
    (Seq<char>, Seq<usize>, Option<LabelHint>),
> {
    match first_of(s, p) {
        Some(i) => single(s, i, None),
        None => None,
    }
}

/// The hottest CPU reading.
pub open spec fn hottest_cpu_spec(s: Seq<TempReading>) -> Option<
    (Seq<char>, Seq<usize>, Option<LabelHint>),
> {
    match hottest_of(s, Among::Cpu) {
        Some(i) => single(s, i, Some(LabelHint::Hottest)),
        None => None,
    }
}

/// The CPU average: the `cpu.die` reading; else the hottest of the stable
/// SMC readings; else the IOHID die reading; else the mean of the readings
/// that enter the average, shown as `cpu.die`; else the hottest CPU reading.
pub open spec fn best_cpu_average_spec(s: Seq<TempReading>) -> Option<
    (Seq<char>, Seq<usize>, Option<LabelHint>),
> {
    match first_of(s, Probe::CpuDieAverage) {
        Some(i) => single(s, i, Some(LabelHint::CpuAverage)),
        None => match hottest_of(s, Among::StableCpuAverage) {
            Some(i) => single(s, i, Some(LabelHint::CpuAverage)),
            None => match first_of(s, Probe::IohidDie) {
                Some(i) => single(s, i, Some(LabelHint::CpuAverage)),
                None => if averaged_readings(s).len() > 0 {
                    Some(("cpu.die"@, averaged_readings(s), Some(LabelHint::CpuAverage)))
                } else {
                    hottest_cpu_spec(s)
                },
            },
        },
    }
}

/// What the menu bar falls back to when the configured reading is missing:
/// the hottest CPU reading (for the hottest source) or the CPU average, and
/// failing those the hottest reading of all.
pub open spec fn fallback_spec(s: Seq<TempReading>, source: TemperatureSource) -> Option<
    (Seq<char>, Seq<usize>, Option<LabelHint>),
> {
    let preferred = if source == TemperatureSource::Hottest {
        hottest_cpu_spec(s)
    } else {
        best_cpu_average_spec(s)
    };
    either(
        preferred,
        match hottest_of(s, Among::All) {
            Some(i) => single(
                s,
                i,
                Some(
                    if s[i].kind == SensorKind::Cpu {
                        LabelHint::Hottest
                    } else {
                        LabelHint::System
                    },
                ),
            ),
            None => None,
        },
    )
}

/// The headline reading for the configured `source`.
pub open spec fn primary_spec(s: Seq<TempReading>, source: TemperatureSource) -> Option<
    (Seq<char>, Seq<usize>, Option<LabelHint>),
> {
    match source {
        TemperatureSource::CoreAverage => best_cpu_average_spec(s),
        TemperatureSource::IohidTdie => either(
            by_probe(s, Probe::IohidTdie),
            either(by_probe(s, Probe::IohidCpu), fallback_spec(s, source)),
        ),
        TemperatureSource::SmcSummary => either(
            by_probe(s, Probe::SmcSummary),
            fallback_spec(s, source),
        ),
        TemperatureSource::SmcAggregate => either(
            by_probe(s, Probe::SmcAggregate),
            fallback_spec(s, source),
        ),
        TemperatureSource::Hottest => either(
            by_probe(s, Probe::DieHot),
            either(
                match first_of(s, Probe::HotCpu) {
                    Some(i) => Some(("cpu.die.hot"@, seq![i as usize], None)),
                    None => None,
                },
                fallback_spec(s, source),
            ),
        ),
    }
}

/// The name a selected reading is shown under.
pub open spec fn source_name(lang: ResolvedLanguage, id: Seq<char>, hint: Option<LabelHint>) -> Seq<
    char,
> {
    if id == "cpu.smc.die"@ {
        match lang {
            ResolvedLanguage::Ko => "CPU 다이"@,
            ResolvedLanguage::En => "CPU die"@,
        }
    } else if id == "cpu.iohid.cpu"@ || id == "cpu.iohid.cpu.hot"@ {
        match lang {
            ResolvedLanguage::Ko => "CPU 다이"@,
            ResolvedLanguage::En => "CPU IOHID CPU"@,
        }
    } else if id == "cpu.iohid.tdie"@ {
        match lang {
            ResolvedLanguage::Ko => "CPU 다이"@,
            ResolvedLanguage::En => "CPU Tdie"@,
        }
    } else if id == "cpu.smc.aggregate"@ {
        match lang {
            ResolvedLanguage::Ko => "SMC 집계"@,
            ResolvedLanguage::En => "SMC aggregate"@,
        }
    } else if id == "cpu.smc.summary"@ {
        match lang {
            ResolvedLanguage::Ko => "SMC 요약"@,
            ResolvedLanguage::En => "SMC summary"@,
        }
    } else if id == "cpu.die"@ && hint != Some(LabelHint::Hottest) {
        "CPU Core Average"@
    } else if starts_with(id, "system.acpi.thermal_zone."@) {
        match lang {
            ResolvedLanguage::Ko => "시스템 열 영역"@,
            ResolvedLanguage::En => "System thermal zone"@,
        }
    } else if hint == Some(LabelHint::Hottest) || has_substring(id, "hot"@) {
        match lang {
            ResolvedLanguage::Ko => "최고"@,
            ResolvedLanguage::En => "hottest"@,
        }
    } else {
        id
    }
}

} // verus!

verus! {

fn among_exec(f: Among, t: &TempReading) -> (r: bool)
    ensures
        r == among(f, *t),
{
    match f {
        Among::All => true,
        Among::Cpu => t.kind == SensorKind::Cpu,
        Among::StableCpuAverage => {
            let id = t.id.as_str();
            t.kind == SensorKind::Cpu && !str_has_substring(id, "hot") && (str_eq(id, "cpu.smc.die")
                || str_eq(id, "cpu.smc.aggregate") || str_eq(id, "cpu.smc.summary"))
        },
    }
}

fn beats_exec(a: Option<u64>, b: Option<u64>) -> (r: bool)
    ensures
        r == beats(a, b),
{
    match (a, b) {
        (Some(x), Some(y)) => x > y,
        _ => false,
    }
}

/// The position of the hottest of the readings that `f` admits, ties going
/// to the later one.
pub fn hottest_index(temps: &Vec<TempReading>, f: Among) -> (r: Option<usize>)
    ensures
        index_view(r) == hottest_of(temps@, f),
        r matches Some(i) ==> i < temps@.len(),
{
    let mut best: Option<usize> = None;
    let mut k: usize = 0;
    while k < temps.len()
        invariant
            k <= temps@.len(),
            index_view(best) == running_max(temps@, f, k as int),
            best matches Some(b) ==> b < k,
        decreases temps@.len() - k,
    {
        if among_exec(f, &temps[k]) {
            best = match best {
                Some(a) => if beats_exec(temps[a].order, temps[k].order) {
                    Some(a)
                } else {
                    Some(k)
                },
                None => Some(k),
            };
        }
        k += 1;
    }
    best
}

fn holds_exec(p: Probe, t: &TempReading) -> (r: bool)
    ensures
        r == holds(p, *t),
{
    let id = t.id.as_str();
    match p {
        Probe::CpuDieAverage => str_eq(id, "cpu.die") && t.kind == SensorKind::Cpu
            && !str_has_substring(id, "hot"),
        Probe::CpuDie => str_eq(id, "cpu.die"),
        Probe::IohidDie => str_eq(id, "cpu.iohid.tdie") || str_eq(id, "cpu.iohid.cpu"),
        Probe::IohidTdie => str_eq(id, "cpu.iohid.tdie"),
        Probe::IohidCpu => str_eq(id, "cpu.iohid.cpu"),
        Probe::SmcSummary => str_eq(id, "cpu.smc.summary"),
        Probe::SmcAggregate => str_eq(id, "cpu.smc.aggregate"),
        Probe::DieHot => str_eq(id, "cpu.die.hot"),
        Probe::HotCpu => t.kind == SensorKind::Cpu && str_has_substring(id, "hot"),
    }
}

/// The position of the first reading that passes `p`.
pub fn first_matching(temps: &Vec<TempReading>, p: Probe) -> (r: Option<usize>)
    ensures
        index_view(r) == first_of(temps@, p),
        r matches Some(i) ==> i < temps@.len(),
{
    let mut k: usize = 0;
    while k < temps.len()
        invariant
            k <= temps@.len(),
            forall|j: int| 0 <= j < k ==> !#[trigger] holds(p, temps@[j]),
        decreases temps@.len() - k,
    {
        if holds_exec(p, &temps[k]) {
            proof {
                let s = temps@;
                assert(0 <= k < s.len() && holds(p, s[k as int]));
                let c = choose|i: int|
                    0 <= i < s.len() && #[trigger] holds(p, s[i]) && forall|j: int|
                        0 <= j < i ==> !holds(p, s[j]);
                assert(0 <= k < s.len() && holds(p, s[k as int]) && forall|j: int|
                    0 <= j < k ==> !holds(p, s[j]));
                if c < k {
                    assert(!holds(p, s[c]));
                } else if c > k {
                    assert(!holds(p, s[k as int]));
                }
                assert(c == k);
            }
            return Some(k);
        }
        k += 1;
    }
    None
}

fn averaged_exec(t: &TempReading) -> (r: bool)
    ensures
        r == averaged(*t),
{
    let id = t.id.as_str();
    t.kind == SensorKind::Cpu && !str_has_substring(id, "hot") && !str_has_substring(
        id,
        "proximity",
    ) && !str_has_substring(id, "airflow") && !str_has_substring(id, "ambient")
        && !str_has_substring(id, "board") && !str_has_substring(id, "memory") && t.order.is_some()
}

/// The positions of the readings that enter the CPU average, or `None` when
/// there are none.
pub fn average_cpu_non_hot(temps: &Vec<TempReading>) -> (r: Option<Vec<usize>>)
    ensures
        match r {
            Some(v) => v@ == averaged_readings(temps@) && names_readings(v@, temps@.len() as int),
            None => averaged_readings(temps@).len() == 0,
        },
{
    let mut v: Vec<usize> = Vec::new();
    let mut k: usize = 0;
    while k < temps.len()
        invariant
            k <= temps@.len(),
            v@ == averaged_upto(temps@, k as int),
            forall|j: int| 0 <= j < v@.len() ==> v@[j] < k,
        decreases temps@.len() - k,
    {
        if averaged_exec(&temps[k]) {
            v.push(k);
        }
        k += 1;
    }
    if v.len() == 0 {
        None
    } else {
        Some(v)
    }
}

fn single_selection(temps: &Vec<TempReading>, i: usize, hint: Option<LabelHint>) -> (r:
    SelectedTemperature)
    requires
        i < temps@.len(),
    ensures
        Some(r@) == single(temps@, i as int, hint),
        names_readings(r.readings@, temps@.len() as int),
{
    let mut readings: Vec<usize> = Vec::new();
    readings.push(i);
    assert(readings@ =~= seq![i]);
    SelectedTemperature { id: temps[i].id.clone(), readings, label_hint: hint }
}

/// The hottest CPU reading.
pub fn hottest_cpu_temperature(temps: &Vec<TempReading>) -> (r: Option<SelectedTemperature>)
    ensures
        selection_view(r) == hottest_cpu_spec(temps@),
        r matches Some(t) ==> names_readings(t.readings@, temps@.len() as int),
{
    match hottest_index(temps, Among::Cpu) {
        Some(i) => Some(single_selection(temps, i, Some(LabelHint::Hottest))),
        None => None,
    }
}

/// The position of the hottest reading of all.
pub fn hottest_temperature(temps: &Vec<TempReading>) -> (r: Option<usize>)
    ensures
        index_view(r) == hottest_of(temps@, Among::All),
{
    hottest_index(temps, Among::All)
}

/// The CPU average reading (see `best_cpu_average_spec`).
pub fn best_cpu_average(temps: &Vec<TempReading>) -> (r: Option<SelectedTemperature>)
    ensures
        selection_view(r) == best_cpu_average_spec(temps@),
        r matches Some(t) ==> names_readings(t.readings@, temps@.len() as int),
{
    if let Some(i) = first_matching(temps, Probe::CpuDieAverage) {
        return Some(single_selection(temps, i, Some(LabelHint::CpuAverage)));
    }
    if let Some(i) = hottest_index(temps, Among::StableCpuAverage) {
        return Some(single_selection(temps, i, Some(LabelHint::CpuAverage)));
    }
    if let Some(i) = first_matching(temps, Probe::IohidDie) {
        return Some(single_selection(temps, i, Some(LabelHint::CpuAverage)));
    }
    match average_cpu_non_hot(temps) {
        Some(v) => Some(
            SelectedTemperature {
                id: String::from_str("cpu.die"),
                readings: v,
                label_hint: Some(LabelHint::CpuAverage),
            },
        ),
        None => hottest_cpu_temperature(temps),
    }
}

/// The position of the reading shown when nothing is configured: `cpu.die`,
/// else the hottest reading of all.
pub fn display_temperature(temps: &Vec<TempReading>) -> (r: Option<usize>)
    ensures
        index_view(r) == (match first_of(temps@, Probe::CpuDie) {
            Some(i) => Some(i),
            None => hottest_of(temps@, Among::All),
        }),
{
    match first_matching(temps, Probe::CpuDie) {
        Some(i) => Some(i),
        None => hottest_temperature(temps),
    }
}

/// The headline reading of the menu bar for the configured `source`.
pub fn primary_menu_temperature(temps: &Vec<TempReading>, source: TemperatureSource) -> (r: Option<
    SelectedTemperature,
>)
    ensures
        selection_view(r) == primary_spec(temps@, source),
        r matches Some(t) ==> names_readings(t.readings@, temps@.len() as int),
{
    match source {
        TemperatureSource::CoreAverage => {
            return best_cpu_average(temps);
        },
        TemperatureSource::IohidTdie => {
            if let Some(i) = first_matching(temps, Probe::IohidTdie) {
                return Some(single_selection(temps, i, None));
            }
            if let Some(i) = first_matching(temps, Probe::IohidCpu) {
                return Some(single_selection(temps, i, None));
            }
        },
        TemperatureSource::SmcSummary => {
            if let Some(i) = first_matching(temps, Probe::SmcSummary) {
                return Some(single_selection(temps, i, None));
            }
        },
        TemperatureSource::SmcAggregate => {
            if let Some(i) = first_matching(temps, Probe::SmcAggregate) {
                return Some(single_selection(temps, i, None));
            }
        },
        TemperatureSource::Hottest => {
            if let Some(i) = first_matching(temps, Probe::DieHot) {
                return Some(single_selection(temps, i, None));
            }
            if let Some(i) = first_matching(temps, Probe::HotCpu) {
                let mut readings: Vec<usize> = Vec::new();
                readings.push(i);
                assert(readings@ =~= seq![i]);
                return Some(
                    SelectedTemperature {
                        id: String::from_str("cpu.die.hot"),
                        readings,
                        label_hint: None,
                    },
                );
            }
        },
    }
    let preferred = if source == TemperatureSource::Hottest {
        hottest_cpu_temperature(temps)
    } else {
        best_cpu_average(temps)
    };
    match preferred {
        Some(t) => Some(t),
        None => match hottest_index(temps, Among::All) {
            Some(i) => {
                let hint = if temps[i].kind == SensorKind::Cpu {
                    LabelHint::Hottest
                } else {
                    LabelHint::System
                };
                Some(single_selection(temps, i, Some(hint)))
            },
            None => None,
        },
    }
}

/// The name the selected reading is shown under; empty without one.
pub fn display_temperature_source(lang: ResolvedLanguage, sensor: Option<&SelectedTemperature>) -> (r:
    String)
    ensures
        r@ == (match sensor {
            Some(t) => source_name(lang, t.id@, t.label_hint),
            None => Seq::<char>::empty(),
        }),
{
    let t = match sensor {
        Some(t) => t,
        None => {
            return String::new();
        },
    };
    let id = t.id.as_str();
    let hottest = match t.label_hint {
        Some(LabelHint::Hottest) => true,
        _ => false,
    };
    let name: &str = if str_eq(id, "cpu.smc.die") {
        match lang {
            ResolvedLanguage::Ko => "CPU 다이",
            ResolvedLanguage::En => "CPU die",
        }
    } else if str_eq(id, "cpu.iohid.cpu") || str_eq(id, "cpu.iohid.cpu.hot") {
        match lang {
            ResolvedLanguage::Ko => "CPU 다이",
            ResolvedLanguage::En => "CPU IOHID CPU",
        }
    } else if str_eq(id, "cpu.iohid.tdie") {
        match lang {
            ResolvedLanguage::Ko => "CPU 다이",
            ResolvedLanguage::En => "CPU Tdie",
        }
    } else if str_eq(id, "cpu.smc.aggregate") {
        match lang {
            ResolvedLanguage::Ko => "SMC 집계",
            ResolvedLanguage::En => "SMC aggregate",
        }
    } else if str_eq(id, "cpu.smc.summary") {
        match lang {
            ResolvedLanguage::Ko => "SMC 요약",
            ResolvedLanguage::En => "SMC summary",
        }
    } else if str_eq(id, "cpu.die") && !hottest {
        "CPU Core Average"
    } else if str_starts_with(id, "system.acpi.thermal_zone.") {
        match lang {
            ResolvedLanguage::Ko => "시스템 열 영역",
            ResolvedLanguage::En => "System thermal zone",
        }
    } else if hottest || str_has_substring(id, "hot") {
        match lang {
            ResolvedLanguage::Ko => "최고",
            ResolvedLanguage::En => "hottest",
        }
    } else {
        id
    };
    String::from_str(name)
}

/// The name the selected reading is shown under, next to the readings it was
/// chosen from (which do not change the name).
pub fn display_temperature_source_for_temps(
    lang: ResolvedLanguage,
    temps: &Vec<TempReading>,
    sensor: Option<&SelectedTemperature>,
) -> (r: String)
    ensures
        r@ == (match sensor {
            Some(t) => source_name(lang, t.id@, t.label_hint),
            None => Seq::<char>::empty(),
        }),
{
    display_temperature_source(lang, sensor)
}

} // verus!

verus! {

/// The positions `v` name at least one reading, each among the first `n`.
pub open spec fn names_readings(v: Seq<usize>, n: int) -> bool {
    v.len() > 0 && forall|k: int| 0 <= k < v.len() ==> v[k] < n
}

proof fn lemma_running_max(s: Seq<TempReading>, f: Among, n: int)
    requires
        0 <= n <= s.len(),
        forall|j: int| 0 <= j < n && #[trigger] among(f, s[j]) ==> s[j].order is Some,
    ensures
        running_max(s, f, n) is None <==> forall|j: int| 0 <= j < n ==> !#[trigger] among(f, s[j]),
        running_max(s, f, n) matches Some(r) ==> {
            &&& 0 <= r < n
            &&& among(f, s[r])
            &&& forall|j: int|
                0 <= j < n && #[trigger] among(f, s[j]) ==> s[j].order->0 <= s[r].order->0
            &&& forall|j: int|
                r < j < n && #[trigger] among(f, s[j]) ==> s[j].order->0 < s[r].order->0
        },
    decreases n,
{
    if n > 0 {
        lemma_running_max(s, f, n - 1);
    }
}

/// The hottest reading is the hottest: when every reading that `f` admits is
/// a number, there is a hottest one exactly when `f` admits some reading, no
/// admitted reading is hotter than it, and every admitted reading after it is
/// colder.
pub proof fn lemma_hottest_reading_is_hottest(s: Seq<TempReading>, f: Among)
    requires
        forall|j: int| 0 <= j < s.len() && #[trigger] among(f, s[j]) ==> s[j].order is Some,
    ensures
        hottest_of(s, f) is None <==> forall|j: int| 0 <= j < s.len() ==> !#[trigger] among(f, s[j]),
        hottest_of(s, f) matches Some(r) ==> {
            &&& 0 <= r < s.len()
            &&& among(f, s[r])
            &&& forall|j: int|
                0 <= j < s.len() && #[trigger] among(f, s[j]) ==> s[j].order->0 <= s[r].order->0
            &&& forall|j: int|
                r < j < s.len() && #[trigger] among(f, s[j]) ==> s[j].order->0 < s[r].order->0
        },
{
    lemma_running_max(s, f, s.len() as int);
}

proof fn lemma_nothing_admitted_has_no_hottest(s: Seq<TempReading>, f: Among)
    requires
        forall|j: int| 0 <= j < s.len() ==> !#[trigger] among(f, s[j]),
    ensures
        hottest_of(s, f) is None,
{
    lemma_running_max(s, f, s.len() as int);
}

proof fn lemma_first_of_is(s: Seq<TempReading>, p: Probe, i: int)
    requires
        0 <= i < s.len(),
        holds(p, s[i]),
        forall|j: int| 0 <= j < i ==> !#[trigger] holds(p, s[j]),
    ensures
        first_of(s, p) == Some(i),
{
    let c = choose|k: int|
        0 <= k < s.len() && #[trigger] holds(p, s[k]) && forall|j: int| 0 <= j < k ==> !holds(p, s[j]);
    assert(0 <= i < s.len() && holds(p, s[i]) && forall|j: int| 0 <= j < i ==> !holds(p, s[j]));
    if c < i {
        assert(!holds(p, s[c]));
    } else if c > i {
        assert(!holds(p, s[i]));
    }
}

/// Without a `cpu.die` CPU reading and without any stable SMC CPU reading
/// (`cpu.smc.die`, `cpu.smc.aggregate`, `cpu.smc.summary`), an IOHID die
/// reading (`cpu.iohid.tdie` or `cpu.iohid.cpu`) is the CPU average on its
/// own: the first such reading, alone, with the CPU-average hint; the plain
/// CPU readings are then not averaged. The menu bar's default headline is
/// the same.
pub proof fn lemma_iohid_die_reading_heads_cpu_average(s: Seq<TempReading>, i: int)
    requires
        0 <= i < s.len(),
        s[i].id@ == "cpu.iohid.tdie"@ || s[i].id@ == "cpu.iohid.cpu"@,
        forall|j: int|
            0 <= j < i ==> !(#[trigger] s[j].id@ == "cpu.iohid.tdie"@ || s[j].id@ == "cpu.iohid.cpu"@),
        forall|j: int|
            0 <= j < s.len() && #[trigger] s[j].kind == SensorKind::Cpu ==> s[j].id@ != "cpu.die"@
                && s[j].id@ != "cpu.smc.die"@ && s[j].id@ != "cpu.smc.aggregate"@ && s[j].id@
                != "cpu.smc.summary"@,
    ensures
        best_cpu_average_spec(s) == Some(
            (s[i].id@, seq![i as usize], Some(LabelHint::CpuAverage)),
        ),
        primary_spec(s, TemperatureSource::CoreAverage) == best_cpu_average_spec(s),
{
    assert forall|j: int| 0 <= j < s.len() implies !#[trigger] holds(Probe::CpuDieAverage, s[j]) by {
        if s[j].kind == SensorKind::Cpu {
            assert(s[j].id@ != "cpu.die"@);
        }
    }
    assert(first_of(s, Probe::CpuDieAverage) is None);
    assert forall|j: int| 0 <= j < s.len() implies !#[trigger] among(Among::StableCpuAverage, s[j]) by {
        if s[j].kind == SensorKind::Cpu {
            assert(!is_stable_cpu_average_id(s[j].id@));
        }
    }
    lemma_nothing_admitted_has_no_hottest(s, Among::StableCpuAverage);
    assert forall|j: int| 0 <= j < i implies !#[trigger] holds(Probe::IohidDie, s[j]) by {
        assert(!(s[j].id@ == "cpu.iohid.tdie"@ || s[j].id@ == "cpu.iohid.cpu"@));
    }
    lemma_first_of_is(s, Probe::IohidDie, i);
}

/// The SMC summary reading is named as such, "SMC summary" (in Korean
/// "SMC 요약"), whatever it was chosen for, and never under the SMC
/// aggregate reading's name.
pub proof fn lemma_smc_summary_has_its_own_name(lang: ResolvedLanguage, hint: Option<LabelHint>, other: Option<LabelHint>)
    ensures
        source_name(lang, "cpu.smc.summary"@, hint) == (match lang {
            ResolvedLanguage::En => "SMC summary"@,
            ResolvedLanguage::Ko => "SMC 요약"@,
        }),
        source_name(lang, "cpu.smc.summary"@, hint) != source_name(lang, "cpu.smc.aggregate"@, other),
{
    reveal_strlit("cpu.smc.summary");
    reveal_strlit("cpu.smc.aggregate");
    reveal_strlit("cpu.smc.die");
    reveal_strlit("cpu.iohid.cpu");
    reveal_strlit("cpu.iohid.cpu.hot");
    reveal_strlit("cpu.iohid.tdie");
    reveal_strlit("SMC summary");
    reveal_strlit("SMC aggregate");
    reveal_strlit("SMC 요약");
    reveal_strlit("SMC 집계");
    assert("cpu.smc.summary"@ != "cpu.smc.aggregate"@) by {
        assert("cpu.smc.summary"@[8] != "cpu.smc.aggregate"@[8]);
    }
    assert("cpu.smc.summary"@ != "cpu.smc.die"@) by {
        assert("cpu.smc.summary"@.len() != "cpu.smc.die"@.len());
    }
    assert("cpu.smc.summary"@ != "cpu.iohid.cpu"@) by {
        assert("cpu.smc.summary"@[4] != "cpu.iohid.cpu"@[4]);
    }
    assert("cpu.smc.summary"@ != "cpu.iohid.cpu.hot"@) by {
        assert("cpu.smc.summary"@[4] != "cpu.iohid.cpu.hot"@[4]);
    }
    assert("cpu.smc.summary"@ != "cpu.iohid.tdie"@) by {
        assert("cpu.smc.summary"@[4] != "cpu.iohid.tdie"@[4]);
    }
    assert("cpu.smc.aggregate"@ != "cpu.smc.die"@) by {
        assert("cpu.smc.aggregate"@.len() != "cpu.smc.die"@.len());
    }
    assert("cpu.smc.aggregate"@ != "cpu.iohid.cpu"@) by {
        assert("cpu.smc.aggregate"@[4] != "cpu.iohid.cpu"@[4]);
    }
    assert("cpu.smc.aggregate"@ != "cpu.iohid.cpu.hot"@) by {
        assert("cpu.smc.aggregate"@[4] != "cpu.iohid.cpu.hot"@[4]);
    }
    assert("cpu.smc.aggregate"@ != "cpu.iohid.tdie"@) by {
        assert("cpu.smc.aggregate"@[4] != "cpu.iohid.tdie"@[4]);
    }
    assert("SMC summary"@ != "SMC aggregate"@) by {
        assert("SMC summary"@[4] != "SMC aggregate"@[4]);
    }
    assert("SMC 요약"@ != "SMC 집계"@) by {
        assert("SMC 요약"@[4] != "SMC 집계"@[4]);
    }
}

} // verus!
