//! The Apple Silicon CPU headline: which family of readings the CPU average
//! is taken over, and which reading is the hottest. Readings enter by their
//! ordering keys (see `float_order`); the mean itself is the caller's.
use vstd::prelude::*;
use crate::cpu::CpuCoreClass;
use crate::float_order::f32_order_key;

verus! {

/// The family of readings the CPU average is taken over.
#[derive(Clone, Copy, Debug, PartialEq, Eq, Structural)]
pub enum CpuFamily {
    /// The performance cores.
    Performance,
    /// Every core.
    AllCores,
    /// The SMC aggregate readings.
    Aggregate,
    /// The SMC summary readings.
    Summary,
    /// The die hotspot readings.
    Hotspot,
}

/// The ordering key of 0 °C.
pub const ZERO_KEY: u64 = 0x8000_0000;

/// The ordering key of 70 °C, the hotspot reading at and above which the die
/// hotspot counts as active.
pub const HOTSPOT_ACTIVE_FLOOR_KEY: u64 = 0xc28c_0000;

/// The two named keys are those of 0 °C and of 70 °C (the `f32` bit
/// patterns `0` and `0x428c_0000`).
pub proof fn lemma_named_keys()
    ensures
        ZERO_KEY == f32_order_key(0u32),
        HOTSPOT_ACTIVE_FLOOR_KEY == f32_order_key(0x428c_0000u32),
{
    assert(0u32 & 0x7fff_ffffu32 == 0u32) by (bit_vector);
    assert(0u32 & 0x8000_0000u32 == 0u32) by (bit_vector);
    assert(0x428c_0000u32 & 0x7fff_ffffu32 == 0x428c_0000u32) by (bit_vector);
    assert(0x428c_0000u32 & 0x8000_0000u32 == 0u32) by (bit_vector);
}

/// Some core of `classes` is a performance core.
pub open spec fn has_performance_core(classes: Seq<CpuCoreClass>) -> bool {
    exists|i: int| 0 <= i < classes.len() && classes[i] == CpuCoreClass::Performance
}

/// The first family that has readings, in the order performance cores, all
/// cores, aggregate, summary, hotspot; none when no family has any.
pub open spec fn average_family(
    classes: Seq<CpuCoreClass>,
    aggregate: nat,
    summary: nat,
    hotspot: nat,
) -> Option<CpuFamily> {
    if has_performance_core(classes) {
        Some(CpuFamily::Performance)
    } else if classes.len() > 0 {
        Some(CpuFamily::AllCores)
    } else if aggregate > 0 {
        Some(CpuFamily::Aggregate)
    } else if summary > 0 {
        Some(CpuFamily::Summary)
    } else if hotspot > 0 {
        Some(CpuFamily::Hotspot)
    } else {
        None
    }
}

/// The family the CPU average is taken over, given the classes of the core
/// readings and how many aggregate, summary and hotspot readings there are.
pub fn cpu_average_family(
    core_classes: &Vec<CpuCoreClass>,
    aggregate: usize,
    summary: usize,
    hotspot: usize,
) -> (r: Option<CpuFamily>)
    ensures
        r == average_family(core_classes@, aggregate as nat, summary as nat, hotspot as nat),
{
    let mut i: usize = 0;
    while i < core_classes.len()
        invariant
            i <= core_classes@.len(),
            forall|k: int| 0 <= k < i ==> core_classes@[k] != CpuCoreClass::Performance,
        decreases core_classes@.len() - i,
    {
        if core_classes[i] == CpuCoreClass::Performance {
            return Some(CpuFamily::Performance);
        }
        i += 1;
    }
    if core_classes.len() > 0 {
        Some(CpuFamily::AllCores)
    } else if aggregate > 0 {
        Some(CpuFamily::Aggregate)
    } else if summary > 0 {
        Some(CpuFamily::Summary)
    } else if hotspot > 0 {
        Some(CpuFamily::Hotspot)
    } else {
        None
    }
}

/// The larger of two readings by key, as `f32::max` picks it: a reading that
/// is not a number (`None`) gives way to the other.
pub open spec fn max_key(a: Option<u64>, b: Option<u64>) -> Option<u64> {
    match (a, b) {
        (None, _) => b,
        (_, None) => a,
        (Some(x), Some(y)) => Some(if x >= y { x } else { y }),
    }
}

/// The readings `s` folded from `init` with `max_key`.
pub open spec fn fold_max(init: Option<u64>, s: Seq<Option<u64>>) -> Option<u64>
    decreases s.len(),
{
    if s.len() == 0 {
        init
    } else {
        max_key(fold_max(init, s.drop_last()), s.last())
    }
}

/// The hottest of a family, floored at 0 °C; none when it has no readings.
pub open spec fn family_hot(s: Seq<Option<u64>>) -> Option<u64> {
    if s.len() > 0 {
        fold_max(Some(ZERO_KEY), s)
    } else {
        None
    }
}

/// The CPU hottest reading: the largest of the average, the hottest core,
/// the hottest summary reading, and the hottest hotspot reading when it is
/// at least 70 °C. `None` only when the average is not a number and nothing
/// else counts.
pub open spec fn hot_key(
    average: Option<u64>,
    cores: Seq<Option<u64>>,
    summary: Seq<Option<u64>>,
    hotspot: Seq<Option<u64>>,
) -> Option<u64> {
    let active = match family_hot(hotspot) {
        Some(k) => if k >= HOTSPOT_ACTIVE_FLOOR_KEY {
            Some(k)
        } else {
            None
        },
        None => None,
    };
    max_key(max_key(max_key(average, family_hot(cores)), family_hot(summary)), active)
}

fn max_key_exec(a: Option<u64>, b: Option<u64>) -> (r: Option<u64>)
    ensures
        r == max_key(a, b),
{
    match (a, b) {
        (None, _) => b,
        (_, None) => a,
        (Some(x), Some(y)) => Some(
            if x >= y {
                x
            } else {
                y
            },
        ),
    }
}

fn family_hot_exec(keys: &Vec<Option<u64>>) -> (r: Option<u64>)
    ensures
        r == family_hot(keys@),
{
    if keys.len() == 0 {
        return None;
    }
    let mut acc: Option<u64> = Some(ZERO_KEY);
    let mut i: usize = 0;
    while i < keys.len()
        invariant
            i <= keys@.len(),
            acc == fold_max(Some(ZERO_KEY), keys@.take(i as int)),
        decreases keys@.len() - i,
    {
        assert(keys@.take(i + 1).drop_last() =~= keys@.take(i as int));
        acc = max_key_exec(acc, keys[i]);
        i += 1;
    }
    assert(keys@.take(keys@.len() as int) =~= keys@);
    acc
}

/// The key of the CPU hottest reading, given the key of the CPU average and
/// the keys of the core, summary and hotspot readings.
pub fn cpu_hot_key(
    average: Option<u64>,
    core_keys: &Vec<Option<u64>>,
    summary_keys: &Vec<Option<u64>>,
    hotspot_keys: &Vec<Option<u64>>,
) -> (r: Option<u64>)
    ensures
        r == hot_key(average, core_keys@, summary_keys@, hotspot_keys@),
{
    let active = match family_hot_exec(hotspot_keys) {
        Some(k) => if k >= HOTSPOT_ACTIVE_FLOOR_KEY {
            Some(k)
        } else {
            None
        },
        None => None,
    };
    let with_cores = max_key_exec(average, family_hot_exec(core_keys));
    let with_summary = max_key_exec(with_cores, family_hot_exec(summary_keys));
    max_key_exec(with_summary, active)
}

/// The hottest reading is never below the average: whenever the average is
/// a number, the hottest is one too, with a key at least the average's.
pub proof fn lemma_hot_at_least_average(
    average: u64,
    cores: Seq<Option<u64>>,
    summary: Seq<Option<u64>>,
    hotspot: Seq<Option<u64>>,
)
    ensures
        hot_key(Some(average), cores, summary, hotspot) matches Some(h) && h >= average,
{
}

} // verus!
