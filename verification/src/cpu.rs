//! CPU cores: the SMC temperature keys of Apple M3 cores, and how per-core
//! usage is grouped into performance and efficiency clusters.
use vstd::prelude::*;
use crate::text::{
    ascii_lower, chars_of, has_substring, parse_usize, parse_usize_spec, str_has_substring,
    string_of_range, to_ascii_lowercase, trim, trim_bounds,
};
use crate::commands::views;
use crate::version::split_on;

verus! {

/// The class of an Apple Silicon CPU core.
#[derive(Clone, Copy, Debug, PartialEq, Eq, Structural)]
pub enum CpuCoreClass {
    Efficiency,
    Performance,
}

/// The name of a core class.
pub fn cpu_core_class_label(class: CpuCoreClass) -> (r: &'static str)
    ensures
        r@ == (match class {
            CpuCoreClass::Efficiency => "efficiency"@,
            CpuCoreClass::Performance => "performance"@,
        }),
{
    match class {
        CpuCoreClass::Efficiency => "efficiency",
        CpuCoreClass::Performance => "performance",
    }
}

/// An SMC key that reads one core's temperature.
#[derive(Clone, Copy, Debug, PartialEq, Eq)]
pub struct CpuCoreTempKey {
    pub key: &'static str,
    pub class: CpuCoreClass,
}

/// The per-core temperature keys of the M3 family: four efficiency cores and
/// twelve performance cores.
pub open spec fn m3_core_keys() -> Seq<(Seq<char>, CpuCoreClass)> {
    seq![
        ("Te05"@, CpuCoreClass::Efficiency),
        ("Te0L"@, CpuCoreClass::Efficiency),
        ("Te0P"@, CpuCoreClass::Efficiency),
        ("Te0S"@, CpuCoreClass::Efficiency),
        ("Tf04"@, CpuCoreClass::Performance),
        ("Tf09"@, CpuCoreClass::Performance),
        ("Tf0A"@, CpuCoreClass::Performance),
        ("Tf0B"@, CpuCoreClass::Performance),
        ("Tf0D"@, CpuCoreClass::Performance),
        ("Tf0E"@, CpuCoreClass::Performance),
        ("Tf44"@, CpuCoreClass::Performance),
        ("Tf49"@, CpuCoreClass::Performance),
        ("Tf4A"@, CpuCoreClass::Performance),
        ("Tf4B"@, CpuCoreClass::Performance),
        ("Tf4D"@, CpuCoreClass::Performance),
        ("Tf4E"@, CpuCoreClass::Performance),
    ]
}

/// The per-core temperature keys of the M3 family.
pub fn m3_cpu_core_temp_keys() -> (r: Vec<CpuCoreTempKey>)
    ensures
        r@.map_values(|k: CpuCoreTempKey| (k.key@, k.class)) == m3_core_keys(),
{
    let e = CpuCoreClass::Efficiency;
    let p = CpuCoreClass::Performance;
    let r = vec![
        CpuCoreTempKey { key: "Te05", class: e },
        CpuCoreTempKey { key: "Te0L", class: e },
        CpuCoreTempKey { key: "Te0P", class: e },
        CpuCoreTempKey { key: "Te0S", class: e },
        CpuCoreTempKey { key: "Tf04", class: p },
        CpuCoreTempKey { key: "Tf09", class: p },
        CpuCoreTempKey { key: "Tf0A", class: p },
        CpuCoreTempKey { key: "Tf0B", class: p },
        CpuCoreTempKey { key: "Tf0D", class: p },
        CpuCoreTempKey { key: "Tf0E", class: p },
        CpuCoreTempKey { key: "Tf44", class: p },
        CpuCoreTempKey { key: "Tf49", class: p },
        CpuCoreTempKey { key: "Tf4A", class: p },
        CpuCoreTempKey { key: "Tf4B", class: p },
        CpuCoreTempKey { key: "Tf4D", class: p },
        CpuCoreTempKey { key: "Tf4E", class: p },
    ];
    assert(r@.map_values(|k: CpuCoreTempKey| (k.key@, k.class)) =~= m3_core_keys());
    r
}

/// The characters of each key.
pub open spec fn key_views(keys: Seq<&'static str>) -> Seq<Seq<char>> {
    keys.map_values(|k: &'static str| k@)
}

/// The CPU summary key of the M3 family, a live floor for the headline.
pub fn m3_cpu_summary_temp_keys() -> (r: Vec<&'static str>)
    ensures
        key_views(r@) == seq!["TCDX"@],
{
    let r = vec!["TCDX"];
    assert(key_views(r@) =~= seq!["TCDX"@]);
    r
}

/// The aggregate CPU keys of the M3 family, which track the core average.
pub fn m3_cpu_core_average_temp_keys() -> (r: Vec<&'static str>)
    ensures
        key_views(r@) == seq!["TV0s"@, "TV1s"@, "TVsa"@, "TVss"@],
{
    let r = vec!["TV0s", "TV1s", "TVsa", "TVss"];
    assert(key_views(r@) =~= seq!["TV0s"@, "TV1s"@, "TVsa"@, "TVss"@]);
    r
}

/// The CPU die and hotspot keys of the M3 family, reported as the hottest reading.
pub fn m3_cpu_hotspot_temp_keys() -> (r: Vec<&'static str>)
    ensures
        key_views(r@) == seq!["TVD0"@, "TCMb"@],
{
    let r = vec!["TVD0", "TCMb"];
    assert(key_views(r@) =~= seq!["TVD0"@, "TCMb"@]);
    r
}

/// A run of logical CPUs of one kind, with the usage of each.
#[derive(Clone, Debug, PartialEq)]
pub struct CpuCoreGroup<T> {
    pub kind: &'static str,
    pub start_index: usize,
    pub usages: Vec<T>,
}

/// `a + b`, or `usize::MAX` when that does not fit.
pub open spec fn saturating_sum(a: usize, b: usize) -> int {
    if a + b > usize::MAX {
        usize::MAX as int
    } else {
        a + b
    }
}

/// The cluster counts describe `len` logical CPUs: both clusters are
/// non-empty and together they cover every CPU.
pub open spec fn counts_fit(counts: Option<(usize, usize)>, len: int) -> bool {
    counts matches Some((p, e)) && p > 0 && e > 0 && saturating_sum(p, e) == len
}

/// The efficiency-cluster count, when there are counts.
pub open spec fn efficiency_count(counts: Option<(usize, usize)>) -> usize {
    match counts {
        Some((_, e)) => e,
        None => 0,
    }
}

fn copy_range<T: Copy>(v: &[T], from: usize, to: usize) -> (r: Vec<T>)
    requires
        from <= to <= v@.len(),
    ensures
        r@ == v@.subrange(from as int, to as int),
{
    let mut out: Vec<T> = Vec::new();
    let mut i: usize = from;
    while i < to
        invariant
            from <= i <= to <= v@.len(),
            out@ == v@.subrange(from as int, i as int),
        decreases to - i,
    {
        out.push(v[i]);
        assert(out@ =~= v@.subrange(from as int, i + 1));
        i += 1;
    }
    out
}

/// Groups per-core usage by cluster. With counts that fit, the efficiency
/// cluster comes first (Apple numbers its logical CPUs that way), then the
/// performance cluster; otherwise all CPUs form one `logical` group.
pub fn cpu_core_groups_for_layout<T: Copy>(
    per_core: &[T],
    performance_efficiency_counts: Option<(usize, usize)>,
) -> (r: Vec<CpuCoreGroup<T>>)
    ensures
        counts_fit(performance_efficiency_counts, per_core@.len() as int) ==> ({
            let e = efficiency_count(performance_efficiency_counts);
            &&& r@.len() == 2
            &&& r@[0].kind@ == "efficiency"@
            &&& r@[0].start_index == 0
            &&& r@[0].usages@ == per_core@.take(e as int)
            &&& r@[1].kind@ == "performance"@
            &&& r@[1].start_index == e
            &&& r@[1].usages@ == per_core@.skip(e as int)
        }),
        !counts_fit(performance_efficiency_counts, per_core@.len() as int) ==> ({
            &&& r@.len() == 1
            &&& r@[0].kind@ == "logical"@
            &&& r@[0].start_index == 0
            &&& r@[0].usages@ == per_core@
        }),
{
    if let Some((performance, efficiency)) = performance_efficiency_counts {
        let total = performance.saturating_add(efficiency);
        if performance > 0 && efficiency > 0 && total == per_core.len() {
            let n = per_core.len();
            let mut r: Vec<CpuCoreGroup<T>> = Vec::new();
            r.push(
                CpuCoreGroup {
                    kind: "efficiency",
                    start_index: 0,
                    usages: copy_range(per_core, 0, efficiency),
                },
            );
            r.push(
                CpuCoreGroup {
                    kind: "performance",
                    start_index: efficiency,
                    usages: copy_range(per_core, efficiency, n),
                },
            );
            return r;
        }
    }
    let n = per_core.len();
    let mut r: Vec<CpuCoreGroup<T>> = Vec::new();
    r.push(CpuCoreGroup { kind: "logical", start_index: 0, usages: copy_range(per_core, 0, n) });
    assert(per_core@.subrange(0, n as int) =~= per_core@);
    r
}

/// The trimmed lines of `lines` that are not blank, in order.
pub open spec fn nonblank_lines(lines: Seq<Seq<char>>) -> Seq<Seq<char>>
    decreases lines.len(),
{
    if lines.len() == 0 {
        Seq::<Seq<char>>::empty()
    } else {
        let p = nonblank_lines(lines.drop_last());
        if trim(lines.last()).len() > 0 {
            p.push(trim(lines.last()))
        } else {
            p
        }
    }
}

/// The trimmed non-blank lines of `s`.
pub fn nonblank_trimmed_lines(s: &str) -> (r: Vec<String>)
    ensures
        views(r@) == nonblank_lines(split_on(s@, '\n')),
{
    let v = chars_of(s);
    let n = v.len();
    let mut line_start: usize = 0;
    let mut out: Vec<String> = Vec::new();
    let ghost mut parts: Seq<Seq<char>> = seq![Seq::<char>::empty()];
    let mut i: usize = 0;
    assert(v@.take(0) =~= Seq::<char>::empty());
    while i < n
        invariant
            v@ == s@,
            n == v@.len(),
            line_start <= i <= n,
            parts == split_on(v@.take(i as int), '\n'),
            parts.len() >= 1,
            parts.last() == v@.subrange(line_start as int, i as int),
            views(out@) == nonblank_lines(parts.drop_last()),
        decreases n - i,
    {
        let c = v[i];
        let ghost pre = v@.take(i as int);
        assert(v@.take(i + 1) =~= pre.push(c));
        assert(pre.push(c).drop_last() =~= pre);
        if c == '\n' {
            let (a, b) = trim_bounds(&v, line_start, i);
            proof {
                let old_parts = parts;
                parts = parts.push(Seq::<char>::empty());
                assert(parts.drop_last() =~= old_parts);
            }
            if a < b {
                let t = string_of_range(&v, a, b);
                let ghost before = views(out@);
                out.push(t);
                assert(views(out@) =~= before.push(t@));
            }
            line_start = i + 1;
            assert(v@.subrange(line_start as int, i + 1) =~= Seq::<char>::empty());
        } else {
            proof {
                let old_parts = parts;
                parts = parts.update(parts.len() - 1, parts.last().push(c));
                assert(parts.drop_last() =~= old_parts.drop_last());
                assert(parts.last() =~= v@.subrange(line_start as int, i + 1));
            }
        }
        i += 1;
    }
    assert(v@.take(n as int) =~= s@);
    let (a, b) = trim_bounds(&v, line_start, n);
    if a < b {
        let t = string_of_range(&v, a, b);
        let ghost before = views(out@);
        out.push(t);
        assert(views(out@) =~= before.push(t@));
    }
    out
}

/// The cluster whose lower-cased name mentions `word`, first or second, and
/// its count.
pub open spec fn cluster_count_named(
    name0: Seq<char>,
    count0: usize,
    name1: Seq<char>,
    count1: usize,
    word: Seq<char>,
) -> Option<usize> {
    if has_substring(ascii_lower(name0), word) {
        Some(count0)
    } else if has_substring(ascii_lower(name1), word) {
        Some(count1)
    } else {
        None
    }
}

/// The performance and efficiency core counts in the output of
/// `sysctl -n hw.perflevel0.name hw.perflevel0.logicalcpu hw.perflevel1.name
/// hw.perflevel1.logicalcpu`: exactly four non-blank values, two names each
/// followed by a count, and one name mentioning each cluster.
pub open spec fn cluster_counts(stdout: Seq<char>) -> Option<(usize, usize)> {
    let v = nonblank_lines(split_on(stdout, '\n'));
    if v.len() != 4 {
        None
    } else {
        match (parse_usize_spec(v[1]), parse_usize_spec(v[3])) {
            (Some(c0), Some(c1)) => match (
                cluster_count_named(v[0], c0, v[2], c1, "performance"@),
                cluster_count_named(v[0], c0, v[2], c1, "efficiency"@),
            ) {
                (Some(p), Some(e)) => Some((p, e)),
                _ => None,
            },
            _ => None,
        }
    }
}

fn count_named(name0: &str, count0: usize, name1: &str, count1: usize, word: &str) -> (r: Option<
    usize,
>)
    ensures
        r == cluster_count_named(name0@, count0, name1@, count1, word@),
{
    let l0 = to_ascii_lowercase(name0);
    if str_has_substring(l0.as_str(), word) {
        return Some(count0);
    }
    let l1 = to_ascii_lowercase(name1);
    if str_has_substring(l1.as_str(), word) {
        return Some(count1);
    }
    None
}

/// The performance and efficiency core counts reported by `sysctl`.
pub fn cluster_counts_from_sysctl(stdout: &str) -> (r: Option<(usize, usize)>)
    ensures
        r == cluster_counts(stdout@),
{
    let values = nonblank_trimmed_lines(stdout);
    if values.len() != 4 {
        return None;
    }
    let ghost v = views(values@);
    assert(v[0] == values@[0]@ && v[1] == values@[1]@ && v[2] == values@[2]@ && v[3]
        == values@[3]@);
    let c0 = match parse_usize(values[1].as_str()) {
        Some(c) => c,
        None => return None,
    };
    let c1 = match parse_usize(values[3].as_str()) {
        Some(c) => c,
        None => return None,
    };
    let p = count_named(values[0].as_str(), c0, values[2].as_str(), c1, "performance");
    let e = count_named(values[0].as_str(), c0, values[2].as_str(), c1, "efficiency");
    match (p, e) {
        (Some(p), Some(e)) => Some((p, e)),
        _ => None,
    }
}

} // verus!
