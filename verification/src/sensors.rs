//! Temperature sensors: how raw sensor names are classified, given stable
//! ids, and labelled for the dashboard.
use vstd::prelude::*;
use crate::commands::{lowercase, str_to_lowercase};
use crate::settings::{ResolvedLanguage, RunnerCharacter, SensorKind, TemperatureSource};
use crate::text::{
    ascii_lower_char, char_ascii_lower, chars_of, has_substring, str_eq, str_has_substring,
    string_of_range,
};

verus! {

/// The kind a lower-cased raw sensor name belongs to.
pub open spec fn kind_of_lowered(lower: Seq<char>) -> SensorKind {
    if has_substring(lower, "battery"@) || has_substring(lower, "gas gauge"@) {
        SensorKind::Battery
    } else if has_substring(lower, "nand"@) || has_substring(lower, "ssd"@) {
        SensorKind::Storage
    } else if has_substring(lower, "gpu"@) {
        SensorKind::Gpu
    } else if has_substring(lower, "memory"@) || has_substring(lower, "dram"@) {
        SensorKind::Memory
    } else if has_substring(lower, "tdie"@) || has_substring(lower, "cpu"@) {
        SensorKind::Cpu
    } else {
        SensorKind::Other
    }
}

/// The kind a lower-cased raw sensor name belongs to.
pub fn sensor_kind_of_lowered(lower: &str) -> (r: SensorKind)
    ensures
        r == kind_of_lowered(lower@),
{
    if str_has_substring(lower, "battery") || str_has_substring(lower, "gas gauge") {
        SensorKind::Battery
    } else if str_has_substring(lower, "nand") || str_has_substring(lower, "ssd") {
        SensorKind::Storage
    } else if str_has_substring(lower, "gpu") {
        SensorKind::Gpu
    } else if str_has_substring(lower, "memory") || str_has_substring(lower, "dram") {
        SensorKind::Memory
    } else if str_has_substring(lower, "tdie") || str_has_substring(lower, "cpu") {
        SensorKind::Cpu
    } else {
        SensorKind::Other
    }
}

/// The kind of a raw HID sensor, by the words in its lower-cased name.
pub fn hid_sensor_kind(name: &str) -> (r: SensorKind)
    ensures
        r == kind_of_lowered(lowercase(name@)),
{
    let lower = str_to_lowercase(name);
    sensor_kind_of_lowered(lower.as_str())
}

/// The heading of a group of sensors of one kind.
pub fn sensor_group_label(lang: ResolvedLanguage, kind: SensorKind) -> (r: &'static str)
    ensures
        r@ == (match (lang, kind) {
            (_, SensorKind::Cpu) => "CPU"@,
            (_, SensorKind::Gpu) => "GPU"@,
            (ResolvedLanguage::Ko, SensorKind::Memory) => "메모리"@,
            (ResolvedLanguage::Ko, SensorKind::Storage) => "저장장치"@,
            (ResolvedLanguage::Ko, SensorKind::Mainboard) => "메인보드"@,
            (ResolvedLanguage::Ko, SensorKind::Battery) => "배터리"@,
            (ResolvedLanguage::Ko, SensorKind::Other) => "기타"@,
            (ResolvedLanguage::En, SensorKind::Memory) => "Memory"@,
            (ResolvedLanguage::En, SensorKind::Storage) => "Storage"@,
            (ResolvedLanguage::En, SensorKind::Mainboard) => "Mainboard"@,
            (ResolvedLanguage::En, SensorKind::Battery) => "Battery"@,
            (ResolvedLanguage::En, SensorKind::Other) => "Other"@,
        }),
{
    match (lang, kind) {
        (_, SensorKind::Cpu) => "CPU",
        (_, SensorKind::Gpu) => "GPU",
        (ResolvedLanguage::Ko, SensorKind::Memory) => "메모리",
        (ResolvedLanguage::Ko, SensorKind::Storage) => "저장장치",
        (ResolvedLanguage::Ko, SensorKind::Mainboard) => "메인보드",
        (ResolvedLanguage::Ko, SensorKind::Battery) => "배터리",
        (ResolvedLanguage::Ko, SensorKind::Other) => "기타",
        (ResolvedLanguage::En, SensorKind::Memory) => "Memory",
        (ResolvedLanguage::En, SensorKind::Storage) => "Storage",
        (ResolvedLanguage::En, SensorKind::Mainboard) => "Mainboard",
        (ResolvedLanguage::En, SensorKind::Battery) => "Battery",
        (ResolvedLanguage::En, SensorKind::Other) => "Other",
    }
}

/// The label of a headline temperature source; the same in both languages.
pub fn temperature_source_label(lang: ResolvedLanguage, source: TemperatureSource) -> (r:
    &'static str)
    ensures
        r@ == (match source {
            TemperatureSource::CoreAverage => "CPU Core Average"@,
            TemperatureSource::IohidTdie => "IOHID tdie"@,
            TemperatureSource::SmcSummary => "SMC summary"@,
            TemperatureSource::SmcAggregate => "SMC aggregate"@,
            TemperatureSource::Hottest => "CPU Hottest"@,
        }),
{
    match source {
        TemperatureSource::CoreAverage => "CPU Core Average",
        TemperatureSource::IohidTdie => "IOHID tdie",
        TemperatureSource::SmcSummary => "SMC summary",
        TemperatureSource::SmcAggregate => "SMC aggregate",
        TemperatureSource::Hottest => "CPU Hottest",
    }
}

/// The name of a runner character.
pub fn runner_character_label(lang: ResolvedLanguage, character: RunnerCharacter) -> (r:
    &'static str)
    ensures
        r@ == (match (lang, character) {
            (ResolvedLanguage::En, RunnerCharacter::Cat) => "Cat"@,
            (ResolvedLanguage::En, RunnerCharacter::Dog) => "Dog"@,
            (ResolvedLanguage::En, RunnerCharacter::Rabbit) => "Rabbit"@,
            (ResolvedLanguage::En, RunnerCharacter::Fox) => "Fox"@,
            (ResolvedLanguage::Ko, RunnerCharacter::Cat) => "고양이"@,
            (ResolvedLanguage::Ko, RunnerCharacter::Dog) => "강아지"@,
            (ResolvedLanguage::Ko, RunnerCharacter::Rabbit) => "토끼"@,
            (ResolvedLanguage::Ko, RunnerCharacter::Fox) => "여우"@,
        }),
{
    match (lang, character) {
        (ResolvedLanguage::En, RunnerCharacter::Cat) => "Cat",
        (ResolvedLanguage::En, RunnerCharacter::Dog) => "Dog",
        (ResolvedLanguage::En, RunnerCharacter::Rabbit) => "Rabbit",
        (ResolvedLanguage::En, RunnerCharacter::Fox) => "Fox",
        (ResolvedLanguage::Ko, RunnerCharacter::Cat) => "고양이",
        (ResolvedLanguage::Ko, RunnerCharacter::Dog) => "강아지",
        (ResolvedLanguage::Ko, RunnerCharacter::Rabbit) => "토끼",
        (ResolvedLanguage::Ko, RunnerCharacter::Fox) => "여우",
    }
}

/// The dashboard label of a sensor row: a fixed name for the derived CPU
/// readings, the sensor's own label otherwise.
pub open spec fn row_label(lang: ResolvedLanguage, id: Seq<char>, label: Seq<char>) -> Seq<char> {
    if id == "cpu.smc.die"@ {
        match lang {
            ResolvedLanguage::Ko => "CPU 다이"@,
            ResolvedLanguage::En => "CPU die"@,
        }
    } else if id == "cpu.iohid.cpu"@ {
        "CPU IOHID CPU"@
    } else if id == "cpu.iohid.cpu.hot"@ {
        "CPU IOHID hottest"@
    } else if id == "cpu.die"@ {
        "CPU Core Average"@
    } else if id == "cpu.die.hot"@ {
        "CPU Core Hottest"@
    } else if id == "cpu.iohid.tdie"@ {
        "CPU IOHID tdie"@
    } else if id == "cpu.iohid.tdie.hot"@ {
        "CPU IOHID tdie hottest"@
    } else if id == "cpu.smc.summary"@ {
        "CPU SMC summary"@
    } else if id == "cpu.smc.aggregate"@ {
        "CPU SMC aggregate"@
    } else if id == "cpu.smc.hotspot"@ {
        "CPU SMC hotspot average"@
    } else if id == "cpu.smc.hotspot.hot"@ {
        "CPU SMC hotspot hottest"@
    } else {
        label
    }
}

/// The dashboard label of the sensor with `id` and `label`.
pub fn temperature_row_label(lang: ResolvedLanguage, id: &str, label: &str) -> (r: String)
    ensures
        r@ == row_label(lang, id@, label@),
{
    let fixed: Option<&str> = if str_eq(id, "cpu.smc.die") {
        match lang {
            ResolvedLanguage::Ko => Some("CPU 다이"),
            ResolvedLanguage::En => Some("CPU die"),
        }
    } else if str_eq(id, "cpu.iohid.cpu") {
        Some("CPU IOHID CPU")
    } else if str_eq(id, "cpu.iohid.cpu.hot") {
        Some("CPU IOHID hottest")
    } else if str_eq(id, "cpu.die") {
        Some("CPU Core Average")
    } else if str_eq(id, "cpu.die.hot") {
        Some("CPU Core Hottest")
    } else if str_eq(id, "cpu.iohid.tdie") {
        Some("CPU IOHID tdie")
    } else if str_eq(id, "cpu.iohid.tdie.hot") {
        Some("CPU IOHID tdie hottest")
    } else if str_eq(id, "cpu.smc.summary") {
        Some("CPU SMC summary")
    } else if str_eq(id, "cpu.smc.aggregate") {
        Some("CPU SMC aggregate")
    } else if str_eq(id, "cpu.smc.hotspot") {
        Some("CPU SMC hotspot average")
    } else if str_eq(id, "cpu.smc.hotspot.hot") {
        Some("CPU SMC hotspot hottest")
    } else {
        None
    };
    match fixed {
        Some(f) => String::from_str(f),
        None => String::from_str(label),
    }
}

/// The label of a raw sensor row: its label and its id.
pub fn raw_temperature_row_label(id: &str, label: &str) -> (r: String)
    ensures
        r@ == label@ + " · "@ + id@,
{
    let mut s = String::from_str(label);
    s.append(" · ");
    s.append(id);
    s
}

/// An ASCII letter or digit.
pub open spec fn is_ascii_alnum(c: char) -> bool {
    ('a' <= c && c <= 'z') || ('A' <= c && c <= 'Z') || ('0' <= c && c <= '9')
}

/// A character that may appear in a sensor id fragment besides `.`: a
/// lower-case ASCII letter or a digit.
pub open spec fn is_id_char(c: char) -> bool {
    ('a' <= c && c <= 'z') || ('0' <= c && c <= '9')
}

/// A raw character as it enters an id: letters lower-cased, digits kept,
/// anything else a `.`.
pub open spec fn id_char(c: char) -> char {
    if is_ascii_alnum(c) {
        ascii_lower_char(c)
    } else {
        '.'
    }
}

/// `t` with every run of `.` shortened to one `.`.
pub open spec fn collapse_dots(t: Seq<char>) -> Seq<char>
    decreases t.len(),
{
    if t.len() == 0 {
        t
    } else {
        let p = collapse_dots(t.drop_last());
        if t.last() == '.' && p.len() > 0 && p.last() == '.' {
            p
        } else {
            p.push(t.last())
        }
    }
}

/// `t` without leading `.`s.
pub open spec fn strip_leading_dots(t: Seq<char>) -> Seq<char>
    decreases t.len(),
{
    if t.len() > 0 && t[0] == '.' {
        strip_leading_dots(t.drop_first())
    } else {
        t
    }
}

/// `t` without trailing `.`s.
pub open spec fn strip_trailing_dots(t: Seq<char>) -> Seq<char>
    decreases t.len(),
{
    if t.len() > 0 && t.last() == '.' {
        strip_trailing_dots(t.drop_last())
    } else {
        t
    }
}

/// The id fragment of a raw sensor name: ASCII letters and digits kept
/// (lower-cased), every other run of characters one `.`, and no `.` at
/// either end. `PMU tdie 1 / CPU` becomes `pmu.tdie.1.cpu`.
pub open spec fn id_fragment(raw: Seq<char>) -> Seq<char> {
    strip_trailing_dots(
        strip_leading_dots(collapse_dots(raw.map_values(|c: char| id_char(c)))),
    )
}

fn id_char_exec(c: char) -> (r: char)
    ensures
        r == id_char(c),
{
    if ('a' <= c && c <= 'z') || ('A' <= c && c <= 'Z') || ('0' <= c && c <= '9') {
        char_ascii_lower(c)
    } else {
        '.'
    }
}

/// A stable id fragment for a raw sensor name.
pub fn temp_sensor_id_fragment(raw: &str) -> (r: String)
    ensures
        r@ == id_fragment(raw@),
{
    let v = chars_of(raw);
    let ghost mapped = raw@.map_values(|c: char| id_char(c));
    let mut out: Vec<char> = Vec::new();
    let mut i: usize = 0;
    while i < v.len()
        invariant
            v@ == raw@,
            i <= v.len(),
            mapped == raw@.map_values(|c: char| id_char(c)),
            out@ == collapse_dots(mapped.take(i as int)),
        decreases v.len() - i,
    {
        let m = id_char_exec(v[i]);
        assert(mapped.take(i + 1).drop_last() =~= mapped.take(i as int));
        assert(mapped.take(i + 1).last() == m);
        let n = out.len();
        if m == '.' && n > 0 && out[n - 1] == '.' {
        } else {
            out.push(m);
        }
        i += 1;
    }
    assert(mapped.take(v.len() as int) =~= mapped);
    let n = out.len();
    let mut a: usize = 0;
    assert(out@.subrange(0, n as int) =~= out@);
    while a < n && out[a] == '.'
        invariant
            n == out@.len(),
            a <= n,
            strip_leading_dots(out@) == strip_leading_dots(out@.subrange(a as int, n as int)),
        decreases n - a,
    {
        assert(out@.subrange(a as int, n as int).drop_first() =~= out@.subrange(a + 1, n as int));
        a += 1;
    }
    assert(strip_leading_dots(out@.subrange(a as int, n as int)) == out@.subrange(a as int, n as int));
    let mut b: usize = n;
    while b > a && out[b - 1] == '.'
        invariant
            n == out@.len(),
            a <= b <= n,
            strip_trailing_dots(out@.subrange(a as int, n as int)) == strip_trailing_dots(
                out@.subrange(a as int, b as int),
            ),
        decreases b,
    {
        assert(out@.subrange(a as int, b as int).drop_last() =~= out@.subrange(a as int, b - 1));
        b -= 1;
    }
    assert(strip_trailing_dots(out@.subrange(a as int, b as int)) == out@.subrange(a as int, b as int));
    string_of_range(&out, a, b)
}

/// Every character of `t` is an id character or a `.`.
pub open spec fn id_chars_only(t: Seq<char>) -> bool {
    forall|i: int| 0 <= i < t.len() ==> is_id_char(#[trigger] t[i]) || t[i] == '.'
}

/// No two `.` stand next to each other in `t`.
pub open spec fn no_double_dot(t: Seq<char>) -> bool {
    forall|i: int| 0 <= i < t.len() - 1 ==> !(#[trigger] t[i] == '.' && t[i + 1] == '.')
}

/// The shape of an id fragment: id characters separated by single dots, with
/// no dot at either end.
pub open spec fn id_fragment_shape(t: Seq<char>) -> bool {
    &&& id_chars_only(t)
    &&& no_double_dot(t)
    &&& (t.len() > 0 ==> t[0] != '.' && t.last() != '.')
}

proof fn lemma_collapse_shape(t: Seq<char>)
    requires
        id_chars_only(t),
    ensures
        id_chars_only(collapse_dots(t)),
        no_double_dot(collapse_dots(t)),
        collapse_dots(t).len() <= t.len(),
    decreases t.len(),
{
    if t.len() > 0 {
        let d = t.drop_last();
        assert(id_chars_only(d)) by {
            assert forall|i: int| 0 <= i < d.len() implies is_id_char(#[trigger] d[i]) || d[i]
                == '.' by {
                assert(d[i] == t[i]);
            }
        }
        lemma_collapse_shape(d);
        let p = collapse_dots(d);
        let l = t.last();
        assert(is_id_char(t[t.len() - 1]) || t[t.len() - 1] == '.');
        if !(l == '.' && p.len() > 0 && p.last() == '.') {
            let q = p.push(l);
            assert forall|i: int| 0 <= i < q.len() implies is_id_char(#[trigger] q[i]) || q[i]
                == '.' by {
                if i < p.len() {
                    assert(q[i] == p[i]);
                }
            }
            assert forall|i: int| 0 <= i < q.len() - 1 implies !(#[trigger] q[i] == '.' && q[i
                + 1] == '.') by {
                assert(q[i] == p[i]);
                if i + 1 < p.len() {
                    assert(q[i + 1] == p[i + 1]);
                }
            }
        }
    }
}

proof fn lemma_strip_leading(t: Seq<char>) -> (k: int)
    ensures
        0 <= k <= t.len(),
        strip_leading_dots(t) == t.subrange(k, t.len() as int),
        k < t.len() ==> t[k] != '.',
    decreases t.len(),
{
    if t.len() > 0 && t[0] == '.' {
        let k1 = lemma_strip_leading(t.drop_first());
        assert(t.drop_first().subrange(k1, t.drop_first().len() as int) =~= t.subrange(
            k1 + 1,
            t.len() as int,
        ));
        if k1 + 1 < t.len() {
            assert(t.drop_first()[k1] == t[k1 + 1]);
        }
        k1 + 1
    } else {
        assert(t.subrange(0, t.len() as int) =~= t);
        0
    }
}

proof fn lemma_strip_trailing(t: Seq<char>) -> (k: int)
    ensures
        0 <= k <= t.len(),
        strip_trailing_dots(t) == t.subrange(0, k),
        k > 0 ==> t[k - 1] != '.',
    decreases t.len(),
{
    if t.len() > 0 && t.last() == '.' {
        let k1 = lemma_strip_trailing(t.drop_last());
        assert(t.drop_last().subrange(0, k1) =~= t.subrange(0, k1));
        if k1 > 0 {
            assert(t.drop_last()[k1 - 1] == t[k1 - 1]);
        }
        k1
    } else {
        assert(t.subrange(0, t.len() as int) =~= t);
        t.len() as int
    }
}

/// Every id fragment has the shape of one: lower-case letters and digits,
/// separated by single dots, with no dot at either end.
pub proof fn lemma_id_fragment_shape(raw: Seq<char>)
    ensures
        id_fragment_shape(id_fragment(raw)),
{
    let mapped = raw.map_values(|c: char| id_char(c));
    assert forall|i: int| 0 <= i < mapped.len() implies is_id_char(#[trigger] mapped[i])
        || mapped[i] == '.' by {
        let c = raw[i];
        assert(mapped[i] == id_char(c));
    }
    lemma_collapse_shape(mapped);
    let c = collapse_dots(mapped);
    let a = lemma_strip_leading(c);
    let s = c.subrange(a, c.len() as int);
    let b = lemma_strip_trailing(s);
    let f = s.subrange(0, b);
    assert(id_fragment(raw) == f);
    assert forall|i: int| 0 <= i < f.len() implies is_id_char(#[trigger] f[i]) || f[i] == '.' by {
        assert(f[i] == c[a + i]);
    }
    assert forall|i: int| 0 <= i < f.len() - 1 implies !(#[trigger] f[i] == '.' && f[i + 1]
        == '.') by {
        assert(f[i] == c[a + i] && f[i + 1] == c[a + i + 1]);
    }
    if f.len() > 0 {
        assert(f[0] == s[0]);
        assert(f.last() == s[b - 1]);
    }
}

proof fn lemma_collapse_keeps_single_dots(t: Seq<char>)
    requires
        no_double_dot(t),
    ensures
        collapse_dots(t) == t,
    decreases t.len(),
{
    if t.len() > 0 {
        let d = t.drop_last();
        assert(no_double_dot(d)) by {
            assert forall|i: int| 0 <= i < d.len() - 1 implies !(#[trigger] d[i] == '.' && d[i
                + 1] == '.') by {
                assert(d[i] == t[i] && d[i + 1] == t[i + 1]);
            }
        }
        lemma_collapse_keeps_single_dots(d);
        if d.len() > 0 {
            assert(d.last() == t[t.len() - 2]);
            assert(!(t[t.len() - 2] == '.' && t[t.len() - 1] == '.'));
        }
        assert(d.push(t.last()) =~= t);
    }
}

/// Normalising an id fragment again changes nothing.
pub proof fn lemma_id_fragment_idempotent(raw: Seq<char>)
    ensures
        id_fragment(id_fragment(raw)) == id_fragment(raw),
{
    let f = id_fragment(raw);
    lemma_id_fragment_shape(raw);
    let mapped = f.map_values(|c: char| id_char(c));
    assert(mapped =~= f) by {
        assert forall|i: int| 0 <= i < f.len() implies mapped[i] == f[i] by {
            assert(is_id_char(f[i]) || f[i] == '.');
        }
    }
    lemma_collapse_keeps_single_dots(f);
    if f.len() > 0 {
        assert(strip_leading_dots(f) == f);
        assert(strip_trailing_dots(f) == f);
    }
}

} // verus!
