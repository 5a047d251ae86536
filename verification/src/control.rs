//! What the daemon's reported mode means for the dashboard, and the commands
//! the app applies itself when no daemon answers.
use vstd::prelude::*;
use crate::number::{decimal, push_decimal};
use crate::text::{
    char_is_whitespace, chars_of, is_whitespace, last_index_of, lemma_last_index_of, parse_u8,
    parse_u8_spec, rfind_char, starts_with, str_eq, str_starts_with, strip_prefix, trim_start,
};

verus! {

/// Number of leading characters of `t` that are not white space.
pub open spec fn word_len(t: Seq<char>) -> nat
    decreases t.len(),
{
    if t.len() == 0 || is_whitespace(t[0]) {
        0
    } else {
        1 + word_len(t.drop_first())
    }
}

/// The first white-space-separated word of `s`, or `s` itself when it has
/// none, as `s.split_whitespace().next().unwrap_or(s)` gives it.
pub open spec fn first_word(s: Seq<char>) -> Seq<char> {
    let t = trim_start(s);
    if t.len() == 0 {
        s
    } else {
        t.take(word_len(t) as int)
    }
}

/// The first white-space-separated word of `s`, or `s` itself.
pub fn first_word_of(s: &str) -> (r: &str)
    ensures
        r@ == first_word(s@),
{
    let v = chars_of(s);
    let n = v.len();
    let mut a: usize = 0;
    assert(v@.subrange(0, n as int) =~= s@);
    while a < n && char_is_whitespace(v[a])
        invariant
            v@ == s@,
            n == v@.len(),
            a <= n,
            trim_start(s@) == trim_start(v@.subrange(a as int, n as int)),
        decreases n - a,
    {
        assert(v@.subrange(a as int, n as int).drop_first() =~= v@.subrange(a + 1, n as int));
        a += 1;
    }
    let ghost t = v@.subrange(a as int, n as int);
    assert(trim_start(t) == t);
    if a == n {
        return s;
    }
    let mut b: usize = a;
    while b < n && !char_is_whitespace(v[b])
        invariant
            v@ == s@,
            n == v@.len(),
            a <= b <= n,
            t == v@.subrange(a as int, n as int),
            word_len(t) == (b - a) + word_len(v@.subrange(b as int, n as int)),
        decreases n - b,
    {
        assert(v@.subrange(b as int, n as int).drop_first() =~= v@.subrange(b + 1, n as int));
        b += 1;
    }
    assert(word_len(v@.subrange(b as int, n as int)) == 0);
    assert(t.take(word_len(t) as int) =~= v@.subrange(a as int, b as int));
    s.substring_char(a, b)
}

/// The profile named by a daemon mode such as `manual:balanced` or
/// `rules:performance (smc)`.
pub open spec fn mode_profile(mode: Seq<char>) -> Option<Seq<char>> {
    let w = first_word(mode);
    let p = if starts_with(w, "manual:"@) {
        w.skip("manual:"@.len() as int)
    } else if starts_with(w, "rules:"@) {
        w.skip("rules:"@.len() as int)
    } else if starts_with(w, "profile:"@) {
        w.skip("profile:"@.len() as int)
    } else {
        Seq::<char>::empty()
    };
    if p.len() > 0 {
        Some(p)
    } else {
        None
    }
}

/// The active profile of a daemon mode, if it runs one.
pub fn active_profile_from_mode(mode: &str) -> (r: Option<&str>)
    ensures
        match r {
            Some(p) => mode_profile(mode@) == Some(p@),
            None => mode_profile(mode@) is None,
        },
{
    let w = first_word_of(mode);
    let p = if let Some(p) = strip_prefix(w, "manual:") {
        Some(p)
    } else if let Some(p) = strip_prefix(w, "rules:") {
        Some(p)
    } else {
        strip_prefix(w, "profile:")
    };
    match p {
        Some(p) => {
            if p.unicode_len() > 0 {
                Some(p)
            } else {
                None
            }
        },
        None => None,
    }
}

/// The kind of control a daemon mode reports: `auto`, `profile`, `hold`, or
/// empty when the mode is not recognised.
pub open spec fn mode_kind(mode: Seq<char>) -> Seq<char> {
    let w = first_word(mode);
    if w == "auto"@ {
        "auto"@
    } else if starts_with(w, "manual:"@) || starts_with(w, "rules:"@) || starts_with(
        w,
        "profile:"@,
    ) {
        "profile"@
    } else if starts_with(w, "hold:"@) {
        "hold"@
    } else {
        ""@
    }
}

/// The kind of control a daemon mode reports.
pub fn active_control_mode_from_mode(mode: &str) -> (r: &'static str)
    ensures
        r@ == mode_kind(mode@),
{
    let w = first_word_of(mode);
    if str_eq(w, "auto") {
        "auto"
    } else if str_starts_with(w, "manual:") || str_starts_with(w, "rules:") || str_starts_with(
        w,
        "profile:",
    ) {
        "profile"
    } else if str_starts_with(w, "hold:") {
        "hold"
    } else {
        ""
    }
}

/// The control kind the dashboard shows: the daemon's, when it reports a
/// recognised one; otherwise `hold` while per-fan pins are in place, else `auto`.
pub open spec fn resolved_mode(mode: Option<Seq<char>>, has_manual_overrides: bool) -> Seq<char> {
    let reported = match mode {
        Some(m) => mode_kind(m),
        None => ""@,
    };
    if reported.len() > 0 {
        reported
    } else if has_manual_overrides {
        "hold"@
    } else {
        "auto"@
    }
}

/// The control kind the dashboard shows.
pub fn resolved_active_control_mode(mode: Option<&str>, has_manual_overrides: bool) -> (r:
    &'static str)
    ensures
        r@ == resolved_mode(
            match mode {
                Some(m) => Some(m@),
                None => None,
            },
            has_manual_overrides,
        ),
{
    let reported = match mode {
        Some(m) => active_control_mode_from_mode(m),
        None => "",
    };
    if reported.unicode_len() > 0 {
        reported
    } else if has_manual_overrides {
        "hold"
    } else {
        "auto"
    }
}

/// A fan-control command the app applies itself when no daemon answers.
#[derive(Clone, Debug, PartialEq, Eq)]
pub enum LocalCommand {
    /// Every controllable fan back to automatic control.
    Auto,
    /// Every controllable fan to the named profile's curve.
    Profile(String),
    /// Every controllable fan held at a duty, in percent.
    Hold(u8),
    /// One fan held at a duty, in percent.
    FanHold(String, u8),
    /// One fan back to automatic control.
    FanAuto(String),
}

/// A `LocalCommand` with its strings taken as characters.
pub enum LocalCommandView {
    Auto,
    Profile(Seq<char>),
    Hold(u8),
    FanHold(Seq<char>, u8),
    FanAuto(Seq<char>),
}

impl View for LocalCommand {
    type V = LocalCommandView;

    open spec fn view(&self) -> LocalCommandView {
        match self {
            LocalCommand::Auto => LocalCommandView::Auto,
            LocalCommand::Profile(p) => LocalCommandView::Profile(p@),
            LocalCommand::Hold(d) => LocalCommandView::Hold(*d),
            LocalCommand::FanHold(id, d) => LocalCommandView::FanHold(id@, *d),
            LocalCommand::FanAuto(id) => LocalCommandView::FanAuto(id@),
        }
    }
}

/// A percentage capped at 100.
pub open spec fn cap_percent(d: u8) -> u8 {
    if d > 100 {
        100
    } else {
        d
    }
}

/// How the app reads a command it applies itself, or the message it answers
/// a command it cannot apply with.
pub open spec fn local_command(cmd: Seq<char>) -> Result<LocalCommandView, Seq<char>> {
    if cmd == "auto"@ {
        Ok(LocalCommandView::Auto)
    } else if starts_with(cmd, "profile:"@) {
        Ok(LocalCommandView::Profile(cmd.skip("profile:"@.len() as int)))
    } else if starts_with(cmd, "hold:"@) {
        match parse_u8_spec(cmd.skip("hold:"@.len() as int)) {
            Some(d) => Ok(LocalCommandView::Hold(cap_percent(d))),
            None => Err("invalid percent"@),
        }
    } else if starts_with(cmd, "fanhold:"@) {
        let rest = cmd.skip("fanhold:"@.len() as int);
        match last_index_of(rest, ':') {
            Some(j) => match parse_u8_spec(rest.skip(j + 1)) {
                Some(d) => Ok(LocalCommandView::FanHold(rest.take(j), cap_percent(d))),
                None => Err("fanhold requires <fan_id>:<percent>"@),
            },
            None => Err("fanhold requires <fan_id>:<percent>"@),
        }
    } else if starts_with(cmd, "fanauto:"@) {
        Ok(LocalCommandView::FanAuto(cmd.skip("fanauto:"@.len() as int)))
    } else {
        Err("unknown command"@)
    }
}

fn cap_percent_exec(d: u8) -> (r: u8)
    ensures
        r == cap_percent(d),
{
    if d > 100 {
        100
    } else {
        d
    }
}

/// Reads a command the app applies itself.
pub fn parse_local_command(cmd: &str) -> (r: Result<LocalCommand, &'static str>)
    ensures
        match r {
            Ok(c) => local_command(cmd@) == Ok::<LocalCommandView, Seq<char>>(c@),
            Err(e) => local_command(cmd@) == Err::<LocalCommandView, Seq<char>>(e@),
        },
{
    if str_eq(cmd, "auto") {
        return Ok(LocalCommand::Auto);
    }
    if let Some(name) = strip_prefix(cmd, "profile:") {
        return Ok(LocalCommand::Profile(String::from_str(name)));
    }
    if let Some(pct) = strip_prefix(cmd, "hold:") {
        return match parse_u8(pct) {
            Some(d) => Ok(LocalCommand::Hold(cap_percent_exec(d))),
            None => Err("invalid percent"),
        };
    }
    if let Some(rest) = strip_prefix(cmd, "fanhold:") {
        proof {
            lemma_last_index_of(rest@, ':');
        }
        return match rfind_char(rest, ':') {
            Some(j) => {
                let n = rest.unicode_len();
                match parse_u8(rest.substring_char(j + 1, n)) {
                    Some(d) => Ok(
                        LocalCommand::FanHold(
                            String::from_str(rest.substring_char(0, j)),
                            cap_percent_exec(d),
                        ),
                    ),
                    None => Err("fanhold requires <fan_id>:<percent>"),
                }
            },
            None => Err("fanhold requires <fan_id>:<percent>"),
        };
    }
    if let Some(id) = strip_prefix(cmd, "fanauto:") {
        return Ok(LocalCommand::FanAuto(String::from_str(id)));
    }
    Err("unknown command")
}

/// The per-fan pins the app remembers after applying commands itself: fan id
/// to held duty, one entry per fan.
pub struct FanOverrides {
    entries: Vec<(String, u8)>,
}

/// No fan id occurs twice among `s`.
pub open spec fn ids_unique(s: Seq<(String, u8)>) -> bool {
    forall|i: int, j: int| 0 <= i < s.len() && 0 <= j < s.len() && i != j ==> s[i].0@ != s[j].0@
}

/// The map from fan id to held duty that `s` lists.
pub open spec fn pins_map(s: Seq<(String, u8)>) -> Map<Seq<char>, u8> {
    Map::new(
        |k: Seq<char>| exists|i: int| 0 <= i < s.len() && s[i].0@ == k,
        |k: Seq<char>| s[choose|i: int| 0 <= i < s.len() && s[i].0@ == k].1,
    )
}

proof fn lemma_pins_map_at(s: Seq<(String, u8)>, i: int)
    requires
        ids_unique(s),
        0 <= i < s.len(),
    ensures
        pins_map(s).contains_key(s[i].0@),
        pins_map(s)[s[i].0@] == s[i].1,
{
    let k = s[i].0@;
    assert(exists|j: int| 0 <= j < s.len() && s[j].0@ == k);
    let j = choose|j: int| 0 <= j < s.len() && s[j].0@ == k;
    assert(j == i);
}

impl View for FanOverrides {
    type V = Map<Seq<char>, u8>;

    closed spec fn view(&self) -> Map<Seq<char>, u8> {
        pins_map(self.entries@)
    }
}

impl FanOverrides {
    #[verifier::type_invariant]
    closed spec fn inv(&self) -> bool {
        ids_unique(self.entries@)
    }

    /// No pins.
    pub fn new() -> (r: Self)
        ensures
            r@ == Map::<Seq<char>, u8>::empty(),
    {
        let r = FanOverrides { entries: Vec::new() };
        assert(r@ =~= Map::<Seq<char>, u8>::empty());
        r
    }

    fn position(&self, id: &str) -> (r: Option<usize>)
        ensures
            match r {
                Some(i) => i < self.entries@.len() && self.entries@[i as int].0@ == id@,
                None => forall|j: int| 0 <= j < self.entries@.len() ==> self.entries@[j].0@ != id@,
            },
    {
        let mut i: usize = 0;
        while i < self.entries.len()
            invariant
                i <= self.entries@.len(),
                forall|j: int| 0 <= j < i ==> self.entries@[j].0@ != id@,
            decreases self.entries@.len() - i,
        {
            if str_eq(self.entries[i].0.as_str(), id) {
                return Some(i);
            }
            i += 1;
        }
        None
    }

    /// The duty fan `id` is pinned at, if it is pinned.
    pub fn get(&self, id: &str) -> (r: Option<u8>)
        ensures
            r == (if self@.contains_key(id@) {
                Some(self@[id@])
            } else {
                None
            }),
    {
        proof {
            use_type_invariant(self);
        }
        match self.position(id) {
            Some(i) => {
                proof {
                    lemma_pins_map_at(self.entries@, i as int);
                }
                Some(self.entries[i].1)
            },
            None => None,
        }
    }

    /// Pins fan `id` at `pct`, or unpins it when `pct` is none.
    pub fn set(&mut self, id: &str, pct: Option<u8>)
        ensures
            final(self)@ == (match pct {
                Some(d) => old(self)@.insert(id@, d),
                None => old(self)@.remove(id@),
            }),
    {
        proof {
            use_type_invariant(&*self);
        }
        let ghost old_entries = self.entries@;
        let found = self.position(id);
        let mut entries = Vec::new();
        std::mem::swap(&mut entries, &mut self.entries);
        assert(entries@ == old_entries);
        match pct {
            Some(d) => {
                match found {
                    Some(i) => {
                        entries.set(i, (String::from_str(id), d));
                    },
                    None => {
                        entries.push((String::from_str(id), d));
                    },
                }
                assert(ids_unique(entries@)) by {
                    assert forall|a: int, b: int|
                        0 <= a < entries@.len() && 0 <= b < entries@.len() && a != b implies entries@[a].0@
                        != entries@[b].0@ by {
                        if found is Some {
                            let i = found->0 as int;
                            if a != i && b != i {
                                assert(entries@[a] == old_entries[a] && entries@[b] == old_entries[b]);
                            } else if a == i {
                                assert(entries@[b] == old_entries[b]);
                            } else {
                                assert(entries@[a] == old_entries[a]);
                            }
                        } else {
                            if a < old_entries.len() && b < old_entries.len() {
                                assert(entries@[a] == old_entries[a] && entries@[b] == old_entries[b]);
                            } else if a < old_entries.len() {
                                assert(entries@[a] == old_entries[a]);
                            } else {
                                assert(entries@[b] == old_entries[b]);
                            }
                        }
                    }
                }
                assert(pins_map(entries@) =~= pins_map(old_entries).insert(id@, d)) by {
                    assert forall|k: Seq<char>| #[trigger] pins_map(entries@).contains_key(k)
                        == pins_map(old_entries).insert(id@, d).contains_key(k) by {
                        if k != id@ {
                            if pins_map(old_entries).contains_key(k) {
                                let j = choose|j: int| 0 <= j < old_entries.len() && old_entries[j].0@ == k;
                                assert(entries@[j] == old_entries[j]);
                            }
                            if pins_map(entries@).contains_key(k) {
                                let j = choose|j: int| 0 <= j < entries@.len() && entries@[j].0@ == k;
                                assert(entries@[j] == old_entries[j]);
                            }
                        } else {
                            let i: int = match found {
                                Some(x) => x as int,
                                None => old_entries.len() as int,
                            };
                            assert(entries@[i].0@ == id@);
                        }
                    }
                    assert forall|k: Seq<char>| #[trigger] pins_map(entries@).contains_key(k)
                        implies pins_map(entries@)[k] == pins_map(old_entries).insert(id@, d)[k] by {
                        let j = choose|j: int| 0 <= j < entries@.len() && entries@[j].0@ == k;
                        lemma_pins_map_at(entries@, j);
                        if k != id@ {
                            assert(entries@[j] == old_entries[j]);
                            lemma_pins_map_at(old_entries, j);
                        }
                    }
                }
            },
            None => {
                match found {
                    Some(i) => {
                        let _ = entries.remove(i);
                    },
                    None => {},
                }
                assert(ids_unique(entries@)) by {
                    assert forall|a: int, b: int|
                        0 <= a < entries@.len() && 0 <= b < entries@.len() && a != b implies entries@[a].0@
                        != entries@[b].0@ by {
                        if found is Some {
                            let i = found->0 as int;
                            let oa = if a < i { a } else { a + 1 };
                            let ob = if b < i { b } else { b + 1 };
                            assert(entries@[a] == old_entries[oa] && entries@[b] == old_entries[ob]);
                        } else {
                            assert(entries@[a] == old_entries[a] && entries@[b] == old_entries[b]);
                        }
                    }
                }
                assert(pins_map(entries@) =~= pins_map(old_entries).remove(id@)) by {
                    assert forall|k: Seq<char>| #[trigger] pins_map(entries@).contains_key(k)
                        == pins_map(old_entries).remove(id@).contains_key(k) by {
                        if found is Some {
                            let i = found->0 as int;
                            if pins_map(old_entries).contains_key(k) && k != id@ {
                                let j = choose|j: int| 0 <= j < old_entries.len() && old_entries[j].0@ == k;
                                assert(j != i);
                                let nj = if j < i { j } else { j - 1 };
                                assert(entries@[nj] == old_entries[j]);
                            }
                            if pins_map(entries@).contains_key(k) {
                                let j = choose|j: int| 0 <= j < entries@.len() && entries@[j].0@ == k;
                                let oj = if j < i { j } else { j + 1 };
                                assert(entries@[j] == old_entries[oj]);
                                assert(oj != i);
                            }
                        } else {
                            if pins_map(old_entries).contains_key(k) {
                                let j = choose|j: int| 0 <= j < old_entries.len() && old_entries[j].0@ == k;
                                assert(entries@[j] == old_entries[j]);
                            }
                        }
                    }
                    assert forall|k: Seq<char>| #[trigger] pins_map(entries@).contains_key(k)
                        implies pins_map(entries@)[k] == pins_map(old_entries).remove(id@)[k] by {
                        let j = choose|j: int| 0 <= j < entries@.len() && entries@[j].0@ == k;
                        lemma_pins_map_at(entries@, j);
                        let oj = match found {
                            Some(x) => if j < x as int { j } else { j + 1 },
                            None => j,
                        };
                        assert(entries@[j] == old_entries[oj]);
                        lemma_pins_map_at(old_entries, oj);
                    }
                }
            },
        }
        self.entries = entries;
    }

    /// Forgets every pin.
    pub fn clear(&mut self)
        ensures
            final(self)@ == Map::<Seq<char>, u8>::empty(),
    {
        self.entries = Vec::new();
        assert(self@ =~= Map::<Seq<char>, u8>::empty());
    }

    /// Whether no fan is pinned.
    pub fn is_empty(&self) -> (r: bool)
        ensures
            r == (self@ =~= Map::<Seq<char>, u8>::empty()),
    {
        proof {
            use_type_invariant(self);
        }
        if self.entries.len() == 0 {
            assert(self@ =~= Map::<Seq<char>, u8>::empty());
            true
        } else {
            proof {
                lemma_pins_map_at(self.entries@, 0);
            }
            false
        }
    }
}

/// Why the app's own write to the fans failed.
#[derive(Clone, Debug, PartialEq, Eq)]
pub enum LocalWriteError {
    /// The process lacks the privilege to write to the fans.
    PermissionDenied,
    /// Any other failure, as its error describes itself.
    Other(String),
}

/// The result text of a command the app applied itself, under `label`.
pub fn local_result_message(label: &str, outcome: Result<(), LocalWriteError>) -> (r: String)
    ensures
        r@ == (match outcome {
            Ok(()) => label@ + " — applied locally"@,
            Err(LocalWriteError::PermissionDenied) => "start peterfand (needs root)"@,
            Err(LocalWriteError::Other(e)) => "error: "@ + e@,
        }),
{
    match outcome {
        Ok(()) => {
            let mut s = String::from_str(label);
            s.append(" — applied locally");
            s
        },
        Err(LocalWriteError::PermissionDenied) => String::from_str("start peterfand (needs root)"),
        Err(LocalWriteError::Other(e)) => {
            let mut s = String::from_str("error: ");
            s.append(e.as_str());
            s
        },
    }
}

/// The label a command applied by the app is reported under; a profile's
/// label names the duty its curve gives, which the caller supplies.
pub open spec fn local_label(c: LocalCommandView) -> Option<Seq<char>> {
    match c {
        LocalCommandView::Auto => Some("auto"@),
        LocalCommandView::Profile(_) => None,
        LocalCommandView::Hold(d) => Some("hold "@ + decimal(d as nat) + "%"@),
        LocalCommandView::FanHold(id, d) => Some(id + " hold "@ + decimal(d as nat) + "%"@),
        LocalCommandView::FanAuto(id) => Some(id + " auto"@),
    }
}

/// The label of a command the app applied itself, except for a profile.
pub fn local_command_label(c: &LocalCommand) -> (r: Option<String>)
    ensures
        match r {
            Some(s) => local_label(c@) == Some(s@),
            None => local_label(c@) is None,
        },
{
    match c {
        LocalCommand::Auto => Some(String::from_str("auto")),
        LocalCommand::Profile(_) => None,
        LocalCommand::Hold(d) => {
            let mut s = String::from_str("hold ");
            push_decimal(&mut s, *d as u64);
            s.append("%");
            Some(s)
        },
        LocalCommand::FanHold(id, d) => {
            let mut s = String::from_str(id.as_str());
            s.append(" hold ");
            push_decimal(&mut s, *d as u64);
            s.append("%");
            Some(s)
        },
        LocalCommand::FanAuto(id) => {
            let mut s = String::from_str(id.as_str());
            s.append(" auto");
            Some(s)
        },
    }
}

/// The pins after a command the app applied itself succeeded: a command for
/// every fan clears them all, a per-fan hold pins that fan, and a per-fan
/// auto unpins it.
pub open spec fn pins_after(pins: Map<Seq<char>, u8>, c: LocalCommandView) -> Map<Seq<char>, u8> {
    match c {
        LocalCommandView::Auto | LocalCommandView::Profile(_) | LocalCommandView::Hold(_) => Map::<
            Seq<char>,
            u8,
        >::empty(),
        LocalCommandView::FanHold(id, d) => pins.insert(id, d),
        LocalCommandView::FanAuto(id) => pins.remove(id),
    }
}

/// Records a command the app applied itself in the pins.
pub fn record_local_success(pins: &mut FanOverrides, c: &LocalCommand)
    ensures
        final(pins)@ == pins_after(old(pins)@, c@),
{
    match c {
        LocalCommand::Auto | LocalCommand::Profile(_) | LocalCommand::Hold(_) => pins.clear(),
        LocalCommand::FanHold(id, d) => pins.set(id.as_str(), Some(*d)),
        LocalCommand::FanAuto(id) => pins.set(id.as_str(), None),
    }
}

/// A per-fan hold stays remembered through commands for other fans, and is
/// dropped by that fan's auto or by any command for every fan.
pub proof fn lemma_pin_lifetime(pins: Map<Seq<char>, u8>, id: Seq<char>, d: u8, c: LocalCommandView)
    ensures
        pins_after(pins, LocalCommandView::FanHold(id, d))[id] == d,
        (c matches LocalCommandView::FanHold(other, _) && other != id) || (c matches LocalCommandView::FanAuto(
            other,
        ) && other != id) ==> pins_after(pins_after(pins, LocalCommandView::FanHold(id, d)), c)[id]
            == d,
        !pins_after(pins_after(pins, LocalCommandView::FanHold(id, d)), LocalCommandView::FanAuto(
            id,
        )).contains_key(id),
        (c is Auto || c is Profile || c is Hold) ==> pins_after(pins, c).is_empty(),
{
    if c is Auto || c is Profile || c is Hold {
        assert(pins_after(pins, c).dom() =~= Set::<Seq<char>>::empty());
    }
}

} // verus!
