//! The root fan-control daemon: which installed versions this app can keep
//! using, and what to do about the others.
use vstd::prelude::*;
use crate::settings::ResolvedLanguage;
use crate::text::{char_is_whitespace, chars_of, is_whitespace, string_of_range};
use crate::version::{
    is_digit, is_newer, lemma_newer_transitive, newer_spec,
    all_digits, digits_value, field_value, lemma_field_value_all_digits, lemma_split_no_sep,
    lemma_split_sep_concat, split_on, version_key,
};

verus! {

/// Oldest installed root daemon this app version can safely keep using.
pub const MIN_REQUIRED_DAEMON_VERSION: &'static str = "1.27.29";

/// Oldest installed root daemon that can reinstall fan control from the
/// signed app bundle without another administrator-password prompt.
pub const MIN_SELF_REINSTALL_DAEMON_VERSION: &'static str = "1.26.37";

proof fn lemma_key_three(s: Seq<char>, a: Seq<char>, b: Seq<char>, c: Seq<char>)
    requires
        s == a.push('.') + (b.push('.') + c),
        all_digits(a),
        all_digits(b),
        all_digits(c),
        digits_value(a) <= u64::MAX,
        digits_value(b) <= u64::MAX,
        digits_value(c) <= u64::MAX,
        forall|i: int| 0 <= i < a.len() ==> #[trigger] a[i] != '.',
        forall|i: int| 0 <= i < b.len() ==> #[trigger] b[i] != '.',
        forall|i: int| 0 <= i < c.len() ==> #[trigger] c[i] != '.',
    ensures
        version_key(s) == seq![digits_value(a), digits_value(b), digits_value(c)],
{
    lemma_split_sep_concat(a, b.push('.') + c, '.');
    lemma_split_sep_concat(b, c, '.');
    lemma_split_no_sep(a, '.');
    lemma_split_no_sep(b, '.');
    lemma_split_no_sep(c, '.');
    lemma_field_value_all_digits(a);
    lemma_field_value_all_digits(b);
    lemma_field_value_all_digits(c);
    assert(version_key(s) =~= seq![digits_value(a), digits_value(b), digits_value(c)]);
}

proof fn lemma_two_digits(x: char, y: char)
    requires
        is_digit(x),
        is_digit(y),
    ensures
        digits_value(seq![x, y]) == ((x as int) - ('0' as int)) * 10 + ((y as int) - ('0' as int)),
        digits_value(seq![x]) == (x as int) - ('0' as int),
        all_digits(seq![x, y]),
        all_digits(seq![x]),
{
    assert(seq![x, y].drop_last() =~= seq![x]);
    assert(seq![x].drop_last() =~= Seq::<char>::empty());
    assert(digits_value(Seq::<char>::empty()) == 0);
    assert(seq![x].last() == x);
    assert(seq![x, y].last() == y);
    assert(digits_value(seq![x]) == (x as int) - ('0' as int));
}

/// The comparison key of the minimum required daemon version.
proof fn lemma_key_required()
    ensures
        version_key(MIN_REQUIRED_DAEMON_VERSION@) == seq![1nat, 27nat, 29nat],
{
    reveal_strlit("1.27.29");
    let a = seq!['1'];
    let b = seq!['2', '7'];
    let c = seq!['2', '9'];
    assert("1.27.29"@ =~= a.push('.') + (b.push('.') + c));
    lemma_two_digits('1', '1');
    lemma_two_digits('2', '7');
    lemma_two_digits('2', '9');
    lemma_key_three("1.27.29"@, a, b, c);
}

/// The comparison key of the minimum self-reinstalling daemon version.
proof fn lemma_key_self_reinstall()
    ensures
        version_key(MIN_SELF_REINSTALL_DAEMON_VERSION@) == seq![1nat, 26nat, 37nat],
{
    reveal_strlit("1.26.37");
    let a = seq!['1'];
    let b = seq!['2', '6'];
    let c = seq!['3', '7'];
    assert("1.26.37"@ =~= a.push('.') + (b.push('.') + c));
    lemma_two_digits('1', '1');
    lemma_two_digits('2', '6');
    lemma_two_digits('3', '7');
    lemma_key_three("1.26.37"@, a, b, c);
}

/// The self-reinstall threshold is older than the required version.
proof fn lemma_self_reinstall_threshold_is_older()
    ensures
        newer_spec(MIN_SELF_REINSTALL_DAEMON_VERSION@, MIN_REQUIRED_DAEMON_VERSION@),
{
    lemma_key_required();
    lemma_key_self_reinstall();
    let a = seq![1nat, 26nat, 37nat];
    let b = seq![1nat, 27nat, 29nat];
    assert(a.take(1) =~= b.take(1));
}
/// The installed daemon is older than this app can keep using.
pub open spec fn update_required_spec(installed: Seq<char>) -> bool {
    newer_spec(installed, MIN_REQUIRED_DAEMON_VERSION@)
}

/// The installed daemon is new enough to reinstall fan control itself.
pub open spec fn self_reinstall_spec(installed: Seq<char>) -> bool {
    !newer_spec(installed, MIN_SELF_REINSTALL_DAEMON_VERSION@)
}

proof fn lemma_digits_have_no_dot(a: Seq<char>)
    requires
        all_digits(a),
    ensures
        forall|i: int| 0 <= i < a.len() ==> #[trigger] a[i] != '.',
{
    assert forall|i: int| 0 <= i < a.len() implies #[trigger] a[i] != '.' by {
        assert(is_digit(a[i]));
    }
}

proof fn lemma_key_three_fields(s: Seq<char>, a: Seq<char>, b: Seq<char>, c: Seq<char>)
    requires
        s == a.push('.') + (b.push('.') + c),
        all_digits(a),
        all_digits(b),
        all_digits(c),
    ensures
        version_key(s) == seq![field_value(a), field_value(b), field_value(c)],
{
    lemma_digits_have_no_dot(a);
    lemma_digits_have_no_dot(b);
    lemma_digits_have_no_dot(c);
    lemma_split_sep_concat(a, b.push('.') + c, '.');
    lemma_split_sep_concat(b, c, '.');
    lemma_split_no_sep(a, '.');
    lemma_split_no_sep(b, '.');
    lemma_split_no_sep(c, '.');
    assert(version_key(s) =~= seq![field_value(a), field_value(b), field_value(c)]);
}

/// `(a, b, c)` is at least `(x, y, z)` in numeric order, field by field.
pub open spec fn at_least_three(a: nat, b: nat, c: nat, x: nat, y: nat, z: nat) -> bool {
    a > x || (a == x && (b > y || (b == y && c >= z)))
}

/// Self-reinstall goes by numeric order, field by field: a version `a.b.c`
/// of decimal fields qualifies exactly when `(a, b, c)` is at least
/// `(1, 26, 37)`, whatever the size of the fields. So 1.26.36 and 1.26.8 do
/// not qualify, and 1.26.37 and 1.26.38 do.
pub proof fn lemma_self_reinstall_by_numeric_order(
    s: Seq<char>,
    a: Seq<char>,
    b: Seq<char>,
    c: Seq<char>,
)
    requires
        s == a.push('.') + (b.push('.') + c),
        all_digits(a),
        all_digits(b),
        all_digits(c),
    ensures
        self_reinstall_spec(s) <==> at_least_three(
            digits_value(a),
            digits_value(b),
            digits_value(c),
            1,
            26,
            37,
        ),
{
    lemma_key_three_fields(s, a, b, c);
    lemma_key_self_reinstall();
    lemma_field_value_all_digits(a);
    lemma_field_value_all_digits(b);
    lemma_field_value_all_digits(c);
    let ka = version_key(s);
    let kb = seq![1nat, 26nat, 37nat];
    let (va, vb, vc) = (digits_value(a), digits_value(b), digits_value(c));
    if !at_least_three(va, vb, vc, 1, 26, 37) {
        if va < 1 {
            assert(ka.take(0) =~= kb.take(0));
        } else if vb < 26 {
            assert(ka.take(1) =~= kb.take(1));
        } else {
            assert(ka.take(2) =~= kb.take(2));
        }
        assert(newer_spec(s, MIN_SELF_REINSTALL_DAEMON_VERSION@));
    } else {
        if newer_spec(s, MIN_SELF_REINSTALL_DAEMON_VERSION@) {
            let k = choose|k: int|
                #![trigger ka.take(k), kb.take(k)]
                0 <= k <= ka.len() && k <= kb.len() && ka.take(k) == kb.take(k) && ((k < ka.len()
                    && k < kb.len() && ka[k] < kb[k]) || (k == ka.len() && k < kb.len()));
            if k >= 1 {
                assert(ka.take(k)[0] == kb.take(k)[0]);
            }
            if k >= 2 {
                assert(ka.take(k)[1] == kb.take(k)[1]);
            }
            assert(false);
        }
    }
}

/// Whether the installed daemon must be updated before this app can use it.
pub fn daemon_update_required(installed_version: &str) -> (r: bool)
    ensures
        r == update_required_spec(installed_version@),
{
    is_newer(installed_version, MIN_REQUIRED_DAEMON_VERSION)
}

/// Whether the installed daemon can reinstall fan control from the app
/// bundle without another administrator prompt.
pub fn daemon_self_reinstall_supported(installed_version: &str) -> (r: bool)
    ensures
        r == self_reinstall_spec(installed_version@),
{
    !is_newer(installed_version, MIN_SELF_REINSTALL_DAEMON_VERSION)
}

/// A daemon that this app can use without an update also reinstalls itself
/// without another administrator prompt.
pub proof fn lemma_usable_daemon_can_self_reinstall(installed: Seq<char>)
    requires
        !update_required_spec(installed),
    ensures
        self_reinstall_spec(installed),
{
    lemma_self_reinstall_threshold_is_older();
    if newer_spec(installed, MIN_SELF_REINSTALL_DAEMON_VERSION@) {
        lemma_newer_transitive(
            installed,
            MIN_SELF_REINSTALL_DAEMON_VERSION@,
            MIN_REQUIRED_DAEMON_VERSION@,
        );
    }
}

/// The minimum required version itself never needs an update, and the
/// self-reinstall threshold itself supports self-reinstall.
pub proof fn lemma_thresholds_accept_themselves()
    ensures
        !update_required_spec(MIN_REQUIRED_DAEMON_VERSION@),
        self_reinstall_spec(MIN_SELF_REINSTALL_DAEMON_VERSION@),
{
    crate::version::lemma_not_newer_than_itself(MIN_REQUIRED_DAEMON_VERSION@);
    crate::version::lemma_not_newer_than_itself(MIN_SELF_REINSTALL_DAEMON_VERSION@);
}

/// `i` starts a whitespace-separated token of `s`.
pub open spec fn token_start(s: Seq<char>, i: int) -> bool {
    0 <= i < s.len() && !is_whitespace(s[i]) && (i == 0 || is_whitespace(s[i - 1]))
}

/// `s[i..j]` is a whole whitespace-separated token of `s`.
pub open spec fn token_at(s: Seq<char>, i: int, j: int) -> bool {
    &&& token_start(s, i)
    &&& i < j <= s.len()
    &&& (j == s.len() || is_whitespace(s[j]))
    &&& forall|k: int| i <= k < j ==> !is_whitespace(#[trigger] s[k])
}

/// `i` starts a token whose first character is an ASCII digit.
pub open spec fn digit_token_start(s: Seq<char>, i: int) -> bool {
    token_start(s, i) && is_digit(s[i])
}

/// The version printed by `peterfand --version`: the first
/// whitespace-separated token that begins with an ASCII digit.
pub fn parse_daemon_version_output(output: &str) -> (r: Option<String>)
    ensures
        r is None <==> forall|i: int| !digit_token_start(output@, i),
        r matches Some(t) ==> exists|i: int, j: int|
            #![trigger output@.subrange(i, j)]
            token_at(output@, i, j) && is_digit(output@[i]) && t@ == output@.subrange(i, j)
                && forall|k: int| 0 <= k < i ==> !digit_token_start(output@, k),
{
    let cs = chars_of(output);
    let n = cs.len();
    let mut i: usize = 0;
    while i < n
        invariant
            n == cs@.len(),
            cs@ == output@,
            i <= n,
            forall|k: int| 0 <= k < i ==> !digit_token_start(output@, k),
        decreases n - i,
    {
        let c = cs[i];
        let starts = !char_is_whitespace(c) && (i == 0 || char_is_whitespace(cs[i - 1]));
        if starts && '0' <= c && c <= '9' {
            let mut j: usize = i + 1;
            while j < n && !char_is_whitespace(cs[j])
                invariant
                    n == cs@.len(),
                    i < j <= n,
                    forall|k: int| i <= k < j ==> !is_whitespace(#[trigger] cs@[k]),
                decreases n - j,
            {
                j += 1;
            }
            let t = string_of_range(&cs, i, j);
            assert(token_at(output@, i as int, j as int));
            assert(digit_token_start(output@, i as int));
            return Some(t);
        }
        i += 1;
    }
    None
}

/// The installed daemon's version, from the exit status and standard output
/// of `peterfand --version`: none when the command failed.
pub fn installed_daemon_version(succeeded: bool, stdout: &str) -> (r: Option<String>)
    ensures
        !succeeded ==> r is None,
        succeeded ==> (r is None <==> forall|i: int| !digit_token_start(stdout@, i)),
        succeeded ==> (r matches Some(t) ==> exists|i: int, j: int|
            #![trigger stdout@.subrange(i, j)]
            token_at(stdout@, i, j) && is_digit(stdout@[i]) && t@ == stdout@.subrange(i, j)
                && forall|k: int| 0 <= k < i ==> !digit_token_start(stdout@, k)),
{
    if !succeeded {
        return None;
    }
    parse_daemon_version_output(stdout)
}

/// A daemon counts as healthy when it answers and needs no update.
pub fn required_daemon_is_healthy(installed_version: Option<&str>, reachable: bool) -> (r: bool)
    ensures
        r == (reachable && (installed_version matches Some(v) && !update_required_spec(v@))),
{
    match installed_version {
        Some(v) => reachable && !daemon_update_required(v),
        None => false,
    }
}

/// Whether the app may trust the installed daemon for writes and cached state.
pub fn daemon_control_usable(daemon_version: Option<&str>) -> (r: bool)
    ensures
        r == (daemon_version matches Some(v) && !update_required_spec(v@)),
{
    match daemon_version {
        Some(v) => !daemon_update_required(v),
        None => false,
    }
}

/// Whether an outdated daemon can be brought up to date without a prompt.
pub fn daemon_can_self_update_silently(installed_version: &str) -> (r: bool)
    ensures
        r == (update_required_spec(installed_version@) && self_reinstall_spec(
            installed_version@,
        )),
{
    daemon_update_required(installed_version) && daemon_self_reinstall_supported(installed_version)
}

/// The installed version when a reachable daemon is outdated.
pub fn stale_daemon_version(reachable: bool, installed_version: Option<String>) -> (r: Option<String>)
    ensures
        r == (if reachable && (installed_version matches Some(v) && update_required_spec(v@)) {
            installed_version
        } else {
            None
        }),
{
    if !reachable {
        return None;
    }
    match installed_version {
        Some(v) => {
            if daemon_update_required(v.as_str()) {
                Some(v)
            } else {
                None
            }
        },
        None => None,
    }
}

/// How the one-click fan-control setup proceeds.
#[derive(Clone, Copy, Debug, PartialEq, Eq, Structural)]
pub enum FanControlInstallPlan {
    AlreadyReady,
    SelfReinstall,
    PrivilegedInstall,
    InstalledButUnavailable,
}

/// Chooses the setup path: nothing to do for a usable daemon, a quiet
/// self-reinstall for a reachable daemon that supports it, no administrator
/// changes for an installed daemon that does not answer, and the privileged
/// installer otherwise.
pub fn fan_control_install_plan(installed_version: Option<&str>, daemon_reachable: bool) -> (r:
    FanControlInstallPlan)
    ensures
        r == (match installed_version {
            Some(v) => if daemon_reachable {
                if !update_required_spec(v@) {
                    FanControlInstallPlan::AlreadyReady
                } else if self_reinstall_spec(v@) {
                    FanControlInstallPlan::SelfReinstall
                } else {
                    FanControlInstallPlan::PrivilegedInstall
                }
            } else {
                FanControlInstallPlan::InstalledButUnavailable
            },
            None => FanControlInstallPlan::PrivilegedInstall,
        }),
{
    match installed_version {
        Some(v) => {
            if daemon_reachable {
                if !daemon_update_required(v) {
                    FanControlInstallPlan::AlreadyReady
                } else if daemon_self_reinstall_supported(v) {
                    FanControlInstallPlan::SelfReinstall
                } else {
                    FanControlInstallPlan::PrivilegedInstall
                }
            } else {
                FanControlInstallPlan::InstalledButUnavailable
            }
        },
        None => FanControlInstallPlan::PrivilegedInstall,
    }
}

/// The administrator prompt is only ever shown when no daemon is installed
/// or a reachable installed daemon is too old to reinstall itself.
pub proof fn lemma_install_plan_prompts_only_when_needed(
    installed_version: Option<Seq<char>>,
    daemon_reachable: bool,
    plan: FanControlInstallPlan,
)
    requires
        plan == (match installed_version {
            Some(v) => if daemon_reachable {
                if !update_required_spec(v) {
                    FanControlInstallPlan::AlreadyReady
                } else if self_reinstall_spec(v) {
                    FanControlInstallPlan::SelfReinstall
                } else {
                    FanControlInstallPlan::PrivilegedInstall
                }
            } else {
                FanControlInstallPlan::InstalledButUnavailable
            },
            None => FanControlInstallPlan::PrivilegedInstall,
        }),
    ensures
        plan == FanControlInstallPlan::PrivilegedInstall <==> (installed_version is None || (
        daemon_reachable && !self_reinstall_spec(installed_version->0))),
{
    if let Some(v) = installed_version {
        if !update_required_spec(v) {
            lemma_usable_daemon_can_self_reinstall(v);
        }
    }
}

/// The reinstall hint shown next to an outdated daemon.
pub fn daemon_reinstall_hint(lang: ResolvedLanguage, daemon_version: Option<&str>) -> (r:
    &'static str)
    ensures
        ({
            let quiet = daemon_version matches Some(v) && self_reinstall_spec(v@);
            r@ == (match (lang, quiet) {
                (ResolvedLanguage::Ko, true) => "조용히 가능"@,
                (ResolvedLanguage::Ko, false) => "이번 한 번 승인 필요"@,
                (ResolvedLanguage::En, true) => "no prompt"@,
                (ResolvedLanguage::En, false) => "one approval this time"@,
            })
        }),
{
    let quiet = match daemon_version {
        Some(v) => daemon_self_reinstall_supported(v),
        None => false,
    };
    match (lang, quiet) {
        (ResolvedLanguage::Ko, true) => "조용히 가능",
        (ResolvedLanguage::Ko, false) => "이번 한 번 승인 필요",
        (ResolvedLanguage::En, true) => "no prompt",
        (ResolvedLanguage::En, false) => "one approval this time",
    }
}

/// The tone of the fan-control setup row.
pub fn setup_tone(daemon_running: bool, daemon_update_needed: bool) -> (r: &'static str)
    ensures
        r@ == (if daemon_running && !daemon_update_needed {
            "ok"@
        } else {
            "warn"@
        }),
{
    if daemon_update_needed {
        "warn"
    } else if daemon_running {
        "ok"
    } else {
        "warn"
    }
}

/// The title of the fan-control setup row.
pub fn setup_title(lang: ResolvedLanguage, daemon_running: bool, daemon_update_needed: bool) -> (r:
    &'static str)
    ensures
        r@ == (match (lang, daemon_update_needed, daemon_running) {
            (ResolvedLanguage::Ko, true, _) => "팬 제어 재설치"@,
            (ResolvedLanguage::Ko, false, true) => "준비 완료"@,
            (ResolvedLanguage::Ko, false, false) => "설정 필요"@,
            (ResolvedLanguage::En, true, _) => "Reinstall Fan Control"@,
            (ResolvedLanguage::En, false, true) => "Ready"@,
            (ResolvedLanguage::En, false, false) => "Setup needed"@,
        }),
{
    match (lang, daemon_update_needed, daemon_running) {
        (ResolvedLanguage::Ko, true, _) => "팬 제어 재설치",
        (ResolvedLanguage::Ko, false, true) => "준비 완료",
        (ResolvedLanguage::Ko, false, false) => "설정 필요",
        (ResolvedLanguage::En, true, _) => "Reinstall Fan Control",
        (ResolvedLanguage::En, false, true) => "Ready",
        (ResolvedLanguage::En, false, false) => "Setup needed",
    }
}

/// The version text shown for the daemon: its version, or `unknown`.
pub open spec fn version_or_unknown(daemon_version: Option<&str>) -> Seq<char> {
    match daemon_version {
        Some(v) => v@,
        None => "unknown"@,
    }
}

/// The detail line of the fan-control setup row.
pub fn setup_detail(
    lang: ResolvedLanguage,
    daemon_running: bool,
    daemon_update_needed: bool,
    daemon_version: Option<&str>,
) -> (r: String)
    ensures
        ({
            let v = version_or_unknown(daemon_version);
            let quiet = daemon_version matches Some(x) && self_reinstall_spec(x@);
            let hint = match (lang, quiet) {
                (ResolvedLanguage::Ko, true) => "조용히 가능"@,
                (ResolvedLanguage::Ko, false) => "이번 한 번 승인 필요"@,
                (ResolvedLanguage::En, true) => "no prompt"@,
                (ResolvedLanguage::En, false) => "one approval this time"@,
            };
            r@ == match (lang, daemon_update_needed, daemon_running) {
                (ResolvedLanguage::Ko, true, _) => "데몬 v"@ + v + " → v"@
                    + MIN_REQUIRED_DAEMON_VERSION@ + " · "@ + hint,
                (ResolvedLanguage::Ko, false, true) => "데몬 v"@ + v + " · 추가 승인 없음"@,
                (ResolvedLanguage::Ko, false, false) => "팬 제어 미설정 · 최초 승인 1회"@,
                (ResolvedLanguage::En, true, _) => "daemon v"@ + v + " → v"@
                    + MIN_REQUIRED_DAEMON_VERSION@ + " · "@ + hint,
                (ResolvedLanguage::En, false, true) => "daemon v"@ + v + " · no additional approval"@,
                (ResolvedLanguage::En, false, false) => "fan control not set up · one initial approval"@,
            }
        }),
{
    let v = match daemon_version {
        Some(v) => v,
        None => "unknown",
    };
    let mut s = String::new();
    match (lang, daemon_update_needed, daemon_running) {
        (ResolvedLanguage::Ko, true, _) => {
            s.append("데몬 v");
            s.append(v);
            s.append(" → v");
            s.append(MIN_REQUIRED_DAEMON_VERSION);
            s.append(" · ");
            s.append(daemon_reinstall_hint(lang, daemon_version));
        },
        (ResolvedLanguage::Ko, false, true) => {
            s.append("데몬 v");
            s.append(v);
            s.append(" · 추가 승인 없음");
        },
        (ResolvedLanguage::Ko, false, false) => {
            s.append("팬 제어 미설정 · 최초 승인 1회");
        },
        (ResolvedLanguage::En, true, _) => {
            s.append("daemon v");
            s.append(v);
            s.append(" → v");
            s.append(MIN_REQUIRED_DAEMON_VERSION);
            s.append(" · ");
            s.append(daemon_reinstall_hint(lang, daemon_version));
        },
        (ResolvedLanguage::En, false, true) => {
            s.append("daemon v");
            s.append(v);
            s.append(" · no additional approval");
        },
        (ResolvedLanguage::En, false, false) => {
            s.append("fan control not set up · one initial approval");
        },
    }
    s
}

/// Launching the app never opens the first-run setup dialog by itself.
pub fn should_auto_prompt_first_run_setup_on_launch() -> (r: bool)
    ensures
        !r,
{
    false
}

/// Launching the app never opens the daemon-update dialog by itself.
pub fn should_auto_prompt_stale_daemon_update_on_launch() -> (r: bool)
    ensures
        !r,
{
    false
}

} // verus!

verus! {

/// How long a looked-up daemon version is trusted, in milliseconds.
pub const DAEMON_VERSION_TTL_MS: u64 = 30000;

/// The last looked-up daemon version and when it was looked up.
pub struct DaemonVersionCache {
    entry: Option<(u64, Option<String>)>,
}

/// A lookup at `now` may reuse an entry made at `at`: less than the TTL has
/// passed (a clock that went backwards counts as no time passing).
pub open spec fn cache_fresh(at: u64, now: u64) -> bool {
    (if now >= at {
        now - at
    } else {
        0
    }) < DAEMON_VERSION_TTL_MS
}

impl DaemonVersionCache {
    /// The cached entry: when it was made, and the version it holds.
    pub closed spec fn entry(&self) -> Option<(u64, Option<Seq<char>>)> {
        match self.entry {
            Some((at, v)) => Some(
                (
                    at,
                    match v {
                        Some(s) => Some(s@),
                        None => None,
                    },
                ),
            ),
            None => None,
        }
    }

    /// An empty cache.
    pub fn new() -> (r: Self)
        ensures
            r.entry() is None,
    {
        DaemonVersionCache { entry: None }
    }

    /// The cached version, when a fresh one is cached; `Some(None)` is a
    /// fresh lookup that found no daemon.
    pub fn lookup(&self, now: u64) -> (r: Option<Option<String>>)
        ensures
            match self.entry() {
                Some((at, v)) => if cache_fresh(at, now) {
                    r matches Some(x) && match x {
                        Some(s) => v == Some(s@),
                        None => v is None,
                    }
                } else {
                    r is None
                },
                None => r is None,
            },
    {
        match &self.entry {
            Some((at, v)) => {
                let age = if now >= *at {
                    now - *at
                } else {
                    0
                };
                if age < DAEMON_VERSION_TTL_MS {
                    match v {
                        Some(s) => Some(Some(s.clone())),
                        None => Some(None),
                    }
                } else {
                    None
                }
            },
            None => None,
        }
    }

    /// Remembers a lookup made at `now`.
    pub fn store(&mut self, now: u64, version: Option<String>)
        ensures
            final(self).entry() == Some(
                (
                    now,
                    match version {
                        Some(s) => Some(s@),
                        None => None,
                    },
                ),
            ),
    {
        self.entry = Some((now, version));
    }

    /// Forgets the cached version, so the next lookup asks the daemon again.
    pub fn clear(&mut self)
        ensures
            final(self).entry() is None,
    {
        self.entry = None;
    }
}

/// Whether the outdated-daemon dialog may open by itself. It never does,
/// whatever was dismissed or snoozed: updating stays a user action.
pub fn should_prompt_stale_daemon_update(
    dismissed_for: Option<&str>,
    snoozed_until_unix: Option<u64>,
    current_version: &str,
    now_unix: u64,
) -> (r: bool)
    ensures
        !r,
{
    false
}

} // verus!
