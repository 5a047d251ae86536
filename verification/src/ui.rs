//! Menu-bar app decisions: refresh timing, click routing, the runner icon,
//! command-line arguments and the small text the dashboard shows.
use vstd::prelude::*;
use std::collections::VecDeque;
use vstd::utf8::encode_utf8;
use crate::number::{decimal, push_decimal};
use crate::daemon::{daemon_update_required, update_required_spec};
use crate::settings::{MenubarDisplay, ResolvedLanguage};
use crate::text::{chars_of, starts_with, str_eq, str_starts_with, str_trim, string_push, trim};

verus! {

/// How often the dashboard refreshes its metrics, in milliseconds.
pub const REFRESH_MS: u64 = 1000;

/// How often temperatures are read while a dashboard is open, in milliseconds.
pub const TEMPERATURE_REFRESH_VISIBLE_MS: u64 = 2000;

/// How often temperatures are read while every dashboard is closed, in milliseconds.
pub const TEMPERATURE_REFRESH_BACKGROUND_MS: u64 = 3000;

/// How old a temperature reading may grow before it is shown as stale, in milliseconds.
pub const TEMPERATURE_STALE_AFTER_MS: u64 = 8000;

/// How long the event loop must have stalled before the app treats it as a
/// sleep and rebuilds its caches, in milliseconds.
pub const RESUME_RECOVERY_GAP_MS: u64 = 8000;

/// How many empty fan samples in a row it takes to forget the known fans.
pub const FAN_EMPTY_CONFIRMATIONS: u8 = 3;

/// How many samples each short history keeps.
pub const HIST_CAP: usize = 120;

/// How often the dashboard's slow sections (processes, disks, battery) are
/// read again while shown, in milliseconds.
pub const DASHBOARD_SLOW_REFRESH_MS: u64 = 3000;

/// The slow sections are read again: a dashboard is shown on the settings
/// (2) or system (3) view, and either their refresh time has come or the
/// process list is to be sorted another way.
pub open spec fn slow_refresh_due(
    dashboard_visible: bool,
    active_view: u8,
    now_ms: u64,
    next_ms: u64,
    sort_changed: bool,
) -> bool {
    dashboard_visible && (active_view == 2 || active_view == 3) && (now_ms >= next_ms
        || sort_changed)
}

/// Whether the dashboard's slow sections are to be read again this tick.
pub fn slow_metrics_due(
    dashboard_visible: bool,
    active_view: u8,
    now_ms: u64,
    next_ms: u64,
    sort_changed: bool,
) -> (r: bool)
    ensures
        r == slow_refresh_due(dashboard_visible, active_view, now_ms, next_ms, sort_changed),
{
    let settings_visible = dashboard_visible && active_view == 2;
    let system_visible = dashboard_visible && active_view == 3;
    (settings_visible || system_visible) && (now_ms >= next_ms || sort_changed)
}

/// When the slow sections are next due after a read at `now_ms`.
pub fn next_slow_refresh(now_ms: u64) -> (r: u64)
    ensures
        r == (if now_ms <= u64::MAX - DASHBOARD_SLOW_REFRESH_MS {
            now_ms + DASHBOARD_SLOW_REFRESH_MS
        } else {
            u64::MAX as int
        }),
{
    now_ms.saturating_add(DASHBOARD_SLOW_REFRESH_MS)
}

/// `now - then`, or zero when `then` is later.
pub open spec fn saturating_elapsed(then: u64, now: u64) -> u64 {
    if now >= then {
        (now - then) as u64
    } else {
        0
    }
}

/// The age of a sample taken at `sampled_at`, when there is one.
pub fn sample_age(sampled_at: Option<u64>, now: u64) -> (r: Option<u64>)
    ensures
        r == (match sampled_at {
            Some(t) => Some(saturating_elapsed(t, now)),
            None => None,
        }),
{
    match sampled_at {
        Some(t) => Some(if now >= t {
            now - t
        } else {
            0
        }),
        None => None,
    }
}

/// A sample is stale when there is none or it is older than `limit`.
pub fn sample_is_stale(sampled_at: Option<u64>, now: u64, limit: u64) -> (r: bool)
    ensures
        r == (match sampled_at {
            Some(t) => saturating_elapsed(t, now) > limit,
            None => true,
        }),
{
    match sample_age(sampled_at, now) {
        Some(age) => age > limit,
        None => true,
    }
}

/// Whether the gap since the last event-loop turn means the machine slept.
pub fn should_recover_after_pause(last_event_at: Option<u64>, now: u64) -> (r: bool)
    ensures
        r == (match last_event_at {
            Some(t) => saturating_elapsed(t, now) >= RESUME_RECOVERY_GAP_MS,
            None => false,
        }),
{
    match last_event_at {
        Some(t) => {
            let gap = if now >= t {
                now - t
            } else {
                0
            };
            gap >= RESUME_RECOVERY_GAP_MS
        },
        None => false,
    }
}

/// How long to wait between temperature reads: faster while a dashboard shows them.
pub fn temperature_refresh_interval(dashboard_visible: bool) -> (r: u64)
    ensures
        r == (if dashboard_visible {
            TEMPERATURE_REFRESH_VISIBLE_MS
        } else {
            TEMPERATURE_REFRESH_BACKGROUND_MS
        }),
{
    if dashboard_visible {
        TEMPERATURE_REFRESH_VISIBLE_MS
    } else {
        TEMPERATURE_REFRESH_BACKGROUND_MS
    }
}

/// A reading taken on the slow background schedule is still fresh two
/// intervals later: it goes stale only after more than twice that interval.
pub proof fn lemma_background_readings_stay_fresh(sampled_at: u64, now: u64)
    requires
        sampled_at <= now <= sampled_at + 2 * TEMPERATURE_REFRESH_BACKGROUND_MS,
    ensures
        TEMPERATURE_REFRESH_VISIBLE_MS < TEMPERATURE_REFRESH_BACKGROUND_MS,
        saturating_elapsed(sampled_at, now) <= TEMPERATURE_STALE_AFTER_MS,
{
}

/// The span a chart covers.
#[derive(Clone, Copy, Debug, PartialEq, Eq, Structural)]
pub enum ChartRange {
    TwoMin,
    OneHour,
    OneDay,
}

impl ChartRange {
    /// The range stored as `v`: 1 is an hour, 2 a day, anything else two minutes.
    pub fn from_u8(v: u8) -> (r: Self)
        ensures
            r == (if v == 1 {
                ChartRange::OneHour
            } else if v == 2 {
                ChartRange::OneDay
            } else {
                ChartRange::TwoMin
            }),
    {
        match v {
            1 => ChartRange::OneHour,
            2 => ChartRange::OneDay,
            _ => ChartRange::TwoMin,
        }
    }

    /// The range's name in the dashboard.
    pub fn as_str(self) -> (r: &'static str)
        ensures
            r@ == (match self {
                ChartRange::TwoMin => "2m"@,
                ChartRange::OneHour => "1h"@,
                ChartRange::OneDay => "1d"@,
            }),
    {
        match self {
            ChartRange::TwoMin => "2m",
            ChartRange::OneHour => "1h",
            ChartRange::OneDay => "1d",
        }
    }
}

/// Whether the left mouse button opens the native context menu, and whether
/// the right button does. The left button opens the popover instead.
pub fn click_routing() -> (r: (bool, bool))
    ensures
        r == (false, true),
{
    (false, true)
}

/// A mouse button's edge.
#[derive(Clone, Copy, Debug, PartialEq, Eq, Structural)]
pub enum MouseButtonState {
    Down,
    Up,
}

/// Whether a left-button edge toggles the popover: the press does and is
/// remembered; the release that matches a remembered press does not; a
/// release with no press before it does.
pub fn route_left_click(state: MouseButtonState, down_seen: &mut bool) -> (r: bool)
    ensures
        state == MouseButtonState::Down ==> r && *final(down_seen),
        state == MouseButtonState::Up ==> r == !*old(down_seen) && !*final(down_seen),
{
    match state {
        MouseButtonState::Down => {
            *down_seen = true;
            true
        },
        MouseButtonState::Up => {
            let seen = *down_seen;
            *down_seen = false;
            !seen
        },
    }
}

/// Whether the display style draws the runner.
pub fn runner_enabled(display: MenubarDisplay) -> (r: bool)
    ensures
        r == (display == MenubarDisplay::Graph || display == MenubarDisplay::Both),
{
    match display {
        MenubarDisplay::Graph | MenubarDisplay::Both => true,
        MenubarDisplay::Number => false,
    }
}

/// The runner animates when it is drawn and the user has not asked for reduced motion.
pub fn runner_should_animate(display: MenubarDisplay, reduce_motion: bool) -> (r: bool)
    ensures
        r == ((display == MenubarDisplay::Graph || display == MenubarDisplay::Both)
            && !reduce_motion),
{
    runner_enabled(display) && !reduce_motion
}

/// Forgets the cached runner frame. `None` means "no runner shown", so an
/// index no frame has is stored, and the next update redraws or removes it.
pub fn invalidate_runner_icon(last_runner_icon: &mut Option<usize>)
    ensures
        *final(last_runner_icon) == Some(usize::MAX),
{
    *last_runner_icon = Some(usize::MAX);
}

/// Fan controls are offered when a usable daemon runs, or when the hardware
/// supports control and the app may write directly (it is root or simulated).
pub fn fan_control_access(hardware_supported: bool, daemon_usable: bool, elevated: bool, mock: bool) -> (r: bool)
    ensures
        r == (daemon_usable || (hardware_supported && (elevated || mock))),
{
    daemon_usable || (hardware_supported && (elevated || mock))
}

/// The index of the first argument, after the program name, that the
/// menu-bar app does not take: `--mock` and `-psn_…` stand alone, `--metric`,
/// `--display` and `--character` take a value, and one of those three
/// without its value is itself the offender.
pub open spec fn first_unsupported(args: Seq<Seq<char>>, i: int) -> Option<int>
    decreases args.len() - i,
{
    if i < 0 || i >= args.len() {
        None
    } else if args[i] == "--mock"@ {
        first_unsupported(args, i + 1)
    } else if args[i] == "--metric"@ || args[i] == "--display"@ || args[i] == "--character"@ {
        if i + 1 >= args.len() {
            Some(i)
        } else {
            first_unsupported(args, i + 2)
        }
    } else if starts_with(args[i], "-psn_"@) {
        first_unsupported(args, i + 1)
    } else {
        Some(i)
    }
}

/// The first command-line argument the menu-bar app does not take.
pub fn unsupported_menubar_arg(args: &[String]) -> (r: Option<&str>)
    ensures
        match first_unsupported(args@.map_values(|a: String| a@), 1) {
            Some(i) => r matches Some(a) && a@ == args@[i]@,
            None => r is None,
        },
{
    let ghost v = args@.map_values(|a: String| a@);
    let mut i: usize = 1;
    while i < args.len()
        invariant
            v == args@.map_values(|a: String| a@),
            1 <= i,
            i <= args@.len() + 1,
            first_unsupported(v, 1) == first_unsupported(v, i as int),
        decreases args@.len() - i,
    {
        let a = args[i].as_str();
        assert(v[i as int] == a@);
        if str_eq(a, "--mock") {
            i += 1;
        } else if str_eq(a, "--metric") || str_eq(a, "--display") || str_eq(a, "--character") {
            if i + 1 >= args.len() {
                return Some(a);
            }
            i += 2;
        } else if str_starts_with(a, "-psn_") {
            i += 1;
        } else {
            return Some(a);
        }
    }
    None
}

/// An uptime as the dashboard shows it: days and hours, hours and minutes, or
/// minutes alone.
pub open spec fn uptime_text(total_secs: u64) -> Seq<char> {
    let days = total_secs / 86400;
    let hours = (total_secs % 86400) / 3600;
    let minutes = (total_secs % 3600) / 60;
    if days > 0 {
        decimal(days as nat) + "d "@ + decimal(hours as nat) + "h"@
    } else if hours > 0 {
        decimal(hours as nat) + "h "@ + decimal(minutes as nat) + "m"@
    } else {
        decimal(minutes as nat) + "m"@
    }
}

/// Formats an uptime.
pub fn format_uptime(total_secs: u64) -> (r: String)
    ensures
        r@ == uptime_text(total_secs),
{
    let days = total_secs / 86400;
    let hours = (total_secs % 86400) / 3600;
    let minutes = (total_secs % 3600) / 60;
    let mut s = String::new();
    if days > 0 {
        push_decimal(&mut s, days);
        s.append("d ");
        push_decimal(&mut s, hours);
        s.append("h");
    } else if hours > 0 {
        push_decimal(&mut s, hours);
        s.append("h ");
        push_decimal(&mut s, minutes);
        s.append("m");
    } else {
        push_decimal(&mut s, minutes);
        s.append("m");
    }
    s
}

/// A path with its backslashes turned into slashes.
pub open spec fn with_forward_slashes(s: Seq<char>) -> Seq<char> {
    s.map_values(|c: char| if c == '\\' { '/' } else { c })
}

fn forward_slashes(s: &str) -> (r: String)
    ensures
        r@ == with_forward_slashes(s@),
{
    let v = chars_of(s);
    let mut out = String::new();
    let mut i: usize = 0;
    while i < v.len()
        invariant
            v@ == s@,
            i <= v.len(),
            out@ == with_forward_slashes(s@.take(i as int)),
        decreases v.len() - i,
    {
        let c = if v[i] == '\\' {
            '/'
        } else {
            v[i]
        };
        string_push(&mut out, c);
        assert(out@ =~= with_forward_slashes(s@.take(i + 1)));
        i += 1;
    }
    assert(s@.take(v.len() as int) =~= s@);
    out
}

/// How well the disk mounted at `mount` holds `target`: the byte length of
/// the mount point when the target lies under it, else 0.
pub fn mount_match_score(mount: &str, target: &str) -> (r: usize)
    ensures
        r == (if starts_with(with_forward_slashes(target@), with_forward_slashes(mount@)) {
            encode_utf8(with_forward_slashes(mount@)).len() as usize
        } else {
            0
        }),
{
    let m = forward_slashes(mount);
    let t = forward_slashes(target);
    if str_starts_with(t.as_str(), m.as_str()) {
        m.as_str().len()
    } else {
        0
    }
}

/// Appends `v` to `buf`, dropping the oldest entry when that leaves more than `cap`.
pub fn push_capped<T>(buf: &mut VecDeque<T>, v: T, cap: usize)
    ensures
        final(buf)@ == (if old(buf)@.len() + 1 > cap {
            old(buf)@.push(v).drop_first()
        } else {
            old(buf)@.push(v)
        }),
{
    buf.push_back(v);
    if buf.len() > cap {
        let _ = buf.pop_front();
    }
}

/// Appends `v` to a short history of `HIST_CAP` samples.
pub fn push_hist<T>(buf: &mut VecDeque<T>, v: T)
    ensures
        final(buf)@ == (if old(buf)@.len() + 1 > HIST_CAP {
            old(buf)@.push(v).drop_first()
        } else {
            old(buf)@.push(v)
        }),
{
    push_capped(buf, v, HIST_CAP);
}

/// A capped history never grows past its cap once it is within it, and its
/// newest entry is the one just pushed.
pub proof fn lemma_push_capped_bounded<T>(old_buf: Seq<T>, v: T, cap: usize)
    requires
        old_buf.len() <= cap,
    ensures
        ({
            let new_buf = if old_buf.len() + 1 > cap {
                old_buf.push(v).drop_first()
            } else {
                old_buf.push(v)
            };
            new_buf.len() <= cap && (cap > 0 ==> new_buf.last() == v)
        }),
{
}

/// The text after the version in `--help`.
pub const HELP_BODY: &'static str = "\n\nLive system metrics in the macOS menu bar.\n\nUSAGE:\n    peterfan-menubar [OPTIONS]\n\nOPTIONS:\n    --mock                Use simulated hardware instead of real sensors\n    --display <number|cat|both>             How it's rendered (cat also accepts legacy graph)\n    --character <cat|dog|rabbit|fox>       CPU runner character\n    (The flag overrides the saved preference; changing it from the\n    right-click menu persists for next launch.)\n    --version, -V         Print version and exit\n    --help, -h            Print this help and exit";

/// The `--help` text of the menu-bar app at `version`.
pub fn help_text(version: &str) -> (r: String)
    ensures
        r@ == "peterfan-menubar "@ + version@ + HELP_BODY@,
{
    let mut s = String::from_str("peterfan-menubar ");
    s.append(version);
    s.append(HELP_BODY);
    s
}

/// The title of the notification that reports a fan-control action.
pub fn control_notification_title(action: &str, ok: bool) -> (r: String)
    ensures
        r@ == (if ok {
            "PeterFan"@
        } else {
            "PeterFan — action needed"@
        }) + " · "@ + action@,
{
    let mut s = if ok {
        String::from_str("PeterFan")
    } else {
        String::from_str("PeterFan — action needed")
    };
    s.append(" · ");
    s.append(action);
    s
}

/// The fan cache and empty-sample count after a new fan sample: an empty
/// sample while fans are known only counts (saturating), and forgets the fans
/// once `FAN_EMPTY_CONFIRMATIONS` have come in a row; any other sample
/// replaces the cache and resets the count.
pub open spec fn merged_fans<T>(cache: Seq<T>, empty_samples: u8, fans: Seq<T>) -> (Seq<T>, u8) {
    if fans.len() == 0 && cache.len() > 0 {
        let n: u8 = if empty_samples == 255 {
            255
        } else {
            (empty_samples + 1) as u8
        };
        (if n >= FAN_EMPTY_CONFIRMATIONS {
            Seq::<T>::empty()
        } else {
            cache
        }, n)
    } else {
        (fans, 0)
    }
}

/// Folds a new fan sample into the cache.
pub fn merge_fan_sample<T>(cache: &mut Vec<T>, empty_samples: &mut u8, fans: Vec<T>)
    ensures
        (final(cache)@, *final(empty_samples)) == merged_fans(old(cache)@, *old(empty_samples), fans@),
{
    if fans.len() == 0 && cache.len() > 0 {
        *empty_samples = empty_samples.saturating_add(1);
        if *empty_samples >= FAN_EMPTY_CONFIRMATIONS {
            cache.clear();
        }
    } else {
        *cache = fans;
        *empty_samples = 0;
    }
}

/// Known fans survive one or two empty samples in a row and are forgotten at
/// the third.
pub proof fn lemma_fans_survive_transient_empty_samples<T>(cache: Seq<T>)
    requires
        cache.len() > 0,
    ensures
        ({
            let empty = Seq::<T>::empty();
            let one = merged_fans(cache, 0, empty);
            let two = merged_fans(one.0, one.1, empty);
            let three = merged_fans(two.0, two.1, empty);
            one.0 == cache && two.0 == cache && three.0.len() == 0
        }),
{
}

/// The text the fan-failure notification shows when the daemon gave no error.
pub const FAN_FAILURE_FALLBACK: &'static str =
    "Fan control verification failed; check Fan Control Health.";

/// The title of the fan-failure notification.
pub const FAN_FAILURE_TITLE: &'static str = "PeterFan — fan control needs attention";

/// `a + b`, or `u64::MAX` when that does not fit.
pub open spec fn saturating_add_u64(a: u64, b: u64) -> u64 {
    if a + b > u64::MAX {
        u64::MAX
    } else {
        (a + b) as u64
    }
}

/// The failure total the daemon reports, when it reports either count.
pub open spec fn failure_total(write_failures: Option<u64>, readback_failures: Option<u64>) -> Option<u64> {
    if write_failures is None && readback_failures is None {
        None
    } else {
        Some(saturating_add_u64(
            match write_failures {
                Some(w) => w,
                None => 0,
            },
            match readback_failures {
                Some(r) => r,
                None => 0,
            },
        ))
    }
}

/// The body of the fan-failure notification: the daemon's last error, when it
/// is not blank, else the fallback; at most 180 characters of it.
pub open spec fn failure_body(last_error: Option<Seq<char>>) -> Seq<char> {
    let detail = match last_error {
        Some(e) => if trim(e).len() > 0 {
            e
        } else {
            FAN_FAILURE_FALLBACK@
        },
        None => FAN_FAILURE_FALLBACK@,
    };
    if detail.len() > 180 {
        detail.take(180)
    } else {
        detail
    }
}

/// The fan-failure notification rule. The first report only sets the
/// baseline; a later report notifies, when the user allows it, exactly when
/// the failure total rose above the baseline; every report becomes the new
/// baseline. Without a report nothing changes.
pub fn fan_failure_rule(
    baseline: Option<u64>,
    notify_enabled: bool,
    write_failures: Option<u64>,
    readback_failures: Option<u64>,
    last_error: Option<&str>,
) -> (r: (Option<u64>, Option<String>))
    ensures
        r.0 == (match failure_total(write_failures, readback_failures) {
            Some(t) => Some(t),
            None => baseline,
        }),
        r.1 is Some <==> (failure_total(write_failures, readback_failures) matches Some(t) && (
        baseline matches Some(prev) && notify_enabled && t > prev)),
        r.1 matches Some(body) ==> body@ == failure_body(
            match last_error {
                Some(e) => Some(e@),
                None => None,
            },
        ),
{
    if write_failures.is_none() && readback_failures.is_none() {
        return (baseline, None);
    }
    let w: u64 = match write_failures {
        Some(w) => w,
        None => 0,
    };
    let rb: u64 = match readback_failures {
        Some(x) => x,
        None => 0,
    };
    let failures = w.saturating_add(rb);
    let mut notice: Option<String> = None;
    if let Some(previous) = baseline {
        if notify_enabled && failures > previous {
            let detail: &str = match last_error {
                Some(e) => {
                    if str_trim(e).unicode_len() > 0 {
                        e
                    } else {
                        FAN_FAILURE_FALLBACK
                    }
                },
                None => FAN_FAILURE_FALLBACK,
            };
            let n = detail.unicode_len();
            let end: usize = if n > 180 {
                180
            } else {
                n
            };
            let body = detail.substring_char(0, end);
            assert(body@ =~= failure_body(
                match last_error {
                    Some(e) => Some(e@),
                    None => None,
                },
            ));
            notice = Some(String::from_str(body));
        }
    }
    (Some(failures), notice)
}

/// What the fan diagnostic looks at. Temperatures come as whole degrees
/// already written out (`"67"`), since the readings are floating point.
pub struct FanDiagnosticInput<'a> {
    pub fan_count: usize,
    pub controllable_count: usize,
    pub average_c: Option<&'a str>,
    pub safety_c: Option<&'a str>,
    pub critical_c: &'a str,
    pub daemon_version: Option<&'a str>,
    pub daemon_reachable: bool,
    pub readback_stale: bool,
}

/// A temperature in the diagnostic line, or a dash when there is none.
pub open spec fn diagnostic_temp(t: Option<&str>) -> Seq<char> {
    match t {
        Some(x) => x@ + "°C"@,
        None => "—"@,
    }
}

/// The daemon's part of the diagnostic line.
pub open spec fn diagnostic_daemon(version: Option<&str>, reachable: bool) -> Seq<char> {
    if !reachable {
        "daemon not running"@
    } else {
        match version {
            Some(v) => if update_required_spec(v@) {
                "daemon v"@ + v@ + " needs update"@
            } else {
                "daemon v"@ + v@ + " ready"@
            },
            None => "daemon version unknown"@,
        }
    }
}

/// Whether the diagnostic finds fan control ready: fans that can be
/// controlled, a CPU reading, an up-to-date daemon that answers, and fresh
/// speed readback.
pub open spec fn diagnostic_ok(input: FanDiagnosticInput) -> bool {
    &&& input.fan_count > 0
    &&& input.controllable_count > 0
    &&& input.average_c is Some
    &&& input.daemon_reachable
    &&& !(input.daemon_version matches Some(v) && update_required_spec(v@))
    &&& !input.readback_stale
}

/// Fan control is reported ready only when everything it needs is there:
/// some fan, at least one fan that can be controlled, a CPU reading, a daemon
/// that answers and needs no update, and fresh speed readback. In particular,
/// with no controllable fan the diagnostic never reports ready.
pub proof fn lemma_diagnostic_ready_needs_everything(input: FanDiagnosticInput)
    ensures
        diagnostic_ok(input) ==> {
            &&& input.fan_count > 0
            &&& input.controllable_count > 0
            &&& input.average_c is Some
            &&& input.daemon_reachable
            &&& !input.readback_stale
            &&& !(input.daemon_version matches Some(v) && update_required_spec(v@))
        },
        input.controllable_count == 0 ==> !diagnostic_ok(input),
        (input.fan_count > 0 && input.controllable_count > 0 && input.average_c is Some
            && input.daemon_reachable && !input.readback_stale && input.daemon_version is None)
            ==> diagnostic_ok(input),
{
}

fn push_temp(s: &mut String, t: Option<&str>)
    ensures
        final(s)@ == old(s)@ + diagnostic_temp(t),
{
    match t {
        Some(x) => {
            s.append(x);
            s.append("°C");
        },
        None => {
            s.append("—");
        },
    }
}

/// The fan diagnostic: whether fan control is ready, and the line that says why.
pub fn format_fan_diagnostic(input: FanDiagnosticInput) -> (r: (bool, String))
    ensures
        r.0 == diagnostic_ok(input),
        r.1@ == "diagnostic: fans "@ + decimal(input.controllable_count as nat) + "/"@ + decimal(
            input.fan_count as nat,
        ) + ", CPU avg "@ + diagnostic_temp(input.average_c) + ", safety "@ + diagnostic_temp(
            input.safety_c,
        ) + ", limit "@ + input.critical_c@ + "°C, "@ + diagnostic_daemon(
            input.daemon_version,
            input.daemon_reachable,
        ) + (if input.readback_stale {
            ", RPM readback stale"@
        } else {
            ", RPM readback healthy"@
        }),
{
    let daemon_update = match input.daemon_version {
        Some(v) => daemon_update_required(v),
        None => false,
    };
    let ok = input.fan_count > 0 && input.controllable_count > 0 && input.average_c.is_some()
        && input.daemon_reachable && !daemon_update && !input.readback_stale;
    let mut s = String::from_str("diagnostic: fans ");
    push_decimal(&mut s, input.controllable_count as u64);
    s.append("/");
    push_decimal(&mut s, input.fan_count as u64);
    s.append(", CPU avg ");
    push_temp(&mut s, input.average_c);
    s.append(", safety ");
    push_temp(&mut s, input.safety_c);
    s.append(", limit ");
    s.append(input.critical_c);
    s.append("°C, ");
    if !input.daemon_reachable {
        s.append("daemon not running");
    } else {
        match input.daemon_version {
            Some(v) => {
                s.append("daemon v");
                s.append(v);
                if daemon_update {
                    s.append(" needs update");
                } else {
                    s.append(" ready");
                }
            },
            None => {
                s.append("daemon version unknown");
            },
        }
    }
    if input.readback_stale {
        s.append(", RPM readback stale");
    } else {
        s.append(", RPM readback healthy");
    }
    (ok, s)
}

} // verus!

verus! {

/// The menu texts in one language.
pub struct L10n {
    pub enable_fan_control: &'static str,
    pub auto: &'static str,
    pub rules: &'static str,
    pub profile_silent: &'static str,
    pub profile_balanced: &'static str,
    pub profile_gaming: &'static str,
    pub profile_performance: &'static str,
    pub profile_maximum: &'static str,
    pub open_detail: &'static str,
    pub open_diagnostics: &'static str,
    pub check_updates: &'static str,
    pub quit: &'static str,
    pub menu_bar_style: &'static str,
    pub runner_character: &'static str,
    pub temperature_source: &'static str,
    pub fan_speed: &'static str,
    pub language: &'static str,
    pub style_number: &'static str,
    pub style_graph: &'static str,
    pub style_both: &'static str,
}

/// The menu texts in `lang`, every label fixed. The runner style is named
/// "Runner" (러너).
pub fn strings(lang: ResolvedLanguage) -> (r: L10n)
    ensures
        lang == ResolvedLanguage::En ==> {
            &&& r.enable_fan_control@ == "Enable Fan Control (One-Time Setup)…"@
            &&& r.auto@ == "Auto (OS-managed)"@
            &&& r.rules@ == "Rules"@
            &&& r.profile_silent@ == "Silent"@
            &&& r.profile_balanced@ == "Balanced"@
            &&& r.profile_gaming@ == "Gaming"@
            &&& r.profile_performance@ == "Performance"@
            &&& r.profile_maximum@ == "Maximum"@
            &&& r.open_detail@ == "Open Detailed Window…"@
            &&& r.open_diagnostics@ == "Open Diagnostic Log…"@
            &&& r.check_updates@ == "Update Now…"@
            &&& r.quit@ == "Quit PeterFan"@
            &&& r.menu_bar_style@ == "Menu Bar Style"@
            &&& r.runner_character@ == "Runner Character"@
            &&& r.temperature_source@ == "Dashboard Temperature"@
            &&& r.fan_speed@ == "Fan Speed"@
            &&& r.language@ == "Language"@
            &&& r.style_number@ == "Number"@
            &&& r.style_graph@ == "Runner"@
            &&& r.style_both@ == "Number + Runner"@
        },
        lang == ResolvedLanguage::Ko ==> {
            &&& r.enable_fan_control@ == "팬 제어 활성화 (최초 1회 설정)…"@
            &&& r.auto@ == "자동 (OS 관리)"@
            &&& r.rules@ == "규칙"@
            &&& r.profile_silent@ == "무음"@
            &&& r.profile_balanced@ == "균형"@
            &&& r.profile_gaming@ == "게이밍"@
            &&& r.profile_performance@ == "고성능"@
            &&& r.profile_maximum@ == "최대"@
            &&& r.open_detail@ == "상세 창 열기…"@
            &&& r.open_diagnostics@ == "진단 로그 열기…"@
            &&& r.check_updates@ == "지금 업데이트…"@
            &&& r.quit@ == "PeterFan 종료"@
            &&& r.menu_bar_style@ == "메뉴 막대 스타일"@
            &&& r.runner_character@ == "러너 캐릭터"@
            &&& r.temperature_source@ == "대시보드 온도"@
            &&& r.fan_speed@ == "팬 속도"@
            &&& r.language@ == "언어"@
            &&& r.style_number@ == "숫자"@
            &&& r.style_graph@ == "러너"@
            &&& r.style_both@ == "숫자 + 러너"@
        },
{
    match lang {
        ResolvedLanguage::En => L10n {
            enable_fan_control: "Enable Fan Control (One-Time Setup)…",
            auto: "Auto (OS-managed)",
            rules: "Rules",
            profile_silent: "Silent",
            profile_balanced: "Balanced",
            profile_gaming: "Gaming",
            profile_performance: "Performance",
            profile_maximum: "Maximum",
            open_detail: "Open Detailed Window…",
            open_diagnostics: "Open Diagnostic Log…",
            check_updates: "Update Now…",
            quit: "Quit PeterFan",
            menu_bar_style: "Menu Bar Style",
            runner_character: "Runner Character",
            temperature_source: "Dashboard Temperature",
            fan_speed: "Fan Speed",
            language: "Language",
            style_number: "Number",
            style_graph: "Runner",
            style_both: "Number + Runner",
        },
        ResolvedLanguage::Ko => L10n {
            enable_fan_control: "팬 제어 활성화 (최초 1회 설정)…",
            auto: "자동 (OS 관리)",
            rules: "규칙",
            profile_silent: "무음",
            profile_balanced: "균형",
            profile_gaming: "게이밍",
            profile_performance: "고성능",
            profile_maximum: "최대",
            open_detail: "상세 창 열기…",
            open_diagnostics: "진단 로그 열기…",
            check_updates: "지금 업데이트…",
            quit: "PeterFan 종료",
            menu_bar_style: "메뉴 막대 스타일",
            runner_character: "러너 캐릭터",
            temperature_source: "대시보드 온도",
            fan_speed: "팬 속도",
            language: "언어",
            style_number: "숫자",
            style_graph: "러너",
            style_both: "숫자 + 러너",
        },
    }
}

} // verus!

verus! {

/// The base name of the lock that keeps one menu-bar app running per user.
pub const SINGLE_INSTANCE_LOCK_BASENAME: &'static str = "kr.co.uulab.peterfan.menubar";

/// The file name of the single-instance lock of user `uid`: the simulated
/// and the real app each hold their own.
pub fn single_instance_lock_name(mock: bool, uid: u32) -> (r: String)
    ensures
        r@ == SINGLE_INSTANCE_LOCK_BASENAME@ + "."@ + (if mock {
            "mock"@
        } else {
            "app"@
        }) + "."@ + decimal(uid as nat) + ".lock"@,
{
    let mut s = String::from_str(SINGLE_INSTANCE_LOCK_BASENAME);
    s.append(".");
    s.append(if mock { "mock" } else { "app" });
    s.append(".");
    push_decimal(&mut s, uid as u64);
    s.append(".lock");
    s
}

/// How many fan actions the log keeps.
pub const FAN_ACTION_LOG_MAX: usize = 12;

/// Adds an entry to the front of the fan-action log, keeping the newest
/// `FAN_ACTION_LOG_MAX`.
pub fn record_fan_action_entry<T>(log: &mut VecDeque<T>, entry: T)
    ensures
        final(log)@ == (if old(log)@.len() + 1 > FAN_ACTION_LOG_MAX {
            seq![entry].add(old(log)@).take(FAN_ACTION_LOG_MAX as int)
        } else {
            seq![entry].add(old(log)@)
        }),
{
    log.push_front(entry);
    log.truncate(FAN_ACTION_LOG_MAX);
    assert(log@ =~= (if old(log)@.len() + 1 > FAN_ACTION_LOG_MAX {
        seq![entry].add(old(log)@).take(FAN_ACTION_LOG_MAX as int)
    } else {
        seq![entry].add(old(log)@)
    }));
}

/// At most the first 180 characters of `s`, as a log entry keeps of a result.
pub fn clip_180(s: &str) -> (r: &str)
    ensures
        r@ == (if s@.len() > 180 {
            s@.take(180)
        } else {
            s@
        }),
{
    let n = s.unicode_len();
    if n > 180 {
        s.substring_char(0, 180)
    } else {
        s
    }
}

/// The size at which the menu-bar log is rotated, in bytes.
pub const MENUBAR_LOG_MAX_BYTES: u64 = 524288;

/// Whether a log of `size` bytes is moved aside before the next line.
pub fn log_needs_rotation(size: u64) -> (r: bool)
    ensures
        r == (size >= MENUBAR_LOG_MAX_BYTES),
{
    size >= MENUBAR_LOG_MAX_BYTES
}

/// One line of the menu-bar log: when, which version, what.
pub fn log_line(now_unix_ms: u64, version: &str, message: &str) -> (r: String)
    ensures
        r@ == decimal(now_unix_ms as nat) + " v"@ + version@ + " "@ + message@,
{
    let mut s = String::new();
    push_decimal(&mut s, now_unix_ms);
    s.append(" v");
    s.append(version);
    s.append(" ");
    s.append(message);
    s
}

} // verus!

verus! {

/// The sum of the speeds in `s` that are above zero.
pub open spec fn running_rpm_sum(s: Seq<u32>) -> int
    decreases s.len(),
{
    if s.len() == 0 {
        0
    } else {
        running_rpm_sum(s.drop_last()) + (if s.last() > 0 {
            s.last() as int
        } else {
            0
        })
    }
}

/// How many speeds in `s` are above zero.
pub open spec fn running_rpm_count(s: Seq<u32>) -> int
    decreases s.len(),
{
    if s.len() == 0 {
        0
    } else {
        running_rpm_count(s.drop_last()) + (if s.last() > 0 {
            1int
        } else {
            0
        })
    }
}

proof fn lemma_running_rpm_bounds(s: Seq<u32>)
    ensures
        0 <= running_rpm_count(s) <= s.len(),
        0 <= running_rpm_sum(s),
        running_rpm_count(s) <= running_rpm_sum(s),
    decreases s.len(),
{
    if s.len() > 0 {
        lemma_running_rpm_bounds(s.drop_last());
    }
}

/// The average speed of the fans that are turning, rounded down; 0 when none
/// turns.
pub fn fan_avg_rpm(rpms: &Vec<u32>) -> (r: u32)
    requires
        running_rpm_sum(rpms@) <= u32::MAX,
    ensures
        r == (if running_rpm_count(rpms@) == 0 {
            0
        } else {
            running_rpm_sum(rpms@) / running_rpm_count(rpms@)
        }),
{
    let mut sum: u32 = 0;
    let mut count: u32 = 0;
    let mut i: usize = 0;
    while i < rpms.len()
        invariant
            i <= rpms@.len(),
            running_rpm_sum(rpms@) <= u32::MAX,
            sum == running_rpm_sum(rpms@.take(i as int)),
            count == running_rpm_count(rpms@.take(i as int)),
        decreases rpms@.len() - i,
    {
        proof {
            assert(rpms@.take(i + 1).drop_last() =~= rpms@.take(i as int));
            lemma_running_rpm_prefix(rpms@, i + 1);
            lemma_running_rpm_bounds(rpms@.take(i + 1));
            assert(running_rpm_count(rpms@.take(i + 1)) <= i + 1);
        }
        if rpms[i] > 0 {
            sum = sum + rpms[i];
            count = count + 1;
        }
        i += 1;
    }
    assert(rpms@.take(rpms@.len() as int) =~= rpms@);
    if count == 0 {
        0
    } else {
        sum / count
    }
}

proof fn lemma_running_rpm_prefix(s: Seq<u32>, n: int)
    requires
        0 <= n <= s.len(),
    ensures
        running_rpm_sum(s.take(n)) <= running_rpm_sum(s),
    decreases s.len(),
{
    if n < s.len() {
        assert(s.drop_last().take(n) =~= s.take(n));
        lemma_running_rpm_prefix(s.drop_last(), n);
    } else {
        assert(s.take(n) =~= s);
    }
}

/// The fans' summary text: reading while the fan data is stale or no fan
/// turns yet, the average speed when one turns, "No fans" without fans.
pub open spec fn fan_avg_rpm_text_spec(
    lang: ResolvedLanguage,
    stale: bool,
    avg_rpm: u32,
    fan_count: nat,
) -> Seq<char> {
    let reading = match lang {
        ResolvedLanguage::Ko => "읽는 중…"@,
        ResolvedLanguage::En => "Reading…"@,
    };
    if stale {
        reading
    } else if avg_rpm > 0 {
        decimal(avg_rpm as nat) + " RPM"@
    } else if fan_count == 0 {
        match lang {
            ResolvedLanguage::Ko => "팬 없음"@,
            ResolvedLanguage::En => "No fans"@,
        }
    } else {
        reading
    }
}

/// The fans' summary text on the dashboard.
pub fn fan_avg_rpm_text(lang: ResolvedLanguage, stale: bool, avg_rpm: u32, fan_count: usize) -> (r:
    String)
    ensures
        r@ == fan_avg_rpm_text_spec(lang, stale, avg_rpm, fan_count as nat),
{
    let reading = match lang {
        ResolvedLanguage::Ko => "읽는 중…",
        ResolvedLanguage::En => "Reading…",
    };
    if stale {
        String::from_str(reading)
    } else if avg_rpm > 0 {
        let mut s = String::new();
        push_decimal(&mut s, avg_rpm as u64);
        s.append(" RPM");
        s
    } else if fan_count == 0 {
        String::from_str(
            match lang {
                ResolvedLanguage::Ko => "팬 없음",
                ResolvedLanguage::En => "No fans",
            },
        )
    } else {
        String::from_str(reading)
    }
}

/// The fan-control status line: a daemon that needs an update asks for a
/// reinstall; a usable daemon's own status; supported but not yet
/// controllable asks for setup; otherwise the app's last status message.
pub open spec fn controller_status_spec(
    lang: ResolvedLanguage,
    daemon_update_needed: bool,
    daemon_usable: bool,
    fan_control_supported: bool,
    can_control: bool,
    daemon_status: Seq<char>,
    app_status: Seq<char>,
) -> Seq<char> {
    if daemon_update_needed {
        match lang {
            ResolvedLanguage::Ko => "팬 제어 재설치 필요"@,
            ResolvedLanguage::En => "reinstall fan control"@,
        }
    } else if daemon_usable {
        daemon_status
    } else if fan_control_supported && !can_control {
        match lang {
            ResolvedLanguage::Ko => "팬 제어 설정 필요"@,
            ResolvedLanguage::En => "fan control setup required"@,
        }
    } else {
        app_status
    }
}

/// The fan-control status line on the dashboard.
pub fn controller_status(
    lang: ResolvedLanguage,
    daemon_update_needed: bool,
    daemon_usable: bool,
    fan_control_supported: bool,
    can_control: bool,
    daemon_status: &str,
    app_status: &str,
) -> (r: String)
    ensures
        r@ == controller_status_spec(
            lang,
            daemon_update_needed,
            daemon_usable,
            fan_control_supported,
            can_control,
            daemon_status@,
            app_status@,
        ),
{
    if daemon_update_needed {
        String::from_str(
            match lang {
                ResolvedLanguage::Ko => "팬 제어 재설치 필요",
                ResolvedLanguage::En => "reinstall fan control",
            },
        )
    } else if daemon_usable {
        String::from_str(daemon_status)
    } else if fan_control_supported && !can_control {
        String::from_str(
            match lang {
                ResolvedLanguage::Ko => "팬 제어 설정 필요",
                ResolvedLanguage::En => "fan control setup required",
            },
        )
    } else {
        String::from_str(app_status)
    }
}

} // verus!
