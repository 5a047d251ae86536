//! Fan-control commands sent from the dashboard: how they are queued, named,
//! framed for the daemon, and read back.
use vstd::prelude::*;
use crate::text::{
    find_char, first_index_of, has_substring, last_index_of, lemma_first_index_of,
    lemma_last_index_of, rfind_char, starts_with, str_eq, str_has_substring, str_starts_with,
    strip_prefix, str_trim, trim,
};

verus! {

/// The first `c`-separated field of `s`, as `s.split(c).next()` gives it.
pub open spec fn first_field(s: Seq<char>, c: char) -> Seq<char> {
    match first_index_of(s, c) {
        Some(i) => s.take(i),
        None => s,
    }
}

/// The coalescing key of a queued command: commands with the same key replace
/// each other, commands without a key are only de-duplicated.
pub open spec fn command_key(cmd: Seq<char>) -> Option<Seq<char>> {
    if cmd == "ready:popover"@ || cmd == "ready:detail"@ {
        Some(cmd)
    } else if cmd == "auto"@ || starts_with(cmd, "profile:"@) {
        Some("global-fan-control"@)
    } else if starts_with(cmd, "display:"@) {
        Some("menubar-display"@)
    } else if starts_with(cmd, "character:"@) {
        Some("runner-character"@)
    } else if starts_with(cmd, "notifications:"@) {
        Some("notifications:"@ + first_field(cmd.skip("notifications:"@.len() as int), ':'))
    } else if starts_with(cmd, "fanhold:"@) {
        let rest = cmd.skip("fanhold:"@.len() as int);
        match last_index_of(rest, ':') {
            Some(j) => Some("fan:"@ + rest.take(j)),
            None => None,
        }
    } else if starts_with(cmd, "fanauto:"@) {
        Some("fan:"@ + cmd.skip("fanauto:"@.len() as int))
    } else {
        None
    }
}

/// The characters of an optional string.
pub open spec fn opt_view(o: Option<String>) -> Option<Seq<char>> {
    match o {
        Some(s) => Some(s@),
        None => None,
    }
}

/// The coalescing key of `cmd`.
pub fn pending_command_key(cmd: &str) -> (r: Option<String>)
    ensures
        opt_view(r) == command_key(cmd@),
{
    if str_eq(cmd, "ready:popover") || str_eq(cmd, "ready:detail") {
        return Some(String::from_str(cmd));
    }
    if str_eq(cmd, "auto") || str_starts_with(cmd, "profile:") {
        return Some(String::from_str("global-fan-control"));
    }
    if str_starts_with(cmd, "display:") {
        return Some(String::from_str("menubar-display"));
    }
    if str_starts_with(cmd, "character:") {
        return Some(String::from_str("runner-character"));
    }
    if let Some(rest) = strip_prefix(cmd, "notifications:") {
        proof {
            lemma_first_index_of(rest@, ':');
        }
        let field = match find_char(rest, ':') {
            Some(i) => rest.substring_char(0, i),
            None => rest,
        };
        let mut k = String::from_str("notifications:");
        k.append(field);
        return Some(k);
    }
    if let Some(rest) = strip_prefix(cmd, "fanhold:") {
        proof {
            lemma_last_index_of(rest@, ':');
        }
        return match rfind_char(rest, ':') {
            Some(j) => {
                let mut k = String::from_str("fan:");
                k.append(rest.substring_char(0, j));
                Some(k)
            },
            None => None,
        };
    }
    if let Some(fan_id) = strip_prefix(cmd, "fanauto:") {
        let mut k = String::from_str("fan:");
        k.append(fan_id);
        return Some(k);
    }
    None
}

/// The characters of each queued command.
pub open spec fn views(q: Seq<String>) -> Seq<Seq<char>> {
    q.map_values(|s: String| s@)
}

/// Commands whose key is not `k`.
pub open spec fn other_key(k: Seq<char>) -> spec_fn(Seq<char>) -> bool {
    |x: Seq<char>| command_key(x) != Some(k)
}

/// The queue after `cmd` arrives: a keyed command replaces every queued
/// command with the same key and goes last; a command without a key is
/// appended unless the same command is already waiting.
pub open spec fn queue_after(q: Seq<Seq<char>>, cmd: Seq<char>) -> Seq<Seq<char>> {
    match command_key(cmd) {
        Some(k) => q.filter(other_key(k)).push(cmd),
        None => if q.contains(cmd) {
            q
        } else {
            q.push(cmd)
        },
    }
}

/// Queues `cmd` for the event loop, coalescing it with what already waits.
pub fn queue_pending_command(queue: &mut Vec<String>, cmd: String)
    ensures
        views(final(queue)@) == queue_after(views(old(queue)@), cmd@),
{
    broadcast use Seq::lemma_filter_push;

    let ghost q0 = views(queue@);
    match pending_command_key(cmd.as_str()) {
        Some(key) => {
            let mut kept: Vec<String> = Vec::new();
            let mut i: usize = 0;
            while i < queue.len()
                invariant
                    i <= queue.len(),
                    q0 == views(queue@),
                    command_key(cmd@) == Some(key@),
                    views(kept@) == q0.take(i as int).filter(other_key(key@)),
                decreases queue.len() - i,
            {
                let ghost x = queue@[i as int]@;
                assert(q0.take(i + 1) =~= q0.take(i as int).push(x));
                let same = match pending_command_key(queue[i].as_str()) {
                    Some(k2) => str_eq(k2.as_str(), key.as_str()),
                    None => false,
                };
                if !same {
                    assert(other_key(key@)(x));
                    kept.push(queue[i].clone());
                    assert(views(kept@) =~= q0.take(i as int).filter(other_key(key@)).push(x));
                } else {
                    assert(!other_key(key@)(x));
                }
                proof {
                    q0.take(i as int).lemma_filter_push(x, other_key(key@));
                }
                assert(q0.take(i + 1).filter(other_key(key@)) == if other_key(key@)(x) {
                    q0.take(i as int).filter(other_key(key@)).push(x)
                } else {
                    q0.take(i as int).filter(other_key(key@))
                });
                i += 1;
            }
            assert(q0.take(queue.len() as int) =~= q0);
            kept.push(cmd);
            assert(views(kept@) =~= q0.filter(other_key(key@)).push(cmd@));
            *queue = kept;
        },
        None => {
            let mut i: usize = 0;
            while i < queue.len()
                invariant
                    i <= queue.len(),
                    q0 == views(queue@),
                    command_key(cmd@) is None,
                    forall|j: int| 0 <= j < i ==> q0[j] != cmd@,
                decreases queue.len() - i,
            {
                if queue[i] == cmd {
                    assert(q0[i as int] == cmd@);
                    assert(q0.contains(cmd@));
                    return;
                }
                i += 1;
            }
            assert(!q0.contains(cmd@));
            queue.push(cmd);
            assert(views(queue@) =~= q0.push(cmd@));
        },
    }
}

/// No command waits twice, and no two waiting commands share a key.
pub open spec fn queue_wf(q: Seq<Seq<char>>) -> bool {
    forall|i: int, j: int|
        0 <= i < j < q.len() ==> q[i] != q[j] && (command_key(q[i]) is Some ==> command_key(q[i])
            != command_key(q[j]))
}

proof fn lemma_filter_keeps_wf(s: Seq<Seq<char>>, k: Seq<char>)
    requires
        queue_wf(s),
    ensures
        queue_wf(s.filter(other_key(k))),
    decreases s.len(),
{
    broadcast use Seq::lemma_filter_push;

    if s.len() > 0 {
        let d = s.drop_last();
        let l = s.last();
        assert(s =~= d.push(l));
        assert(queue_wf(d)) by {
            assert forall|i: int, j: int| 0 <= i < j < d.len() implies d[i] != d[j] && (command_key(
                d[i],
            ) is Some ==> command_key(d[i]) != command_key(d[j])) by {
                assert(d[i] == s[i] && d[j] == s[j]);
            }
        }
        lemma_filter_keeps_wf(d, k);
        let fd = d.filter(other_key(k));
        if other_key(k)(l) {
            assert(s.filter(other_key(k)) == fd.push(l));
            assert forall|i: int| 0 <= i < fd.len() implies fd[i] != l && (command_key(fd[i]) is Some
                ==> command_key(fd[i]) != command_key(l)) by {
                assert(fd.contains(fd[i]));
                d.lemma_filter_contains_rev(other_key(k), fd[i]);
                let m = choose|m: int| 0 <= m < d.len() && d[m] == fd[i];
                assert(s[m] == fd[i] && s[s.len() - 1] == l);
            }
            assert forall|i: int, j: int| 0 <= i < j < fd.push(l).len() implies fd.push(l)[i]
                != fd.push(l)[j] && (command_key(fd.push(l)[i]) is Some ==> command_key(
                fd.push(l)[i],
            ) != command_key(fd.push(l)[j])) by {
                if j < fd.len() {
                    assert(fd.push(l)[i] == fd[i] && fd.push(l)[j] == fd[j]);
                } else {
                    assert(fd.push(l)[i] == fd[i] && fd.push(l)[j] == l);
                }
            }
        } else {
            assert(s.filter(other_key(k)) == fd);
        }
    }
}

proof fn lemma_filter_idempotent(s: Seq<Seq<char>>, p: spec_fn(Seq<char>) -> bool)
    ensures
        s.filter(p).filter(p) == s.filter(p),
    decreases s.len(),
{
    broadcast use Seq::lemma_filter_push;

    if s.len() > 0 {
        let d = s.drop_last();
        assert(s =~= d.push(s.last()));
        lemma_filter_idempotent(d, p);
    }
}

/// Every queue the dashboard builds by queuing commands one at a time
/// satisfies `queue_wf`: queuing a command never makes a command wait twice
/// or two commands with one key wait together.
pub proof fn lemma_queue_after_keeps_wf(q: Seq<Seq<char>>, cmd: Seq<char>)
    requires
        queue_wf(q),
    ensures
        queue_wf(queue_after(q, cmd)),
{
    broadcast use Seq::lemma_filter_pred;

    match command_key(cmd) {
        Some(k) => {
            lemma_filter_keeps_wf(q, k);
            let f = q.filter(other_key(k));
            assert forall|i: int, j: int| 0 <= i < j < f.push(cmd).len() implies f.push(cmd)[i]
                != f.push(cmd)[j] && (command_key(f.push(cmd)[i]) is Some ==> command_key(
                f.push(cmd)[i],
            ) != command_key(f.push(cmd)[j])) by {
                if j < f.len() {
                    assert(f.push(cmd)[i] == f[i] && f.push(cmd)[j] == f[j]);
                } else {
                    assert(other_key(k)(f[i]));
                    assert(f.push(cmd)[i] == f[i] && f.push(cmd)[j] == cmd);
                }
            }
        },
        None => {
            if !q.contains(cmd) {
                assert forall|i: int, j: int| 0 <= i < j < q.push(cmd).len() implies q.push(cmd)[i]
                    != q.push(cmd)[j] && (command_key(q.push(cmd)[i]) is Some ==> command_key(
                    q.push(cmd)[i],
                ) != command_key(q.push(cmd)[j])) by {
                    assert(q.push(cmd)[i] == q[i]);
                }
            }
        },
    }
}

/// A command with a key ends up last, alone with that key, while every queued
/// command with another key keeps waiting.
pub proof fn lemma_keyed_command_replaces_its_key(q: Seq<Seq<char>>, cmd: Seq<char>, k: Seq<char>)
    requires
        command_key(cmd) == Some(k),
    ensures
        queue_after(q, cmd).last() == cmd,
        forall|i: int|
            0 <= i < queue_after(q, cmd).len() - 1 ==> command_key(#[trigger] queue_after(q, cmd)[i])
                != Some(k),
        forall|x: Seq<char>| q.contains(x) && command_key(x) != Some(k) ==> #[trigger] queue_after(
            q,
            cmd,
        ).contains(x),
{
    broadcast use Seq::lemma_filter_pred, Seq::lemma_filter_contains;

    let f = q.filter(other_key(k));
    assert forall|i: int| 0 <= i < f.push(cmd).len() - 1 implies command_key(
        #[trigger] f.push(cmd)[i],
    ) != Some(k) by {
        assert(f.push(cmd)[i] == f[i]);
        assert(other_key(k)(f[i]));
    }
    assert forall|x: Seq<char>| q.contains(x) && command_key(x) != Some(k) implies #[trigger] f.push(
        cmd,
    ).contains(x) by {
        let m = choose|m: int| 0 <= m < q.len() && q[m] == x;
        assert(other_key(k)(q[m]));
        assert(f.contains(q[m]));
        let n = choose|n: int| 0 <= n < f.len() && f[n] == x;
        assert(f.push(cmd)[n] == x);
    }
}

/// Queuing the same command twice in a row leaves the queue as queuing it once.
pub proof fn lemma_queue_after_twice(q: Seq<Seq<char>>, cmd: Seq<char>)
    ensures
        queue_after(queue_after(q, cmd), cmd) == queue_after(q, cmd),
{
    broadcast use Seq::lemma_filter_push;

    match command_key(cmd) {
        Some(k) => {
            let f = q.filter(other_key(k));
            assert(!other_key(k)(cmd));
            assert(f.push(cmd).filter(other_key(k)) == f.filter(other_key(k)));
            lemma_filter_idempotent(q, other_key(k));
        },
        None => {
            if !q.contains(cmd) {
                assert(q.push(cmd)[q.len() as int] == cmd);
                assert(q.push(cmd).contains(cmd));
            }
        },
    }
}

/// The readable label of a command in the fan-action log.
pub open spec fn action_label(cmd: Seq<char>) -> Seq<char> {
    if starts_with(cmd, "profile:"@) {
        "profile "@ + cmd.skip("profile:"@.len() as int)
    } else if starts_with(cmd, "fanhold:"@) {
        "fan "@ + cmd.skip("fanhold:"@.len() as int)
    } else if starts_with(cmd, "fanauto:"@) {
        "fan "@ + cmd.skip("fanauto:"@.len() as int) + " auto"@
    } else {
        cmd
    }
}

/// The label of `cmd` in the fan-action log.
pub fn control_action_label(cmd: &str) -> (r: String)
    ensures
        r@ == action_label(cmd@),
{
    if let Some(profile) = strip_prefix(cmd, "profile:") {
        let mut s = String::from_str("profile ");
        s.append(profile);
        s
    } else if let Some(rest) = strip_prefix(cmd, "fanhold:") {
        let mut s = String::from_str("fan ");
        s.append(rest);
        s
    } else if let Some(fan) = strip_prefix(cmd, "fanauto:") {
        let mut s = String::from_str("fan ");
        s.append(fan);
        s.append(" auto");
        s
    } else {
        String::from_str(cmd)
    }
}

/// The line written to the daemon socket for a dashboard command.
pub open spec fn daemon_line(cmd: Seq<char>) -> Seq<char> {
    if starts_with(cmd, "profile:"@) {
        "profile "@ + cmd.skip("profile:"@.len() as int) + "\n"@
    } else if starts_with(cmd, "hold:"@) {
        "hold "@ + cmd.skip("hold:"@.len() as int) + "\n"@
    } else if starts_with(cmd, "fanhold:"@) {
        let rest = cmd.skip("fanhold:"@.len() as int);
        match last_index_of(rest, ':') {
            Some(j) => "fanhold "@ + rest.take(j) + " "@ + rest.skip(j + 1) + "\n"@,
            None => cmd + "\n"@,
        }
    } else if starts_with(cmd, "fanauto:"@) {
        "fanauto "@ + cmd.skip("fanauto:"@.len() as int) + "\n"@
    } else {
        cmd + "\n"@
    }
}

/// Frames a dashboard command as one line of the daemon protocol.
pub fn daemon_command_line(cmd: &str) -> (r: String)
    ensures
        r@ == daemon_line(cmd@),
{
    let mut s = String::new();
    if let Some(name) = strip_prefix(cmd, "profile:") {
        s.append("profile ");
        s.append(name);
    } else if let Some(pct) = strip_prefix(cmd, "hold:") {
        s.append("hold ");
        s.append(pct);
    } else if let Some(rest) = strip_prefix(cmd, "fanhold:") {
        proof {
            lemma_last_index_of(rest@, ':');
        }
        match rfind_char(rest, ':') {
            Some(j) => {
                let n = rest.unicode_len();
                s.append("fanhold ");
                s.append(rest.substring_char(0, j));
                s.append(" ");
                s.append(rest.substring_char(j + 1, n));
            },
            None => {
                s.append(cmd);
            },
        }
    } else if let Some(id) = strip_prefix(cmd, "fanauto:") {
        s.append("fanauto ");
        s.append(id);
    } else {
        s.append(cmd);
    }
    s.append("\n");
    s
}

/// What a daemon reply is reported as: `daemon: ` and the trimmed reply, or
/// `ok` when the daemon answered nothing.
pub open spec fn reply_message(raw: Seq<char>) -> Seq<char> {
    "daemon: "@ + (if trim(raw).len() == 0 {
        "ok"@
    } else {
        trim(raw)
    })
}

/// The result text of a command the daemon answered with `raw`.
pub fn daemon_reply_message(raw: &str) -> (r: String)
    ensures
        r@ == reply_message(raw@),
{
    let t = str_trim(raw);
    let mut s = String::from_str("daemon: ");
    if t.unicode_len() == 0 {
        s.append("ok");
    } else {
        s.append(t);
    }
    s
}

/// The lower-case form of `s` under Unicode's full case mapping, as
/// `str::to_lowercase` computes it.
pub uninterp spec fn lowercase(s: Seq<char>) -> Seq<char>;

/// `str::to_lowercase`. Its result is a function of the characters of `s`
/// alone (the Unicode tables compiled into std); what that function is, the
/// contract leaves unsaid and names it `lowercase`.
#[verifier::external_body]
pub(crate) fn str_to_lowercase(s: &str) -> (r: String)
    ensures
        r@ == lowercase(s@),
{
    s.to_lowercase()
}

/// A lower-cased daemon reply that reports success: it names no error,
/// invalid input, unknown command, failure or missing privilege.
pub open spec fn reply_ok(lowered: Seq<char>) -> bool {
    !(has_substring(lowered, "error"@) || has_substring(lowered, "invalid"@) || has_substring(
        lowered,
        "unknown"@,
    ) || has_substring(lowered, "failed"@) || has_substring(lowered, "needs root"@)
        || has_substring(lowered, "needs at least"@))
}

/// Whether a lower-cased daemon reply reports success.
pub fn daemon_reply_is_ok(lowered: &str) -> (r: bool)
    ensures
        r == reply_ok(lowered@),
{
    !(str_has_substring(lowered, "error") || str_has_substring(lowered, "invalid")
        || str_has_substring(lowered, "unknown") || str_has_substring(lowered, "failed")
        || str_has_substring(lowered, "needs root") || str_has_substring(lowered, "needs at least"))
}

/// Whether the result text of a fan-control command reports success: a
/// forwarded daemon reply that names no failure, or a local write that was
/// applied.
pub fn control_result_is_ok(result: &str) -> (r: bool)
    ensures
        r == (if starts_with(result@, "daemon:"@) {
            reply_ok(lowercase(result@.skip("daemon:"@.len() as int)))
        } else {
            has_substring(result@, "applied"@)
        }),
{
    if let Some(reply) = strip_prefix(result, "daemon:") {
        let lower = str_to_lowercase(reply);
        return daemon_reply_is_ok(lower.as_str());
    }
    str_has_substring(result, "applied")
}

/// What the event loop does with a command from the dashboard.
#[derive(Clone, Debug, PartialEq, Eq)]
pub enum DashboardCommand {
    /// Save the curve drawn in the editor (the JSON points).
    SaveCurve(String),
    /// Run the one-click fan-control setup.
    EnableFanControl,
    /// Look for an app update.
    CheckUpdates,
    /// Install the latest app update.
    InstallUpdate,
    /// Toggle launch at login.
    ToggleLoginItem,
    /// Switch the menu-bar style to the named one.
    MenubarStyle(String),
    /// Switch the runner character to the named one.
    Character(String),
    /// Change a notification preference (the whole command).
    Notifications(String),
    /// Run the read-only fan diagnostic.
    DiagnoseFan,
    /// The popover's page has loaded.
    ReadyPopover,
    /// The detail window's page has loaded.
    ReadyDetail,
    /// Any other command is a fan-control command.
    FanControl(String),
}

/// A `DashboardCommand` with its strings taken as characters.
pub enum DashboardCommandView {
    SaveCurve(Seq<char>),
    EnableFanControl,
    CheckUpdates,
    InstallUpdate,
    ToggleLoginItem,
    MenubarStyle(Seq<char>),
    Character(Seq<char>),
    Notifications(Seq<char>),
    DiagnoseFan,
    ReadyPopover,
    ReadyDetail,
    FanControl(Seq<char>),
}

impl View for DashboardCommand {
    type V = DashboardCommandView;

    open spec fn view(&self) -> DashboardCommandView {
        match self {
            DashboardCommand::SaveCurve(s) => DashboardCommandView::SaveCurve(s@),
            DashboardCommand::EnableFanControl => DashboardCommandView::EnableFanControl,
            DashboardCommand::CheckUpdates => DashboardCommandView::CheckUpdates,
            DashboardCommand::InstallUpdate => DashboardCommandView::InstallUpdate,
            DashboardCommand::ToggleLoginItem => DashboardCommandView::ToggleLoginItem,
            DashboardCommand::MenubarStyle(s) => DashboardCommandView::MenubarStyle(s@),
            DashboardCommand::Character(s) => DashboardCommandView::Character(s@),
            DashboardCommand::Notifications(s) => DashboardCommandView::Notifications(s@),
            DashboardCommand::DiagnoseFan => DashboardCommandView::DiagnoseFan,
            DashboardCommand::ReadyPopover => DashboardCommandView::ReadyPopover,
            DashboardCommand::ReadyDetail => DashboardCommandView::ReadyDetail,
            DashboardCommand::FanControl(s) => DashboardCommandView::FanControl(s@),
        }
    }
}

/// How the event loop reads a dashboard command.
pub open spec fn dashboard_command(c: Seq<char>) -> DashboardCommandView {
    if starts_with(c, "savecurve:"@) {
        DashboardCommandView::SaveCurve(c.skip("savecurve:"@.len() as int))
    } else if c == "enablefancontrol"@ {
        DashboardCommandView::EnableFanControl
    } else if c == "checkupdates"@ {
        DashboardCommandView::CheckUpdates
    } else if c == "installupdate"@ {
        DashboardCommandView::InstallUpdate
    } else if c == "toggle-login-item"@ || c == "togglelogin"@ {
        DashboardCommandView::ToggleLoginItem
    } else if starts_with(c, "display:"@) {
        DashboardCommandView::MenubarStyle(c.skip("display:"@.len() as int))
    } else if starts_with(c, "character:"@) {
        DashboardCommandView::Character(c.skip("character:"@.len() as int))
    } else if starts_with(c, "notifications:"@) {
        DashboardCommandView::Notifications(c)
    } else if c == "diagnosefan"@ {
        DashboardCommandView::DiagnoseFan
    } else if c == "ready:popover"@ {
        DashboardCommandView::ReadyPopover
    } else if c == "ready:detail"@ {
        DashboardCommandView::ReadyDetail
    } else {
        DashboardCommandView::FanControl(c)
    }
}

/// Reads a dashboard command.
pub fn classify_dashboard_command(c: &str) -> (r: DashboardCommand)
    ensures
        r@ == dashboard_command(c@),
{
    if let Some(json) = strip_prefix(c, "savecurve:") {
        DashboardCommand::SaveCurve(String::from_str(json))
    } else if str_eq(c, "enablefancontrol") {
        DashboardCommand::EnableFanControl
    } else if str_eq(c, "checkupdates") {
        DashboardCommand::CheckUpdates
    } else if str_eq(c, "installupdate") {
        DashboardCommand::InstallUpdate
    } else if str_eq(c, "toggle-login-item") || str_eq(c, "togglelogin") {
        DashboardCommand::ToggleLoginItem
    } else if let Some(value) = strip_prefix(c, "display:") {
        DashboardCommand::MenubarStyle(String::from_str(value))
    } else if let Some(value) = strip_prefix(c, "character:") {
        DashboardCommand::Character(String::from_str(value))
    } else if str_starts_with(c, "notifications:") {
        DashboardCommand::Notifications(String::from_str(c))
    } else if str_eq(c, "diagnosefan") {
        DashboardCommand::DiagnoseFan
    } else if str_eq(c, "ready:popover") {
        DashboardCommand::ReadyPopover
    } else if str_eq(c, "ready:detail") {
        DashboardCommand::ReadyDetail
    } else {
        DashboardCommand::FanControl(String::from_str(c))
    }
}

/// A change to the notification preferences.
#[derive(Clone, Debug, PartialEq, Eq)]
pub enum NotificationChange {
    /// Turn the CPU temperature warning off.
    TemperatureOff,
    /// Set the CPU temperature warning to this value (not yet read as a number).
    TemperatureValue(String),
    /// Turn fan-failure notifications on or off.
    FanFailures(bool),
    /// Turn update notifications on or off.
    Updates(bool),
}

/// A `1` or `0` switch value.
pub open spec fn switch_value(v: Seq<char>) -> Option<bool> {
    if v == "1"@ {
        Some(true)
    } else if v == "0"@ {
        Some(false)
    } else {
        None
    }
}

fn switch_of(v: &str) -> (r: Option<bool>)
    ensures
        r == switch_value(v@),
{
    if str_eq(v, "1") {
        Some(true)
    } else if str_eq(v, "0") {
        Some(false)
    } else {
        None
    }
}

/// Reads a `notifications:` command. A temperature value is passed on as
/// text; the caller reads it as a number between 50 and 110 °C.
pub fn parse_notification_command(command: &str) -> (r: Result<NotificationChange, &'static str>)
    ensures
        starts_with(command@, "notifications:temperature:"@) ==> ({
            let v = command@.skip("notifications:temperature:"@.len() as int);
            if v == "off"@ {
                r == Ok::<NotificationChange, &'static str>(NotificationChange::TemperatureOff)
            } else {
                r matches Ok(NotificationChange::TemperatureValue(t)) && t@ == v
            }
        }),
        !starts_with(command@, "notifications:temperature:"@) && starts_with(
            command@,
            "notifications:fan-failures:"@,
        ) ==> match switch_value(command@.skip("notifications:fan-failures:"@.len() as int)) {
            Some(b) => r == Ok::<NotificationChange, &'static str>(NotificationChange::FanFailures(b)),
            None => r matches Err(e) && e@ == "fan failure notification must be on or off"@,
        },
        !starts_with(command@, "notifications:temperature:"@) && !starts_with(
            command@,
            "notifications:fan-failures:"@,
        ) && starts_with(command@, "notifications:updates:"@) ==> match switch_value(
            command@.skip("notifications:updates:"@.len() as int),
        ) {
            Some(b) => r == Ok::<NotificationChange, &'static str>(NotificationChange::Updates(b)),
            None => r matches Err(e) && e@ == "update notification must be on or off"@,
        },
        !starts_with(command@, "notifications:temperature:"@) && !starts_with(
            command@,
            "notifications:fan-failures:"@,
        ) && !starts_with(command@, "notifications:updates:"@) ==> (r matches Err(e) && e@
            == "unknown notification setting"@),
{
    if let Some(value) = strip_prefix(command, "notifications:temperature:") {
        if str_eq(value, "off") {
            Ok(NotificationChange::TemperatureOff)
        } else {
            Ok(NotificationChange::TemperatureValue(String::from_str(value)))
        }
    } else if let Some(value) = strip_prefix(command, "notifications:fan-failures:") {
        match switch_of(value) {
            Some(b) => Ok(NotificationChange::FanFailures(b)),
            None => Err("fan failure notification must be on or off"),
        }
    } else if let Some(value) = strip_prefix(command, "notifications:updates:") {
        match switch_of(value) {
            Some(b) => Ok(NotificationChange::Updates(b)),
            None => Err("update notification must be on or off"),
        }
    } else {
        Err("unknown notification setting")
    }
}

} // verus!
