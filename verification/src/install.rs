//! Installing and removing the root fan-control daemon: the scripts that run
//! with administrator privileges and how their outcome is reported.
use vstd::prelude::*;
use crate::text::{
    ascii_lower, chars_of, has_substring, string_of_range, str_has_substring, to_ascii_lowercase,
    trim, trim_bounds,
};
use crate::version::{lemma_split_on_nonempty, split_on};

verus! {

/// The trimmed text of the last line of `lines` that is not blank after
/// trimming, or nothing when every line is blank.
pub open spec fn last_nonblank(lines: Seq<Seq<char>>) -> Seq<char>
    decreases lines.len(),
{
    if lines.len() == 0 {
        Seq::<char>::empty()
    } else if trim(lines.last()).len() > 0 {
        trim(lines.last())
    } else {
        last_nonblank(lines.drop_last())
    }
}

/// The detail of a failed privileged run: the last non-blank line of its
/// standard error, trimmed.
pub open spec fn error_detail(stderr: Seq<char>) -> Seq<char> {
    last_nonblank(split_on(stderr, '\n'))
}

/// The last non-blank line of `stderr`, trimmed.
pub fn error_detail_of(stderr: &str) -> (r: String)
    ensures
        r@ == error_detail(stderr@),
{
    let v = chars_of(stderr);
    let n = v.len();
    let mut line_start: usize = 0;
    let mut best: (usize, usize) = (0, 0);
    let ghost mut parts: Seq<Seq<char>> = seq![Seq::<char>::empty()];
    let mut i: usize = 0;
    assert(v@.take(0) =~= Seq::<char>::empty());
    while i < n
        invariant
            v@ == stderr@,
            n == v@.len(),
            line_start <= i <= n,
            best.0 <= best.1 <= n,
            parts == split_on(v@.take(i as int), '\n'),
            parts.len() >= 1,
            parts.last() == v@.subrange(line_start as int, i as int),
            v@.subrange(best.0 as int, best.1 as int) == last_nonblank(parts.drop_last()),
        decreases n - i,
    {
        let c = v[i];
        let ghost pre = v@.take(i as int);
        assert(v@.take(i + 1) =~= pre.push(c));
        assert(pre.push(c).drop_last() =~= pre);
        if c == '\n' {
            let (a, b) = trim_bounds(&v, line_start, i);
            proof {
                let old_parts = parts;
                parts = parts.push(Seq::<char>::empty());
                assert(parts.drop_last() =~= old_parts);
            }
            if a < b {
                best = (a, b);
            }
            line_start = i + 1;
            assert(v@.subrange(line_start as int, i + 1) =~= Seq::<char>::empty());
        } else {
            proof {
                let old_parts = parts;
                parts = parts.update(parts.len() - 1, parts.last().push(c));
                assert(parts.drop_last() =~= old_parts.drop_last());
                assert(parts.last() =~= v@.subrange(line_start as int, i + 1));
            }
        }
        i += 1;
    }
    assert(v@.take(n as int) =~= stderr@);
    let (a, b) = trim_bounds(&v, line_start, n);
    if a < b {
        string_of_range(&v, a, b)
    } else {
        string_of_range(&v, best.0, best.1)
    }
}

/// What a cancelled administrator prompt is reported as.
pub const CANCELLED_MESSAGE: &'static str =
    "Administrator approval was cancelled. Fan control was not changed.";

/// What a privileged run that failed without any detail is reported as.
pub const FAILED_BEFORE_RUN_MESSAGE: &'static str =
    "Administrator approval failed before the installer could run. Fan control was not changed.";

/// How a failed privileged run is reported: a cancelled prompt (exit status 1
/// and a cancellation in its last line) as such, a run with nothing on
/// standard error as failing before it ran, anything else with its last line.
pub open spec fn privileged_message(status_code: Option<i32>, stderr: Seq<char>) -> Seq<char> {
    let detail = error_detail(stderr);
    let lower = ascii_lower(detail);
    if status_code == Some(1i32) && (has_substring(lower, "user canceled"@) || has_substring(
        lower,
        "user cancelled"@,
    ) || has_substring(lower, "(-128)"@)) {
        CANCELLED_MESSAGE@
    } else if detail.len() == 0 {
        FAILED_BEFORE_RUN_MESSAGE@
    } else {
        "Fan control installation failed: "@ + detail
    }
}

/// The message of a failed privileged run, from its exit status and standard error.
pub fn privileged_error_message(status_code: Option<i32>, stderr: &str) -> (r: String)
    ensures
        r@ == privileged_message(status_code, stderr@),
{
    let detail = error_detail_of(stderr);
    let lower = to_ascii_lowercase(detail.as_str());
    let cancelled = match status_code {
        Some(code) => code == 1 && (str_has_substring(lower.as_str(), "user canceled")
            || str_has_substring(lower.as_str(), "user cancelled") || str_has_substring(
            lower.as_str(),
            "(-128)",
        )),
        None => false,
    };
    if cancelled {
        return String::from_str(CANCELLED_MESSAGE);
    }
    if detail.as_str().unicode_len() == 0 {
        String::from_str(FAILED_BEFORE_RUN_MESSAGE)
    } else {
        let mut m = String::from_str("Fan control installation failed: ");
        m.append(detail.as_str());
        m
    }
}

/// The LaunchDaemon's label.
pub const DAEMON_LABEL: &'static str = "kr.co.uulab.peterfan.daemon";

/// The label earlier releases installed the daemon under.
pub const LEGACY_DAEMON_LABEL: &'static str = "com.uulab.peterfan.daemon";

/// Where the daemon binary is installed.
pub const DAEMON_BIN: &'static str = "/usr/local/bin/peterfand";

/// Where the LaunchDaemon plist is installed.
pub const DAEMON_PLIST: &'static str = "/Library/LaunchDaemons/kr.co.uulab.peterfan.daemon.plist";

/// The daemon binary inside the signed app bundle.
pub const APP_BUNDLE_DAEMON_BIN: &'static str = "/Applications/PeterFan.app/Contents/MacOS/peterfand";

/// Where the daemon's log-rotation rule is installed.
pub const NEWSYSLOG_CONF: &'static str = "/etc/newsyslog.d/peterfand.conf";

/// The daemon's log-rotation rule: rotate at 1 MB, keep compressed archives.
pub const NEWSYSLOG_BODY: &'static str = "# PeterFan daemon log rotation (rotate at 1 MB, keep 5 compressed archives)\n/var/log/peterfand.log  root:wheel  644  5  1024  *  J\n/var/log/peterfand.err  root:wheel  644  3   512  *  J\n";

/// The plist text before the daemon's label.
pub const PLIST_HEAD: &'static str = "<?xml version=\"1.0\" encoding=\"UTF-8\"?>\n<!DOCTYPE plist PUBLIC \"-//Apple//DTD PLIST 1.0//EN\" \"http://www.apple.com/DTDs/PropertyList-1.0.dtd\">\n<plist version=\"1.0\">\n<dict>\n  <key>Label</key><string>";

/// The plist text after the daemon's label: the program to run, started at
/// boot and restarted whenever it exits, with its logs.
pub const PLIST_TAIL: &'static str = "</string>\n  <key>ProgramArguments</key>\n  <array>\n    <string>/usr/local/bin/peterfand</string>\n  </array>\n  <key>RunAtLoad</key><true/>\n  <key>KeepAlive</key><true/>\n  <key>StandardOutPath</key><string>/var/log/peterfand.log</string>\n  <key>StandardErrorPath</key><string>/var/log/peterfand.err</string>\n</dict>\n</plist>\n";

/// The LaunchDaemon plist.
pub fn daemon_plist() -> (r: String)
    ensures
        r@ == PLIST_HEAD@ + DAEMON_LABEL@ + PLIST_TAIL@,
{
    let mut s = String::from_str(PLIST_HEAD);
    s.append(DAEMON_LABEL);
    s.append(PLIST_TAIL);
    s
}

/// The path of the plist installed under `label`.
pub open spec fn launch_daemon_path(label: Seq<char>) -> Seq<char> {
    "/Library/LaunchDaemons/"@ + label + ".plist"@
}

/// The privileged script that removes the daemon, under either label, its
/// binary and its log-rotation rule.
pub open spec fn uninstall_script_text() -> Seq<char> {
    let plist = launch_daemon_path(DAEMON_LABEL@);
    let legacy = launch_daemon_path(LEGACY_DAEMON_LABEL@);
    "launchctl bootout system '"@ + plist + "' 2>/dev/null || true\nlaunchctl bootout system '"@
        + legacy + "' 2>/dev/null || true\nrm -f '"@ + plist + "' '"@ + legacy + "' "@
        + DAEMON_BIN@ + "\nrm -f "@ + NEWSYSLOG_CONF@ + "\n"@
}

/// The privileged script that removes the daemon.
pub fn uninstall_script() -> (r: String)
    ensures
        r@ == uninstall_script_text(),
{
    let mut plist = String::from_str("/Library/LaunchDaemons/");
    plist.append(DAEMON_LABEL);
    plist.append(".plist");
    let mut legacy = String::from_str("/Library/LaunchDaemons/");
    legacy.append(LEGACY_DAEMON_LABEL);
    legacy.append(".plist");
    let mut s = String::from_str("launchctl bootout system '");
    s.append(plist.as_str());
    s.append("' 2>/dev/null || true\nlaunchctl bootout system '");
    s.append(legacy.as_str());
    s.append("' 2>/dev/null || true\nrm -f '");
    s.append(plist.as_str());
    s.append("' '");
    s.append(legacy.as_str());
    s.append("' ");
    s.append(DAEMON_BIN);
    s.append("\nrm -f ");
    s.append(NEWSYSLOG_CONF);
    s.append("\n");
    s
}

/// The privileged script that installs the daemon from `staged_bin`: stops any
/// running daemon under either label, installs the binary and the plist,
/// checks and starts the daemon, and installs its log rotation.
pub open spec fn install_script_text(staged_bin: Seq<char>) -> Seq<char> {
    let plist = DAEMON_PLIST@;
    let legacy = launch_daemon_path(LEGACY_DAEMON_LABEL@);
    "set -e\n/bin/launchctl bootout 'system/"@ + LEGACY_DAEMON_LABEL@
        + "' 2>/dev/null || true\n/bin/launchctl bootout 'system/"@ + DAEMON_LABEL@
        + "' 2>/dev/null || true\n/bin/rm -f '"@ + legacy
        + "'\n/bin/mkdir -p /usr/local/bin\n/usr/bin/install -m 755 '"@ + staged_bin + "' "@
        + DAEMON_BIN@ + "\n/bin/rm -f '"@ + staged_bin + "'\ncat > '"@ + plist
        + "' <<'PLIST'\n"@ + (PLIST_HEAD@ + DAEMON_LABEL@ + PLIST_TAIL@)
        + "PLIST\n/usr/sbin/chown root:wheel '"@ + plist + "'\n/bin/chmod 644 '"@ + plist
        + "'\n/usr/bin/plutil -lint '"@ + plist + "' >/dev/null\n/bin/launchctl bootstrap system '"@
        + plist + "'\n/bin/mkdir -p /etc/newsyslog.d\n/usr/bin/printf '%s' '"@ + NEWSYSLOG_BODY@
        + "' > "@ + NEWSYSLOG_CONF@ + "\n/bin/chmod 644 "@ + NEWSYSLOG_CONF@ + "\n"@
}

/// The privileged script that installs the daemon from `staged_bin`.
pub fn install_script(staged_bin: &str) -> (r: String)
    ensures
        r@ == install_script_text(staged_bin@),
{
    let mut legacy = String::from_str("/Library/LaunchDaemons/");
    legacy.append(LEGACY_DAEMON_LABEL);
    legacy.append(".plist");
    let plist_text = daemon_plist();
    let mut s = String::from_str("set -e\n/bin/launchctl bootout 'system/");
    s.append(LEGACY_DAEMON_LABEL);
    s.append("' 2>/dev/null || true\n/bin/launchctl bootout 'system/");
    s.append(DAEMON_LABEL);
    s.append("' 2>/dev/null || true\n/bin/rm -f '");
    s.append(legacy.as_str());
    s.append("'\n/bin/mkdir -p /usr/local/bin\n/usr/bin/install -m 755 '");
    s.append(staged_bin);
    s.append("' ");
    s.append(DAEMON_BIN);
    s.append("\n/bin/rm -f '");
    s.append(staged_bin);
    s.append("'\ncat > '");
    s.append(DAEMON_PLIST);
    s.append("' <<'PLIST'\n");
    s.append(plist_text.as_str());
    s.append("PLIST\n/usr/sbin/chown root:wheel '");
    s.append(DAEMON_PLIST);
    s.append("'\n/bin/chmod 644 '");
    s.append(DAEMON_PLIST);
    s.append("'\n/usr/bin/plutil -lint '");
    s.append(DAEMON_PLIST);
    s.append("' >/dev/null\n/bin/launchctl bootstrap system '");
    s.append(DAEMON_PLIST);
    s.append("'\n/bin/mkdir -p /etc/newsyslog.d\n/usr/bin/printf '%s' '");
    s.append(NEWSYSLOG_BODY);
    s.append("' > ");
    s.append(NEWSYSLOG_CONF);
    s.append("\n/bin/chmod 644 ");
    s.append(NEWSYSLOG_CONF);
    s.append("\n");
    s
}

/// How an install or removal ended, short of an error.
#[derive(Clone, Debug, PartialEq, Eq)]
pub enum InstallOutcome {
    /// Nothing was run; the script and the command that would run it.
    DryRun(String),
    /// Done, and the daemon answered.
    Installed,
    /// The privileged script completed, but the daemon has not answered yet.
    InstalledButUnreachable,
}

/// The outcome of removing the daemon, given how its privileged script went:
/// its dry-run report, or an error such as a cancelled prompt.
pub fn uninstall(dry_run: bool, run: Result<String, String>) -> (r: Result<InstallOutcome, String>)
    ensures
        match run {
            Err(e) => r == Err::<InstallOutcome, String>(e),
            Ok(out) => if dry_run {
                r == Ok::<InstallOutcome, String>(InstallOutcome::DryRun(out))
            } else {
                r == Ok::<InstallOutcome, String>(InstallOutcome::Installed)
            },
        },
{
    match run {
        Err(e) => Err(e),
        Ok(out) => {
            if dry_run {
                Ok(InstallOutcome::DryRun(out))
            } else {
                Ok(InstallOutcome::Installed)
            }
        },
    }
}

/// The outcome of installing the daemon, given how its privileged script went
/// and whether the daemon answered afterwards.
pub fn install_outcome(dry_run: bool, run: Result<String, String>, reachable_after: bool) -> (r:
    Result<InstallOutcome, String>)
    ensures
        match run {
            Err(e) => r == Err::<InstallOutcome, String>(e),
            Ok(out) => if dry_run {
                r == Ok::<InstallOutcome, String>(InstallOutcome::DryRun(out))
            } else if reachable_after {
                r == Ok::<InstallOutcome, String>(InstallOutcome::Installed)
            } else {
                r == Ok::<InstallOutcome, String>(InstallOutcome::InstalledButUnreachable)
            },
        },
{
    match run {
        Err(e) => Err(e),
        Ok(out) => {
            if dry_run {
                Ok(InstallOutcome::DryRun(out))
            } else if reachable_after {
                Ok(InstallOutcome::Installed)
            } else {
                Ok(InstallOutcome::InstalledButUnreachable)
            }
        },
    }
}

/// The AppleScript that runs the script at `script_path` behind one
/// administrator prompt; a path with a single quote is refused.
pub open spec fn privileged_command(script_path: Seq<char>) -> Result<Seq<char>, Seq<char>> {
    if script_path.contains('\'') {
        Err("temp path contains a quote; aborting"@)
    } else {
        Ok("do shell script \"/bin/bash '"@ + script_path + "'\" with administrator privileges"@)
    }
}

/// The AppleScript that runs the script at `script_path` with administrator privileges.
pub fn privileged_script_command(script_path: &str) -> (r: Result<String, String>)
    ensures
        match r {
            Ok(c) => privileged_command(script_path@) == Ok::<Seq<char>, Seq<char>>(c@),
            Err(e) => privileged_command(script_path@) == Err::<Seq<char>, Seq<char>>(e@),
        },
{
    let v = chars_of(script_path);
    let mut i: usize = 0;
    while i < v.len()
        invariant
            v@ == script_path@,
            i <= v.len(),
            forall|k: int| 0 <= k < i ==> v@[k] != '\'',
        decreases v.len() - i,
    {
        if v[i] == '\'' {
            assert(script_path@.contains('\''));
            return Err(String::from_str("temp path contains a quote; aborting"));
        }
        i += 1;
    }
    let mut c = String::from_str("do shell script \"/bin/bash '");
    c.append(script_path);
    c.append("'\" with administrator privileges");
    Ok(c)
}

/// What a dry run reports: the script, where it would be written, and the
/// AppleScript that would run it.
pub fn dry_run_report(script_path: &str, script: &str, command: &str) -> (r: String)
    ensures
        r@ == "--- script ("@ + script_path@ + ") ---\n"@ + script@ + "\n--- osascript ---\n"@
            + command@,
{
    let mut s = String::from_str("--- script (");
    s.append(script_path);
    s.append(") ---\n");
    s.append(script);
    s.append("\n--- osascript ---\n");
    s.append(command);
    s
}

/// The result of running a privileged script: nothing on success, else the
/// message its exit status and standard error call for.
pub fn privileged_run_result(succeeded: bool, status_code: Option<i32>, stderr: &str) -> (r:
    Result<String, String>)
    ensures
        succeeded ==> (r matches Ok(o) && o@.len() == 0),
        !succeeded ==> (r matches Err(e) && e@ == privileged_message(status_code, stderr@)),
{
    if succeeded {
        Ok(String::new())
    } else {
        Err(privileged_error_message(status_code, stderr))
    }
}

/// `s` with `\` and `"` escaped by a backslash.
pub open spec fn applescript_escaped(s: Seq<char>) -> Seq<char>
    decreases s.len(),
{
    if s.len() == 0 {
        Seq::<char>::empty()
    } else {
        let c = s.last();
        applescript_escaped(s.drop_last()) + (if c == '\\' || c == '"' {
            seq!['\\', c]
        } else {
            seq![c]
        })
    }
}

/// `s` as an AppleScript string literal.
pub fn applescript_quote(s: &str) -> (r: String)
    ensures
        r@ == seq!['"'] + applescript_escaped(s@) + seq!['"'],
{
    let v = chars_of(s);
    let mut out = String::new();
    crate::text::string_push(&mut out, '"');
    let mut i: usize = 0;
    while i < v.len()
        invariant
            v@ == s@,
            i <= v.len(),
            out@ == seq!['"'] + applescript_escaped(s@.take(i as int)),
        decreases v.len() - i,
    {
        let c = v[i];
        assert(s@.take(i + 1).drop_last() =~= s@.take(i as int));
        if c == '\\' || c == '"' {
            crate::text::string_push(&mut out, '\\');
        }
        crate::text::string_push(&mut out, c);
        assert(out@ =~= seq!['"'] + applescript_escaped(s@.take(i + 1)));
        i += 1;
    }
    assert(s@.take(v.len() as int) =~= s@);
    crate::text::string_push(&mut out, '"');
    out
}

/// Self-reinstall through a running daemon exists only on macOS; elsewhere it
/// always fails with this message.
pub fn reinstall_via_running_daemon(dry_run: bool) -> (r: Result<InstallOutcome, String>)
    ensures
        r matches Err(e) && e@ == "daemon self-reinstall is only available on macOS"@,
{
    Err(String::from_str("daemon self-reinstall is only available on macOS"))
}

/// The command asking a running daemon to reinstall fan control from the
/// bundled binary at `canonical_bin`; refused for any binary but the signed
/// app bundle's.
pub fn self_reinstall_command(canonical_bin: &str) -> (r: Result<String, String>)
    ensures
        canonical_bin@ == APP_BUNDLE_DAEMON_BIN@ ==> (r matches Ok(c) && c@
            == "reinstall-fan-control "@ + canonical_bin@),
        canonical_bin@ != APP_BUNDLE_DAEMON_BIN@ ==> (r matches Err(e) && e@
            == "daemon self-reinstall only works from "@ + APP_BUNDLE_DAEMON_BIN@),
{
    if crate::text::str_eq(canonical_bin, APP_BUNDLE_DAEMON_BIN) {
        let mut c = String::from_str("reinstall-fan-control ");
        c.append(canonical_bin);
        Ok(c)
    } else {
        let mut e = String::from_str("daemon self-reinstall only works from ");
        e.append(APP_BUNDLE_DAEMON_BIN);
        Err(e)
    }
}

/// A daemon's reply to the reinstall command: a reply that does not start
/// with `ok ` is the error; no reply leaves the outcome to what follows.
pub fn self_reinstall_reply(reply: Option<&str>) -> (r: Result<(), String>)
    ensures
        match reply {
            Some(t) => if crate::text::starts_with(t@, "ok "@) {
                r is Ok
            } else {
                r matches Err(e) && e@ == t@
            },
            None => r is Ok,
        },
{
    match reply {
        Some(t) => {
            if crate::text::str_starts_with(t, "ok ") {
                Ok(())
            } else {
                Err(String::from_str(t))
            }
        },
        None => Ok(()),
    }
}

/// The outcome of a self-reinstall: installed once the required daemon
/// answers; otherwise unreachable if it acknowledged the command, else failed.
pub fn self_reinstall_outcome(daemon_ready: bool, replied: bool) -> (r: Result<InstallOutcome, String>)
    ensures
        daemon_ready ==> r == Ok::<InstallOutcome, String>(InstallOutcome::Installed),
        !daemon_ready && replied ==> r == Ok::<InstallOutcome, String>(
            InstallOutcome::InstalledButUnreachable,
        ),
        !daemon_ready && !replied ==> (r matches Err(e) && e@
            == "fan-control daemon did not acknowledge or complete its update"@),
{
    if daemon_ready {
        Ok(InstallOutcome::Installed)
    } else if replied {
        Ok(InstallOutcome::InstalledButUnreachable)
    } else {
        Err(String::from_str("fan-control daemon did not acknowledge or complete its update"))
    }
}

/// What a self-reinstall through the running daemon does next.
#[derive(Debug)]
pub enum SelfReinstallStep {
    /// Send this command to the running daemon, and hand its reply (if one
    /// came within the timeout) to `self_reinstall_after_reply`.
    Send(String),
    /// Wait for the required daemon to answer, and hand whether it did to
    /// `self_reinstall_outcome`, with whether the daemon replied.
    AwaitDaemon(bool),
    /// Stop with this result.
    Finish(Result<InstallOutcome, String>),
}

/// The first step of a self-reinstall, given the daemon binary that was
/// found, as its canonical path (or why none was found): anything but the
/// app bundle's binary is refused; a dry run reports the command it would
/// send; otherwise the command is sent.
pub fn self_reinstall_start(canonical_bin: Result<&str, &str>, dry_run: bool) -> (r:
    SelfReinstallStep)
    ensures
        match canonical_bin {
            Err(e) => r matches SelfReinstallStep::Finish(Err(m)) && m@ == e@,
            Ok(b) => if b@ != APP_BUNDLE_DAEMON_BIN@ {
                r matches SelfReinstallStep::Finish(Err(m)) && m@
                    == "daemon self-reinstall only works from "@ + APP_BUNDLE_DAEMON_BIN@
            } else if dry_run {
                r matches SelfReinstallStep::Finish(Ok(InstallOutcome::DryRun(c))) && c@
                    == "reinstall-fan-control "@ + b@
            } else {
                r matches SelfReinstallStep::Send(c) && c@ == "reinstall-fan-control "@ + b@
            },
        },
{
    let bin = match canonical_bin {
        Err(e) => {
            return SelfReinstallStep::Finish(Err(String::from_str(e)));
        },
        Ok(b) => b,
    };
    match self_reinstall_command(bin) {
        Err(e) => SelfReinstallStep::Finish(Err(e)),
        Ok(cmd) => if dry_run {
            SelfReinstallStep::Finish(Ok(InstallOutcome::DryRun(cmd)))
        } else {
            SelfReinstallStep::Send(cmd)
        },
    }
}

/// The step after the daemon's reply to the reinstall command: a reply that
/// does not start with `ok ` ends the reinstall with that reply as the
/// error; otherwise the app waits for the daemon, remembering whether it
/// replied.
pub fn self_reinstall_after_reply(reply: Option<&str>) -> (r: SelfReinstallStep)
    ensures
        match reply {
            Some(t) => if crate::text::starts_with(t@, "ok "@) {
                r == SelfReinstallStep::AwaitDaemon(true)
            } else {
                r matches SelfReinstallStep::Finish(Err(e)) && e@ == t@
            },
            None => r == SelfReinstallStep::AwaitDaemon(false),
        },
{
    match self_reinstall_reply(reply) {
        Err(e) => SelfReinstallStep::Finish(Err(e)),
        Ok(()) => SelfReinstallStep::AwaitDaemon(reply.is_some()),
    }
}

/// Whether an install has nothing to do: not a dry run, and the required
/// daemon already runs and answers.
pub fn install_already_done(dry_run: bool, installed_version: Option<&str>, reachable: bool) -> (r:
    bool)
    ensures
        r == (!dry_run && reachable && (installed_version matches Some(v)
            && !crate::daemon::update_required_spec(v@))),
{
    !dry_run && crate::daemon::required_daemon_is_healthy(installed_version, reachable)
}

/// The report of a dry run of `script` saved at `script_path`, run by
/// `command`.
pub open spec fn dry_run_text(script_path: Seq<char>, script: Seq<char>, command: Seq<char>) -> Seq<
    char,
> {
    "--- script ("@ + script_path + ") ---\n"@ + script + "\n--- osascript ---\n"@ + command
}

/// What running a privileged script comes to once its path is checked.
#[derive(Debug)]
pub enum PrivilegedRun {
    /// A dry run: this report, and nothing is run.
    Report(String),
    /// Run this AppleScript with `osascript`, then hand its exit to
    /// `privileged_run_result`.
    Run(String),
}

/// The plan for running `script`, saved at `script_path`, behind one
/// administrator prompt: a path holding a quote is refused; a dry run
/// reports the script and the AppleScript that would run it; otherwise the
/// AppleScript is run. The caller saves the script before acting on the plan.
pub fn privileged_plan(script_path: &str, script: &str, dry_run: bool) -> (r: Result<
    PrivilegedRun,
    String,
>)
    ensures
        match privileged_command(script_path@) {
            Err(e) => r matches Err(m) && m@ == e,
            Ok(c) => if dry_run {
                r matches Ok(PrivilegedRun::Report(t)) && t@ == dry_run_text(script_path@, script@, c)
            } else {
                r matches Ok(PrivilegedRun::Run(t)) && t@ == c
            },
        },
{
    let command = match privileged_script_command(script_path) {
        Err(e) => {
            return Err(e);
        },
        Ok(c) => c,
    };
    if dry_run {
        Ok(PrivilegedRun::Report(dry_run_report(script_path, script, command.as_str())))
    } else {
        Ok(PrivilegedRun::Run(command))
    }
}

/// A dry run of removing the daemon, with the removal script saved at
/// `script_path` (`saved` is how saving it went): the report of the removal
/// script and the AppleScript that would run it; nothing is run. A path
/// holding a quote, or a failed save, is the error.
pub fn uninstall_dry_run(script_path: &str, saved: Result<(), String>) -> (r: Result<
    InstallOutcome,
    String,
>)
    ensures
        match privileged_command(script_path@) {
            Err(e) => r matches Err(m) && m@ == e,
            Ok(c) => match saved {
                Err(e) => r == Err::<InstallOutcome, String>(e),
                Ok(()) => r matches Ok(InstallOutcome::DryRun(t)) && t@ == dry_run_text(
                    script_path@,
                    uninstall_script_text(),
                    c,
                ),
            },
        },
{
    let script = uninstall_script();
    match privileged_plan(script_path, script.as_str(), true) {
        Err(e) => Err(e),
        Ok(PrivilegedRun::Report(report)) => match saved {
            Err(e) => Err(e),
            Ok(()) => Ok(InstallOutcome::DryRun(report)),
        },
        Ok(PrivilegedRun::Run(_)) => Err(String::new()),
    }
}

/// The install script starts the daemon: right after the installed plist is
/// checked with `plutil -lint`, it is loaded with `launchctl bootstrap`, and
/// only then is log rotation set up.
pub proof fn lemma_install_script_bootstraps_the_daemon(staged_bin: Seq<char>)
    ensures
        exists|before: Seq<char>, after: Seq<char>|
            install_script_text(staged_bin) == before + ("/usr/bin/plutil -lint '"@ + DAEMON_PLIST@
                + "' >/dev/null\n/bin/launchctl bootstrap system '"@ + DAEMON_PLIST@
                + "'\n/bin/mkdir -p /etc/newsyslog.d\n"@) + after,
{
    reveal_strlit("'\n/usr/bin/plutil -lint '");
    reveal_strlit("' >/dev/null\n/bin/launchctl bootstrap system '");
    reveal_strlit("'\n/bin/mkdir -p /etc/newsyslog.d\n/usr/bin/printf '%s' '");
    reveal_strlit("/usr/bin/plutil -lint '");
    reveal_strlit("' >/dev/null\n/bin/launchctl bootstrap system '");
    reveal_strlit("'\n/bin/mkdir -p /etc/newsyslog.d\n");
    reveal_strlit("/usr/bin/printf '%s' '");
    let plist = DAEMON_PLIST@;
    let legacy = launch_daemon_path(LEGACY_DAEMON_LABEL@);
    let head = "set -e\n/bin/launchctl bootout 'system/"@ + LEGACY_DAEMON_LABEL@
        + "' 2>/dev/null || true\n/bin/launchctl bootout 'system/"@ + DAEMON_LABEL@
        + "' 2>/dev/null || true\n/bin/rm -f '"@ + legacy
        + "'\n/bin/mkdir -p /usr/local/bin\n/usr/bin/install -m 755 '"@ + staged_bin + "' "@
        + DAEMON_BIN@ + "\n/bin/rm -f '"@ + staged_bin + "'\ncat > '"@ + plist
        + "' <<'PLIST'\n"@ + (PLIST_HEAD@ + DAEMON_LABEL@ + PLIST_TAIL@)
        + "PLIST\n/usr/sbin/chown root:wheel '"@ + plist + "'\n/bin/chmod 644 '"@ + plist;
    let before = head + "'\n"@;
    let middle = "/usr/bin/plutil -lint '"@ + plist + "' >/dev/null\n/bin/launchctl bootstrap system '"@
        + plist + "'\n/bin/mkdir -p /etc/newsyslog.d\n"@;
    let after = "/usr/bin/printf '%s' '"@ + NEWSYSLOG_BODY@ + "' > "@ + NEWSYSLOG_CONF@
        + "\n/bin/chmod 644 "@ + NEWSYSLOG_CONF@ + "\n"@;
    assert("'\n/usr/bin/plutil -lint '"@ =~= "'\n"@ + "/usr/bin/plutil -lint '"@) by {
        reveal_strlit("'\n");
    }
    assert("'\n/bin/mkdir -p /etc/newsyslog.d\n/usr/bin/printf '%s' '"@ =~= "'\n/bin/mkdir -p /etc/newsyslog.d\n"@
        + "/usr/bin/printf '%s' '"@);
    assert(install_script_text(staged_bin) =~= before + middle + after);
}

} // verus!
