//! The fan-control setup flows of the menu-bar app: what each outcome is
//! reported as, and how the answer to a setup dialog is read.
use vstd::prelude::*;
use crate::daemon::{FanControlInstallPlan, MIN_REQUIRED_DAEMON_VERSION};
use crate::install::{InstallOutcome, applescript_escaped, applescript_quote};
use crate::settings::ResolvedLanguage;
use crate::text::{has_substring, str_has_substring};

verus! {

/// What setup reports when the daemon is installed but does not answer.
pub const INSTALLED_BUT_UNAVAILABLE_MESSAGE: &'static str = "Fan control is installed but the daemon is not responding. No administrator changes were made; run Diagnostics and retry.";

/// What setup reports when the privileged script ran but the daemon is silent.
pub const INSTALLED_BUT_UNREACHABLE_MESSAGE: &'static str =
    "Installed, but the daemon isn't answering yet — check /var/log/peterfand.err";

/// Whether the setup finished with the daemon usable, and the message it shows.
/// `old_version` is the version found before setup and `new_version` the one
/// found after it.
pub open spec fn install_report(
    plan: FanControlInstallPlan,
    result: Result<InstallOutcome, String>,
    old_version: Option<Seq<char>>,
    new_version: Seq<char>,
) -> (bool, Seq<char>) {
    match result {
        Ok(InstallOutcome::Installed) => if plan == FanControlInstallPlan::AlreadyReady {
            (
                true,
                "Fan control is already enabled — daemon v"@ + (match old_version {
                    Some(v) => v,
                    None => "unknown"@,
                }) + " is ready."@,
            )
        } else if plan == FanControlInstallPlan::SelfReinstall {
            (true, "Fan control reinstalled — daemon is now v"@ + new_version + "."@)
        } else {
            (true, "Fan control enabled — the daemon is running."@)
        },
        Ok(InstallOutcome::InstalledButUnreachable) => (false, INSTALLED_BUT_UNREACHABLE_MESSAGE@),
        Ok(InstallOutcome::DryRun(_)) => (false, Seq::<char>::empty()),
        Err(e) => (false, e@),
    }
}

/// Reports the end of a fan-control setup. The menu bar never asks for a dry run.
pub fn install_result_message(
    plan: FanControlInstallPlan,
    result: Result<InstallOutcome, String>,
    old_version: Option<&str>,
    new_version: &str,
) -> (r: (bool, String))
    requires
        !(result matches Ok(InstallOutcome::DryRun(_))),
    ensures
        (r.0, r.1@) == install_report(
            plan,
            result,
            match old_version {
                Some(v) => Some(v@),
                None => None,
            },
            new_version@,
        ),
{
    match result {
        Ok(InstallOutcome::Installed) => {
            if plan == FanControlInstallPlan::AlreadyReady {
                let mut s = String::from_str("Fan control is already enabled — daemon v");
                match old_version {
                    Some(v) => s.append(v),
                    None => s.append("unknown"),
                }
                s.append(" is ready.");
                (true, s)
            } else if plan == FanControlInstallPlan::SelfReinstall {
                let mut s = String::from_str("Fan control reinstalled — daemon is now v");
                s.append(new_version);
                s.append(".");
                (true, s)
            } else {
                (true, String::from_str("Fan control enabled — the daemon is running."))
            }
        },
        Ok(InstallOutcome::InstalledButUnreachable) => (
            false,
            String::from_str(INSTALLED_BUT_UNREACHABLE_MESSAGE),
        ),
        Ok(InstallOutcome::DryRun(_)) => (false, String::new()),
        Err(e) => (false, e),
    }
}

/// The failure a plan reports before anything runs: only an installed daemon
/// that does not answer stops setup here.
pub fn plan_precondition(plan: FanControlInstallPlan) -> (r: Option<String>)
    ensures
        plan == FanControlInstallPlan::InstalledButUnavailable ==> (r matches Some(m) && m@
            == INSTALLED_BUT_UNAVAILABLE_MESSAGE@),
        plan != FanControlInstallPlan::InstalledButUnavailable ==> r is None,
{
    if plan == FanControlInstallPlan::InstalledButUnavailable {
        Some(String::from_str(INSTALLED_BUT_UNAVAILABLE_MESSAGE))
    } else {
        None
    }
}

/// The fan-action log label and notification title of a setup run.
pub fn install_action_labels(plan: FanControlInstallPlan, updating_existing: bool) -> (r: (
    &'static str,
    &'static str,
))
    ensures
        (r.0@, r.1@) == (match plan {
            FanControlInstallPlan::AlreadyReady | FanControlInstallPlan::InstalledButUnavailable => (
                "check fan control"@,
                "Fan Control"@,
            ),
            FanControlInstallPlan::SelfReinstall => ("reinstall fan control"@, "Reinstall Fan Control"@),
            FanControlInstallPlan::PrivilegedInstall => if updating_existing {
                ("reinstall fan control"@, "Reinstall Fan Control"@)
            } else {
                ("enable fan control"@, "Enable Fan Control"@)
            },
        }),
{
    match plan {
        FanControlInstallPlan::AlreadyReady | FanControlInstallPlan::InstalledButUnavailable => (
            "check fan control",
            "Fan Control",
        ),
        FanControlInstallPlan::SelfReinstall => ("reinstall fan control", "Reinstall Fan Control"),
        FanControlInstallPlan::PrivilegedInstall => {
            if updating_existing {
                ("reinstall fan control", "Reinstall Fan Control")
            } else {
                ("enable fan control", "Enable Fan Control")
            }
        },
    }
}

/// Reports the end of a silent update of an outdated daemon. Silent updates
/// never ask for a dry run.
pub fn silent_update_message(result: Result<InstallOutcome, String>, new_version: &str) -> (r: (
    bool,
    String,
))
    requires
        !(result matches Ok(InstallOutcome::DryRun(_))),
    ensures
        result matches Ok(InstallOutcome::Installed) ==> r.0 && r.1@
            == "Fan control updated silently to v"@ + new_version@ + "."@,
        result matches Ok(InstallOutcome::InstalledButUnreachable) ==> !r.0 && r.1@
            == "Fan control updated, but the daemon is still restarting."@,
        result matches Err(e) ==> !r.0 && r.1@ == "Silent fan-control update failed: "@ + e@,
{
    match result {
        Ok(InstallOutcome::Installed) => {
            let mut s = String::from_str("Fan control updated silently to v");
            s.append(new_version);
            s.append(".");
            (true, s)
        },
        Ok(InstallOutcome::InstalledButUnreachable) => (
            false,
            String::from_str("Fan control updated, but the daemon is still restarting."),
        ),
        Ok(InstallOutcome::DryRun(_)) => (false, String::new()),
        Err(e) => {
            let mut s = String::from_str("Silent fan-control update failed: ");
            s.append(e.as_str());
            (false, s)
        },
    }
}

/// What the user picked in a setup dialog.
#[derive(Clone, Copy, Debug, PartialEq, Eq, Structural)]
pub enum DialogChoice {
    /// Go ahead with setup.
    Proceed,
    /// Never ask again.
    DontAskAgain,
    /// Ask again later.
    NotNow,
    /// No button was recognised (the dialog was dismissed or failed).
    Nothing,
}

/// The first-run setup dialog.
pub const FIRST_RUN_DIALOG: &'static str = "display dialog \"PeterFan needs one-time permission to control your Mac's fans.\\n\\nYou'll see one macOS password prompt — after that, fan control works without sudo.\" with title \"PeterFan — Set Up Fan Control\" buttons {\"Don't Ask Again\", \"Not Now\", \"Set Up Now\"} default button \"Set Up Now\" cancel button \"Not Now\"";

/// The answer to the first-run dialog, from what `osascript` printed.
pub fn first_run_choice(stdout: &str) -> (r: DialogChoice)
    ensures
        r == (if has_substring(stdout@, "Set Up Now"@) {
            DialogChoice::Proceed
        } else if has_substring(stdout@, "Don't Ask Again"@) {
            DialogChoice::DontAskAgain
        } else {
            DialogChoice::Nothing
        }),
{
    if str_has_substring(stdout, "Set Up Now") {
        DialogChoice::Proceed
    } else if str_has_substring(stdout, "Don't Ask Again") {
        DialogChoice::DontAskAgain
    } else {
        DialogChoice::Nothing
    }
}

/// The texts of the outdated-daemon dialog.
pub struct StaleDaemonDialog {
    pub title: &'static str,
    pub message: String,
    pub dont_ask: &'static str,
    pub not_now: &'static str,
    pub update: &'static str,
}

/// The outdated-daemon dialog for a daemon at `old_version`, in `lang`.
pub fn stale_daemon_dialog(lang: ResolvedLanguage, old_version: &str) -> (r: StaleDaemonDialog)
    ensures
        lang == ResolvedLanguage::Ko ==> r.title@ == "PeterFan — 팬 제어 재설치"@ && r.message@
            == "이 Mac에 설치된 팬 제어 데몬은 v"@ + old_version@
            + "입니다. 이 PeterFan 앱은 팬 제어 데몬 v"@ + MIN_REQUIRED_DAEMON_VERSION@
            + " 이상이 필요합니다.\n\n지금 팬 제어를 재설치할까요? macOS가 관리자 암호를 한 번 요청합니다."@
            && r.dont_ask@ == "다시 묻지 않기"@ && r.not_now@ == "나중에"@ && r.update@
            == "팬 제어 재설치"@,
        lang == ResolvedLanguage::En ==> r.title@ == "PeterFan — Reinstall Fan Control"@
            && r.message@ == "The fan-control daemon installed on this Mac is v"@ + old_version@
            + ". This PeterFan app requires fan-control daemon v"@ + MIN_REQUIRED_DAEMON_VERSION@
            + " or newer.\n\nReinstall fan control now? macOS will ask for your password once."@
            && r.dont_ask@ == "Don't Ask Again"@ && r.not_now@ == "Not Now"@ && r.update@
            == "Reinstall Fan Control"@,
{
    match lang {
        ResolvedLanguage::Ko => {
            let mut m = String::from_str("이 Mac에 설치된 팬 제어 데몬은 v");
            m.append(old_version);
            m.append("입니다. 이 PeterFan 앱은 팬 제어 데몬 v");
            m.append(MIN_REQUIRED_DAEMON_VERSION);
            m.append(" 이상이 필요합니다.\n\n지금 팬 제어를 재설치할까요? macOS가 관리자 암호를 한 번 요청합니다.");
            StaleDaemonDialog {
                title: "PeterFan — 팬 제어 재설치",
                message: m,
                dont_ask: "다시 묻지 않기",
                not_now: "나중에",
                update: "팬 제어 재설치",
            }
        },
        ResolvedLanguage::En => {
            let mut m = String::from_str("The fan-control daemon installed on this Mac is v");
            m.append(old_version);
            m.append(". This PeterFan app requires fan-control daemon v");
            m.append(MIN_REQUIRED_DAEMON_VERSION);
            m.append(" or newer.\n\nReinstall fan control now? macOS will ask for your password once.");
            StaleDaemonDialog {
                title: "PeterFan — Reinstall Fan Control",
                message: m,
                dont_ask: "Don't Ask Again",
                not_now: "Not Now",
                update: "Reinstall Fan Control",
            }
        },
    }
}

/// `s` as an AppleScript string literal.
pub open spec fn quoted(s: Seq<char>) -> Seq<char> {
    seq!['"'] + applescript_escaped(s) + seq!['"']
}

/// The AppleScript that shows the outdated-daemon dialog, with the update
/// button as default and "not now" as cancel.
pub fn stale_daemon_dialog_script(d: &StaleDaemonDialog) -> (r: String)
    ensures
        r@ == "display dialog "@ + quoted(d.message@) + " with title "@ + quoted(d.title@)
            + " buttons {"@ + quoted(d.dont_ask@) + ", "@ + quoted(d.not_now@) + ", "@ + quoted(
            d.update@,
        ) + "} default button "@ + quoted(d.update@) + " cancel button "@ + quoted(d.not_now@),
{
    let mut s = String::from_str("display dialog ");
    s.append(applescript_quote(d.message.as_str()).as_str());
    s.append(" with title ");
    s.append(applescript_quote(d.title).as_str());
    s.append(" buttons {");
    s.append(applescript_quote(d.dont_ask).as_str());
    s.append(", ");
    s.append(applescript_quote(d.not_now).as_str());
    s.append(", ");
    s.append(applescript_quote(d.update).as_str());
    s.append("} default button ");
    s.append(applescript_quote(d.update).as_str());
    s.append(" cancel button ");
    s.append(applescript_quote(d.not_now).as_str());
    s
}

/// The answer to the outdated-daemon dialog, from what `osascript` printed.
pub fn stale_daemon_choice(d: &StaleDaemonDialog, stdout: &str) -> (r: DialogChoice)
    ensures
        r == (if has_substring(stdout@, d.update@) {
            DialogChoice::Proceed
        } else if has_substring(stdout@, d.dont_ask@) {
            DialogChoice::DontAskAgain
        } else if has_substring(stdout@, d.not_now@) {
            DialogChoice::NotNow
        } else {
            DialogChoice::Nothing
        }),
{
    if str_has_substring(stdout, d.update) {
        DialogChoice::Proceed
    } else if str_has_substring(stdout, d.dont_ask) {
        DialogChoice::DontAskAgain
    } else if str_has_substring(stdout, d.not_now) {
        DialogChoice::NotNow
    } else {
        DialogChoice::Nothing
    }
}

/// How long "not now" silences the outdated-daemon dialog, in seconds.
pub const STALE_PROMPT_SNOOZE_SECS: u64 = 86400;

/// When a "not now" at `now_unix` lets the dialog show again.
pub fn stale_prompt_snoozed_until(now_unix: u64) -> (r: u64)
    requires
        now_unix + STALE_PROMPT_SNOOZE_SECS <= u64::MAX,
    ensures
        r == now_unix + STALE_PROMPT_SNOOZE_SECS,
{
    now_unix + STALE_PROMPT_SNOOZE_SECS
}

/// What the launch-time update check reports for a release `version` newer
/// than the app: the update-panel message, the status line and the
/// notification body.
pub fn update_available_texts(version: &str) -> (r: (String, String, String))
    ensures
        r.0@ == "PeterFan v"@ + version@ + " is available."@,
        r.1@ == "update available: "@ + version@ + " (use Updates to install)"@,
        r.2@ == "PeterFan v"@ + version@ + " is ready. Open Settings to install it."@,
{
    let mut a = String::from_str("PeterFan v");
    a.append(version);
    a.append(" is available.");
    let mut b = String::from_str("update available: ");
    b.append(version);
    b.append(" (use Updates to install)");
    let mut c = String::from_str("PeterFan v");
    c.append(version);
    c.append(" is ready. Open Settings to install it.");
    (a, b, c)
}

} // verus!
