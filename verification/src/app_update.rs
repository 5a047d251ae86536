//! The app's own update: from what the release check and the download gave
//! back to the state the dashboard shows, the status message, and what
//! happens next.
use vstd::prelude::*;
use crate::version::{is_newer, newer_spec};

verus! {

/// Where an update of the app stands.
#[derive(Clone, Copy, Debug, PartialEq, Eq, Structural)]
pub enum UpdateState {
    Checking,
    Current,
    Available,
    Downloading,
    Queued,
    Failed,
}

/// The state, message and whether to go on after the release check. `fetched`
/// is the newest release's version and whether its verified files are ready,
/// or the error the check failed with. The third part is true when the
/// release is to be downloaded and installed now: a newer, installable
/// release when `install` asks for it.
pub open spec fn check_step(
    install: bool,
    current: Seq<char>,
    fetched: Result<(Seq<char>, bool), Seq<char>>,
) -> (UpdateState, Seq<char>, bool) {
    match fetched {
        Err(e) => (UpdateState::Failed, "Couldn't check for updates: "@ + e, false),
        Ok((v, installable)) => if !newer_spec(current, v) {
            (UpdateState::Current, "PeterFan v"@ + current + " is current."@, false)
        } else if !installable {
            (
                UpdateState::Available,
                "PeterFan v"@ + v + " is available, but its verified files are not ready."@,
                false,
            )
        } else if !install {
            (
                UpdateState::Available,
                "PeterFan v"@ + v + " is available. Choose Install Update to continue."@,
                false,
            )
        } else {
            (UpdateState::Downloading, "Downloading and verifying PeterFan v"@ + v + "."@, true)
        },
    }
}

/// The state, message and whether to quit after installing release
/// `version`: a verified install is queued and the app quits so that it can
/// relaunch; a failed one is reported with its error.
pub open spec fn install_step(version: Seq<char>, installed: Result<(), Seq<char>>) -> (
    UpdateState,
    Seq<char>,
    bool,
) {
    match installed {
        Ok(()) => (
            UpdateState::Queued,
            "PeterFan v"@ + version + " is verified and ready to relaunch."@,
            true,
        ),
        Err(e) => (UpdateState::Failed, "Update failed: "@ + e, false),
    }
}

fn concat2(a: &str, b: &str) -> (r: String)
    ensures
        r@ == a@ + b@,
{
    let mut s = String::from_str(a);
    s.append(b);
    s
}

fn concat3(a: &str, b: &str, c: &str) -> (r: String)
    ensures
        r@ == a@ + b@ + c@,
{
    let mut s = String::from_str(a);
    s.append(b);
    s.append(c);
    s
}

/// What follows the release check, when the app runs on version `current`
/// (see `check_step`).
pub fn update_check_step(install: bool, current: &str, fetched: Result<(&str, bool), &str>) -> (r: (
    UpdateState,
    String,
    bool,
))
    ensures
        (r.0, r.1@, r.2) == check_step(
            install,
            current@,
            match fetched {
                Ok((v, ok)) => Ok((v@, ok)),
                Err(e) => Err(e@),
            },
        ),
{
    match fetched {
        Err(e) => (UpdateState::Failed, concat2("Couldn't check for updates: ", e), false),
        Ok((v, installable)) => {
            if !is_newer(current, v) {
                (UpdateState::Current, concat3("PeterFan v", current, " is current."), false)
            } else if !installable {
                (
                    UpdateState::Available,
                    concat3(
                        "PeterFan v",
                        v,
                        " is available, but its verified files are not ready.",
                    ),
                    false,
                )
            } else if !install {
                (
                    UpdateState::Available,
                    concat3("PeterFan v", v, " is available. Choose Install Update to continue."),
                    false,
                )
            } else {
                (
                    UpdateState::Downloading,
                    concat3("Downloading and verifying PeterFan v", v, "."),
                    true,
                )
            }
        },
    }
}

/// What follows installing release `version` (see `install_step`).
pub fn update_install_step(version: &str, installed: Result<(), &str>) -> (r: (
    UpdateState,
    String,
    bool,
))
    ensures
        (r.0, r.1@, r.2) == install_step(
            version@,
            match installed {
                Ok(()) => Ok(()),
                Err(e) => Err(e@),
            },
        ),
{
    match installed {
        Ok(()) => (
            UpdateState::Queued,
            concat3("PeterFan v", version, " is verified and ready to relaunch."),
            true,
        ),
        Err(e) => (UpdateState::Failed, concat2("Update failed: ", e), false),
    }
}

} // verus!
