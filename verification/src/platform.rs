//! What this platform offers of the macOS-only probes.
use vstd::prelude::*;

verus! {

/// The read-only probe of the SMC fan-control keys exists only on macOS;
/// here there is none.
pub fn fan_control_probe() -> (r: Option<()>)
    ensures
        r is None,
{
    None
}

/// The CPU temperature-source probe exists only on macOS; here there is none.
pub fn cpu_temperature_probe() -> (r: Option<()>)
    ensures
        r is None,
{
    None
}

/// Toggling launch at login exists only on macOS and Windows; here it reports so.
pub fn toggle_login_item() -> (r: String)
    ensures
        r@ == "startup toggle is not available on this platform"@,
{
    String::from_str("startup toggle is not available on this platform")
}

/// Launch at login is offered only on macOS and Windows.
pub fn login_item_supported() -> (r: bool)
    ensures
        !r,
{
    false
}

/// Without launch-at-login support no login item is ever installed.
pub fn login_item_installed() -> (r: bool)
    ensures
        !r,
{
    false
}

/// Whether the daemon binary is installed, where, and whether its plist is;
/// the daemon exists only on macOS.
pub fn daemon_install_metadata() -> (r: (bool, &'static str, bool))
    ensures
        !r.0 && r.1@ == ""@ && !r.2,
{
    (false, "", false)
}

/// Off macOS fan writes need no elevation check.
pub fn direct_fan_control_allowed() -> (r: bool)
    ensures
        r,
{
    true
}

} // verus!
