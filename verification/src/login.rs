//! Launching the menu-bar app at login: the per-user LaunchAgent and what
//! toggling it reports.
use vstd::prelude::*;
use crate::text::str_eq;

verus! {

/// The LaunchAgent's label.
pub const LOGIN_LABEL: &'static str = "dev.peterfan.menubar";

/// The menu-bar binary's file name.
pub const MENUBAR_BINARY_NAME: &'static str = "peterfan-menubar";

/// The LaunchAgent plist text before the binary path.
pub const LOGIN_PLIST_HEAD: &'static str = "<?xml version=\"1.0\" encoding=\"UTF-8\"?>\n<!DOCTYPE plist PUBLIC \"-//Apple//DTD PLIST 1.0//EN\"\n  \"http://www.apple.com/DTDs/PropertyList-1.0.dtd\">\n<plist version=\"1.0\">\n<dict>\n  <key>Label</key>       <string>dev.peterfan.menubar</string>\n  <key>ProgramArguments</key>\n  <array>\n    <string>";

/// The LaunchAgent plist text after the arguments: started at login, not
/// restarted, logging to one file.
pub const LOGIN_PLIST_TAIL: &'static str = "\n  </array>\n  <key>RunAtLoad</key>   <true/>\n  <key>KeepAlive</key>   <false/>\n  <key>StandardOutPath</key> <string>/tmp/peterfan-menubar.log</string>\n  <key>StandardErrorPath</key> <string>/tmp/peterfan-menubar.log</string>\n</dict>\n</plist>\n";

/// The extra program arguments for `metric`: none for `cpu`, the default.
pub open spec fn metric_arguments(metric: Seq<char>) -> Seq<char> {
    if metric == "cpu"@ {
        Seq::<char>::empty()
    } else {
        "\n    <string>--metric</string>\n    <string>"@ + metric + "</string>"@
    }
}

/// The LaunchAgent plist that starts the binary at `bin` showing `metric`.
pub fn plist_contents(bin: &str, metric: &str) -> (r: String)
    ensures
        r@ == LOGIN_PLIST_HEAD@ + bin@ + "</string>"@ + metric_arguments(metric@)
            + LOGIN_PLIST_TAIL@,
{
    let mut s = String::from_str(LOGIN_PLIST_HEAD);
    s.append(bin);
    s.append("</string>");
    if !str_eq(metric, "cpu") {
        s.append("\n    <string>--metric</string>\n    <string>");
        s.append(metric);
        s.append("</string>");
    }
    assert(s@ =~= LOGIN_PLIST_HEAD@ + bin@ + "</string>"@ + metric_arguments(metric@));
    s.append(LOGIN_PLIST_TAIL);
    s
}

/// What disabling the login item reports: whether there was one to remove,
/// or why removing it failed.
pub fn login_disable_message(removed: Result<bool, String>) -> (r: String)
    ensures
        r@ == (match removed {
            Ok(true) => "startup disabled"@,
            Ok(false) => "startup already disabled"@,
            Err(e) => "login item disable failed: "@ + e@,
        }),
{
    match removed {
        Ok(true) => String::from_str("startup disabled"),
        Ok(false) => String::from_str("startup already disabled"),
        Err(e) => {
            let mut s = String::from_str("login item disable failed: ");
            s.append(e.as_str());
            s
        },
    }
}

/// What enabling the login item reports.
pub fn login_enable_message(installed: Result<(), String>) -> (r: String)
    ensures
        r@ == (match installed {
            Ok(()) => "startup enabled"@,
            Err(e) => "login item enable failed: "@ + e@,
        }),
{
    match installed {
        Ok(()) => String::from_str("startup enabled"),
        Err(e) => {
            let mut s = String::from_str("login item enable failed: ");
            s.append(e.as_str());
            s
        },
    }
}

/// What an override path that does not exist reports.
pub fn binary_not_found_message(path: &str) -> (r: String)
    ensures
        r@ == "binary not found at '"@ + path@ + "'"@,
{
    let mut s = String::from_str("binary not found at '");
    s.append(path);
    s.append("'");
    s
}

} // verus!
