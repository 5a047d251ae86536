//! What the dashboard page asks of the app: each message the page posts,
//! read into the action the app takes on it.
use vstd::prelude::*;
use crate::text::{parse_usize, starts_with, str_eq, str_starts_with, strip_prefix};
use crate::ui::ChartRange;
use crate::version::{all_digits, digits_value};

verus! {

/// The window a dashboard page lives in.
#[derive(Clone, Copy, Debug, PartialEq, Eq, Structural)]
pub enum DashboardWindow {
    /// The popover under the menu-bar item.
    Popover,
    /// The resizable detail window.
    Detail,
}

/// How the process list is sorted.
#[derive(Clone, Copy, Debug, PartialEq, Eq, Structural)]
pub enum ProcessSort {
    Cpu,
    Memory,
}

/// The action a dashboard message asks for.
#[derive(Clone, Debug, PartialEq, Eq)]
pub enum DashboardMessage {
    /// Quit the app.
    Quit,
    /// Open the detail window.
    OpenDetail,
    /// Open this address in the browser.
    OpenUrl(String),
    /// The page reported a script error; log it.
    ScriptError(String),
    /// Hand this command to the queue the event loop drains.
    Enqueue(String),
    /// Refresh the fan-control state now.
    Refresh,
    /// Show charts over this span.
    Range(ChartRange),
    /// Sort the process list this way.
    SortProcesses(ProcessSort),
    /// Show the rail view with this index (0 overview, 1 fans, 2 settings,
    /// 3 system), as the page named it.
    View(u8, String),
    /// Show or hide the raw sensor list.
    RawTemps(bool),
    /// End the process with this id.
    KillProcess(u32),
    /// Nothing to do.
    Ignore,
}

/// A `DashboardMessage` with its strings taken as characters.
pub enum DashboardMessageView {
    Quit,
    OpenDetail,
    OpenUrl(Seq<char>),
    ScriptError(Seq<char>),
    Enqueue(Seq<char>),
    Refresh,
    Range(ChartRange),
    SortProcesses(ProcessSort),
    View(u8, Seq<char>),
    RawTemps(bool),
    KillProcess(u32),
    Ignore,
}

impl View for DashboardMessage {
    type V = DashboardMessageView;

    open spec fn view(&self) -> DashboardMessageView {
        match self {
            DashboardMessage::Quit => DashboardMessageView::Quit,
            DashboardMessage::OpenDetail => DashboardMessageView::OpenDetail,
            DashboardMessage::OpenUrl(u) => DashboardMessageView::OpenUrl(u@),
            DashboardMessage::ScriptError(e) => DashboardMessageView::ScriptError(e@),
            DashboardMessage::Enqueue(c) => DashboardMessageView::Enqueue(c@),
            DashboardMessage::Refresh => DashboardMessageView::Refresh,
            DashboardMessage::Range(r) => DashboardMessageView::Range(*r),
            DashboardMessage::SortProcesses(s) => DashboardMessageView::SortProcesses(*s),
            DashboardMessage::View(i, v) => DashboardMessageView::View(*i, v@),
            DashboardMessage::RawTemps(b) => DashboardMessageView::RawTemps(*b),
            DashboardMessage::KillProcess(p) => DashboardMessageView::KillProcess(*p),
            DashboardMessage::Ignore => DashboardMessageView::Ignore,
        }
    }
}

/// What `str::parse::<u32>` gives: an optional `+`, then one or more ASCII
/// digits whose value fits in a `u32`.
pub open spec fn parse_u32_spec(s: Seq<char>) -> Option<u32> {
    let body = if s.len() > 0 && s[0] == '+' {
        s.drop_first()
    } else {
        s
    };
    if body.len() > 0 && all_digits(body) && digits_value(body) <= u32::MAX {
        Some(digits_value(body) as u32)
    } else {
        None
    }
}

/// Parses a decimal `u32`.
pub fn parse_u32(s: &str) -> (r: Option<u32>)
    ensures
        r == parse_u32_spec(s@),
{
    match parse_usize(s) {
        Some(n) => if n <= 0xffff_ffffusize {
            Some(n as u32)
        } else {
            None
        },
        None => None,
    }
}

/// The message is a command the page hands straight to the queue.
pub open spec fn passes_to_queue(body: Seq<char>) -> bool {
    ||| body == "checkupdates"@
    ||| body == "installupdate"@
    ||| body == "toggle-login-item"@
    ||| body == "togglelogin"@
    ||| starts_with(body, "display:"@)
    ||| starts_with(body, "character:"@)
    ||| starts_with(body, "notifications:"@)
}

/// The rail view a `view:` message names: fans 1, settings 2, system (or its
/// older name, more) 3, anything else the overview 0.
pub open spec fn rail_view_index(view: Seq<char>) -> u8 {
    if view == "fan"@ {
        1
    } else if view == "settings"@ {
        2
    } else if view == "system"@ || view == "more"@ {
        3
    } else {
        0
    }
}

/// The chart span a `range:` message names.
pub open spec fn chart_range_of(r: Seq<char>) -> ChartRange {
    if r == "1h"@ {
        ChartRange::OneHour
    } else if r == "1d"@ {
        ChartRange::OneDay
    } else {
        ChartRange::TwoMin
    }
}

/// The queued command that says a window's page has loaded.
pub open spec fn ready_command(window: DashboardWindow) -> Seq<char> {
    match window {
        DashboardWindow::Popover => "ready:popover"@,
        DashboardWindow::Detail => "ready:detail"@,
    }
}

/// The action the message `body` from a page in `window` asks for, the
/// message's forms tried in this order. `h:` (a height report, which the
/// fixed-height popover no longer follows) asks for nothing, in either window.
pub open spec fn dashboard_message(body: Seq<char>, window: DashboardWindow) -> DashboardMessageView {
    if body == "quit"@ {
        DashboardMessageView::Quit
    } else if body == "open_detail"@ {
        DashboardMessageView::OpenDetail
    } else if starts_with(body, "open:"@) {
        DashboardMessageView::OpenUrl(body.skip(5))
    } else if starts_with(body, "js-error:"@) {
        DashboardMessageView::ScriptError(body.skip(9))
    } else if body == "ready"@ {
        DashboardMessageView::Enqueue(ready_command(window))
    } else if body == "refresh"@ {
        DashboardMessageView::Refresh
    } else if passes_to_queue(body) {
        DashboardMessageView::Enqueue(body)
    } else if starts_with(body, "h:"@) {
        DashboardMessageView::Ignore
    } else if starts_with(body, "cmd:"@) {
        DashboardMessageView::Enqueue(body.skip(4))
    } else if starts_with(body, "savecurve:"@) {
        DashboardMessageView::Enqueue(body)
    } else if starts_with(body, "range:"@) {
        DashboardMessageView::Range(chart_range_of(body.skip(6)))
    } else if starts_with(body, "procsort:"@) {
        DashboardMessageView::SortProcesses(
            if body.skip(9) == "mem"@ {
                ProcessSort::Memory
            } else {
                ProcessSort::Cpu
            },
        )
    } else if starts_with(body, "view:"@) {
        DashboardMessageView::View(rail_view_index(body.skip(5)), body.skip(5))
    } else if starts_with(body, "rawtemps:"@) {
        DashboardMessageView::RawTemps(body.skip(9) == "1"@)
    } else if starts_with(body, "killproc:"@) {
        match parse_u32_spec(body.skip(9)) {
            Some(pid) => DashboardMessageView::KillProcess(pid),
            None => DashboardMessageView::Ignore,
        }
    } else {
        DashboardMessageView::Ignore
    }
}

fn passes_to_queue_exec(body: &str) -> (r: bool)
    ensures
        r == passes_to_queue(body@),
{
    str_eq(body, "checkupdates") || str_eq(body, "installupdate") || str_eq(
        body,
        "toggle-login-item",
    ) || str_eq(body, "togglelogin") || str_starts_with(body, "display:") || str_starts_with(
        body,
        "character:",
    ) || str_starts_with(body, "notifications:")
}

/// Reads a message the dashboard page in `window` posted.
pub fn route_dashboard_message(body: &str, window: DashboardWindow) -> (r: DashboardMessage)
    ensures
        r@ == dashboard_message(body@, window),
{
    proof {
        reveal_strlit("open:");
        reveal_strlit("js-error:");
        reveal_strlit("cmd:");
        reveal_strlit("range:");
        reveal_strlit("procsort:");
        reveal_strlit("view:");
        reveal_strlit("rawtemps:");
        reveal_strlit("killproc:");
    }
    if str_eq(body, "quit") {
        return DashboardMessage::Quit;
    }
    if str_eq(body, "open_detail") {
        return DashboardMessage::OpenDetail;
    }
    if let Some(url) = strip_prefix(body, "open:") {
        return DashboardMessage::OpenUrl(String::from_str(url));
    }
    if let Some(error) = strip_prefix(body, "js-error:") {
        return DashboardMessage::ScriptError(String::from_str(error));
    }
    if str_eq(body, "ready") {
        return DashboardMessage::Enqueue(
            String::from_str(
                match window {
                    DashboardWindow::Popover => "ready:popover",
                    DashboardWindow::Detail => "ready:detail",
                },
            ),
        );
    }
    if str_eq(body, "refresh") {
        return DashboardMessage::Refresh;
    }
    if passes_to_queue_exec(body) {
        return DashboardMessage::Enqueue(String::from_str(body));
    }
    if str_starts_with(body, "h:") {
        return DashboardMessage::Ignore;
    }
    if let Some(cmd) = strip_prefix(body, "cmd:") {
        return DashboardMessage::Enqueue(String::from_str(cmd));
    }
    if str_starts_with(body, "savecurve:") {
        return DashboardMessage::Enqueue(String::from_str(body));
    }
    if let Some(r) = strip_prefix(body, "range:") {
        let range = if str_eq(r, "1h") {
            ChartRange::OneHour
        } else if str_eq(r, "1d") {
            ChartRange::OneDay
        } else {
            ChartRange::TwoMin
        };
        return DashboardMessage::Range(range);
    }
    if let Some(s) = strip_prefix(body, "procsort:") {
        return DashboardMessage::SortProcesses(
            if str_eq(s, "mem") {
                ProcessSort::Memory
            } else {
                ProcessSort::Cpu
            },
        );
    }
    if let Some(view) = strip_prefix(body, "view:") {
        let index: u8 = if str_eq(view, "fan") {
            1
        } else if str_eq(view, "settings") {
            2
        } else if str_eq(view, "system") || str_eq(view, "more") {
            3
        } else {
            0
        };
        return DashboardMessage::View(index, String::from_str(view));
    }
    if let Some(open) = strip_prefix(body, "rawtemps:") {
        return DashboardMessage::RawTemps(str_eq(open, "1"));
    }
    if let Some(pid) = strip_prefix(body, "killproc:") {
        return match parse_u32(pid) {
            Some(p) => DashboardMessage::KillProcess(p),
            None => DashboardMessage::Ignore,
        };
    }
    DashboardMessage::Ignore
}

/// The only addresses the dashboard may open: the project's release pages.
pub open spec fn external_url_allowed_spec(url: Seq<char>) -> bool {
    starts_with(url, "https://github.com/uulab-official/peterfan/releases/"@)
}

/// Whether the dashboard may open `url` in the browser.
pub fn external_url_allowed(url: &str) -> (r: bool)
    ensures
        r == external_url_allowed_spec(url@),
{
    str_starts_with(url, "https://github.com/uulab-official/peterfan/releases/")
}

} // verus!
