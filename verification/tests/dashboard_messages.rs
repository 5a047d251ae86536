use peterfan::messages::{
    external_url_allowed, parse_u32, route_dashboard_message, DashboardMessage, DashboardWindow,
    ProcessSort,
};
use peterfan::ui::ChartRange;

fn popover(body: &str) -> DashboardMessage {
    route_dashboard_message(body, DashboardWindow::Popover)
}

fn enqueue(cmd: &str) -> DashboardMessage {
    DashboardMessage::Enqueue(cmd.to_string())
}

#[test]
fn window_actions_route_to_their_own_variants() {
    assert_eq!(popover("quit"), DashboardMessage::Quit);
    assert_eq!(popover("open_detail"), DashboardMessage::OpenDetail);
    assert_eq!(popover("refresh"), DashboardMessage::Refresh);
    assert_eq!(
        popover("open:https://github.com/uulab-official/peterfan/releases/tag/v1"),
        DashboardMessage::OpenUrl("https://github.com/uulab-official/peterfan/releases/tag/v1".into())
    );
    assert_eq!(popover("js-error:boom"), DashboardMessage::ScriptError("boom".into()));
}

#[test]
fn ready_names_the_window_it_came_from() {
    assert_eq!(popover("ready"), enqueue("ready:popover"));
    assert_eq!(route_dashboard_message("ready", DashboardWindow::Detail), enqueue("ready:detail"));
}

#[test]
fn app_commands_pass_to_the_queue_unchanged() {
    for body in [
        "checkupdates",
        "installupdate",
        "toggle-login-item",
        "togglelogin",
        "display:both",
        "character:fox",
        "notifications:updates:0",
        "savecurve:[[30,20],[90,100]]",
    ] {
        assert_eq!(popover(body), enqueue(body), "{body}");
    }
    assert_eq!(popover("cmd:hold:40"), enqueue("hold:40"));
    assert_eq!(popover("cmd:"), enqueue(""));
}

#[test]
fn height_reports_are_ignored_in_both_windows() {
    assert_eq!(popover("h:512"), DashboardMessage::Ignore);
    assert_eq!(route_dashboard_message("h:512", DashboardWindow::Detail), DashboardMessage::Ignore);
    assert_eq!(popover("something-else"), DashboardMessage::Ignore);
}

#[test]
fn view_settings_route_to_their_values() {
    assert_eq!(popover("range:1h"), DashboardMessage::Range(ChartRange::OneHour));
    assert_eq!(popover("range:1d"), DashboardMessage::Range(ChartRange::OneDay));
    assert_eq!(popover("range:2m"), DashboardMessage::Range(ChartRange::TwoMin));
    assert_eq!(popover("procsort:mem"), DashboardMessage::SortProcesses(ProcessSort::Memory));
    assert_eq!(popover("procsort:cpu"), DashboardMessage::SortProcesses(ProcessSort::Cpu));
    assert_eq!(popover("view:fan"), DashboardMessage::View(1, "fan".into()));
    assert_eq!(popover("view:settings"), DashboardMessage::View(2, "settings".into()));
    assert_eq!(popover("view:system"), DashboardMessage::View(3, "system".into()));
    assert_eq!(popover("view:more"), DashboardMessage::View(3, "more".into()));
    assert_eq!(popover("view:overview"), DashboardMessage::View(0, "overview".into()));
    assert_eq!(popover("rawtemps:1"), DashboardMessage::RawTemps(true));
    assert_eq!(popover("rawtemps:0"), DashboardMessage::RawTemps(false));
}

#[test]
fn kill_needs_a_process_id() {
    assert_eq!(popover("killproc:4242"), DashboardMessage::KillProcess(4242));
    assert_eq!(popover("killproc:+7"), DashboardMessage::KillProcess(7));
    assert_eq!(popover("killproc:-1"), DashboardMessage::Ignore);
    assert_eq!(popover("killproc:4294967296"), DashboardMessage::Ignore);
    assert_eq!(parse_u32("4294967295"), Some(u32::MAX));
    assert_eq!(parse_u32(""), None);
}

#[test]
fn only_release_pages_may_be_opened() {
    assert!(external_url_allowed("https://github.com/uulab-official/peterfan/releases/latest"));
    assert!(!external_url_allowed("https://example.com/"));
}
