use ktop::action::Action;
use ktop::app::{App, TAB_COUNT};
use ktop::config::{default_git_interval, default_tick_rate, Config, GitConfig};
use ktop::event::{Event, KeyCode, KeyPress};
use ktop::git::GitSnapshot;
use ktop::source::{git_source_enabled, DataSnapshot, SYSTEM_INTERVAL_SECS};
use ktop::system::SystemSnapshot;

fn key(code: KeyCode, ctrl: bool) -> Event {
    Event::Key(KeyPress { code, ctrl })
}

fn system_snapshot(cpu: Vec<u64>) -> DataSnapshot {
    DataSnapshot::System(SystemSnapshot {
        cpu_usages: cpu,
        total_memory: 8,
        used_memory: 4,
        total_disk: 100,
        used_disk: 50,
    })
}

fn git_snapshot() -> DataSnapshot {
    DataSnapshot::Git(GitSnapshot { repos: Vec::new() })
}

#[test]
fn tab_wraps_forward() {
    let mut app = App::new();
    assert_eq!(app.selected_tab, 0);
    app.dispatch(Action::NextTab);
    assert_eq!(app.selected_tab, 1);
    app.dispatch(Action::NextTab);
    assert_eq!(app.selected_tab, 0);
}

#[test]
fn tab_wraps_backward() {
    let mut app = App::new();
    app.dispatch(Action::PrevTab);
    assert_eq!(app.selected_tab, TAB_COUNT - 1);
    app.dispatch(Action::PrevTab);
    assert_eq!(app.selected_tab, 0);
}

#[test]
fn tab_stays_in_range_under_mixed_actions() {
    let mut app = App::new();
    let script = [
        Action::NextTab,
        Action::NextTab,
        Action::PrevTab,
        Action::NextTab,
        Action::PrevTab,
        Action::PrevTab,
        Action::PrevTab,
        Action::NextTab,
    ];
    for a in script {
        app.dispatch(a);
        assert!(app.selected_tab < TAB_COUNT);
    }
}

#[test]
fn quit_clears_running_and_nothing_restores_it() {
    let mut app = App::new();
    assert!(app.running);
    app.dispatch(Action::Quit);
    assert!(!app.running);
    app.dispatch(Action::NextTab);
    app.dispatch(Action::Refresh);
    app.on_snapshot(&system_snapshot(vec![1000]));
    app.on_snapshot(&git_snapshot());
    assert!(!app.running);
}

#[test]
fn refresh_changes_nothing() {
    let mut app = App::new();
    app.dispatch(Action::Refresh);
    assert!(app.running);
    assert_eq!(app.selected_tab, 0);
    assert_eq!(app.system_panel.cpu_history.len(), 0);
    assert_eq!(app.git_panel.snapshot.repos.len(), 0);
}

#[test]
fn git_snapshot_leaves_system_panel_alone() {
    let mut app = App::new();
    app.on_snapshot(&git_snapshot());
    assert_eq!(app.system_panel.cpu_history.len(), 0);
    assert_eq!(app.system_panel.snapshot.cpu_usages.len(), 0);
    assert_eq!(app.system_panel.snapshot.total_memory, 0);
}

#[test]
fn system_snapshot_leaves_git_panel_alone() {
    let mut app = App::new();
    app.on_snapshot(&system_snapshot(vec![2500, 7500]));
    assert_eq!(app.git_panel.snapshot.repos.len(), 0);
    assert_eq!(app.system_panel.cpu_history, vec![5000]);
}

#[test]
fn key_q_quits() {
    let app = App::new();
    assert_eq!(app.handle_event(key(KeyCode::Char('q'), false)), Some(Action::Quit));
    assert_eq!(app.handle_event(key(KeyCode::Char('q'), true)), Some(Action::Quit));
}

#[test]
fn key_ctrl_c_quits_but_plain_c_does_not() {
    let app = App::new();
    assert_eq!(app.handle_event(key(KeyCode::Char('c'), true)), Some(Action::Quit));
    assert_eq!(app.handle_event(key(KeyCode::Char('c'), false)), None);
}

#[test]
fn key_tab_moves_forward_and_backtab_backward() {
    let app = App::new();
    assert_eq!(app.handle_event(key(KeyCode::Tab, false)), Some(Action::NextTab));
    assert_eq!(app.handle_event(key(KeyCode::BackTab, false)), Some(Action::PrevTab));
}

#[test]
fn key_r_refreshes_and_others_do_nothing() {
    let app = App::new();
    assert_eq!(app.handle_event(key(KeyCode::Char('r'), false)), Some(Action::Refresh));
    assert_eq!(app.handle_event(key(KeyCode::Char('x'), false)), None);
    assert_eq!(app.handle_event(key(KeyCode::Other, false)), None);
}

#[test]
fn tick_and_resize_produce_no_action() {
    let app = App::new();
    assert_eq!(app.handle_event(Event::Tick), None);
    assert_eq!(app.handle_event(Event::Resize(80, 24)), None);
}

#[test]
fn config_defaults_apply() {
    let config = Config::default();
    assert_eq!(config.tick_rate_ms, 250);
    assert_eq!(config.git.interval_secs, 5);
    assert!(config.git.repos.is_empty());
    assert_eq!(default_tick_rate(), 250);
    assert_eq!(default_git_interval(), 5);
    assert_eq!(SYSTEM_INTERVAL_SECS, 1);
}

#[test]
fn repository_source_only_enabled_with_paths() {
    let config = Config::default();
    assert!(!git_source_enabled(&config));
    let config = Config {
        tick_rate_ms: 250,
        git: GitConfig { interval_secs: 5, repos: vec!["./somewhere".to_string()] },
    };
    assert!(git_source_enabled(&config));
}
