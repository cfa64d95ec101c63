use niri_helper::compositor::{Command, Event, Window};
use niri_helper::config::Config;
use niri_helper::daemon::Daemon;
use niri_helper::ipc::{Ipc, IpcCommand};
use niri_helper::niri_tracker::NiriTracker;
use niri_helper::process::{is_in_process_tree, ProcessTable};
use niri_helper::rules_common::RuleLifetime;
use niri_helper::window_rules::{MatchStrategy, WindowRule};

fn window(id: u64, app_id: Option<&str>, title: Option<&str>, pid: Option<u32>) -> Window {
    Window {
        id,
        app_id: app_id.map(|s| s.to_string()),
        title: title.map(|s| s.to_string()),
        pid,
    }
}

fn rule() -> WindowRule {
    WindowRule::default()
}

fn empty_procs() -> ProcessTable {
    ProcessTable::new()
}

// An exhausted rule never fires, whatever its matchers hold.
#[test]
fn exhausted_rule_never_triggers_actions() {
    let mut r = rule();
    r.app_id = Some("^term$".to_string());
    r.in_column = Some(2);
    r.close = Some(true);
    r.rule_lifetime = Some(RuleLifetime::Matches(0));
    assert!(r.exhausted());
    let w = window(7, Some("term"), None, None);
    assert!(r.match_window(&w, &empty_procs()));
    let cmds = r.evaluate(&w, &empty_procs());
    assert_eq!(cmds.len(), 0);
    assert!(matches!(r.rule_lifetime, Some(RuleLifetime::Matches(0))));
}

// Under `All`, an unconfigured matcher contributes false: the rule cannot match.
#[test]
fn all_strategy_with_unconfigured_matcher_never_matches() {
    let mut r = rule();
    r.match_strategy = MatchStrategy::All;
    r.app_id = Some(".*".to_string());
    // title and pid matchers are unconfigured
    let w = window(1, Some("anything"), Some("anything"), Some(1));
    assert!(!r.match_window(&w, &empty_procs()));
}

// Under `All`, a fully configured rule matches when every matcher passes.
#[test]
fn all_strategy_matches_when_every_matcher_passes() {
    let mut procs = ProcessTable::new();
    procs.record(103, 100);
    let mut r = rule();
    r.match_strategy = MatchStrategy::All;
    r.app_id = Some("^term$".to_string());
    r.title = Some("scratch".to_string());
    r.pid = Some(100);
    let w = window(1, Some("term"), Some("my scratchpad"), Some(103));
    assert!(r.match_window(&w, &procs));
    let other = window(2, Some("term"), Some("editor"), Some(103));
    assert!(!r.match_window(&other, &procs));
}

// Under `Any`, the rule matches iff at least one configured matcher passes.
#[test]
fn any_strategy_matches_iff_one_configured_matcher_passes() {
    let mut r = rule();
    r.app_id = Some("^term$".to_string());
    r.title = Some("^scratch$".to_string());
    assert!(r.match_window(&window(1, Some("term"), Some("other"), None), &empty_procs()));
    assert!(r.match_window(&window(2, Some("other"), Some("scratch"), None), &empty_procs()));
    assert!(!r.match_window(&window(3, Some("other"), Some("other"), None), &empty_procs()));
    assert!(!r.match_window(&window(4, None, None, None), &empty_procs()));
}

// A rule with no configured matcher matches nothing under either strategy.
#[test]
fn unconfigured_rule_matches_nothing() {
    let w = window(1, Some("term"), Some("title"), Some(1));
    let r_any = rule();
    assert!(!r_any.match_window(&w, &empty_procs()));
    let mut r_all = rule();
    r_all.match_strategy = MatchStrategy::All;
    assert!(!r_all.match_window(&w, &empty_procs()));
}

// The regex is really consulted: anchors distinguish "term" from "xterm".
#[test]
fn app_id_regex_is_anchored_matching() {
    let mut r = rule();
    r.app_id = Some("^term$".to_string());
    assert!(r.match_window(&window(1, Some("term"), None, None), &empty_procs()));
    assert!(!r.match_window(&window(2, Some("xterm"), None, None), &empty_procs()));
    let mut substring = rule();
    substring.app_id = Some("term".to_string());
    assert!(substring.match_window(&window(3, Some("xterm"), None, None), &empty_procs()));
}

// An invalid pattern is caught by load-time validation and never matches.
#[test]
fn invalid_pattern_fails_validation_and_fails_closed() {
    let mut r = rule();
    r.app_id = Some("foo(".to_string());
    assert!(!r.patterns_valid());
    assert!(!r.match_window(&window(1, Some("foo("), None, None), &empty_procs()));
    let mut ok = rule();
    ok.app_id = Some("^term$".to_string());
    ok.title = Some("[0-9]+".to_string());
    assert!(ok.patterns_valid());
}

// The lifetime decrements exactly once per successful match, saturating at zero.
#[test]
fn lifetime_decrements_once_per_match() {
    let mut r = rule();
    r.app_id = Some("^term$".to_string());
    r.rule_lifetime = Some(RuleLifetime::Matches(2));
    let w = window(7, Some("term"), None, None);
    r.evaluate(&w, &empty_procs());
    assert!(matches!(r.rule_lifetime, Some(RuleLifetime::Matches(1))));
    r.evaluate(&w, &empty_procs());
    assert!(matches!(r.rule_lifetime, Some(RuleLifetime::Matches(0))));
    // exhausted now: a further evaluation changes nothing
    r.evaluate(&w, &empty_procs());
    assert!(matches!(r.rule_lifetime, Some(RuleLifetime::Matches(0))));
}

// An unlimited rule stays unlimited and keeps firing.
#[test]
fn unlimited_rule_keeps_firing() {
    let mut r = rule();
    r.app_id = Some("^term$".to_string());
    r.close = Some(true);
    let w = window(7, Some("term"), None, None);
    for _ in 0..3 {
        let cmds = r.evaluate(&w, &empty_procs());
        assert_eq!(cmds, vec![Command::CloseWindow { id: 7 }]);
    }
    assert!(r.rule_lifetime.is_none());
}

// A no-match evaluation does not touch the lifetime.
#[test]
fn failed_match_spends_no_lifetime() {
    let mut r = rule();
    r.app_id = Some("^term$".to_string());
    r.rule_lifetime = Some(RuleLifetime::Matches(1));
    let cmds = r.evaluate(&window(1, Some("editor"), None, None), &empty_procs());
    assert_eq!(cmds.len(), 0);
    assert!(matches!(r.rule_lifetime, Some(RuleLifetime::Matches(1))));
}

// A rule with one remaining match fires once and is pruned in the same pass.
#[test]
fn single_match_rule_pruned_in_same_pass() {
    let mut config = Config::new();
    let mut r = rule();
    r.app_id = Some("^term$".to_string());
    r.close = Some(true);
    r.rule_lifetime = Some(RuleLifetime::Matches(1));
    config.add_window_rule(r);
    assert_eq!(config.window_rules().len(), 1);
    let w = window(7, Some("term"), None, None);
    let cmds = config.evaluate_window(&w, &empty_procs());
    assert_eq!(cmds, vec![Command::CloseWindow { id: 7 }]);
    assert_eq!(config.window_rules().len(), 0);
    let again = config.evaluate_window(&w, &empty_procs());
    assert_eq!(again.len(), 0);
}

// Rules evaluate in registration order and surviving rules keep that order.
#[test]
fn rules_evaluate_in_registration_order() {
    let mut config = Config::new();
    let mut first = rule();
    first.app_id = Some("^term$".to_string());
    first.column = Some(1);
    first.rule_lifetime = Some(RuleLifetime::Matches(1));
    let mut second = rule();
    second.app_id = Some("term".to_string());
    second.close = Some(true);
    config.add_window_rule(first);
    config.add_window_rule(second);
    let cmds = config.evaluate_window(&window(7, Some("term"), None, None), &empty_procs());
    assert_eq!(
        cmds,
        vec![Command::MoveColumnToFirst, Command::CloseWindow { id: 7 }]
    );
    // the one-shot first rule is gone, the unlimited second survives
    assert_eq!(config.window_rules().len(), 1);
    assert_eq!(config.window_rules()[0].close, Some(true));
}

// The tracker reports a fresh id exactly once.
#[test]
fn register_if_new_reports_fresh_once() {
    let mut tracker = NiriTracker::new();
    let w = window(7, None, None, None);
    assert!(tracker.register_window(&w));
    assert!(!tracker.register_window(&w));
    tracker.unregister_window(&7);
    assert!(tracker.register_window(&w));
}

// A resync replaces the known set; an empty resync forgets everything.
#[test]
fn resync_replaces_known_ids() {
    let mut tracker = NiriTracker::new();
    assert!(tracker.register_window(&window(1, None, None, None)));
    assert!(tracker.register_window(&window(2, None, None, None)));
    let snapshot = vec![window(2, None, None, None), window(3, None, None, None)];
    tracker.update_windows(&snapshot);
    assert!(!tracker.register_window(&window(2, None, None, None)));
    assert!(!tracker.register_window(&window(3, None, None, None)));
    assert!(tracker.register_window(&window(1, None, None, None)));
    tracker.update_windows(&Vec::new());
    assert!(tracker.register_window(&window(1, None, None, None)));
    assert!(tracker.register_window(&window(2, None, None, None)));
    assert!(tracker.register_window(&window(3, None, None, None)));
}

// Every pid is its own descendant.
#[test]
fn process_is_descendant_of_itself() {
    assert!(is_in_process_tree(42, 42, &empty_procs()));
    let mut procs = ProcessTable::new();
    procs.record(42, 1);
    assert!(is_in_process_tree(42, 42, &procs));
}

// Ancestry over the chain A -> B -> C -> 0.
#[test]
fn process_chain_ancestry() {
    let a = 103;
    let b = 102;
    let c = 101;
    let mut procs = ProcessTable::new();
    procs.record(a, b);
    procs.record(b, c);
    procs.record(c, 0);
    assert!(is_in_process_tree(a, b, &procs));
    assert!(is_in_process_tree(a, c, &procs));
    assert!(!is_in_process_tree(c, a, &procs));
    assert!(!is_in_process_tree(b, a, &procs));
}

// A cyclic snapshot terminates and fails closed.
#[test]
fn cyclic_process_table_fails_closed() {
    let mut procs = ProcessTable::new();
    procs.record(10, 11);
    procs.record(11, 10);
    assert!(!is_in_process_tree(10, 99, &procs));
    assert!(is_in_process_tree(10, 11, &procs));
}

// An unknown pid has parent 0: the walk ends without a match.
#[test]
fn missing_process_is_not_a_descendant() {
    let mut procs = ProcessTable::new();
    procs.record(5, 4);
    assert!(!is_in_process_tree(99, 5, &procs));
}

// Move-to-column(3): exactly one "move to first", then exactly two
// "move right" commands, in that order.
#[test]
fn move_to_column_three_command_sequence() {
    let cmds = WindowRule::move_focused_to_column(3);
    assert_eq!(
        cmds,
        vec![
            Command::MoveColumnToFirst,
            Command::MoveColumnRight,
            Command::MoveColumnRight
        ]
    );
}

// Columns at or below 1 need no rightward step.
#[test]
fn move_to_column_edge_positions() {
    assert_eq!(
        WindowRule::move_focused_to_column(1),
        vec![Command::MoveColumnToFirst]
    );
    assert_eq!(
        WindowRule::move_focused_to_column(0),
        vec![Command::MoveColumnToFirst]
    );
}

// Actions run in the fixed order: placement, consume/expel, close, resize.
#[test]
fn perform_emits_actions_in_fixed_order() {
    let mut r = rule();
    r.column = Some(2);
    r.in_column = Some(2);
    r.in_current_column = Some(true);
    r.close = Some(true);
    r.fixed_width = Some(500);
    let cmds = r.perform(&window(9, None, None, None));
    assert_eq!(
        cmds,
        vec![
            Command::MoveColumnToFirst,
            Command::MoveColumnRight,
            Command::MoveColumnToFirst,
            Command::MoveColumnRight,
            Command::ConsumeOrExpelWindowRight { id: 9 },
            Command::ConsumeOrExpelWindowLeft { id: 9 },
            Command::CloseWindow { id: 9 },
            Command::SetColumnWidth { pixels: 500 }
        ]
    );
}

// Action flags set to false are not actions.
#[test]
fn false_action_flags_emit_nothing() {
    let mut r = rule();
    r.in_current_column = Some(false);
    r.close = Some(false);
    let cmds = r.perform(&window(9, None, None, None));
    assert_eq!(cmds.len(), 0);
}

// End-to-end: a one-shot in-column rule fires once for a fresh window and
// the dedup gate silences the repeat notification.
#[test]
fn end_to_end_one_shot_rule_with_dedup() {
    let mut config = Config::new();
    let mut r = rule();
    r.app_id = Some("^term$".to_string());
    r.match_strategy = MatchStrategy::Any;
    r.in_column = Some(2);
    r.rule_lifetime = Some(RuleLifetime::Matches(1));
    config.add_window_rule(r);
    let mut daemon = Daemon::new(config);
    let procs = empty_procs();

    let event = Event::WindowOpenedOrChanged { window: window(7, Some("term"), None, None) };
    let cmds = daemon.handle_event(&event, &procs);
    assert_eq!(
        cmds,
        vec![
            Command::MoveColumnToFirst,
            Command::MoveColumnRight,
            Command::ConsumeOrExpelWindowRight { id: 7 }
        ]
    );
    assert_eq!(daemon.config.window_rules().len(), 0);

    let repeat = Event::WindowOpenedOrChanged { window: window(7, Some("term"), None, None) };
    let cmds = daemon.handle_event(&repeat, &procs);
    assert_eq!(cmds.len(), 0);
}

// A close event re-opens the dedup gate; other events change nothing.
#[test]
fn close_event_reopens_gate() {
    let mut config = Config::new();
    let mut r = rule();
    r.app_id = Some("^term$".to_string());
    r.close = Some(true);
    config.add_window_rule(r);
    let mut daemon = Daemon::new(config);
    let procs = empty_procs();

    let open = Event::WindowOpenedOrChanged { window: window(7, Some("term"), None, None) };
    assert_eq!(daemon.handle_event(&open, &procs).len(), 1);
    assert_eq!(daemon.handle_event(&Event::Other, &procs).len(), 0);
    let reopen = Event::WindowOpenedOrChanged { window: window(7, Some("term"), None, None) };
    assert_eq!(daemon.handle_event(&reopen, &procs).len(), 0);
    assert_eq!(daemon.handle_event(&Event::WindowClosed { id: 7 }, &procs).len(), 0);
    let after_close = Event::WindowOpenedOrChanged { window: window(7, Some("term"), None, None) };
    assert_eq!(daemon.handle_event(&after_close, &procs).len(), 1);
}

// A WindowsChanged resync replaces the known ids wholesale.
#[test]
fn windows_changed_resyncs_tracker() {
    let mut daemon = Daemon::new(Config::new());
    let procs = empty_procs();
    let open = Event::WindowOpenedOrChanged { window: window(1, None, None, None) };
    daemon.handle_event(&open, &procs);
    let resync = Event::WindowsChanged { windows: vec![window(2, None, None, None)] };
    assert_eq!(daemon.handle_event(&resync, &procs).len(), 0);
    // id 1 is fresh again, id 2 is now known
    let reopen1 = Event::WindowOpenedOrChanged { window: window(1, None, None, None) };
    let reopen2 = Event::WindowOpenedOrChanged { window: window(2, None, None, None) };
    assert!(daemon.tracker.register_window(&window(3, None, None, None)));
    daemon.handle_event(&reopen2, &procs);
    daemon.handle_event(&reopen1, &procs);
    assert!(!daemon.tracker.register_window(&window(1, None, None, None)));
}

// Two registrations through the control channel both land in the rule set,
// in either arrival order: no lost update.
#[test]
fn concurrent_registrations_both_present() {
    for flip in [false, true] {
        let mut config = Config::new();
        let mut first = rule();
        first.app_id = Some("^a$".to_string());
        let mut second = rule();
        second.app_id = Some("^b$".to_string());
        let (one, two) = if flip { (second, first) } else { (first, second) };
        Ipc::handle_request(&mut config, IpcCommand::WindowRule(one));
        Ipc::handle_request(&mut config, IpcCommand::WindowRule(two));
        let rules = config.window_rules();
        assert_eq!(rules.len(), 2);
        let mut seen: Vec<String> = rules.iter().map(|r| r.app_id.clone().unwrap()).collect();
        seen.sort();
        assert_eq!(seen, vec!["^a$".to_string(), "^b$".to_string()]);
    }
}

// Registration order is arrival order at the rule set's serialization point.
#[test]
fn registrations_append_in_arrival_order() {
    let mut config = Config::new();
    let mut first = rule();
    first.app_id = Some("^a$".to_string());
    let mut second = rule();
    second.app_id = Some("^b$".to_string());
    Ipc::handle_request(&mut config, IpcCommand::WindowRule(first));
    Ipc::handle_request(&mut config, IpcCommand::WindowRule(second));
    let rules = config.window_rules();
    assert_eq!(rules[0].app_id.as_deref(), Some("^a$"));
    assert_eq!(rules[1].app_id.as_deref(), Some("^b$"));
}

// The defaults mirror the configuration defaults.
#[test]
fn default_rule_and_strategy() {
    let r = WindowRule::default();
    assert!(r.app_id.is_none());
    assert!(r.title.is_none());
    assert!(r.pid.is_none());
    assert!(matches!(r.match_strategy, MatchStrategy::Any));
    assert!(r.column.is_none());
    assert!(r.in_current_column.is_none());
    assert!(r.in_column.is_none());
    assert!(r.close.is_none());
    assert!(r.fixed_width.is_none());
    assert!(r.rule_lifetime.is_none());
    assert!(matches!(MatchStrategy::default(), MatchStrategy::Any));
}

// Ancestry matching feeds the pid matcher end to end.
#[test]
fn pid_matcher_uses_ancestry() {
    let mut procs = ProcessTable::new();
    procs.record(300, 200);
    procs.record(200, 100);
    let mut r = rule();
    r.pid = Some(100);
    assert!(r.match_window(&window(1, None, None, Some(300)), &procs));
    assert!(!r.match_window(&window(2, None, None, Some(100_000)), &procs));
    // window without a pid: the matcher is a definite false
    assert!(!r.match_window(&window(3, None, None, None), &procs));
}
