use healthcheck::app_state::{
    can_record, ledgers_wf, record_outcome, record_outcome_at, ReloadError, ReloadPlan,
};
use healthcheck::config::{
    CheckType, Config, ConfigError, Service, ServiceHttp, ServiceTcpPing, State,
};
use healthcheck::monitor::Round;
use healthcheck::record::{decide, Decision, Notification, NotificationKind, ServiceState};
use healthcheck::registry::Registry;
use healthcheck::time::Timestamp;
use healthcheck::AppState;

fn at(secs: i64) -> Timestamp {
    Timestamp { secs, nanos: 0 }
}

fn service(name: &str, enabled: bool) -> Service {
    Service {
        enabled,
        name: name.to_string(),
        description: format!("{} description", name),
        check_interval_success: None,
        check_interval_fail: None,
        notify_failures: None,
        rereport: None,
        check: CheckType::Http(ServiceHttp {
            url: format!("http://{}.test/", name),
            expected_status: None,
        }),
    }
}

fn config(services: Vec<(&str, Service)>) -> Config {
    let mut table = Registry::new();
    for (id, s) in services {
        table.insert(id.to_string(), s);
    }
    Config {
        telegram_token: "token".to_string(),
        telegram_chat_id: 77,
        check_interval_success: 60_000,
        check_interval_fail: 5_000,
        notify_failures: 3,
        rereport: 5,
        services: table,
        web_port: Some(8080),
        api_bearer_token: None,
    }
}

fn state_of(services: Vec<(&str, Service)>) -> AppState {
    AppState::new_at(config(services), "healthcheck.yaml".to_string(), at(1000))
}

fn ledger<'a>(state: &'a AppState, id: &str) -> &'a ServiceState {
    state.services.get(id).expect("ledger")
}

fn failing(reason: &str) -> State {
    State::Failure(reason.to_string())
}

fn alert(name: &str, message: &str) -> Option<Notification> {
    Some(Notification {
        kind: NotificationKind::Alert,
        service_name: name.to_string(),
        message: message.to_string(),
    })
}

fn recovery(name: &str) -> Option<Notification> {
    Some(Notification {
        kind: NotificationKind::Recovery,
        service_name: name.to_string(),
        message: "recovered".to_string(),
    })
}

#[test]
fn new_state_has_a_fresh_ledger_for_each_enabled_service() {
    let state = state_of(vec![("a", service("Alpha", true)), ("b", service("Beta", false))]);
    assert_eq!(state.services.len(), 1);
    assert!(state.services.get("b").is_none());
    let a = ledger(&state, "a");
    assert_eq!(a.name, "Alpha");
    assert_eq!(a.description, "Alpha description");
    assert_eq!(a.state, State::Unknown);
    assert_eq!(a.last_check, at(1000));
    assert_eq!(a.consecutive_failures, 0);
    assert_eq!(a.total_checks, 0);
    assert_eq!(a.successful_checks, 0);
    assert_eq!(a.failed_checks, 0);
    assert_eq!(a.uptime_start, None);
    assert!(state.task_ids.is_empty());
    assert_eq!(state.config_path, "healthcheck.yaml");
    assert_eq!(state.telegram.bot_token, "token");
    assert_eq!(state.telegram.chat_id, 77);
}

#[test]
fn new_reads_the_clock_for_the_fresh_ledgers() {
    let state = AppState::new(config(vec![("a", service("Alpha", true))]), "c.yaml".to_string());
    // Later than the first of January 2020.
    assert!(ledger(&state, "a").last_check.secs > 1_577_836_800);
    assert_eq!(ledger(&state, "a").total_checks, 0);
}

#[test]
fn success_counts_and_anchors_the_uptime() {
    let mut state = state_of(vec![("a", service("Alpha", true))]);
    let notice = state.set_state_at("a".to_string(), State::Success, at(2000));
    assert_eq!(notice, None);
    let a = ledger(&state, "a");
    assert_eq!(a.state, State::Success);
    assert_eq!(a.last_check, at(2000));
    assert_eq!(a.total_checks, 1);
    assert_eq!(a.successful_checks, 1);
    assert_eq!(a.failed_checks, 0);
    assert_eq!(a.consecutive_failures, 0);
    assert_eq!(a.uptime_start, Some(at(2000)));
}

#[test]
fn uptime_anchor_is_kept_by_further_successes() {
    let mut state = state_of(vec![("a", service("Alpha", true))]);
    state.set_state_at("a".to_string(), State::Success, at(2000));
    state.set_state_at("a".to_string(), State::Success, at(3000));
    state.set_state_at("a".to_string(), State::Success, at(4000));
    let a = ledger(&state, "a");
    assert_eq!(a.uptime_start, Some(at(2000)));
    assert_eq!(a.last_check, at(4000));
    assert_eq!(a.successful_checks, 3);
}

#[test]
fn uptime_anchor_is_cleared_by_a_failure_and_set_anew_by_the_next_success() {
    let mut state = state_of(vec![("a", service("Alpha", true))]);
    state.set_state_at("a".to_string(), State::Success, at(2000));
    state.set_state_at("a".to_string(), failing("down"), at(3000));
    assert_eq!(ledger(&state, "a").uptime_start, None);
    state.set_state_at("a".to_string(), State::Success, at(4000));
    assert_eq!(ledger(&state, "a").uptime_start, Some(at(4000)));
}

#[test]
fn uptime_anchor_is_cleared_by_an_unknown_verdict() {
    let mut state = state_of(vec![("a", service("Alpha", true))]);
    state.set_state_at("a".to_string(), State::Success, at(2000));
    state.set_state_at("a".to_string(), State::Unknown, at(3000));
    assert_eq!(ledger(&state, "a").uptime_start, None);
    assert_eq!(ledger(&state, "a").state, State::Unknown);
    state.set_state_at("a".to_string(), State::Success, at(4000));
    assert_eq!(ledger(&state, "a").uptime_start, Some(at(4000)));
}

#[test]
fn success_resets_the_failures_in_a_row() {
    let mut state = state_of(vec![("a", service("Alpha", true))]);
    for outcome in [
        failing("x"),
        State::Success,
        failing("x"),
        failing("y"),
        State::Unknown,
        State::Success,
        State::Success,
        failing("z"),
        State::Success,
    ] {
        let healthy = outcome == State::Success;
        state.set_state_at("a".to_string(), outcome, at(1));
        if healthy {
            assert_eq!(ledger(&state, "a").consecutive_failures, 0);
        }
    }
    let a = ledger(&state, "a");
    assert_eq!(a.total_checks, 9);
    assert_eq!(a.successful_checks, 4);
    assert_eq!(a.failed_checks, 4);
}

#[test]
fn unknown_counts_as_a_check_and_as_neither_success_nor_failure() {
    // An unknown verdict raises the number of checks and leaves the
    // successes, the failures and the failures in a row as they were.
    let mut state = state_of(vec![("a", service("Alpha", true))]);
    state.set_state_at("a".to_string(), failing("down"), at(1));
    state.set_state_at("a".to_string(), failing("down"), at(2));
    let notice = state.set_state_at("a".to_string(), State::Unknown, at(3));
    assert_eq!(notice, None);
    let a = ledger(&state, "a");
    assert_eq!(a.state, State::Unknown);
    assert_eq!(a.total_checks, 3);
    assert_eq!(a.successful_checks, 0);
    assert_eq!(a.failed_checks, 2);
    assert_eq!(a.consecutive_failures, 2);
    assert_eq!(a.last_check, at(3));
}

#[test]
fn unknown_does_not_break_a_run_of_failures() {
    let mut state = state_of(vec![("a", service("Alpha", true))]);
    assert_eq!(state.set_state_at("a".to_string(), failing("down"), at(1)), None);
    assert_eq!(state.set_state_at("a".to_string(), failing("down"), at(2)), None);
    assert_eq!(state.set_state_at("a".to_string(), State::Unknown, at(3)), None);
    assert_eq!(
        state.set_state_at("a".to_string(), failing("down"), at(4)),
        alert("Alpha", "down")
    );
    assert_eq!(state.set_state_at("a".to_string(), State::Unknown, at(5)), None);
    assert_eq!(state.set_state_at("a".to_string(), State::Success, at(6)), recovery("Alpha"));
}

#[test]
fn failing_service_alerts_on_the_3rd_8th_13th_failure() {
    let mut state = state_of(vec![("a", service("Alpha", true))]);
    for n in 1..=20u64 {
        let notice = state.set_state_at("a".to_string(), failing("timeout"), at(n as i64));
        let expected = if n == 3 {
            alert("Alpha", "timeout")
        } else if n == 8 || n == 13 || n == 18 {
            alert("Alpha", "timeout (still failing)")
        } else {
            None
        };
        assert_eq!(notice, expected, "failure {}", n);
        assert_eq!(ledger(&state, "a").consecutive_failures, n);
    }
}

#[test]
fn one_success_after_failures_gives_one_recovery() {
    for failures in [1u64, 2, 3, 4, 9] {
        let mut state = state_of(vec![("a", service("Alpha", true))]);
        for n in 0..failures {
            state.set_state_at("a".to_string(), failing("down"), at(n as i64));
        }
        assert_eq!(state.set_state_at("a".to_string(), State::Success, at(50)), recovery("Alpha"));
        assert_eq!(ledger(&state, "a").consecutive_failures, 0);
        assert_eq!(state.set_state_at("a".to_string(), State::Success, at(51)), None);
        assert_eq!(ledger(&state, "a").failed_checks, failures);
    }
}

#[test]
fn first_success_of_a_fresh_service_is_silent() {
    let mut state = state_of(vec![("a", service("Alpha", true))]);
    assert_eq!(state.set_state_at("a".to_string(), State::Success, at(1)), None);
}

#[test]
fn alert_carries_the_reason_of_the_failure_that_reached_the_threshold() {
    let mut state = state_of(vec![("a", service("Alpha", true))]);
    state.set_state_at("a".to_string(), failing("first"), at(1));
    state.set_state_at("a".to_string(), failing("second"), at(2));
    assert_eq!(
        state.set_state_at("a".to_string(), failing("third"), at(3)),
        alert("Alpha", "third")
    );
    assert_eq!(ledger(&state, "a").state, failing("third"));
}

#[test]
fn thresholds_of_the_service_come_before_the_defaults() {
    let mut own = service("Own", true);
    own.notify_failures = Some(1);
    own.rereport = Some(2);
    let mut state = state_of(vec![("own", own), ("plain", service("Plain", true))]);
    let mut own_alerts = Vec::new();
    let mut plain_alerts = Vec::new();
    for n in 1..=6u64 {
        if state.set_state_at("own".to_string(), failing("e"), at(1)).is_some() {
            own_alerts.push(n);
        }
        if state.set_state_at("plain".to_string(), failing("e"), at(1)).is_some() {
            plain_alerts.push(n);
        }
    }
    assert_eq!(own_alerts, vec![1, 3, 5]);
    assert_eq!(plain_alerts, vec![3]);
    assert_eq!(state.config.notify_failures_for("own"), 1);
    assert_eq!(state.config.rereport_for("own"), 2);
    assert_eq!(state.config.notify_failures_for("plain"), 3);
    assert_eq!(state.config.rereport_for("plain"), 5);
    assert_eq!(state.config.notify_failures_for("nobody"), 3);
    assert_eq!(state.config.rereport_for("nobody"), 5);
}

#[test]
fn threshold_zero_never_gives_a_first_alert_but_repeats() {
    let mut zero = service("Zero", true);
    zero.notify_failures = Some(0);
    zero.rereport = Some(3);
    let mut state = state_of(vec![("z", zero)]);
    let mut alerts = Vec::new();
    for n in 1..=7u64 {
        if let Some(notice) = state.set_state_at("z".to_string(), failing("e"), at(1)) {
            assert_eq!(notice.message, "e (still failing)");
            alerts.push(n);
        }
    }
    assert_eq!(alerts, vec![3, 6]);
}

#[test]
fn decide_follows_the_policy() {
    let f = failing("x");
    assert_eq!(decide(0, &State::Success, 3, 5), Decision::Nothing);
    assert_eq!(decide(4, &State::Success, 3, 5), Decision::Recovery);
    assert_eq!(decide(4, &State::Unknown, 3, 5), Decision::Nothing);
    assert_eq!(decide(0, &State::Unknown, 1, 1), Decision::Nothing);
    assert_eq!(decide(1, &f, 3, 5), Decision::Nothing);
    assert_eq!(decide(2, &f, 3, 5), Decision::Alert);
    assert_eq!(decide(3, &f, 3, 5), Decision::Nothing);
    assert_eq!(decide(7, &f, 3, 5), Decision::Realert);
    assert_eq!(decide(8, &f, 3, 5), Decision::Nothing);
    assert_eq!(decide(12, &f, 3, 5), Decision::Realert);
    assert_eq!(decide(0, &f, 1, 1), Decision::Alert);
    assert_eq!(decide(1, &f, 1, 1), Decision::Realert);
}

#[test]
fn decide_counts_past_the_largest_number() {
    let f = failing("x");
    // Failure number 2^64 lies 2^64 beyond a threshold of zero.
    assert_eq!(decide(u64::MAX, &f, 0, 2), Decision::Realert);
    assert_eq!(decide(u64::MAX, &f, 0, 3), Decision::Nothing);
    assert_eq!(decide(u64::MAX, &f, 0, 1), Decision::Realert);
    assert_eq!(decide(u64::MAX, &f, u64::MAX, 7), Decision::Nothing);
    assert_eq!(decide(u64::MAX - 1, &f, u64::MAX, 7), Decision::Alert);
}

#[test]
fn verdict_for_an_unknown_identifier_changes_nothing() {
    let mut state = state_of(vec![("a", service("Alpha", true)), ("b", service("Beta", false))]);
    let before = state_of(vec![("a", service("Alpha", true)), ("b", service("Beta", false))]);
    assert_eq!(state.set_state_at("missing".to_string(), failing("x"), at(5)), None);
    assert_eq!(state.set_state_at("b".to_string(), State::Success, at(5)), None);
    assert_eq!(state.set_state("missing".to_string(), State::Success), None);
    assert_eq!(state, before);
}

#[test]
fn verdicts_of_one_service_leave_the_others_alone() {
    let mut state = state_of(vec![("a", service("Alpha", true)), ("b", service("Beta", true))]);
    state.set_state_at("a".to_string(), failing("x"), at(5));
    let b = ledger(&state, "b");
    assert_eq!(b.total_checks, 0);
    assert_eq!(b.state, State::Unknown);
    assert_eq!(b.last_check, at(1000));
    assert_eq!(ledger(&state, "a").total_checks, 1);
}

#[test]
fn set_state_stamps_the_check_with_the_clock() {
    let mut state = state_of(vec![("a", service("Alpha", true))]);
    assert_eq!(state.set_state("a".to_string(), State::Success), None);
    let a = ledger(&state, "a");
    assert!(a.last_check.secs > 1_577_836_800);
    assert_eq!(a.uptime_start, Some(a.last_check));
    assert_eq!(a.total_checks, 1);
}

#[test]
fn record_enters_one_verdict() {
    let mut l = ServiceState::new("Alpha".to_string(), "d".to_string(), at(1));
    assert_eq!(l.record(failing("down"), at(2), 1, 1), alert("Alpha", "down"));
    assert_eq!(l.record(failing("still"), at(3), 1, 1), alert("Alpha", "still (still failing)"));
    assert_eq!(l.record(State::Success, at(4), 1, 1), recovery("Alpha"));
    assert_eq!(l.total_checks, 3);
    assert_eq!(l.failed_checks, 2);
    assert_eq!(l.successful_checks, 1);
    assert_eq!(l.consecutive_failures, 0);
    assert_eq!(l.uptime_start, Some(at(4)));
}

#[test]
fn listing_is_ordered_by_name_without_regard_to_case() {
    let state = state_of(vec![
        ("1", service("zeta", true)),
        ("2", service("Alpha", true)),
        ("3", service("beta", true)),
        ("4", service("GAMMA", true)),
        ("5", service("hidden", false)),
    ]);
    let names: Vec<String> = state.get_all_services().into_iter().map(|s| s.name).collect();
    assert_eq!(names, vec!["Alpha", "beta", "GAMMA", "zeta"]);
}

#[test]
fn listing_breaks_ties_of_names_by_identifier() {
    let state = state_of(vec![
        ("m", service("Api", true)),
        ("c", service("api", true)),
        ("x", service("API", true)),
        ("a", service("apj", true)),
        ("b", service("ap", true)),
    ]);
    let names: Vec<String> = state.get_all_services().into_iter().map(|s| s.name).collect();
    assert_eq!(names, vec!["ap", "api", "Api", "API", "apj"]);
}

#[test]
fn listing_folds_letters_beyond_ascii() {
    let state = state_of(vec![
        ("1", service("Österreich", true)),
        ("2", service("ärger", true)),
        ("3", service("Zebra", true)),
        ("4", service("Ärger", true)),
    ]);
    let names: Vec<String> = state.get_all_services().into_iter().map(|s| s.name).collect();
    assert_eq!(names, vec!["Zebra", "ärger", "Ärger", "Österreich"]);
}

#[test]
fn listing_copies_the_ledgers() {
    let mut state = state_of(vec![("a", service("Alpha", true)), ("b", service("beta", true))]);
    state.set_state_at("b".to_string(), failing("down"), at(7));
    let listed = state.get_all_services();
    assert_eq!(listed.len(), 2);
    assert_eq!(&listed[0], ledger(&state, "a"));
    assert_eq!(&listed[1], ledger(&state, "b"));
    assert_eq!(listed[1].state, failing("down"));
    assert!(state_of(vec![]).get_all_services().is_empty());
}

#[test]
fn get_config_copies_the_configuration() {
    let state = state_of(vec![("a", service("Alpha", true)), ("b", service("Beta", false))]);
    assert_eq!(state.get_config(), config(vec![("a", service("Alpha", true)), ("b", service("Beta", false))]));
}

#[test]
fn start_marks_one_loop_for_each_enabled_service() {
    let mut state = state_of(vec![
        ("a", service("Alpha", true)),
        ("b", service("Beta", false)),
        ("c", service("Gamma", true)),
    ]);
    let mut start = state.start_monitoring_tasks();
    start.sort();
    assert_eq!(start, vec!["a", "c"]);
    let mut running = state.task_ids.clone();
    running.sort();
    assert_eq!(running, vec!["a", "c"]);
}

#[test]
fn start_while_running_asks_for_every_loop_again_and_marks_each_once() {
    let mut state = state_of(vec![("a", service("Alpha", true)), ("c", service("Gamma", true))]);
    state.start_monitoring_tasks();
    let mut again = state.start_monitoring_tasks();
    again.sort();
    assert_eq!(again, vec!["a", "c"]);
    assert_eq!(state.task_ids.len(), 2);
}

#[test]
fn stop_hands_out_every_running_loop() {
    let mut state = state_of(vec![("a", service("Alpha", true)), ("c", service("Gamma", true))]);
    let started = state.start_monitoring_tasks();
    let stopped = state.stop_all_tasks();
    assert_eq!(stopped, started);
    assert!(state.task_ids.is_empty());
    assert!(state.stop_all_tasks().is_empty());
    assert_eq!(state.services.len(), 2);
}

#[test]
fn reload_keeps_the_counters_of_services_that_stay_enabled() {
    let mut state = state_of(vec![("a", service("Alpha", true)), ("b", service("Beta", true))]);
    state.set_state_at("a".to_string(), State::Success, at(10));
    state.set_state_at("a".to_string(), failing("down"), at(20));
    state.set_state_at("a".to_string(), failing("down"), at(30));
    state.set_state_at("b".to_string(), State::Success, at(40));
    let mut renamed = service("Alpha two", true);
    renamed.description = "moved".to_string();
    let plan = state
        .update_config_at(config(vec![("a", renamed), ("b", service("Beta", true))]), Ok(()), at(99))
        .expect("reload");
    let a = ledger(&state, "a");
    assert_eq!(a.name, "Alpha two");
    assert_eq!(a.description, "moved");
    assert_eq!(a.state, failing("down"));
    assert_eq!(a.last_check, at(30));
    assert_eq!(a.total_checks, 3);
    assert_eq!(a.successful_checks, 1);
    assert_eq!(a.failed_checks, 2);
    assert_eq!(a.consecutive_failures, 2);
    assert_eq!(a.uptime_start, None);
    let b = ledger(&state, "b");
    assert_eq!(b.total_checks, 1);
    assert_eq!(b.uptime_start, Some(at(40)));
    assert!(plan.stop.is_empty());
    assert_eq!(state.task_ids, plan.start);
}

#[test]
fn reload_starts_newly_enabled_services_from_zero() {
    let mut state = state_of(vec![("a", service("Alpha", true)), ("b", service("Beta", false))]);
    state.set_state_at("a".to_string(), failing("down"), at(10));
    state
        .update_config_at(
            config(vec![
                ("a", service("Alpha", true)),
                ("b", service("Beta", true)),
                ("c", service("Gamma", true)),
            ]),
            Ok(()),
            at(99),
        )
        .expect("reload");
    for (id, name) in [("b", "Beta"), ("c", "Gamma")] {
        let l = ledger(&state, id);
        assert_eq!(l.name, name);
        assert_eq!(l.state, State::Unknown);
        assert_eq!(l.last_check, at(99));
        assert_eq!(l.total_checks, 0);
        assert_eq!(l.successful_checks, 0);
        assert_eq!(l.failed_checks, 0);
        assert_eq!(l.consecutive_failures, 0);
        assert_eq!(l.uptime_start, None);
    }
    assert_eq!(ledger(&state, "a").total_checks, 1);
}

#[test]
fn reload_drops_the_ledgers_of_services_that_are_gone_or_disabled() {
    let mut state = state_of(vec![
        ("a", service("Alpha", true)),
        ("b", service("Beta", true)),
        ("c", service("Gamma", true)),
    ]);
    state.set_state_at("b".to_string(), State::Success, at(10));
    state
        .update_config_at(
            config(vec![("a", service("Alpha", true)), ("b", service("Beta", false))]),
            Ok(()),
            at(99),
        )
        .expect("reload");
    assert_eq!(state.services.len(), 1);
    assert!(state.services.get("b").is_none());
    assert!(state.services.get("c").is_none());
    // Enabled again, the service starts from zero.
    state
        .update_config_at(
            config(vec![("a", service("Alpha", true)), ("b", service("Beta", true))]),
            Ok(()),
            at(200),
        )
        .expect("reload");
    assert_eq!(ledger(&state, "b").total_checks, 0);
    assert_eq!(ledger(&state, "b").last_check, at(200));
}

#[test]
fn reload_plans_to_stop_what_ran_and_start_what_is_enabled() {
    let mut state = state_of(vec![("a", service("Alpha", true)), ("b", service("Beta", true))]);
    let mut ran = state.start_monitoring_tasks();
    let ReloadPlan { mut stop, mut start } = state
        .update_config_at(
            config(vec![("b", service("Beta", true)), ("c", service("Gamma", true))]),
            Ok(()),
            at(99),
        )
        .expect("reload");
    ran.sort();
    stop.sort();
    start.sort();
    assert_eq!(stop, ran);
    assert_eq!(start, vec!["b", "c"]);
    let mut running = state.task_ids.clone();
    running.sort();
    assert_eq!(running, vec!["b", "c"]);
    assert_eq!(state.config.services.len(), 2);
}

#[test]
fn reload_that_could_not_be_saved_leaves_everything_as_it_was() {
    let mut state = state_of(vec![("a", service("Alpha", true)), ("b", service("Beta", true))]);
    state.start_monitoring_tasks();
    state.set_state_at("a".to_string(), failing("down"), at(10));
    let mut before = state_of(vec![("a", service("Alpha", true)), ("b", service("Beta", true))]);
    before.start_monitoring_tasks();
    before.set_state_at("a".to_string(), failing("down"), at(10));
    let outcome = state.update_config_at(
        config(vec![("c", service("Gamma", true))]),
        Err("Permission denied (os error 13)".to_string()),
        at(99),
    );
    assert_eq!(
        outcome,
        Err(ReloadError::Persist("Permission denied (os error 13)".to_string()))
    );
    assert_eq!(state, before);
    assert_eq!(state.task_ids.len(), 2);
    let clocked = state.update_config(
        config(vec![("c", service("Gamma", true))]),
        Err("disk full".to_string()),
    );
    assert_eq!(clocked, Err(ReloadError::Persist("disk full".to_string())));
    assert_eq!(state, before);
}

#[test]
fn reload_refuses_a_configuration_that_cannot_be_run() {
    let mut state = state_of(vec![("a", service("Alpha", true))]);
    let before = state_of(vec![("a", service("Alpha", true))]);
    let mut zero = config(vec![("c", service("Gamma", true))]);
    zero.rereport = 0;
    assert_eq!(
        state.update_config_at(zero, Ok(()), at(99)),
        Err(ReloadError::Invalid(ConfigError::ZeroRereport))
    );
    let mut bad = service("Gamma", true);
    bad.rereport = Some(0);
    assert_eq!(
        state.update_config_at(config(vec![("c", bad)]), Err("unsaved".to_string()), at(99)),
        Err(ReloadError::Invalid(ConfigError::ServiceZeroRereport))
    );
    assert_eq!(state, before);
}

#[test]
fn update_config_reads_the_clock_for_new_ledgers() {
    let mut state = state_of(vec![("a", service("Alpha", true))]);
    state
        .update_config(config(vec![("a", service("Alpha", true)), ("n", service("New", true))]), Ok(()))
        .expect("reload");
    assert!(ledger(&state, "n").last_check.secs > 1_577_836_800);
    assert_eq!(ledger(&state, "a").last_check, at(1000));
}

#[test]
fn reload_keeps_the_client_and_the_path() {
    let mut state = state_of(vec![("a", service("Alpha", true))]);
    let mut other = config(vec![("a", service("Alpha", true))]);
    other.telegram_token = "other".to_string();
    other.telegram_chat_id = 5;
    state.update_config_at(other, Ok(()), at(99)).expect("reload");
    assert_eq!(state.config.telegram_token, "other");
    assert_eq!(state.telegram.bot_token, "token");
    assert_eq!(state.telegram.chat_id, 77);
    assert_eq!(state.config_path, "healthcheck.yaml");
}

#[test]
fn round_enters_the_verdict_and_sleeps_by_it() {
    let mut state = state_of(vec![("a", service("Alpha", true))]);
    let s = service("Alpha", true);
    assert_eq!(
        s.run_at("a".to_string(), &mut state, State::Success, at(5)),
        Round { notification: None, sleep_ms: 60_000 }
    );
    assert_eq!(
        s.run_at("a".to_string(), &mut state, failing("down"), at(6)),
        Round { notification: None, sleep_ms: 5_000 }
    );
    assert_eq!(
        s.run_at("a".to_string(), &mut state, State::Unknown, at(7)),
        Round { notification: None, sleep_ms: 60_000 }
    );
    s.run_at("a".to_string(), &mut state, failing("down"), at(8));
    assert_eq!(
        s.run_at("a".to_string(), &mut state, failing("down"), at(9)),
        Round { notification: alert("Alpha", "down"), sleep_ms: 5_000 }
    );
    assert_eq!(
        s.run_at("a".to_string(), &mut state, State::Success, at(10)),
        Round { notification: recovery("Alpha"), sleep_ms: 60_000 }
    );
    assert_eq!(ledger(&state, "a").total_checks, 6);
    assert_eq!(ledger(&state, "a").last_check, at(10));
}

#[test]
fn round_uses_the_intervals_of_the_service_where_it_has_them() {
    let mut state = state_of(vec![("a", service("Alpha", true))]);
    let mut s = service("Alpha", true);
    s.check_interval_success = Some(111);
    s.check_interval_fail = Some(222);
    assert_eq!(s.run_at("a".to_string(), &mut state, State::Success, at(5)).sleep_ms, 111);
    assert_eq!(s.run_at("a".to_string(), &mut state, State::Unknown, at(5)).sleep_ms, 111);
    assert_eq!(s.run_at("a".to_string(), &mut state, failing("x"), at(5)).sleep_ms, 222);
    assert_eq!(s.check_interval(&State::Success, &state.config), 111);
    assert_eq!(service("b", true).check_interval(&failing("x"), &state.config), 5_000);
    assert_eq!(service("b", true).check_interval(&State::Unknown, &state.config), 60_000);
}

#[test]
fn run_stamps_the_round_with_the_clock() {
    let mut state = state_of(vec![("a", service("Alpha", true))]);
    let round = service("Alpha", true).run("a".to_string(), &mut state, State::Success);
    assert_eq!(round, Round { notification: None, sleep_ms: 60_000 });
    assert!(ledger(&state, "a").last_check.secs > 1_577_836_800);
}

#[test]
fn tcp_service_is_monitored_like_any_other() {
    let mut s = service("Db", true);
    s.check = CheckType::TcpPing(ServiceTcpPing {
        host: "db".to_string(),
        port: 5432,
        timeout_ms: None,
    });
    let mut state = state_of(vec![("db", s)]);
    state.set_state_at("db".to_string(), failing("Timeout after 1000ms"), at(1));
    state.set_state_at("db".to_string(), failing("Timeout after 1000ms"), at(2));
    assert_eq!(
        state.set_state_at("db".to_string(), failing("Timeout after 1000ms"), at(3)),
        alert("Db", "Timeout after 1000ms")
    );
}

#[test]
fn state_stays_well_formed() {
    let mut state = state_of(vec![
        ("a", service("Alpha", true)),
        ("b", service("Beta", false)),
        ("c", service("Gamma", true)),
    ]);
    assert!(state.is_wf());
    state.start_monitoring_tasks();
    assert!(state.is_wf());
    for outcome in [State::Success, failing("x"), State::Unknown, State::Success] {
        state.set_state_at("a".to_string(), outcome, at(3));
        assert!(state.is_wf());
        assert!(ledger(&state, "a").is_wf());
    }
    state
        .update_config_at(config(vec![("c", service("Gamma", true))]), Ok(()), at(9))
        .expect("reload");
    assert!(state.is_wf());
    state.stop_all_tasks();
    assert!(state.is_wf());
}

#[test]
fn tampered_state_is_not_well_formed() {
    let fresh = || state_of(vec![("a", service("Alpha", true)), ("b", service("Beta", false))]);

    let mut s = fresh();
    s.task_ids.push("a".to_string());
    assert!(s.is_wf());
    s.task_ids.push("a".to_string());
    assert!(!s.is_wf());

    let mut s = fresh();
    s.task_ids.push("b".to_string());
    assert!(!s.is_wf());

    let mut s = fresh();
    s.config.rereport = 0;
    assert!(!s.is_wf());

    let mut s = fresh();
    s.services.insert("b".to_string(), ServiceState::new("Beta".to_string(), String::new(), at(1)));
    assert!(!s.is_wf());

    let mut s = fresh();
    s.services.entries.clear();
    assert!(!s.is_wf());

    let mut s = fresh();
    s.services.entries[0].value.state = State::Success;
    assert!(!s.is_wf());
    s.services.entries[0].value.uptime_start = Some(at(1));
    assert!(s.is_wf());
    s.services.entries[0].value.consecutive_failures = 1;
    assert!(!s.is_wf());

    let mut s = fresh();
    s.services.entries[0].value.successful_checks = 1;
    assert!(!s.is_wf());
    s.services.entries[0].value.total_checks = 1;
    assert!(s.is_wf());
}

#[test]
fn ledger_has_room_until_the_largest_number() {
    let mut state = state_of(vec![("a", service("Alpha", true))]);
    assert!(state.has_room_for("a"));
    assert!(state.has_room_for("missing"));
    state.services.entries[0].value.total_checks = u64::MAX - 1;
    assert!(state.has_room_for("a"));
    state.set_state_at("a".to_string(), State::Unknown, at(2));
    assert_eq!(ledger(&state, "a").total_checks, u64::MAX);
    assert!(!state.has_room_for("a"));
}

#[test]
fn verdicts_are_entered_into_ledgers_and_configuration_held_apart() {
    let AppState { mut services, config, .. } =
        state_of(vec![("a", service("Alpha", true)), ("b", service("Beta", true))]);
    assert!(can_record(&services, &config, "a"));
    assert!(can_record(&services, &config, "missing"));
    assert!(ledgers_wf(&services));
    for n in 1..=3i64 {
        let notice = record_outcome_at(&mut services, &config, "a".to_string(), failing("down"), at(n));
        assert_eq!(notice, if n == 3 { alert("Alpha", "down") } else { None });
    }
    assert_eq!(record_outcome_at(&mut services, &config, "x".to_string(), failing("down"), at(9)), None);
    assert_eq!(
        record_outcome_at(&mut services, &config, "a".to_string(), State::Success, at(10)),
        recovery("Alpha")
    );
    let a = services.get("a").expect("ledger");
    assert_eq!((a.total_checks, a.failed_checks, a.successful_checks), (4, 3, 1));
    assert_eq!(a.uptime_start, Some(at(10)));
    assert_eq!(services.get("b").expect("ledger").total_checks, 0);
    assert_eq!(record_outcome(&mut services, &config, "b".to_string(), State::Success), None);
    assert!(services.get("b").expect("ledger").last_check.secs > 1_577_836_800);
    assert!(ledgers_wf(&services));
}

#[test]
fn verdicts_cannot_be_entered_where_the_parts_are_out_of_order() {
    let fresh = || state_of(vec![("a", service("Alpha", true))]);

    let AppState { mut services, config, .. } = fresh();
    services.entries[0].value.total_checks = u64::MAX;
    assert!(!can_record(&services, &config, "a"));
    assert!(can_record(&services, &config, "other"));

    let AppState { services, mut config, .. } = fresh();
    config.rereport = 0;
    assert!(!can_record(&services, &config, "a"));

    let AppState { mut services, config, .. } = fresh();
    services.entries[0].value.consecutive_failures = 2;
    assert!(!ledgers_wf(&services));
    assert!(!can_record(&services, &config, "a"));

    let AppState { mut services, config, .. } = fresh();
    services.entries.push(healthcheck::registry::Entry {
        id: "a".to_string(),
        value: ServiceState::new("Again".to_string(), String::new(), at(1)),
    });
    assert!(!can_record(&services, &config, "a"));
}

#[test]
fn round_on_the_parts_does_what_a_round_on_the_state_does() {
    let mut whole = state_of(vec![("a", service("Alpha", true))]);
    let AppState { mut services, config, .. } = state_of(vec![("a", service("Alpha", true))]);
    let s = service("Alpha", true);
    for (n, outcome) in [failing("x"), failing("y"), failing("z"), State::Unknown, State::Success]
        .into_iter()
        .enumerate()
    {
        let on_state = s.run_at("a".to_string(), &mut whole, outcome.clone(), at(n as i64));
        let on_parts = s.round_at("a".to_string(), &mut services, &config, outcome, at(n as i64));
        assert_eq!(on_state, on_parts);
    }
    assert_eq!(whole.services, services);
    let clocked = s.round("a".to_string(), &mut services, &config, failing("x"));
    assert_eq!(clocked, Round { notification: None, sleep_ms: 5_000 });
}
