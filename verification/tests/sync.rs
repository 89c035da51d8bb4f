use solar_navigator::bodies::{body_catalogue, BodyIdentity, BODY_COUNT};
use solar_navigator::sync::{
    compute_retry_delay_seconds, plan_horizons_targets, summarize_sync_round, sync_issue_lines,
    tally_query_outcomes, HorizonsRetry, QueryOutcome, HORIZONS_RETRY_MAX_ATTEMPTS,
    HORIZONS_RETRY_MAX_DELAY_SECS,
};

#[test]
fn compute_retry_delay_seconds_uses_exponential_backoff_with_cap() {
    assert_eq!(compute_retry_delay_seconds(0), 1);
    assert_eq!(compute_retry_delay_seconds(1), 2);
    assert_eq!(compute_retry_delay_seconds(2), 4);
    assert_eq!(compute_retry_delay_seconds(10), HORIZONS_RETRY_MAX_DELAY_SECS);
}

#[test]
fn apply_horizons_sync_result_success_resets_retry_state() {
    let mut state = HorizonsRetry::new();
    state.retry_attempt = 3;

    let next = state.apply_horizons_sync_result(true, "ok".to_string(), Vec::new());

    assert!(state.enabled);
    assert_eq!(state.retry_attempt, 0);
    assert!(next.is_none());
}

#[test]
fn apply_horizons_sync_result_failure_schedules_retry() {
    let mut state = HorizonsRetry::new();
    let now_seconds = 10.0;

    let next = state.apply_horizons_sync_result(
        false,
        "unavailable".to_string(),
        vec!["earth failed".to_string()],
    );
    let deadline = next.map(|delay| now_seconds + delay as f64);

    assert!(!state.enabled);
    assert_eq!(state.retry_attempt, 1);
    assert_eq!(deadline, Some(11.0));
    assert!(state.status_line.contains("retrying in"));
    assert_eq!(state.status_line, "unavailable | retrying in 1.0s (1/5)");
}

#[test]
fn apply_horizons_sync_result_failure_stops_after_max_attempts() {
    let mut state = HorizonsRetry::new();
    state.retry_attempt = HORIZONS_RETRY_MAX_ATTEMPTS;

    let next = state.apply_horizons_sync_result(
        false,
        "still unavailable".to_string(),
        vec!["request failed".to_string()],
    );

    assert_eq!(state.retry_attempt, HORIZONS_RETRY_MAX_ATTEMPTS);
    assert!(next.is_none());
    assert!(state.status_line.contains("retries exhausted"));
}

#[test]
fn run_horizons_sync_task_reports_unavailable_when_no_targets_validate() {
    let (validated_count, failures) =
        tally_query_outcomes(vec!["Earth: no mapping".to_string()], &Vec::new());
    let (enabled, status_line) = summarize_sync_round(
        validated_count,
        1,
        "2026-04-18 12:00:00",
        &failures,
        "0",
        "N/A",
    );

    assert!(!enabled);
    assert!(status_line.contains("unavailable"));
    assert_eq!(failures.len(), 1);
    assert_eq!(
        status_line,
        "Horizons sync unavailable @ 2026-04-18 12:00:00 UTC: Earth: no mapping"
    );
}

#[test]
fn successive_failures_back_off_then_give_up() {
    let mut state = HorizonsRetry::new();
    let mut delays = Vec::new();
    for _ in 0..7 {
        delays.push(state.apply_horizons_sync_result(false, "down".to_string(), Vec::new()));
    }
    assert_eq!(delays, vec![Some(1), Some(2), Some(4), Some(8), Some(16), None, None]);
    assert_eq!(state.status_line, "down | retries exhausted (5 attempts)");
}

#[test]
fn retry_requests_restart_back_off() {
    let mut state = HorizonsRetry::new();
    state.retry_attempt = 4;
    assert!(!state.begin_retry(false, false));
    state.request_retry();
    assert_eq!(state.status_line, "Horizons sync retry requested");
    assert!(!state.begin_retry(true, true));
    assert!(state.retry_requested);
    assert!(state.begin_retry(false, false));
    assert!(!state.retry_requested);
    assert_eq!(state.retry_attempt, 0);
    state.retry_attempt = 2;
    assert!(state.begin_retry(false, true));
    assert_eq!(state.retry_attempt, 2);
}

fn bodies() -> Vec<BodyIdentity> {
    [("Sun", "SUN"), ("Earth", "EARTH"), ("Moon", "MOON"), ("Planet X", "PLANET X"), ("Charon", "CHARON")]
        .iter()
        .map(|(name, target)| BodyIdentity {
            display_name: name.to_string(),
            spice_target: target.to_string(),
        })
        .collect()
}

#[test]
fn sync_plan_skips_sun_and_reports_unmapped_bodies() {
    let plan = plan_horizons_targets(&bodies());
    assert_eq!(plan.target_count, 4);
    let planned: Vec<(usize, String, String)> = plan
        .targets
        .iter()
        .map(|t| (t.index, t.display_name.clone(), t.command.clone()))
        .collect();
    assert_eq!(
        planned,
        vec![
            (1, "Earth".to_string(), "399".to_string()),
            (2, "Moon".to_string(), "301".to_string()),
            (4, "Charon".to_string(), "901".to_string())
        ]
    );
    assert_eq!(plan.initial_failures, vec!["Planet X: no Horizons command mapping".to_string()]);
}

#[test]
fn start_sync_reports_why_it_cannot_run() {
    let mut state = HorizonsRetry::new();
    assert!(state.start_sync(false, true, "t", &bodies()).is_none());
    assert_eq!(state.status_line, "Horizons sync disabled: SPICE mode not active");
    assert!(state.start_sync(true, false, "t", &bodies()).is_none());
    assert_eq!(
        state.status_line,
        "Horizons sync unavailable: could not initialize Horizons HTTP client"
    );
    let plan = state.start_sync(true, true, "2026-04-18 12:00:00", &bodies()).unwrap();
    assert_eq!(plan.targets.len(), 3);
    assert_eq!(
        state.status_line,
        "Horizons sync in progress: 3/4 queued @ 2026-04-18 12:00:00 UTC"
    );
}

#[test]
fn round_status_lines() {
    let none: Vec<String> = Vec::new();
    assert_eq!(
        summarize_sync_round(12, 12, "T", &none, "1523", "Moon"),
        (true, "Horizons sync active: 12/12 validated @ T UTC (max Δ 1523 km: Moon)".to_string())
    );
    let some = vec!["Earth: x".to_string()];
    assert_eq!(
        summarize_sync_round(11, 12, "T", &some, "7", "Mars").1,
        "Horizons sync partial: 11/12 validated @ T UTC (1 failed, max Δ 7 km: Mars)"
    );
    assert_eq!(
        summarize_sync_round(0, 12, "T", &none, "0", "N/A").1,
        "Horizons sync unavailable @ T UTC: no targets validated"
    );
}

#[test]
fn issue_lines_show_three_then_count() {
    let failures: Vec<String> = (1..=5).map(|i| format!("f{i}")).collect();
    assert_eq!(
        sync_issue_lines(&failures),
        vec![
            "Horizons sync issue: f1".to_string(),
            "Horizons sync issue: f2".to_string(),
            "Horizons sync issue: f3".to_string(),
            "Horizons sync issue: ... and 2 more".to_string(),
        ]
    );
    assert_eq!(sync_issue_lines(&failures[..2].to_vec()).len(), 2);
}

#[test]
fn catalogue_round_queries_every_body_but_the_sun() {
    let catalogue = body_catalogue();
    assert_eq!(catalogue.len(), BODY_COUNT);
    let plan = plan_horizons_targets(&catalogue);
    assert_eq!(plan.target_count, BODY_COUNT - 1);
    assert_eq!(plan.targets.len(), BODY_COUNT - 1);
    assert!(plan.initial_failures.is_empty());
    let earth = plan.targets.iter().find(|t| t.display_name == "Earth").unwrap();
    assert_eq!((earth.index, earth.command.as_str()), (3, "399"));
}

#[test]
fn round_tally_keeps_failures_in_order() {
    let outcomes = vec![
        QueryOutcome { display_name: "Earth".to_string(), error: None },
        QueryOutcome { display_name: "Moon".to_string(), error: Some("timeout".to_string()) },
        QueryOutcome { display_name: "Mars".to_string(), error: None },
        QueryOutcome { display_name: "Pluto".to_string(), error: Some("HTTP 503".to_string()) },
    ];
    let (validated, failures) =
        tally_query_outcomes(vec!["Planet X: no Horizons command mapping".to_string()], &outcomes);
    assert_eq!(validated, 2);
    assert_eq!(
        failures,
        vec![
            "Planet X: no Horizons command mapping".to_string(),
            "Moon: timeout".to_string(),
            "Pluto: HTTP 503".to_string(),
        ]
    );
}

#[test]
fn retry_delay_is_capped_for_every_attempt() {
    assert_eq!(compute_retry_delay_seconds(4), 16);
    assert_eq!(compute_retry_delay_seconds(31), 30);
    assert_eq!(compute_retry_delay_seconds(u32::MAX), 30);
}
