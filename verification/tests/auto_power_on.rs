use std::collections::VecDeque;

use air_controller::auto_power_on::{is_operable, Action, AutoPowerOn, Delay, Event, Phase};
use air_controller::models::{AppConfig, ClimateState, ServiceResult};

fn climate_state(is_available: bool, is_on: bool) -> ClimateState {
    ClimateState {
        entity_id: "climate.test".into(),
        state: if is_on { "cool".into() } else { "off".into() },
        hvac_mode: if is_on { "cool".into() } else { "off".into() },
        hvac_action: String::new(),
        current_temperature: None,
        target_temperature: None,
        min_temperature: None,
        max_temperature: None,
        temperature_step: None,
        is_available,
        is_on,
    }
}

struct Run {
    result: ServiceResult<ClimateState>,
    turn_on_calls: usize,
    refresh_calls: usize,
    pauses: Vec<(Delay, u64)>,
}

/// Drives the decisions under the default configuration.
fn run(
    turn_on_results: Vec<ServiceResult<ClimateState>>,
    get_state_results: Vec<ServiceResult<ClimateState>>,
) -> Run {
    run_with(&AppConfig::default(), turn_on_results, get_state_results)
}

/// Drives the decisions with queued replies, as a client answering in order would.
fn run_with(
    config: &AppConfig,
    turn_on_results: Vec<ServiceResult<ClimateState>>,
    get_state_results: Vec<ServiceResult<ClimateState>>,
) -> Run {
    let mut turn_on_results: VecDeque<_> = turn_on_results.into();
    let mut get_state_results: VecDeque<_> = get_state_results.into();
    let mut turn_on_calls = 0;
    let mut refresh_calls = 0;
    let mut pauses = Vec::new();
    let (mut machine, mut action) = AutoPowerOn::start(config);
    loop {
        let event = match action {
            Action::Sleep(delay, seconds) => {
                pauses.push((delay, seconds));
                Event::Slept
            }
            Action::TurnOn => {
                turn_on_calls += 1;
                Event::TurnOnReply(
                    turn_on_results.pop_front().expect("missing mocked turn_on result"),
                )
            }
            Action::RefreshState => {
                refresh_calls += 1;
                Event::RefreshReply(
                    get_state_results.pop_front().expect("missing mocked get_state result"),
                )
            }
            Action::Finish(result) => {
                assert!(machine.phase() == Phase::Finished);
                assert!(!machine.takes(&Event::Slept));
                return Run { result, turn_on_calls, refresh_calls, pauses };
            }
        };
        assert!(machine.takes(&event));
        let (next, next_action) = machine.step(event);
        machine = next;
        action = next_action;
    }
}

fn repeated(n: usize, make: impl Fn() -> ServiceResult<ClimateState>) -> Vec<ServiceResult<ClimateState>> {
    (0..n).map(|_| make()).collect()
}

#[test]
fn succeeds_after_turn_on_without_temperature_fields() {
    let outcome = run(
        vec![ServiceResult::ok("turned on", climate_state(true, true))],
        vec![ServiceResult::ok("state refreshed", climate_state(true, true))],
    );
    let result = outcome.result;

    assert!(result.success);
    assert_eq!(result.message, "启动自动开机成功。");
    assert!(result.data.expect("missing climate state").is_on);
}

#[test]
fn fails_after_three_turn_on_attempts() {
    let outcome = run(
        vec![
            ServiceResult::fail("调用失败 1"),
            ServiceResult::fail("调用失败 2"),
            ServiceResult::fail("调用失败 3"),
        ],
        vec![],
    );
    let result = outcome.result;

    assert!(!result.success);
    assert_eq!(result.message, "调用失败 3");
    assert!(result.data.is_none());
}

#[test]
fn fails_when_device_never_becomes_operable() {
    let outcome = run(
        vec![
            ServiceResult::ok("turned on", climate_state(true, false)),
            ServiceResult::ok("turned on", climate_state(true, false)),
            ServiceResult::ok("turned on", climate_state(true, false)),
        ],
        vec![ServiceResult::ok("state refreshed", climate_state(true, false)); 15],
    );
    let result = outcome.result;

    assert!(!result.success);
    assert_eq!(result.message, "空调尚未进入可操作状态，继续等待刷新。");
}

#[test]
fn fails_with_last_refresh_error_when_state_query_keeps_failing() {
    let outcome = run(
        vec![
            ServiceResult::ok("turned on", climate_state(true, true)),
            ServiceResult::ok("turned on", climate_state(true, true)),
            ServiceResult::ok("turned on", climate_state(true, true)),
        ],
        vec![ServiceResult::fail("刷新失败"); 15],
    );
    let result = outcome.result;

    assert!(!result.success);
    assert_eq!(result.message, "刷新失败");
}

#[test]
fn run_uses_at_most_three_turn_ons_and_five_refreshes_each() {
    let outcome = run(
        repeated(3, || ServiceResult::ok("turned on", climate_state(true, true))),
        repeated(15, || ServiceResult::ok("state refreshed", climate_state(false, true))),
    );
    assert_eq!(outcome.turn_on_calls, 3);
    assert_eq!(outcome.refresh_calls, 15);
    assert!(!outcome.result.success);
}

#[test]
fn success_on_a_later_refresh_and_attempt() {
    let mut states = repeated(5, || ServiceResult::fail("刷新失败"));
    states.push(ServiceResult::ok("state refreshed", climate_state(true, false)));
    states.push(ServiceResult::ok("state refreshed", climate_state(true, true)));
    let outcome = run(
        vec![
            ServiceResult::fail("调用失败 1"),
            ServiceResult::ok("turned on", climate_state(true, true)),
            ServiceResult::ok("turned on", climate_state(true, true)),
        ],
        states,
    );
    assert!(outcome.result.success);
    assert_eq!(outcome.turn_on_calls, 3);
    assert_eq!(outcome.refresh_calls, 7);
    let state = outcome.result.data.expect("missing climate state");
    assert!(state.is_available && state.is_on);
}

#[test]
fn refresh_without_state_keeps_its_own_message() {
    let outcome = run(
        repeated(3, || ServiceResult::ok("turned on", climate_state(true, true))),
        (0..15)
            .map(|_| ServiceResult { success: true, message: "ok".to_string(), data: None })
            .collect(),
    );
    assert!(!outcome.result.success);
    assert_eq!(outcome.result.message, "刷新状态成功，但未获取到空调状态数据。");
}

#[test]
fn pauses_follow_the_retry_protocol() {
    let outcome = run(
        vec![
            ServiceResult::fail("调用失败 1"),
            ServiceResult::fail("调用失败 2"),
            ServiceResult::fail("调用失败 3"),
        ],
        vec![],
    );
    assert!(
        outcome.pauses
            == vec![(Delay::Startup, 8), (Delay::Retry, 2), (Delay::Retry, 2), (Delay::Retry, 2)]
    );

    let outcome = run(
        vec![ServiceResult::ok("turned on", climate_state(true, true))],
        vec![
            ServiceResult::fail("刷新失败"),
            ServiceResult::ok("state refreshed", climate_state(true, true)),
        ],
    );
    assert!(outcome.pauses == vec![(Delay::Startup, 8), (Delay::RefreshInterval, 2)]);
}

#[test]
fn configured_delay_and_attempts_are_followed() {
    let mut config = AppConfig::default();
    config.startup_delay_seconds = 30;
    config.retry_count = 5;
    let outcome = run_with(
        &config,
        repeated(5, || ServiceResult::fail("调用失败")),
        vec![],
    );
    assert_eq!(outcome.turn_on_calls, 5);
    assert_eq!(outcome.pauses[0], (Delay::Startup, 30));
    assert_eq!(outcome.pauses.len(), 6);
    assert!(!outcome.result.success);

    config.retry_count = 1;
    let outcome = run_with(
        &config,
        vec![ServiceResult::ok("turned on", climate_state(true, true))],
        repeated(5, || ServiceResult::ok("state refreshed", climate_state(true, false))),
    );
    assert_eq!(outcome.turn_on_calls, 1);
    assert_eq!(outcome.refresh_calls, 5);
    assert_eq!(outcome.result.message, "空调尚未进入可操作状态，继续等待刷新。");
}

#[test]
fn no_attempts_allowed_fails_without_turning_on() {
    let mut config = AppConfig::default();
    config.retry_count = 0;
    let outcome = run_with(&config, vec![], vec![]);
    assert_eq!(outcome.turn_on_calls, 0);
    assert!(!outcome.result.success);
    assert_eq!(outcome.result.message, "启动自动开机失败。");
    assert!(outcome.result.data.is_none());
}

#[test]
fn operable_needs_available_and_on() {
    assert!(is_operable(&climate_state(true, true)));
    assert!(!is_operable(&climate_state(false, true)));
    assert!(!is_operable(&climate_state(true, false)));
}

#[test]
fn machine_takes_only_the_pending_outcome() {
    let (machine, _) = AutoPowerOn::start(&AppConfig::default());
    assert!(machine.takes(&Event::Slept));
    assert!(!machine.takes(&Event::TurnOnReply(ServiceResult::fail("x"))));
    let (machine, action) = machine.step(Event::Slept);
    assert!(matches!(action, Action::TurnOn));
    assert!(!machine.takes(&Event::Slept));
    assert!(machine.takes(&Event::TurnOnReply(ServiceResult::fail("x"))));
}
