use air_controller::ha_client::{
    authorization_text, climate_state_from_report, service_failure, service_url, state_result,
    state_url, HttpExchange, StateReport,
};
use air_controller::models::Temperature;

fn report(state: Option<&str>) -> StateReport {
    StateReport {
        entity_id: Some("climate.bedroom".to_string()),
        state: state.map(|s| s.to_string()),
        hvac_mode: Some("cool".to_string()),
        hvac_action: None,
        current_temperature: Some(Temperature::from_bits(24.5f64.to_bits())),
        target_temperature: None,
    }
}

#[test]
fn endpoints_drop_trailing_slashes() {
    assert_eq!(
        state_url("http://ha.local:8123/", "climate.living_room_ac"),
        "http://ha.local:8123/api/states/climate.living_room_ac"
    );
    assert_eq!(state_url("http://ha.local", "climate.x"), "http://ha.local/api/states/climate.x");
    assert_eq!(
        service_url("https://ha.example.com//", "turn_on"),
        "https://ha.example.com/api/services/climate/turn_on"
    );
}

#[test]
fn authorization_header_rules() {
    assert_eq!(authorization_text("abc.def").unwrap(), "Bearer abc.def");
    assert_eq!(authorization_text("tok").unwrap(), "Bearer tok");
    assert!(authorization_text("tok\ten").is_ok());
    assert!(authorization_text("tökén").is_ok());
    assert_eq!(
        authorization_text("bad\ntoken").unwrap_err(),
        "构造认证头失败: failed to parse header value"
    );
    assert!(authorization_text("del\u{7f}").is_err());
}

#[test]
fn reported_state_flags() {
    let on = climate_state_from_report(report(Some("cool")), "climate.fallback");
    assert!(on.is_available && on.is_on);
    assert_eq!(on.entity_id, "climate.bedroom");
    assert_eq!(on.hvac_mode, "cool");
    assert_eq!(on.hvac_action, "");
    assert_eq!(on.current_temperature.unwrap().to_bits(), 24.5f64.to_bits());
    assert!(on.target_temperature.is_none() && on.min_temperature.is_none());

    let off = climate_state_from_report(report(Some("off")), "climate.fallback");
    assert!(off.is_available && !off.is_on);

    let unavailable = climate_state_from_report(report(Some("unavailable")), "x");
    assert!(!unavailable.is_available && !unavailable.is_on);

    let shouting = climate_state_from_report(report(Some("UNAVAILABLE")), "x");
    assert!(!shouting.is_available);
    assert!(shouting.is_on);

    let mut bare = report(None);
    bare.entity_id = None;
    let missing = climate_state_from_report(bare, "climate.fallback");
    assert_eq!(missing.entity_id, "climate.fallback");
    assert_eq!(missing.state, "");
    assert!(missing.is_available && missing.is_on);
}

#[test]
fn state_result_for_each_exchange() {
    let r = state_result(HttpExchange::SendFailed("timeout".to_string()), Ok(report(Some("cool"))), "x");
    assert!(!r.success);
    assert_eq!(r.message, "连接 Home Assistant 失败: timeout");

    let r = state_result(HttpExchange::ReadFailed("eof".to_string()), Ok(report(Some("cool"))), "x");
    assert_eq!(r.message, "读取响应失败: eof");

    let r = state_result(
        HttpExchange::Answered { status: 401, body: "401: Unauthorized".to_string() },
        Ok(report(Some("cool"))),
        "x",
    );
    assert_eq!(r.message, "获取空调状态失败: 401 401: Unauthorized");
    assert!(r.data.is_none());

    let r = state_result(
        HttpExchange::Answered { status: 200, body: "{".to_string() },
        Err("EOF while parsing".to_string()),
        "x",
    );
    assert_eq!(r.message, "解析状态失败: EOF while parsing");

    let r = state_result(HttpExchange::Answered { status: 200, body: "{}".to_string() }, Ok(report(Some("heat"))), "x");
    assert!(r.success);
    assert_eq!(r.message, "状态已刷新。");
    assert_eq!(r.data.unwrap().state, "heat");
}

#[test]
fn service_failure_for_each_exchange() {
    assert_eq!(
        service_failure(HttpExchange::SendFailed("refused".to_string())).unwrap().message,
        "调用 Home Assistant 失败: refused"
    );
    assert_eq!(
        service_failure(HttpExchange::ReadFailed("reset".to_string())).unwrap().message,
        "读取响应失败: reset"
    );
    let failure = service_failure(HttpExchange::Answered { status: 500, body: "boom".to_string() }).unwrap();
    assert!(!failure.success);
    assert_eq!(failure.message, "调用失败: 500 boom");
    assert!(service_failure(HttpExchange::Answered { status: 200, body: "[]".to_string() }).is_none());
    assert!(service_failure(HttpExchange::Answered { status: 299, body: String::new() }).is_none());
    assert!(service_failure(HttpExchange::Answered { status: 300, body: String::new() }).is_some());
}
