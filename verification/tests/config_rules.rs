use air_controller::config::{check_config, ConfigFile, ConfigStore, ConfigWrite};
use air_controller::models::{AppConfig, Temperature};

fn t(value: f64) -> Temperature {
    Temperature::from_bits(value.to_bits())
}

fn valid_config() -> AppConfig {
    AppConfig {
        base_url: "http://homeassistant.local:8123".to_string(),
        climate_entity_id: "climate.living_room_ac".to_string(),
        launch_on_system_startup: true,
        auto_power_on_on_startup: true,
        startup_delay_seconds: 8,
        retry_count: 3,
        default_temperature: t(26.0),
        min_temperature: t(16.0),
        max_temperature: t(30.0),
        temperature_step: t(1.0),
    }
}

fn store() -> ConfigStore {
    ConfigStore::new("/tmp/air-controller/config.json".to_string())
}

fn error_of(config: &AppConfig) -> Option<String> {
    store().validate(config).err()
}

#[test]
fn valid_configuration_passes() {
    assert!(store().validate(&valid_config()).is_ok());
    let mut https = valid_config();
    https.base_url = "https://ha.example.com/".to_string();
    assert!(store().validate(&https).is_ok());
}

#[test]
fn blank_base_url_is_refused() {
    let mut config = valid_config();
    config.base_url = " \t\u{3000} ".to_string();
    assert_eq!(error_of(&config).unwrap(), "baseUrl 不能为空。");
    assert_eq!(error_of(&AppConfig::default()).unwrap(), "baseUrl 不能为空。");
}

#[test]
fn unparsable_base_url_is_refused() {
    let mut config = valid_config();
    config.base_url = "homeassistant.local".to_string();
    assert_eq!(error_of(&config).unwrap(), "baseUrl 不是有效地址。");
}

#[test]
fn other_schemes_are_refused() {
    let mut config = valid_config();
    config.base_url = "ftp://homeassistant.local".to_string();
    assert_eq!(error_of(&config).unwrap(), "baseUrl 仅支持 http 或 https 协议。");
    config.base_url = "HTTP://homeassistant.local".to_string();
    assert!(error_of(&config).is_none());
}

#[test]
fn entity_id_needs_climate_prefix() {
    let mut config = valid_config();
    config.climate_entity_id = "switch.heater".to_string();
    assert_eq!(error_of(&config).unwrap(), "climateEntityId 必须是 climate.xxx 格式。");
    config.climate_entity_id = "climate.".to_string();
    assert!(error_of(&config).is_none());
}

#[test]
fn temperature_range_rules() {
    let mut config = valid_config();
    config.min_temperature = t(31.0);
    assert_eq!(error_of(&config).unwrap(), "最小温度不能大于最大温度。");

    let mut config = valid_config();
    config.temperature_step = t(0.0);
    assert_eq!(error_of(&config).unwrap(), "temperatureStep 必须大于 0。");
    config.temperature_step = t(-0.0);
    assert_eq!(error_of(&config).unwrap(), "temperatureStep 必须大于 0。");
    config.temperature_step = t(-0.5);
    assert_eq!(error_of(&config).unwrap(), "temperatureStep 必须大于 0。");

    let mut config = valid_config();
    config.default_temperature = t(15.5);
    assert_eq!(error_of(&config).unwrap(), "defaultTemperature 必须在温度范围内。");
    config.default_temperature = t(30.5);
    assert_eq!(error_of(&config).unwrap(), "defaultTemperature 必须在温度范围内。");
    config.default_temperature = t(30.0);
    assert!(error_of(&config).is_none());
}

#[test]
fn nan_values_pass_the_comparisons() {
    let mut config = valid_config();
    config.temperature_step = t(f64::NAN);
    config.default_temperature = t(f64::NAN);
    assert!(error_of(&config).is_none());
}

#[test]
fn rules_apply_in_order() {
    let mut config = valid_config();
    config.climate_entity_id = "light.x".to_string();
    config.min_temperature = t(40.0);
    assert_eq!(error_of(&config).unwrap(), "climateEntityId 必须是 climate.xxx 格式。");
}

#[test]
fn check_config_uses_the_given_scheme() {
    let config = valid_config();
    assert!(check_config(&config, Some("https".to_string())).is_ok());
    assert_eq!(check_config(&config, None).unwrap_err(), "baseUrl 不是有效地址。");
    assert_eq!(
        check_config(&config, Some("file".to_string())).unwrap_err(),
        "baseUrl 仅支持 http 或 https 协议。"
    );
}

#[test]
fn load_reports_each_outcome() {
    let missing = store().load(ConfigFile::Missing);
    assert!(missing.success);
    assert_eq!(missing.message, "已使用默认配置。");
    let config = missing.data.unwrap();
    assert_eq!(config.climate_entity_id, "climate.living_room_ac");
    assert_eq!(config.default_temperature.to_bits(), 26.0f64.to_bits());
    assert_eq!(config.min_temperature.to_bits(), 16.0f64.to_bits());
    assert_eq!(config.max_temperature.to_bits(), 30.0f64.to_bits());
    assert_eq!(config.temperature_step.to_bits(), 1.0f64.to_bits());
    assert_eq!(config.base_url, "");

    let unreadable = store().load(ConfigFile::Unreadable("permission denied".to_string()));
    assert!(!unreadable.success);
    assert_eq!(unreadable.message, "读取配置失败: permission denied");
    assert!(unreadable.data.is_none());

    let malformed = store().load(ConfigFile::Malformed("expected value".to_string()));
    assert_eq!(malformed.message, "解析配置失败: expected value");

    let loaded = store().load(ConfigFile::Parsed(valid_config()));
    assert!(loaded.success);
    assert_eq!(loaded.message, "配置已加载。");
    assert_eq!(loaded.data.unwrap().base_url, "http://homeassistant.local:8123");

    let mut invalid = valid_config();
    invalid.climate_entity_id = "fan.x".to_string();
    let refused = store().load(ConfigFile::Parsed(invalid));
    assert!(!refused.success);
    assert_eq!(refused.message, "climateEntityId 必须是 climate.xxx 格式。");
    assert!(refused.data.is_none());
}

#[test]
fn save_checks_before_writing_and_reports_the_write() {
    let store = store();
    assert!(store.prepare_save(&valid_config()).is_ok());
    let refused = store.prepare_save(&AppConfig::default()).unwrap_err();
    assert!(!refused.success);
    assert_eq!(refused.message, "baseUrl 不能为空。");

    let saved = store.finish_save(&valid_config(), ConfigWrite::Written);
    assert!(saved.success);
    assert_eq!(saved.message, "配置已保存。");
    assert_eq!(saved.data.unwrap().climate_entity_id, "climate.living_room_ac");

    let not_serialized = store.finish_save(&valid_config(), ConfigWrite::NotSerialized("bad".to_string()));
    assert_eq!(not_serialized.message, "序列化配置失败: bad");
    let not_written = store.finish_save(&valid_config(), ConfigWrite::NotWritten("disk full".to_string()));
    assert_eq!(not_written.message, "写入配置失败: disk full");
    assert!(not_written.data.is_none());
    assert_eq!(store.config_path(), "/tmp/air-controller/config.json");
}

#[test]
fn saved_configuration_loads_back() {
    let store = store();
    let saved = store.finish_save(&valid_config(), ConfigWrite::Written);
    let reloaded = store.load(ConfigFile::Parsed(saved.data.unwrap()));
    assert!(reloaded.success);
    assert_eq!(reloaded.message, "配置已加载。");
    let config = reloaded.data.unwrap();
    assert_eq!(config.base_url, "http://homeassistant.local:8123");
    assert_eq!(config.default_temperature.to_bits(), 26.0f64.to_bits());
}

#[test]
fn default_configuration_starts_with_the_program() {
    let config = AppConfig::default();
    assert!(config.launch_on_system_startup);
    assert!(config.auto_power_on_on_startup);
    assert_eq!(config.startup_delay_seconds, 8);
    assert_eq!(config.retry_count, 3);
    assert_eq!(config.climate_entity_id, "climate.living_room_ac");
    assert_eq!(config.base_url, "");
}
