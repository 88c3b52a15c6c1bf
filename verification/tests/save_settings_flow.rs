use air_controller::commands::{SaveAction, SaveEvent, SavePhase, SaveSettings};
use air_controller::models::{AppConfig, ServiceResult, Temperature};

fn t(value: f64) -> Temperature {
    Temperature::from_bits(value.to_bits())
}

fn config(url: &str) -> AppConfig {
    AppConfig {
        base_url: url.to_string(),
        climate_entity_id: "climate.living_room_ac".to_string(),
        launch_on_system_startup: true,
        auto_power_on_on_startup: true,
        startup_delay_seconds: 8,
        retry_count: 3,
        default_temperature: t(26.0),
        min_temperature: t(16.0),
        max_temperature: t(30.0),
        temperature_step: t(1.0),
    }
}

/// The scripted outcomes of the operations a save issues.
struct Script {
    store: Result<(), String>,
    previous_config: Option<AppConfig>,
    previous_token: Option<String>,
    token_saved: bool,
    config_saved: bool,
    startup_set: bool,
    config_restored: bool,
    token_restored: bool,
}

fn ok_script() -> Script {
    Script {
        store: Ok(()),
        previous_config: Some(config("http://old.local")),
        previous_token: Some("old-token".to_string()),
        token_saved: true,
        config_saved: true,
        startup_set: true,
        config_restored: true,
        token_restored: true,
    }
}

fn run(script: Script, token: &str) -> (ServiceResult<AppConfig>, Vec<String>) {
    run_config(script, config("http://new.local"), token)
}

fn run_config(script: Script, to_save: AppConfig, token: &str) -> (ServiceResult<AppConfig>, Vec<String>) {
    let mut log = Vec::new();
    let Script {
        store,
        mut previous_config,
        mut previous_token,
        token_saved,
        config_saved,
        startup_set,
        config_restored,
        token_restored,
    } = script;
    let mut store = Some(store);
    let (mut machine, mut action) = SaveSettings::start(to_save, token.to_string());
    loop {
        let event = match action {
            SaveAction::OpenConfigStore => SaveEvent::StoreOpened(store.take().unwrap()),
            SaveAction::LoadPreviousConfig => SaveEvent::PreviousConfig(previous_config.take()),
            SaveAction::LoadPreviousToken => SaveEvent::PreviousToken(previous_token.take()),
            SaveAction::SaveToken(t) => {
                log.push(format!("save token {t}"));
                SaveEvent::TokenSaved(if token_saved {
                    ServiceResult::ok("Token 已保存到系统密钥链。", true)
                } else {
                    ServiceResult::fail("保存 Token 失败: locked")
                })
            }
            SaveAction::SaveConfig(c) => {
                log.push(format!("save config {}", c.base_url));
                SaveEvent::ConfigSaved(if config_saved {
                    ServiceResult::ok("配置已保存。", c)
                } else {
                    ServiceResult::fail("写入配置失败: disk full")
                })
            }
            SaveAction::SetLaunchOnStartup(on) => {
                log.push(format!("set startup {on}"));
                SaveEvent::LaunchOnStartupSet(if startup_set {
                    ServiceResult::ok("系统自启动状态已更新。", on)
                } else {
                    ServiceResult::fail("更新系统自启动失败: denied")
                })
            }
            SaveAction::RestoreConfig(c) => {
                log.push(format!("restore config {}", c.base_url));
                SaveEvent::ConfigRestored(if config_restored {
                    ServiceResult::ok("配置已保存。", c)
                } else {
                    ServiceResult::fail("写入配置失败: read-only")
                })
            }
            SaveAction::RestoreToken(t) => {
                log.push(format!("restore token {:?}", t));
                SaveEvent::TokenRestored(if token_restored {
                    Ok(())
                } else {
                    Err("删除 Token 失败: gone".to_string())
                })
            }
            SaveAction::Finish(result) => {
                assert!(machine.phase() == SavePhase::Finished);
                assert!(!machine.takes(&SaveEvent::StoreOpened(Ok(()))));
                return (result, log);
            }
        };
        assert!(machine.takes(&event));
        let (next, next_action) = machine.step(event);
        machine = next;
        action = next_action;
    }
}

#[test]
fn save_succeeds_after_every_write() {
    let (result, log) = run(ok_script(), "  new-token \n");
    assert!(result.success);
    assert_eq!(result.message, "配置已保存，并已同步系统自启动。");
    assert_eq!(result.data.unwrap().base_url, "http://new.local");
    assert_eq!(log, vec!["save token new-token", "save config http://new.local", "set startup true"]);
}

#[test]
fn blank_token_is_refused_before_any_write() {
    let (result, log) = run(ok_script(), " \t ");
    assert!(!result.success);
    assert_eq!(result.message, "访问令牌不能为空。");
    assert!(log.is_empty());
}

#[test]
fn unavailable_store_is_reported() {
    let mut script = ok_script();
    script.store = Err("无法定位系统配置目录。".to_string());
    let (result, log) = run(script, "tok");
    assert_eq!(result.message, "无法定位系统配置目录。");
    assert!(log.is_empty());
}

#[test]
fn failed_token_save_stops_the_save() {
    let mut script = ok_script();
    script.token_saved = false;
    let (result, log) = run(script, "tok");
    assert!(!result.success);
    assert_eq!(result.message, "保存 Token 失败: locked");
    assert_eq!(log, vec!["save token tok"]);
}

#[test]
fn failed_config_save_puts_the_token_back() {
    let mut script = ok_script();
    script.config_saved = false;
    let (result, log) = run(script, "tok");
    assert_eq!(result.message, "写入配置失败: disk full");
    assert_eq!(
        log,
        vec!["save token tok", "save config http://new.local", "restore token Some(\"old-token\")"]
    );

    let mut script = ok_script();
    script.config_saved = false;
    script.token_restored = false;
    let (result, _) = run(script, "tok");
    assert_eq!(result.message, "写入配置失败: disk full 访问令牌回滚失败: 删除 Token 失败: gone");
}

#[test]
fn failed_startup_rolls_back_config_and_token() {
    let mut script = ok_script();
    script.startup_set = false;
    let (result, log) = run(script, "tok");
    assert!(!result.success);
    assert_eq!(result.message, "更新系统自启动失败: denied");
    assert_eq!(
        log,
        vec![
            "save token tok",
            "save config http://new.local",
            "set startup true",
            "restore config http://old.local",
            "restore token Some(\"old-token\")",
        ]
    );
}

#[test]
fn failed_startup_without_earlier_config_only_restores_token() {
    let mut script = ok_script();
    script.startup_set = false;
    script.previous_config = None;
    script.previous_token = None;
    let (result, log) = run(script, "tok");
    assert_eq!(result.message, "更新系统自启动失败: denied");
    assert_eq!(log.last().unwrap(), "restore token None");
    assert_eq!(log.len(), 4);
}

#[test]
fn failed_config_rollback_is_reported_and_stops() {
    let mut script = ok_script();
    script.startup_set = false;
    script.config_restored = false;
    let (result, log) = run(script, "tok");
    assert_eq!(result.message, "更新系统自启动失败: denied 配置回滚也失败: 写入配置失败: read-only");
    assert_eq!(log.last().unwrap(), "restore config http://old.local");

    let mut script = ok_script();
    script.startup_set = false;
    script.token_restored = false;
    let (result, _) = run(script, "tok");
    assert_eq!(result.message, "更新系统自启动失败: denied 访问令牌回滚失败: 删除 Token 失败: gone");
}

#[test]
fn launch_at_start_follows_the_configuration() {
    let mut off = config("http://new.local");
    off.launch_on_system_startup = false;
    let (result, log) = run_config(ok_script(), off, "tok");
    assert!(result.success);
    assert!(!result.data.unwrap().launch_on_system_startup);
    assert_eq!(log, vec!["save token tok", "save config http://new.local", "set startup false"]);
}

#[test]
fn save_takes_only_the_pending_outcome() {
    let (machine, _) = SaveSettings::start(config("http://new.local"), "tok".to_string());
    assert!(machine.takes(&SaveEvent::StoreOpened(Ok(()))));
    assert!(!machine.takes(&SaveEvent::PreviousToken(None)));
    let (machine, _) = machine.step(SaveEvent::StoreOpened(Ok(())));
    assert!(machine.takes(&SaveEvent::PreviousConfig(None)));
    assert!(!machine.takes(&SaveEvent::StoreOpened(Ok(()))));
}
