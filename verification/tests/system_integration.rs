use air_controller::models::ServiceResult;
use air_controller::secure_store::token_presence;
use air_controller::models::AppConfig;
use air_controller::startup::{
    launch_request, launched_from_system_startup, power_on_at_start, set_launch_on_startup,
    system_autostart_arg, LaunchOutcome,
};
use air_controller::tray::CloseState;

#[test]
fn system_start_is_recognised_by_its_argument() {
    let args = vec!["/usr/bin/air-controller".to_string(), "--system-autostart".to_string()];
    assert!(launched_from_system_startup(&args));
    let args = vec!["/usr/bin/air-controller".to_string(), "--system-autostart=1".to_string()];
    assert!(!launched_from_system_startup(&args));
    assert!(!launched_from_system_startup(&Vec::new()));
    assert_eq!(system_autostart_arg(), "--system-autostart");
}

#[test]
fn unreadable_program_path_is_reported() {
    let result = launch_request(Err("No such file".to_string()), true).err().unwrap();
    assert!(!result.success);
    assert_eq!(result.message, "读取当前程序路径失败: No such file");
    assert!(result.data.is_none());
}

#[test]
fn token_presence_ignores_blank_tokens() {
    let present = token_presence(Ok("abc".to_string()));
    assert!(present.success);
    assert_eq!(present.message, "Token 状态已读取。");
    assert_eq!(present.data, Some(true));
    assert_eq!(token_presence(Ok("  \n".to_string())).data, Some(false));
    let missing = token_presence(Err("读取 Token 失败: No matching entry found in secure storage".to_string()));
    assert!(!missing.success);
    assert_eq!(missing.message, "读取 Token 失败: No matching entry found in secure storage");
    assert!(missing.data.is_none());
}

#[test]
fn service_results_carry_their_parts() {
    let ok = ServiceResult::ok("done", 7u32);
    assert!(ok.success && ok.message == "done" && ok.data == Some(7));
    let fail: ServiceResult<u32> = ServiceResult::fail("nope");
    assert!(!fail.success && fail.message == "nope" && fail.data.is_none());
}

#[test]
fn closing_hides_until_exit_is_requested() {
    let mut state = CloseState::default();
    assert!(state.should_hide_on_close());
    state.request_exit();
    assert!(!state.should_hide_on_close());
}

#[test]
fn launch_request_names_the_program_and_its_marker() {
    let request = launch_request(Ok("/opt/air-controller/air-controller".to_string()), true).ok().unwrap();
    assert_eq!(request.app_name, "air-controller");
    assert_eq!(request.app_path, "/opt/air-controller/air-controller");
    assert_eq!(request.args, vec!["--system-autostart".to_string()]);
    assert!(request.use_launch_agent);
    assert!(request.enable);
    let off = launch_request(Ok("/opt/a".to_string()), false).ok().unwrap();
    assert!(!off.enable);
    assert_eq!(off.app_path, "/opt/a");
}

#[test]
fn launch_outcomes_are_reported() {
    let on = set_launch_on_startup(true, LaunchOutcome::Updated);
    assert!(on.success);
    assert_eq!(on.message, "系统自启动状态已更新。");
    assert_eq!(on.data, Some(true));
    assert_eq!(set_launch_on_startup(false, LaunchOutcome::Updated).data, Some(false));
    let build = set_launch_on_startup(true, LaunchOutcome::BuildFailed("unsupported".to_string()));
    assert!(!build.success);
    assert_eq!(build.message, "初始化自启动失败: unsupported");
    assert!(build.data.is_none());
    let update = set_launch_on_startup(false, LaunchOutcome::UpdateFailed("denied".to_string()));
    assert_eq!(update.message, "更新系统自启动失败: denied");
    assert!(update.data.is_none());
}

#[test]
fn power_on_at_start_needs_a_system_launch_and_the_switch() {
    let mut config = AppConfig::default();
    assert!(power_on_at_start(&config, true));
    assert!(!power_on_at_start(&config, false));
    config.auto_power_on_on_startup = false;
    assert!(!power_on_at_start(&config, true));
}
