//! Launch at system start, and the marker argument that tells a system-start
//! launch from a manual one.
//!
//! The system's autostart entry is written by the caller: this module says
//! which registration to ask for and what the answer means for the user.
use vstd::prelude::*;

use crate::models::{failed, succeeded, AppConfig, ServiceResult, ServiceResultView};
use crate::secure_store::prefixed;
use crate::text::same_text;

verus! {

/// The argument that the system passes to the program when it starts it.
pub open spec fn autostart_arg() -> Seq<char> {
    "--system-autostart"@
}

/// The argument that the system passes to the program when it starts it.
pub fn system_autostart_arg() -> (r: &'static str)
    ensures
        r@ == autostart_arg(),
{
    "--system-autostart"
}

/// Whether the program was started by the system: one of its arguments is the marker.
pub fn launched_from_system_startup(args: &Vec<String>) -> (r: bool)
    ensures
        r == exists|i: int| 0 <= i < args@.len() && #[trigger] args@[i]@ == autostart_arg(),
{
    let marker = system_autostart_arg();
    let mut i: usize = 0;
    while i < args.len()
        invariant
            i <= args@.len(),
            marker@ == autostart_arg(),
            forall|k: int| 0 <= k < i ==> #[trigger] args@[k]@ != autostart_arg(),
        decreases args@.len() - i,
    {
        if same_text(args[i].as_str(), marker) {
            return true;
        }
        i = i + 1;
    }
    false
}

/// Whether the automatic power-on runs after this launch: only when the
/// system started the program and the configuration asks for it.
pub fn power_on_at_start(config: &AppConfig, launched_by_system: bool) -> (r: bool)
    ensures
        r == (launched_by_system && config.auto_power_on_on_startup),
{
    launched_by_system && config.auto_power_on_on_startup
}

/// The name under which the program registers for launch at system start.
pub open spec fn app_name() -> Seq<char> {
    "air-controller"@
}

/// A request to register the program for launch at system start, or to
/// remove that registration.
pub struct LaunchRequest {
    /// The name of the registration.
    pub app_name: String,
    /// The program to start.
    pub app_path: String,
    /// The arguments to start it with.
    pub args: Vec<String>,
    /// On macOS, register a launch agent rather than a login item.
    pub use_launch_agent: bool,
    /// Register when true, remove the registration when false.
    pub enable: bool,
}

/// Mathematical model of a [`LaunchRequest`].
pub struct LaunchRequestView {
    pub app_name: Seq<char>,
    pub app_path: Seq<char>,
    pub args: Seq<Seq<char>>,
    pub use_launch_agent: bool,
    pub enable: bool,
}

impl View for LaunchRequest {
    type V = LaunchRequestView;

    open spec fn view(&self) -> LaunchRequestView {
        LaunchRequestView {
            app_name: self.app_name@,
            app_path: self.app_path@,
            args: self.args@.map_values(|a: String| a@),
            use_launch_agent: self.use_launch_agent,
            enable: self.enable,
        }
    }
}

/// The registration request for the program at `app_path`: on when
/// `enabled`, off otherwise.
pub open spec fn registration_request(app_path: Seq<char>, enabled: bool) -> LaunchRequestView {
    LaunchRequestView {
        app_name: app_name(),
        app_path,
        args: seq![autostart_arg()],
        use_launch_agent: true,
        enable: enabled,
    }
}

/// The registration request for the program at `app_path`, or, where its
/// path could not be read, the failure to report.
pub fn launch_request(app_path: Result<String, String>, enabled: bool) -> (r: Result<
    LaunchRequest,
    ServiceResult<bool>,
>)
    ensures
        app_path matches Err(e) ==> r matches Err(f) && f@ == failed::<bool>(
            "读取当前程序路径失败: "@ + e@,
        ),
        app_path matches Ok(p) ==> r matches Ok(q) && q@ == registration_request(p@, enabled),
{
    match app_path {
        Err(error) => {
            let message = prefixed("读取当前程序路径失败: ", error.as_str());
            Err(ServiceResult::fail(message.as_str()))
        },
        Ok(path) => {
            let args = vec![String::from_str(system_autostart_arg())];
            let request = LaunchRequest {
                app_name: String::from_str("air-controller"),
                app_path: path,
                args,
                use_launch_agent: true,
                enable: enabled,
            };
            assert(request@.args =~= seq![autostart_arg()]);
            Ok(request)
        },
    }
}

/// How the system answered a [`LaunchRequest`].
pub enum LaunchOutcome {
    /// The registration could not be prepared; the system's message.
    BuildFailed(String),
    /// Writing or removing the registration failed; the system's message.
    UpdateFailed(String),
    /// The registration is as requested.
    Updated,
}

/// Mathematical model of a [`LaunchOutcome`].
pub enum LaunchOutcomeView {
    BuildFailed(Seq<char>),
    UpdateFailed(Seq<char>),
    Updated,
}

impl View for LaunchOutcome {
    type V = LaunchOutcomeView;

    open spec fn view(&self) -> LaunchOutcomeView {
        match self {
            LaunchOutcome::BuildFailed(m) => LaunchOutcomeView::BuildFailed(m@),
            LaunchOutcome::UpdateFailed(m) => LaunchOutcomeView::UpdateFailed(m@),
            LaunchOutcome::Updated => LaunchOutcomeView::Updated,
        }
    }
}

/// What turning launch at system start on or off reports, for each answer
/// of the system.
pub open spec fn launch_result(enabled: bool, outcome: LaunchOutcomeView) -> ServiceResultView<
    bool,
> {
    match outcome {
        LaunchOutcomeView::BuildFailed(e) => failed("初始化自启动失败: "@ + e),
        LaunchOutcomeView::UpdateFailed(e) => failed("更新系统自启动失败: "@ + e),
        LaunchOutcomeView::Updated => succeeded("系统自启动状态已更新。"@, enabled),
    }
}

/// The result of turning launch at system start on (`enabled`) or off, given
/// the system's answer to the [`launch_request`] for it.
pub fn set_launch_on_startup(enabled: bool, outcome: LaunchOutcome) -> (r: ServiceResult<bool>)
    ensures
        r@ == launch_result(enabled, outcome@),
{
    match outcome {
        LaunchOutcome::BuildFailed(error) => {
            let message = prefixed("初始化自启动失败: ", error.as_str());
            ServiceResult::fail(message.as_str())
        },
        LaunchOutcome::UpdateFailed(error) => {
            let message = prefixed("更新系统自启动失败: ", error.as_str());
            ServiceResult::fail(message.as_str())
        },
        LaunchOutcome::Updated => ServiceResult::ok("系统自启动状态已更新。", enabled),
    }
}

/// The registrations for launch at system start: the program and arguments
/// registered under each name.
pub type Registrations = Map<Seq<char>, (Seq<char>, Seq<Seq<char>>)>;

/// The registrations after `request` completed.
pub open spec fn after_launch_request(reg: Registrations, request: LaunchRequestView) -> Registrations {
    if request.enable {
        reg.insert(request.app_name, (request.app_path, request.args))
    } else {
        reg.remove(request.app_name)
    }
}

/// Launch at system start follows the switch: after the request for
/// `enabled` completes, the program is registered exactly when `enabled`,
/// under its name, with its path and the marker argument; other
/// registrations are left alone; and making the same request again changes
/// nothing.
pub proof fn lemma_launch_follows_switch(reg: Registrations, app_path: Seq<char>, enabled: bool)
    ensures
        ({
            let request = registration_request(app_path, enabled);
            let after = after_launch_request(reg, request);
            &&& after.contains_key(app_name()) == enabled
            &&& enabled ==> after[app_name()] == (app_path, seq![autostart_arg()])
            &&& forall|name: Seq<char>|
                name != app_name() ==> after.contains_key(name) == reg.contains_key(name) && (
                reg.contains_key(name) ==> #[trigger] after[name] == reg[name])
            &&& after_launch_request(after, request) == after
        }),
{
    let request = registration_request(app_path, enabled);
    let after = after_launch_request(reg, request);
    assert(after_launch_request(after, request) =~= after);
}

/// A successful update reports the state asked for; any other answer fails
/// with no data.
pub proof fn lemma_launch_result_follows_outcome(enabled: bool, outcome: LaunchOutcomeView)
    ensures
        launch_result(enabled, outcome).success <==> outcome is Updated,
        launch_result(enabled, outcome).success ==> launch_result(enabled, outcome).data == Some(
            enabled,
        ),
        !launch_result(enabled, outcome).success ==> launch_result(enabled, outcome).data is None,
{
}

} // verus!
