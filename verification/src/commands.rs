//! Saving the settings from the configuration page: store the token, write
//! the configuration, turn launch at system start on or off as configured,
//! and undo the earlier steps when a later one fails.
//!
//! The work alternates file and keychain operations with decisions.
//! [`SaveSettings`] holds the decisions: given the outcome of the last
//! operation, it gives the next one, until it hands out the final result.
use vstd::prelude::*;

use crate::models::{
    failed, option_view, succeeded, AppConfig, AppConfigView, ServiceResult, ServiceResultView,
};
use crate::secure_store::{
    after_request, deleted_result, delete_request_of, entry_value, saved_result,
    store_request_of, Keychain, KeychainOutcome, KeychainOutcomeView, KeychainRequest,
    KeychainRequestView, SecureStore,
};
use crate::text::{is_blank, is_blank_text, joined3, trim, trimmed};

verus! {

/// The keychain entry of the access token.
pub fn secure_store() -> (s: SecureStore)
    ensures
        s.service() == "air-controller"@,
        s.account() == "home-assistant-token"@,
{
    SecureStore::new()
}

/// The keychain request that puts the token back as it was: store
/// `previous` again, or remove the token where there was none.
pub open spec fn rollback_request_of(store: SecureStore, previous: Option<Seq<char>>) -> KeychainRequestView {
    match previous {
        Some(token) => store_request_of(store, token),
        None => delete_request_of(store),
    }
}

/// What a rollback reports for each answer of the keychain: success, or the
/// message of the store or removal that failed.
pub open spec fn rollback_result(previous: Option<Seq<char>>, outcome: KeychainOutcomeView<()>) -> Result<
    (),
    Seq<char>,
> {
    let written = match previous {
        Some(_) => saved_result(outcome),
        None => deleted_result(outcome),
    };
    if written.success {
        Ok(())
    } else {
        Err(written.message)
    }
}

/// The keychain request that puts the token back as `previous_token` found it.
pub fn rollback_request(store: &SecureStore, previous_token: &Option<String>) -> (r: KeychainRequest)
    ensures
        r@ == rollback_request_of(*store, option_view(*previous_token)),
{
    match previous_token {
        Some(token) => store.store_request(token.as_str()),
        None => store.delete_request(),
    }
}

/// The outcome of putting the keychain back to `previous_token` (storing it
/// again, or removing the token where there was none), given the keychain's
/// answer to [`rollback_request`]; fails with the keychain's message.
pub fn rollback_token(
    store: &SecureStore,
    previous_token: Option<String>,
    outcome: KeychainOutcome<()>,
) -> (r: Result<(), String>)
    ensures
        unit_result_view(r) == rollback_result(option_view(previous_token), outcome@),
{
    let result = match previous_token {
        Some(_) => store.save_token(outcome),
        None => store.delete_token(outcome),
    };
    if !result.success {
        return Err(result.message);
    }
    Ok(())
}

/// Rolling back puts the keychain back as it was: when `previous` is what the
/// token's entry held before (none where it held nothing), storing any token
/// and then completing the rollback request leaves the keychain unchanged.
pub proof fn lemma_rollback_restores_keychain(
    store: SecureStore,
    k: Keychain,
    previous: Option<Seq<char>>,
    token: Seq<char>,
)
    requires
        previous == entry_value(k, store.service(), store.account()),
    ensures
        after_request(after_request(k, store_request_of(store, token)), rollback_request_of(store, previous))
            == k,
{
    let restored = after_request(after_request(k, store_request_of(store, token)), rollback_request_of(store, previous));
    assert(restored =~= k);
}

/// The next operation of a save.
pub enum SaveAction {
    /// Locate (and create) the configuration directory; report [`SaveEvent::StoreOpened`].
    OpenConfigStore,
    /// Load the configuration saved so far; report [`SaveEvent::PreviousConfig`].
    LoadPreviousConfig,
    /// Read the token stored so far; report [`SaveEvent::PreviousToken`].
    LoadPreviousToken,
    /// Store this token; report [`SaveEvent::TokenSaved`].
    SaveToken(String),
    /// Save this configuration; report [`SaveEvent::ConfigSaved`].
    SaveConfig(AppConfig),
    /// Turn launch at system start on (true) or off; report [`SaveEvent::LaunchOnStartupSet`].
    SetLaunchOnStartup(bool),
    /// Save this earlier configuration again; report [`SaveEvent::ConfigRestored`].
    RestoreConfig(AppConfig),
    /// Put the keychain back to this earlier token (or none); report [`SaveEvent::TokenRestored`].
    RestoreToken(Option<String>),
    /// The save is over with this result.
    Finish(ServiceResult<AppConfig>),
}

/// The outcome of the last operation of a save.
pub enum SaveEvent {
    StoreOpened(Result<(), String>),
    PreviousConfig(Option<AppConfig>),
    PreviousToken(Option<String>),
    TokenSaved(ServiceResult<bool>),
    ConfigSaved(ServiceResult<AppConfig>),
    LaunchOnStartupSet(ServiceResult<bool>),
    ConfigRestored(ServiceResult<AppConfig>),
    TokenRestored(Result<(), String>),
}

/// Mathematical model of a [`SaveAction`].
pub enum SaveActionView {
    OpenConfigStore,
    LoadPreviousConfig,
    LoadPreviousToken,
    SaveToken(Seq<char>),
    SaveConfig(AppConfigView),
    SetLaunchOnStartup(bool),
    RestoreConfig(AppConfigView),
    RestoreToken(Option<Seq<char>>),
    Finish(ServiceResultView<AppConfigView>),
}

/// Mathematical model of a [`SaveEvent`].
pub enum SaveEventView {
    StoreOpened(Result<(), Seq<char>>),
    PreviousConfig(Option<AppConfigView>),
    PreviousToken(Option<Seq<char>>),
    TokenSaved(ServiceResultView<bool>),
    ConfigSaved(ServiceResultView<AppConfigView>),
    LaunchOnStartupSet(ServiceResultView<bool>),
    ConfigRestored(ServiceResultView<AppConfigView>),
    TokenRestored(Result<(), Seq<char>>),
}

/// The model of a unit result with a text error.
pub open spec fn unit_result_view(r: Result<(), String>) -> Result<(), Seq<char>> {
    match r {
        Ok(_) => Ok(()),
        Err(m) => Err(m@),
    }
}

/// The model of a [`SaveAction`].
pub open spec fn save_action_view(a: SaveAction) -> SaveActionView {
    match a {
        SaveAction::OpenConfigStore => SaveActionView::OpenConfigStore,
        SaveAction::LoadPreviousConfig => SaveActionView::LoadPreviousConfig,
        SaveAction::LoadPreviousToken => SaveActionView::LoadPreviousToken,
        SaveAction::SaveToken(t) => SaveActionView::SaveToken(t@),
        SaveAction::SaveConfig(c) => SaveActionView::SaveConfig(c@),
        SaveAction::SetLaunchOnStartup(on) => SaveActionView::SetLaunchOnStartup(on),
        SaveAction::RestoreConfig(c) => SaveActionView::RestoreConfig(c@),
        SaveAction::RestoreToken(t) => SaveActionView::RestoreToken(option_view(t)),
        SaveAction::Finish(r) => SaveActionView::Finish(r@),
    }
}

/// The model of a [`SaveEvent`].
pub open spec fn save_event_view(e: SaveEvent) -> SaveEventView {
    match e {
        SaveEvent::StoreOpened(r) => SaveEventView::StoreOpened(unit_result_view(r)),
        SaveEvent::PreviousConfig(c) => SaveEventView::PreviousConfig(option_view(c)),
        SaveEvent::PreviousToken(t) => SaveEventView::PreviousToken(option_view(t)),
        SaveEvent::TokenSaved(r) => SaveEventView::TokenSaved(r@),
        SaveEvent::ConfigSaved(r) => SaveEventView::ConfigSaved(r@),
        SaveEvent::LaunchOnStartupSet(r) => SaveEventView::LaunchOnStartupSet(r@),
        SaveEvent::ConfigRestored(r) => SaveEventView::ConfigRestored(r@),
        SaveEvent::TokenRestored(r) => SaveEventView::TokenRestored(unit_result_view(r)),
    }
}

/// Where a save stands: which outcome it waits for.
#[derive(PartialEq, Eq, Structural, Clone, Copy)]
pub enum SavePhase {
    AwaitingStore,
    AwaitingPreviousConfig,
    AwaitingPreviousToken,
    AwaitingTokenSave,
    AwaitingConfigSave,
    AwaitingLaunchOnStartup,
    AwaitingConfigRestore,
    AwaitingTokenRestore,
    Finished,
}

/// The state of one save of the settings.
pub struct SaveSettings {
    phase: SavePhase,
    config: AppConfig,
    token: String,
    previous_config: Option<AppConfig>,
    previous_token: Option<String>,
    failure: Option<ServiceResult<AppConfig>>,
}

/// Mathematical model of a [`SaveSettings`]: the phase, the configuration and
/// token to save, the configuration and token found before, and the failure
/// that the rollback in progress will report.
pub struct SaveSettingsView {
    pub phase: SavePhase,
    pub config: AppConfigView,
    pub token: Seq<char>,
    pub previous_config: Option<AppConfigView>,
    pub previous_token: Option<Seq<char>>,
    pub failure: Option<ServiceResultView<AppConfigView>>,
}

impl View for SaveSettings {
    type V = SaveSettingsView;

    closed spec fn view(&self) -> SaveSettingsView {
        SaveSettingsView {
            phase: self.phase,
            config: self.config@,
            token: self.token@,
            previous_config: option_view(self.previous_config),
            previous_token: option_view(self.previous_token),
            failure: option_view(self.failure),
        }
    }
}

/// The message of a save that succeeded.
pub open spec fn saved_message() -> Seq<char> {
    "配置已保存，并已同步系统自启动。"@
}

/// The message of a save refused for a blank token.
pub open spec fn blank_token_message() -> Seq<char> {
    "访问令牌不能为空。"@
}

/// The events a save in this state takes: the outcome of the operation it issued.
pub open spec fn save_accepts(m: SaveSettingsView, e: SaveEventView) -> bool {
    match m.phase {
        SavePhase::AwaitingStore => e is StoreOpened,
        SavePhase::AwaitingPreviousConfig => e is PreviousConfig,
        SavePhase::AwaitingPreviousToken => e is PreviousToken,
        SavePhase::AwaitingTokenSave => e is TokenSaved,
        SavePhase::AwaitingConfigSave => e is ConfigSaved,
        SavePhase::AwaitingLaunchOnStartup => e is LaunchOnStartupSet,
        SavePhase::AwaitingConfigRestore => e is ConfigRestored,
        SavePhase::AwaitingTokenRestore => e is TokenRestored,
        SavePhase::Finished => false,
    }
}

/// The invariant of a save: a failure is pending exactly while rolling back,
/// and it is a failure.
pub open spec fn save_well_formed(m: SaveSettingsView) -> bool {
    &&& (m.phase == SavePhase::AwaitingConfigRestore || m.phase == SavePhase::AwaitingTokenRestore)
        <==> m.failure is Some
    &&& m.failure matches Some(f) ==> !f.success
    &&& m.phase == SavePhase::AwaitingConfigRestore ==> m.previous_config is Some
}

/// A save as it starts.
pub open spec fn initial_save(config: AppConfigView, token: Seq<char>) -> SaveSettingsView {
    SaveSettingsView {
        phase: SavePhase::AwaitingStore,
        config,
        token,
        previous_config: None,
        previous_token: None,
        failure: None,
    }
}

/// The pending failure with a note on a rollback that failed too.
pub open spec fn with_note(m: SaveSettingsView, note: Seq<char>, detail: Seq<char>) -> ServiceResultView<
    AppConfigView,
> {
    failed(m.failure.unwrap().message + note + detail)
}

/// The transition of a save: the next state and the next operation.
pub open spec fn save_next(m: SaveSettingsView, e: SaveEventView) -> (SaveSettingsView, SaveActionView) {
    let done = SaveSettingsView { phase: SavePhase::Finished, failure: None, ..m };
    match e {
        SaveEventView::StoreOpened(r) => match r {
            Err(message) => (done, SaveActionView::Finish(failed(message))),
            Ok(_) => if is_blank(m.token) {
                (done, SaveActionView::Finish(failed(blank_token_message())))
            } else {
                (
                    SaveSettingsView { phase: SavePhase::AwaitingPreviousConfig, ..m },
                    SaveActionView::LoadPreviousConfig,
                )
            },
        },
        SaveEventView::PreviousConfig(p) => (
            SaveSettingsView { phase: SavePhase::AwaitingPreviousToken, previous_config: p, ..m },
            SaveActionView::LoadPreviousToken,
        ),
        SaveEventView::PreviousToken(t) => (
            SaveSettingsView { phase: SavePhase::AwaitingTokenSave, previous_token: t, ..m },
            SaveActionView::SaveToken(trim(m.token)),
        ),
        SaveEventView::TokenSaved(r) => if !r.success {
            (done, SaveActionView::Finish(failed(r.message)))
        } else {
            (
                SaveSettingsView { phase: SavePhase::AwaitingConfigSave, ..m },
                SaveActionView::SaveConfig(m.config),
            )
        },
        SaveEventView::ConfigSaved(r) => if !r.success {
            (
                SaveSettingsView { phase: SavePhase::AwaitingTokenRestore, failure: Some(r), ..m },
                SaveActionView::RestoreToken(m.previous_token),
            )
        } else {
            (
                SaveSettingsView { phase: SavePhase::AwaitingLaunchOnStartup, ..m },
                SaveActionView::SetLaunchOnStartup(m.config.launch_on_system_startup),
            )
        },
        SaveEventView::LaunchOnStartupSet(s) => if s.success {
            (done, SaveActionView::Finish(succeeded(saved_message(), m.config)))
        } else {
            match m.previous_config {
                Some(p) => (
                    SaveSettingsView {
                        phase: SavePhase::AwaitingConfigRestore,
                        failure: Some(failed(s.message)),
                        ..m
                    },
                    SaveActionView::RestoreConfig(p),
                ),
                None => (
                    SaveSettingsView {
                        phase: SavePhase::AwaitingTokenRestore,
                        failure: Some(failed(s.message)),
                        ..m
                    },
                    SaveActionView::RestoreToken(m.previous_token),
                ),
            }
        },
        SaveEventView::ConfigRestored(r) => if !r.success {
            (done, SaveActionView::Finish(with_note(m, " 配置回滚也失败: "@, r.message)))
        } else {
            (
                SaveSettingsView { phase: SavePhase::AwaitingTokenRestore, ..m },
                SaveActionView::RestoreToken(m.previous_token),
            )
        },
        SaveEventView::TokenRestored(r) => match r {
            Err(detail) => (done, SaveActionView::Finish(with_note(m, " 访问令牌回滚失败: "@, detail))),
            Ok(_) => (done, SaveActionView::Finish(m.failure.unwrap())),
        },
    }
}

/// The number of operations a save can still issue, at most.
pub open spec fn save_steps_left(phase: SavePhase) -> int {
    match phase {
        SavePhase::AwaitingStore => 8,
        SavePhase::AwaitingPreviousConfig => 7,
        SavePhase::AwaitingPreviousToken => 6,
        SavePhase::AwaitingTokenSave => 5,
        SavePhase::AwaitingConfigSave => 4,
        SavePhase::AwaitingLaunchOnStartup => 3,
        SavePhase::AwaitingConfigRestore => 2,
        SavePhase::AwaitingTokenRestore => 1,
        SavePhase::Finished => 0,
    }
}

fn copy_token(t: &Option<String>) -> (r: Option<String>)
    ensures
        option_view(r) == option_view(*t),
{
    match t {
        Some(s) => Some(s.clone()),
        None => None,
    }
}

fn noted_failure(failure: &ServiceResult<AppConfig>, note: &str, detail: &str) -> (r: ServiceResult<
    AppConfig,
>)
    ensures
        r@ == failed::<AppConfigView>(failure.message@ + note@ + detail@),
{
    let message = joined3(failure.message.as_str(), note, detail);
    ServiceResult::fail(message.as_str())
}

impl SaveSettings {
    /// A save of `config` with `token`, and its first operation.
    pub fn start(config: AppConfig, token: String) -> (r: (SaveSettings, SaveAction))
        ensures
            r.0@ == initial_save(config@, token@),
            save_action_view(r.1) == SaveActionView::OpenConfigStore,
            save_well_formed(r.0@),
    {
        (
            SaveSettings {
                phase: SavePhase::AwaitingStore,
                config,
                token,
                previous_config: None,
                previous_token: None,
                failure: None,
            },
            SaveAction::OpenConfigStore,
        )
    }

    /// Where the save stands.
    pub fn phase(&self) -> (p: SavePhase)
        ensures
            p == self@.phase,
    {
        self.phase
    }

    /// Whether the save takes `event` now: it must be the outcome of the
    /// operation the save issued last.
    pub fn takes(&self, event: &SaveEvent) -> (r: bool)
        ensures
            r == save_accepts(self@, save_event_view(*event)),
    {
        match self.phase {
            SavePhase::AwaitingStore => matches!(event, SaveEvent::StoreOpened(_)),
            SavePhase::AwaitingPreviousConfig => matches!(event, SaveEvent::PreviousConfig(_)),
            SavePhase::AwaitingPreviousToken => matches!(event, SaveEvent::PreviousToken(_)),
            SavePhase::AwaitingTokenSave => matches!(event, SaveEvent::TokenSaved(_)),
            SavePhase::AwaitingConfigSave => matches!(event, SaveEvent::ConfigSaved(_)),
            SavePhase::AwaitingLaunchOnStartup => matches!(event, SaveEvent::LaunchOnStartupSet(_)),
            SavePhase::AwaitingConfigRestore => matches!(event, SaveEvent::ConfigRestored(_)),
            SavePhase::AwaitingTokenRestore => matches!(event, SaveEvent::TokenRestored(_)),
            SavePhase::Finished => false,
        }
    }

    /// Takes the outcome of the last operation and gives the next one.
    pub fn step(self, event: SaveEvent) -> (r: (SaveSettings, SaveAction))
        requires
            save_well_formed(self@),
            save_accepts(self@, save_event_view(event)),
        ensures
            (r.0@, save_action_view(r.1)) == save_next(self@, save_event_view(event)),
            save_well_formed(r.0@),
    {
        proof {
            lemma_save_next_keeps_well_formed(self@, save_event_view(event));
        }
        let SaveSettings { phase: _, config, token, previous_config, previous_token, failure } = self;
        match event {
            SaveEvent::StoreOpened(opened) => {
                match opened {
                    Err(message) => {
                        let result = ServiceResult::fail(message.as_str());
                        (
                            SaveSettings {
                                phase: SavePhase::Finished,
                                config,
                                token,
                                previous_config,
                                previous_token,
                                failure: None,
                            },
                            SaveAction::Finish(result),
                        )
                    },
                    Ok(()) => {
                        if is_blank_text(token.as_str()) {
                            let result = ServiceResult::fail("访问令牌不能为空。");
                            (
                                SaveSettings {
                                    phase: SavePhase::Finished,
                                    config,
                                    token,
                                    previous_config,
                                    previous_token,
                                    failure: None,
                                },
                                SaveAction::Finish(result),
                            )
                        } else {
                            (
                                SaveSettings {
                                    phase: SavePhase::AwaitingPreviousConfig,
                                    config,
                                    token,
                                    previous_config,
                                    previous_token,
                                    failure,
                                },
                                SaveAction::LoadPreviousConfig,
                            )
                        }
                    },
                }
            },
            SaveEvent::PreviousConfig(found) => (
                SaveSettings {
                    phase: SavePhase::AwaitingPreviousToken,
                    config,
                    token,
                    previous_config: found,
                    previous_token,
                    failure,
                },
                SaveAction::LoadPreviousToken,
            ),
            SaveEvent::PreviousToken(found) => {
                let to_store = trimmed(token.as_str());
                (
                    SaveSettings {
                        phase: SavePhase::AwaitingTokenSave,
                        config,
                        token,
                        previous_config,
                        previous_token: found,
                        failure,
                    },
                    SaveAction::SaveToken(to_store),
                )
            },
            SaveEvent::TokenSaved(saved) => {
                if !saved.success {
                    let result = ServiceResult::fail(saved.message.as_str());
                    (
                        SaveSettings {
                            phase: SavePhase::Finished,
                            config,
                            token,
                            previous_config,
                            previous_token,
                            failure: None,
                        },
                        SaveAction::Finish(result),
                    )
                } else {
                    let to_save = config.copied();
                    (
                        SaveSettings {
                            phase: SavePhase::AwaitingConfigSave,
                            config,
                            token,
                            previous_config,
                            previous_token,
                            failure,
                        },
                        SaveAction::SaveConfig(to_save),
                    )
                }
            },
            SaveEvent::ConfigSaved(saved) => {
                if !saved.success {
                    let restore = copy_token(&previous_token);
                    (
                        SaveSettings {
                            phase: SavePhase::AwaitingTokenRestore,
                            config,
                            token,
                            previous_config,
                            previous_token,
                            failure: Some(saved),
                        },
                        SaveAction::RestoreToken(restore),
                    )
                } else {
                    let launch = config.launch_on_system_startup;
                    (
                        SaveSettings {
                            phase: SavePhase::AwaitingLaunchOnStartup,
                            config,
                            token,
                            previous_config,
                            previous_token,
                            failure,
                        },
                        SaveAction::SetLaunchOnStartup(launch),
                    )
                }
            },
            SaveEvent::LaunchOnStartupSet(set) => {
                if set.success {
                    let result = ServiceResult::ok("配置已保存，并已同步系统自启动。", config.copied());
                    (
                        SaveSettings {
                            phase: SavePhase::Finished,
                            config,
                            token,
                            previous_config,
                            previous_token,
                            failure: None,
                        },
                        SaveAction::Finish(result),
                    )
                } else {
                    let pending = ServiceResult::fail(set.message.as_str());
                    match previous_config {
                        Some(earlier) => {
                            let restore = earlier.copied();
                            (
                                SaveSettings {
                                    phase: SavePhase::AwaitingConfigRestore,
                                    config,
                                    token,
                                    previous_config: Some(earlier),
                                    previous_token,
                                    failure: Some(pending),
                                },
                                SaveAction::RestoreConfig(restore),
                            )
                        },
                        None => {
                            let restore = copy_token(&previous_token);
                            (
                                SaveSettings {
                                    phase: SavePhase::AwaitingTokenRestore,
                                    config,
                                    token,
                                    previous_config: None,
                                    previous_token,
                                    failure: Some(pending),
                                },
                                SaveAction::RestoreToken(restore),
                            )
                        },
                    }
                }
            },
            SaveEvent::ConfigRestored(restored) => {
                let pending = failure.unwrap();
                if !restored.success {
                    let result = noted_failure(
                        &pending,
                        " 配置回滚也失败: ",
                        restored.message.as_str(),
                    );
                    (
                        SaveSettings {
                            phase: SavePhase::Finished,
                            config,
                            token,
                            previous_config,
                            previous_token,
                            failure: None,
                        },
                        SaveAction::Finish(result),
                    )
                } else {
                    let restore = copy_token(&previous_token);
                    (
                        SaveSettings {
                            phase: SavePhase::AwaitingTokenRestore,
                            config,
                            token,
                            previous_config,
                            previous_token,
                            failure: Some(pending),
                        },
                        SaveAction::RestoreToken(restore),
                    )
                }
            },
            SaveEvent::TokenRestored(restored) => {
                let pending = failure.unwrap();
                let result = match restored {
                    Err(detail) => noted_failure(&pending, " 访问令牌回滚失败: ", detail.as_str()),
                    Ok(()) => pending,
                };
                (
                    SaveSettings {
                        phase: SavePhase::Finished,
                        config,
                        token,
                        previous_config,
                        previous_token,
                        failure: None,
                    },
                    SaveAction::Finish(result),
                )
            },
        }
    }
}

/// Every step keeps the invariant of a save.
pub proof fn lemma_save_next_keeps_well_formed(m: SaveSettingsView, e: SaveEventView)
    requires
        save_well_formed(m),
        save_accepts(m, e),
    ensures
        save_well_formed(save_next(m, e).0),
{
}

/// A save ends: every step lowers the number of operations left, and a save
/// is finished exactly when none is left.
pub proof fn lemma_save_ends(m: SaveSettingsView, e: SaveEventView)
    requires
        save_well_formed(m),
        save_accepts(m, e),
    ensures
        0 <= save_steps_left(save_next(m, e).0.phase) < save_steps_left(m.phase),
        save_steps_left(m.phase) == 0 <==> m.phase == SavePhase::Finished,
{
}

/// A save succeeds only at its last step, once launch at system start is set
/// as the configuration asks;
/// that step is reached only after the configuration was saved, which in
/// turn is reached only after the token was stored. The result carries the
/// configuration that was asked to be saved, and launch at system start is
/// set on exactly when that configuration asks for it.
pub proof fn lemma_success_only_after_every_write(m: SaveSettingsView, e: SaveEventView)
    requires
        save_well_formed(m),
        save_accepts(m, e),
    ensures
        save_next(m, e).1 matches SaveActionView::Finish(r) && r.success ==> (m.phase
            == SavePhase::AwaitingLaunchOnStartup && (e matches SaveEventView::LaunchOnStartupSet(s)
            && s.success) && save_next(m, e).1 == SaveActionView::Finish(
            succeeded(saved_message(), m.config),
        )),
        save_next(m, e).0.phase == SavePhase::AwaitingLaunchOnStartup ==> (m.phase
            == SavePhase::AwaitingConfigSave && (e matches SaveEventView::ConfigSaved(r) && r.success)
            && save_next(m, e).1 == SaveActionView::SetLaunchOnStartup(
            m.config.launch_on_system_startup,
        )),
        save_next(m, e).1 is SetLaunchOnStartup ==> save_next(m, e).1
            == SaveActionView::SetLaunchOnStartup(m.config.launch_on_system_startup),
        save_next(m, e).0.phase == SavePhase::AwaitingConfigSave ==> (m.phase
            == SavePhase::AwaitingTokenSave && (e matches SaveEventView::TokenSaved(r) && r.success)),
{
}

/// A blank token is refused before anything is written.
pub proof fn lemma_blank_token_is_refused(config: AppConfigView, token: Seq<char>)
    requires
        is_blank(token),
    ensures
        save_next(initial_save(config, token), SaveEventView::StoreOpened(Ok(()))).1
            == SaveActionView::Finish(failed::<AppConfigView>(blank_token_message())),
{
}

/// What a save writes is what it was given or what it found before: the
/// token stored is the given one without its surrounding white space and
/// goes only to the keychain, the configuration written is the given one,
/// and a rollback writes back the configuration and token found before.
pub proof fn lemma_writes_carry_given_values(m: SaveSettingsView, e: SaveEventView)
    requires
        save_well_formed(m),
        save_accepts(m, e),
    ensures
        save_next(m, e).1 is SaveToken ==> save_next(m, e).1 == SaveActionView::SaveToken(
            trim(m.token),
        ),
        save_next(m, e).1 is SaveConfig ==> save_next(m, e).1 == SaveActionView::SaveConfig(
            m.config,
        ),
        save_next(m, e).1 is RestoreConfig ==> m.previous_config is Some && save_next(m, e).1
            == SaveActionView::RestoreConfig(m.previous_config.unwrap()),
        save_next(m, e).1 is RestoreToken ==> save_next(m, e).1 == SaveActionView::RestoreToken(
            m.previous_token,
        ),
{
}

/// When the configuration cannot be saved, the token is put back as it was
/// found; the save then fails with the configuration's failure, noted with
/// the keychain's message if putting the token back failed too.
pub proof fn lemma_failed_config_save_restores_token(
    m: SaveSettingsView,
    r: ServiceResultView<AppConfigView>,
    restored: Result<(), Seq<char>>,
)
    requires
        save_well_formed(m),
        m.phase == SavePhase::AwaitingConfigSave,
        !r.success,
    ensures
        ({
            let (m1, a1) = save_next(m, SaveEventView::ConfigSaved(r));
            &&& a1 == SaveActionView::RestoreToken(m.previous_token)
            &&& save_next(m1, SaveEventView::TokenRestored(restored)).1 == SaveActionView::Finish(
                match restored {
                    Ok(_) => r,
                    Err(d) => failed(r.message + " 访问令牌回滚失败: "@ + d),
                },
            )
        }),
{
}

/// When launch at system start cannot be set, the earlier configuration
/// (if there was one) is saved again and then the earlier token is put back;
/// the save fails with the launcher's message.
pub proof fn lemma_failed_startup_rolls_back(m: SaveSettingsView, s: ServiceResultView<bool>)
    requires
        save_well_formed(m),
        m.phase == SavePhase::AwaitingLaunchOnStartup,
        !s.success,
    ensures
        ({
            let (m1, a1) = save_next(m, SaveEventView::LaunchOnStartupSet(s));
            &&& m1.failure == Some(failed::<AppConfigView>(s.message))
            &&& match m.previous_config {
                Some(p) => a1 == SaveActionView::RestoreConfig(p),
                None => a1 == SaveActionView::RestoreToken(m.previous_token),
            }
            &&& save_next(m1, SaveEventView::TokenRestored(Ok(()))).1 == SaveActionView::Finish(
                failed::<AppConfigView>(s.message),
            )
        }),
{
}

} // verus!
