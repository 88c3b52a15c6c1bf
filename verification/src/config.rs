//! The configuration file: its validation rules and what loading and saving
//! report for each outcome of the file operations.
use vstd::prelude::*;

use crate::models::{
    default_config, double_le, double_lt, failed, option_view, succeeded, AppConfig, AppConfigView,
    ServiceResult, ServiceResultView, Temperature,
};
use crate::text::{has_prefix, is_blank, is_blank_text, joined, same_text, starts_with_text};

verus! {

/// The scheme of the URL that `reqwest::Url::parse` reads from `input`, or
/// `None` where it rejects the input.
pub uninterp spec fn url_scheme(input: Seq<char>) -> Option<Seq<char>>;

/// Calls `reqwest::Url::parse` (the `url` crate's parser) on `input` and, on
/// success, `Url::scheme`. Claims only that the result is a function of the
/// input text, named [`url_scheme`]; what the WHATWG URL grammar accepts is
/// not stated.
#[verifier::external_body]
fn parse_url_scheme(input: &str) -> (scheme: Option<String>)
    ensures
        option_view(scheme) == url_scheme(input@),
{
    match reqwest::Url::parse(input) {
        Ok(url) => Some(url.scheme().to_string()),
        Err(_) => None,
    }
}

/// The first rule that `config` breaks, as the message shown to the user, or
/// `None` when it breaks none; `scheme` is what URL parsing made of the base URL.
pub open spec fn config_error(config: AppConfigView, scheme: Option<Seq<char>>) -> Option<Seq<char>> {
    if is_blank(config.base_url) {
        Some("baseUrl 不能为空。"@)
    } else if scheme.is_none() {
        Some("baseUrl 不是有效地址。"@)
    } else if scheme.unwrap() != "http"@ && scheme.unwrap() != "https"@ {
        Some("baseUrl 仅支持 http 或 https 协议。"@)
    } else if !has_prefix(config.climate_entity_id, "climate."@) {
        Some("climateEntityId 必须是 climate.xxx 格式。"@)
    } else if double_lt(config.max_temperature, config.min_temperature) {
        Some("最小温度不能大于最大温度。"@)
    } else if double_le(config.temperature_step, 0) {
        Some("temperatureStep 必须大于 0。"@)
    } else if double_lt(config.default_temperature, config.min_temperature) || double_lt(
        config.max_temperature,
        config.default_temperature,
    ) {
        Some("defaultTemperature 必须在温度范围内。"@)
    } else {
        None
    }
}

/// The rules of [`config_error`] for a configuration, with URL parsing done
/// by the `url` crate.
pub open spec fn validation_error(config: AppConfigView) -> Option<Seq<char>> {
    config_error(config, url_scheme(config.base_url))
}

/// `Ok` exactly when `error` is `None`; otherwise the error message.
pub open spec fn outcome_matches(r: Result<(), String>, error: Option<Seq<char>>) -> bool {
    match r {
        Ok(_) => error.is_none(),
        Err(m) => error == Some(m@),
    }
}

/// Applies the configuration rules given what URL parsing made of the base
/// URL (`url_scheme` is `None` where parsing failed).
pub fn check_config(config: &AppConfig, url_scheme: Option<String>) -> (r: Result<(), String>)
    ensures
        outcome_matches(r, config_error(config@, option_view(url_scheme))),
{
    if is_blank_text(config.base_url.as_str()) {
        return Err(String::from_str("baseUrl 不能为空。"));
    }
    match url_scheme {
        None => {
            return Err(String::from_str("baseUrl 不是有效地址。"));
        },
        Some(scheme) => {
            if !same_text(scheme.as_str(), "http") && !same_text(scheme.as_str(), "https") {
                return Err(String::from_str("baseUrl 仅支持 http 或 https 协议。"));
            }
        },
    }
    if !starts_with_text(config.climate_entity_id.as_str(), "climate.") {
        return Err(String::from_str("climateEntityId 必须是 climate.xxx 格式。"));
    }
    if config.max_temperature.less_than(&config.min_temperature) {
        return Err(String::from_str("最小温度不能大于最大温度。"));
    }
    if config.temperature_step.at_most(&Temperature::zero()) {
        return Err(String::from_str("temperatureStep 必须大于 0。"));
    }
    if config.default_temperature.less_than(&config.min_temperature)
        || config.max_temperature.less_than(&config.default_temperature) {
        return Err(String::from_str("defaultTemperature 必须在温度范围内。"));
    }
    Ok(())
}

/// What reading and parsing the configuration file produced.
pub enum ConfigFile {
    /// The file does not exist.
    Missing,
    /// The file could not be read; the text describes the error.
    Unreadable(String),
    /// The file is not a configuration in JSON; the text describes the error.
    Malformed(String),
    /// The configuration the file holds.
    Parsed(AppConfig),
}

/// What writing the configuration file produced.
pub enum ConfigWrite {
    /// The configuration was written.
    Written,
    /// The configuration could not be turned into JSON; the text describes the error.
    NotSerialized(String),
    /// The file could not be written; the text describes the error.
    NotWritten(String),
}

/// Where the configuration lives, and the rules that loading and saving apply.
pub struct ConfigStore {
    config_path: String,
}

impl ConfigStore {
    /// A store for the configuration file at `config_path`.
    pub fn new(config_path: String) -> (store: ConfigStore)
        ensures
            store.path() == config_path@,
    {
        ConfigStore { config_path }
    }

    /// The path of the configuration file.
    pub closed spec fn path(&self) -> Seq<char> {
        self.config_path@
    }

    /// The path of the configuration file.
    pub fn config_path(&self) -> (p: &str)
        ensures
            p@ == self.path(),
    {
        self.config_path.as_str()
    }

    /// Checks `config` against the configuration rules.
    pub fn validate(&self, config: &AppConfig) -> (r: Result<(), String>)
        ensures
            outcome_matches(r, validation_error(config@)),
    {
        let scheme = parse_url_scheme(config.base_url.as_str());
        check_config(config, scheme)
    }

    /// What loading reports, given what reading and parsing the file produced:
    /// the default configuration when there is no file, and a parsed
    /// configuration only when it passes validation.
    pub fn load(&self, file: ConfigFile) -> (r: ServiceResult<AppConfig>)
        ensures
            r@ == load_result(file_view(file)),
    {
        match file {
            ConfigFile::Missing => ServiceResult::ok("已使用默认配置。", AppConfig::default()),
            ConfigFile::Unreadable(error) => {
                let message = joined("读取配置失败: ", error.as_str());
                ServiceResult::fail(message.as_str())
            },
            ConfigFile::Malformed(error) => {
                let message = joined("解析配置失败: ", error.as_str());
                ServiceResult::fail(message.as_str())
            },
            ConfigFile::Parsed(config) => {
                match self.validate(&config) {
                    Ok(()) => ServiceResult::ok("配置已加载。", config),
                    Err(message) => ServiceResult::fail(message.as_str()),
                }
            },
        }
    }

    /// The check that precedes writing: `Ok` when `config` may be written,
    /// otherwise the failed save result that reports the broken rule.
    pub fn prepare_save(&self, config: &AppConfig) -> (r: Result<(), ServiceResult<AppConfig>>)
        ensures
            match r {
                Ok(_) => validation_error(config@).is_none(),
                Err(failure) => validation_error(config@) is Some && failure@ == failed::<
                    AppConfigView,
                >(validation_error(config@).unwrap()),
            },
    {
        match self.validate(config) {
            Ok(()) => Ok(()),
            Err(message) => Err(ServiceResult::fail(message.as_str())),
        }
    }

    /// What saving reports once the write of a valid `config` was attempted.
    pub fn finish_save(&self, config: &AppConfig, write: ConfigWrite) -> (r: ServiceResult<
        AppConfig,
    >)
        ensures
            r@ == save_result(config@, write_view(write)),
    {
        match write {
            ConfigWrite::Written => ServiceResult::ok("配置已保存。", config.copied()),
            ConfigWrite::NotSerialized(error) => {
                let message = joined("序列化配置失败: ", error.as_str());
                ServiceResult::fail(message.as_str())
            },
            ConfigWrite::NotWritten(error) => {
                let message = joined("写入配置失败: ", error.as_str());
                ServiceResult::fail(message.as_str())
            },
        }
    }
}

/// Mathematical model of a [`ConfigFile`].
pub enum ConfigFileView {
    Missing,
    Unreadable(Seq<char>),
    Malformed(Seq<char>),
    Parsed(AppConfigView),
}

/// The model of a [`ConfigFile`].
pub open spec fn file_view(file: ConfigFile) -> ConfigFileView {
    match file {
        ConfigFile::Missing => ConfigFileView::Missing,
        ConfigFile::Unreadable(e) => ConfigFileView::Unreadable(e@),
        ConfigFile::Malformed(e) => ConfigFileView::Malformed(e@),
        ConfigFile::Parsed(c) => ConfigFileView::Parsed(c@),
    }
}

/// Mathematical model of a [`ConfigWrite`].
pub enum ConfigWriteView {
    Written,
    NotSerialized(Seq<char>),
    NotWritten(Seq<char>),
}

/// The model of a [`ConfigWrite`].
pub open spec fn write_view(write: ConfigWrite) -> ConfigWriteView {
    match write {
        ConfigWrite::Written => ConfigWriteView::Written,
        ConfigWrite::NotSerialized(e) => ConfigWriteView::NotSerialized(e@),
        ConfigWrite::NotWritten(e) => ConfigWriteView::NotWritten(e@),
    }
}

/// What loading reports for each outcome of reading the file.
pub open spec fn load_result(file: ConfigFileView) -> ServiceResultView<AppConfigView> {
    match file {
        ConfigFileView::Missing => succeeded("已使用默认配置。"@, default_config()),
        ConfigFileView::Unreadable(e) => failed("读取配置失败: "@ + e),
        ConfigFileView::Malformed(e) => failed("解析配置失败: "@ + e),
        ConfigFileView::Parsed(c) => match validation_error(c) {
            None => succeeded("配置已加载。"@, c),
            Some(m) => failed(m),
        },
    }
}

/// What saving a valid `config` reports for each outcome of the write.
pub open spec fn save_result(config: AppConfigView, write: ConfigWriteView) -> ServiceResultView<
    AppConfigView,
> {
    match write {
        ConfigWriteView::Written => succeeded("配置已保存。"@, config),
        ConfigWriteView::NotSerialized(e) => failed("序列化配置失败: "@ + e),
        ConfigWriteView::NotWritten(e) => failed("写入配置失败: "@ + e),
    }
}

/// Loading never hands out a configuration that breaks a rule: a successful
/// load carries either the default configuration (no file yet) or a
/// configuration that passes validation.
pub proof fn lemma_loaded_config_is_default_or_valid(file: ConfigFileView)
    ensures
        load_result(file).success ==> load_result(file).data is Some && (load_result(
            file,
        ).data.unwrap() == default_config() || validation_error(load_result(file).data.unwrap())
            is None),
{
}

/// The default configuration breaks the rules: its base URL is empty, so
/// validating it fails with the empty-URL message.
pub proof fn lemma_default_config_is_not_valid()
    ensures
        validation_error(default_config()) == Some("baseUrl 不能为空。"@),
{
    assert(is_blank(default_config().base_url));
}

/// A saved configuration can be loaded again: when the write succeeds the
/// result carries the configuration itself, and loading that configuration
/// back from the file succeeds with the same configuration.
pub proof fn lemma_saved_config_loads_back(config: AppConfigView)
    requires
        validation_error(config).is_none(),
    ensures
        save_result(config, ConfigWriteView::Written).data == Some(config),
        load_result(ConfigFileView::Parsed(config)) == succeeded("配置已加载。"@, config),
{
}

/// A configuration passes exactly when it keeps every rule: a base URL that
/// is not blank and parses with the scheme `http` or `https`, an entity id
/// that starts with `climate.`, a minimum not above the maximum, a step that
/// is not at or below zero, and a default not outside the range.
pub proof fn lemma_valid_exactly_when_every_rule_holds(
    config: AppConfigView,
    scheme: Option<Seq<char>>,
)
    ensures
        config_error(config, scheme) is None <==> {
            &&& !is_blank(config.base_url)
            &&& scheme matches Some(sch) && (sch == "http"@ || sch == "https"@)
            &&& has_prefix(config.climate_entity_id, "climate."@)
            &&& !double_lt(config.max_temperature, config.min_temperature)
            &&& !double_le(config.temperature_step, 0)
            &&& !double_lt(config.default_temperature, config.min_temperature)
            &&& !double_lt(config.max_temperature, config.default_temperature)
        },
{
}

/// The step rule refuses exactly the steps at or below zero: for a
/// configuration that keeps the URL, entity, range and default rules, every
/// step above zero (however small) passes, and every step at or below zero
/// (either zero included) is refused with the step message.
pub proof fn lemma_every_positive_step_passes(config: AppConfigView, scheme: Option<Seq<char>>)
    requires
        !is_blank(config.base_url),
        scheme == Some("http"@) || scheme == Some("https"@),
        has_prefix(config.climate_entity_id, "climate."@),
        !double_lt(config.max_temperature, config.min_temperature),
        !double_lt(config.default_temperature, config.min_temperature),
        !double_lt(config.max_temperature, config.default_temperature),
    ensures
        double_lt(0, config.temperature_step) ==> config_error(config, scheme) is None,
        double_le(config.temperature_step, 0) ==> config_error(config, scheme) == Some(
            "temperatureStep 必须大于 0。"@,
        ),
{
    reveal_strlit("http");
    reveal_strlit("https");
    let step = config.temperature_step;
    if double_lt(0, step) {
        assert(!double_le(step, 0));
    }
}

/// Loading succeeds only when there is no file (and then gives the default
/// configuration) or the file holds a configuration that passes validation
/// (and then gives that configuration). A file that cannot be read or is not
/// a configuration in JSON fails, without a configuration, with the reason
/// after its own prefix.
pub proof fn lemma_load_succeeds_only_on_missing_or_valid_file(file: ConfigFileView)
    ensures
        load_result(file).success <==> (file is Missing || (file matches ConfigFileView::Parsed(c)
            && validation_error(c) is None)),
        file is Missing ==> load_result(file).data == Some(default_config()),
        file matches ConfigFileView::Parsed(c) ==> (validation_error(c) is None ==> load_result(
            file,
        ).data == Some(c)),
        !load_result(file).success ==> load_result(file).data is None,
        file matches ConfigFileView::Malformed(e) ==> load_result(file) == failed::<AppConfigView>(
            "解析配置失败: "@ + e,
        ),
        file matches ConfigFileView::Unreadable(e) ==> load_result(file) == failed::<
            AppConfigView,
        >("读取配置失败: "@ + e),
        file matches ConfigFileView::Parsed(c) ==> (validation_error(c) matches Some(m)
            ==> load_result(file) == failed::<AppConfigView>(m)),
{
}

/// Saving succeeds exactly when the file was written, and then reports the
/// configuration that was written; a failed write reports no configuration.
pub proof fn lemma_save_succeeds_only_when_written(config: AppConfigView, write: ConfigWriteView)
    ensures
        save_result(config, write).success <==> write is Written,
        write is Written ==> save_result(config, write).data == Some(config),
        !(write is Written) ==> save_result(config, write).data is None,
{
}

} // verus!
