//! The Home Assistant REST interface: the endpoints the controller calls, the
//! authorization header it sends, and what it reports for each reply.
use vstd::prelude::*;

use crate::models::{
    failed, option_view, succeeded, ClimateState, ClimateStateView, ServiceResult,
    ServiceResultView, Temperature,
};
use crate::text::{
    decimal, decimal_text, eq_ignore_ascii_case, equals_ignoring_ascii_case, joined, joined3,
    has_prefix, same_text, strip_trailing, without_trailing,
};

verus! {

#[verifier::external_type_specification]
#[verifier::external_body]
pub struct ExHeaderValue(reqwest::header::HeaderValue);

#[verifier::external_type_specification]
#[verifier::external_body]
pub struct ExInvalidHeaderValue(reqwest::header::InvalidHeaderValue);

/// A character whose UTF-8 bytes `HeaderValue::from_str` accepts: visible
/// ASCII, space, tab, or any non-ASCII character (whose bytes are all >= 0x80).
pub open spec fn header_char_allowed(c: char) -> bool {
    let v = c as u32;
    (v >= 32 && v != 127) || v == 9
}

/// Text that `HeaderValue::from_str` accepts.
pub open spec fn valid_header_text(s: Seq<char>) -> bool {
    forall|i: int| 0 <= i < s.len() ==> header_char_allowed(#[trigger] s[i])
}

/// Calls `HeaderValue::from_str` (crate `http`, re-exported by `reqwest`).
/// Its source rejects the text exactly when one of its bytes is below 32 and
/// not a tab, or is 127; the contract states that over characters.
#[verifier::external_body]
fn header_value_from_text(text: &str) -> (r: Result<
    reqwest::header::HeaderValue,
    reqwest::header::InvalidHeaderValue,
>)
    ensures
        r is Ok <==> valid_header_text(text@),
{
    reqwest::header::HeaderValue::from_str(text)
}

/// Calls `Display` of `InvalidHeaderValue`, which writes a fixed text.
#[verifier::external_body]
fn invalid_header_text(error: &reqwest::header::InvalidHeaderValue) -> (r: String)
    ensures
        r@ == "failed to parse header value"@,
{
    error.to_string()
}

/// The `Authorization` header for a long-lived access token.
pub open spec fn bearer(token: Seq<char>) -> Seq<char> {
    "Bearer "@ + token
}

/// The text of the `Authorization` header for `token`, once `http` has
/// accepted it as a header value, or the message that the header could not
/// be built.
pub fn authorization_text(token: &str) -> (r: Result<String, String>)
    ensures
        r is Ok <==> valid_header_text(bearer(token@)),
        r matches Ok(t) ==> t@ == bearer(token@),
        r matches Err(m) ==> m@ == "构造认证头失败: "@ + "failed to parse header value"@,
{
    let text = joined("Bearer ", token);
    match header_value_from_text(text.as_str()) {
        Ok(_) => Ok(text),
        Err(error) => {
            let detail = invalid_header_text(&error);
            Err(joined("构造认证头失败: ", detail.as_str()))
        },
    }
}

/// The URL of the state of `entity_id`.
pub open spec fn state_url_of(base_url: Seq<char>, entity_id: Seq<char>) -> Seq<char> {
    strip_trailing(base_url, '/') + "/api/states/"@ + entity_id
}

/// The URL of a climate service such as `turn_on`.
pub open spec fn service_url_of(base_url: Seq<char>, action: Seq<char>) -> Seq<char> {
    strip_trailing(base_url, '/') + "/api/services/climate/"@ + action
}

/// The URL of the state of `entity_id`, with the slashes at the end of the base URL dropped.
pub fn state_url(base_url: &str, entity_id: &str) -> (r: String)
    ensures
        r@ == state_url_of(base_url@, entity_id@),
{
    let base = without_trailing(base_url, '/');
    joined3(base.as_str(), "/api/states/", entity_id)
}

/// The URL of the climate service `action`, with the slashes at the end of the base URL dropped.
pub fn service_url(base_url: &str, action: &str) -> (r: String)
    ensures
        r@ == service_url_of(base_url@, action@),
{
    let base = without_trailing(base_url, '/');
    joined3(base.as_str(), "/api/services/climate/", action)
}

/// The fields of a state document that the controller reads: the top-level
/// `entity_id` and `state`, and in `attributes` the `hvac_mode`,
/// `hvac_action`, `current_temperature` and `temperature`. A field is `None`
/// where it is missing or not of the expected kind.
pub struct StateReport {
    pub entity_id: Option<String>,
    pub state: Option<String>,
    pub hvac_mode: Option<String>,
    pub hvac_action: Option<String>,
    pub current_temperature: Option<Temperature>,
    pub target_temperature: Option<Temperature>,
}

/// Mathematical model of a [`StateReport`].
pub struct StateReportView {
    pub entity_id: Option<Seq<char>>,
    pub state: Option<Seq<char>>,
    pub hvac_mode: Option<Seq<char>>,
    pub hvac_action: Option<Seq<char>>,
    pub current_temperature: Option<u64>,
    pub target_temperature: Option<u64>,
}

impl View for StateReport {
    type V = StateReportView;

    open spec fn view(&self) -> StateReportView {
        StateReportView {
            entity_id: option_view(self.entity_id),
            state: option_view(self.state),
            hvac_mode: option_view(self.hvac_mode),
            hvac_action: option_view(self.hvac_action),
            current_temperature: option_view(self.current_temperature),
            target_temperature: option_view(self.target_temperature),
        }
    }
}

/// The text, or `fallback` where there is none.
pub open spec fn text_or(t: Option<Seq<char>>, fallback: Seq<char>) -> Seq<char> {
    match t {
        Some(s) => s,
        None => fallback,
    }
}

/// The device is available unless its state is `unavailable` in any ASCII case.
pub open spec fn available_state(state: Seq<char>) -> bool {
    !eq_ignore_ascii_case(state, "unavailable"@)
}

/// The device is on unless its state is exactly `off` or `unavailable`.
pub open spec fn on_state(state: Seq<char>) -> bool {
    state != "off"@ && state != "unavailable"@
}

/// The device state that a report describes; `fallback_entity_id` stands in
/// for a missing entity id, and the temperature limits are not reported.
pub open spec fn reported_state(report: StateReportView, fallback_entity_id: Seq<char>) -> ClimateStateView {
    let state = text_or(report.state, Seq::empty());
    ClimateStateView {
        entity_id: text_or(report.entity_id, fallback_entity_id),
        state,
        hvac_mode: text_or(report.hvac_mode, Seq::empty()),
        hvac_action: text_or(report.hvac_action, Seq::empty()),
        current_temperature: report.current_temperature,
        target_temperature: report.target_temperature,
        min_temperature: None,
        max_temperature: None,
        temperature_step: None,
        is_available: available_state(state),
        is_on: on_state(state),
    }
}

fn text_or_else(t: Option<String>, fallback: &str) -> (r: String)
    ensures
        r@ == text_or(option_view(t), fallback@),
{
    match t {
        Some(s) => s,
        None => String::from_str(fallback),
    }
}

/// The device state that a state report describes.
pub fn climate_state_from_report(report: StateReport, fallback_entity_id: &str) -> (s: ClimateState)
    ensures
        s@ == reported_state(report@, fallback_entity_id@),
{
    let StateReport {
        entity_id,
        state,
        hvac_mode,
        hvac_action,
        current_temperature,
        target_temperature,
    } = report;
    proof {
        reveal_strlit("");
        assert(""@ =~= Seq::<char>::empty());
    }
    let state = text_or_else(state, "");
    let is_available = !equals_ignoring_ascii_case(state.as_str(), "unavailable");
    let is_on = !same_text(state.as_str(), "off") && !same_text(state.as_str(), "unavailable");
    let entity_id = text_or_else(entity_id, fallback_entity_id);
    let hvac_mode = text_or_else(hvac_mode, "");
    let hvac_action = text_or_else(hvac_action, "");
    let s = ClimateState {
        entity_id,
        state,
        hvac_mode,
        hvac_action,
        current_temperature,
        target_temperature,
        min_temperature: None,
        max_temperature: None,
        temperature_step: None,
        is_available,
        is_on,
    };
    s
}

/// How an HTTP request to Home Assistant went.
pub enum HttpExchange {
    /// The request could not be sent; the text describes the error.
    SendFailed(String),
    /// The reply body could not be read; the text describes the error.
    ReadFailed(String),
    /// The reply with its status code and body.
    Answered { status: u16, body: String },
}

/// Mathematical model of an [`HttpExchange`].
pub enum HttpExchangeView {
    SendFailed(Seq<char>),
    ReadFailed(Seq<char>),
    Answered { status: u16, body: Seq<char> },
}

/// The model of an [`HttpExchange`].
pub open spec fn exchange_view(e: HttpExchange) -> HttpExchangeView {
    match e {
        HttpExchange::SendFailed(m) => HttpExchangeView::SendFailed(m@),
        HttpExchange::ReadFailed(m) => HttpExchangeView::ReadFailed(m@),
        HttpExchange::Answered { status, body } => HttpExchangeView::Answered { status, body: body@ },
    }
}

/// A status in the 2xx range.
pub open spec fn is_success_status(status: u16) -> bool {
    200 <= status <= 299
}

/// The model of a parse outcome of a state document.
pub open spec fn report_view(r: Result<StateReport, String>) -> Result<StateReportView, Seq<char>> {
    match r {
        Ok(s) => Ok(s@),
        Err(e) => Err(e@),
    }
}

/// What reading the device state reports: the failure of the exchange, a
/// status outside 2xx with its code and body, a body that is not a state
/// document, or the state it describes.
pub open spec fn state_result_of(
    exchange: HttpExchangeView,
    report: Result<StateReportView, Seq<char>>,
    fallback_entity_id: Seq<char>,
) -> ServiceResultView<ClimateStateView> {
    match exchange {
        HttpExchangeView::SendFailed(e) => failed("连接 Home Assistant 失败: "@ + e),
        HttpExchangeView::ReadFailed(e) => failed("读取响应失败: "@ + e),
        HttpExchangeView::Answered { status, body } => {
            if !is_success_status(status) {
                failed("获取空调状态失败: "@ + decimal(status as nat) + " "@ + body)
            } else {
                match report {
                    Err(e) => failed("解析状态失败: "@ + e),
                    Ok(r) => succeeded("状态已刷新。"@, reported_state(r, fallback_entity_id)),
                }
            }
        },
    }
}

/// What reading the device state reports, given how the request went and
/// what parsing the reply body as a state document gave.
pub fn state_result(
    exchange: HttpExchange,
    report: Result<StateReport, String>,
    fallback_entity_id: &str,
) -> (r: ServiceResult<ClimateState>)
    ensures
        r@ == state_result_of(exchange_view(exchange), report_view(report), fallback_entity_id@),
{
    match exchange {
        HttpExchange::SendFailed(e) => {
            let m = joined("连接 Home Assistant 失败: ", e.as_str());
            ServiceResult::fail(m.as_str())
        },
        HttpExchange::ReadFailed(e) => {
            let m = joined("读取响应失败: ", e.as_str());
            ServiceResult::fail(m.as_str())
        },
        HttpExchange::Answered { status, body } => {
            if !(200 <= status && status <= 299) {
                let code = decimal_text(status);
                let head = joined3("获取空调状态失败: ", code.as_str(), " ");
                let m = joined(head.as_str(), body.as_str());
                ServiceResult::fail(m.as_str())
            } else {
                match report {
                    Err(e) => {
                        let m = joined("解析状态失败: ", e.as_str());
                        ServiceResult::fail(m.as_str())
                    },
                    Ok(r) => ServiceResult::ok(
                        "状态已刷新。",
                        climate_state_from_report(r, fallback_entity_id),
                    ),
                }
            }
        },
    }
}

/// What a service call reports when it fails, or `None` when it went through
/// and the device state is to be read next.
pub open spec fn service_failure_of(exchange: HttpExchangeView) -> Option<
    ServiceResultView<ClimateStateView>,
> {
    match exchange {
        HttpExchangeView::SendFailed(e) => Some(failed("调用 Home Assistant 失败: "@ + e)),
        HttpExchangeView::ReadFailed(e) => Some(failed("读取响应失败: "@ + e)),
        HttpExchangeView::Answered { status, body } => {
            if !is_success_status(status) {
                Some(failed("调用失败: "@ + decimal(status as nat) + " "@ + body))
            } else {
                None
            }
        },
    }
}

/// What a service call (turn on, turn off, set temperature) reports when it
/// fails, or `None` when the state is to be read next.
pub fn service_failure(exchange: HttpExchange) -> (r: Option<ServiceResult<ClimateState>>)
    ensures
        option_view(r) == service_failure_of(exchange_view(exchange)),
{
    match exchange {
        HttpExchange::SendFailed(e) => {
            let m = joined("调用 Home Assistant 失败: ", e.as_str());
            Some(ServiceResult::fail(m.as_str()))
        },
        HttpExchange::ReadFailed(e) => {
            let m = joined("读取响应失败: ", e.as_str());
            Some(ServiceResult::fail(m.as_str()))
        },
        HttpExchange::Answered { status, body } => {
            if !(200 <= status && status <= 299) {
                let code = decimal_text(status);
                let head = joined3("调用失败: ", code.as_str(), " ");
                let m = joined(head.as_str(), body.as_str());
                Some(ServiceResult::fail(m.as_str()))
            } else {
                None
            }
        },
    }
}

/// A state reported as `unavailable`, in any ASCII case, is neither available
/// nor on; `off` is available but not on; any other state is both.
pub proof fn lemma_availability(report: StateReportView, fallback: Seq<char>)
    ensures
        report.state == Some("unavailable"@) ==> !reported_state(report, fallback).is_available
            && !reported_state(report, fallback).is_on,
        report.state == Some("off"@) ==> reported_state(report, fallback).is_available
            && !reported_state(report, fallback).is_on,
        reported_state(report, fallback).is_available && reported_state(report, fallback).state
            != "off"@ ==> reported_state(report, fallback).is_on,
{
    reveal_strlit("unavailable");
    reveal_strlit("off");
}

/// The device state copies each reported field into its own place: the
/// room temperature from `current_temperature`, the target from
/// `temperature`, the mode and action from their attributes (empty where
/// missing), the entity id from the report (the fallback where missing);
/// the temperature limits are never reported.
pub proof fn lemma_report_fields_keep_their_places(report: StateReportView, fallback: Seq<char>)
    ensures
        ({
            let s = reported_state(report, fallback);
            &&& s.current_temperature == report.current_temperature
            &&& s.target_temperature == report.target_temperature
            &&& report.entity_id matches Some(id) ==> s.entity_id == id
            &&& report.entity_id is None ==> s.entity_id == fallback
            &&& report.state matches Some(st) ==> s.state == st
            &&& report.hvac_mode matches Some(mode) ==> s.hvac_mode == mode
            &&& report.hvac_action matches Some(action) ==> s.hvac_action == action
            &&& report.hvac_mode is None ==> s.hvac_mode.len() == 0
            &&& report.hvac_action is None ==> s.hvac_action.len() == 0
            &&& s.min_temperature is None && s.max_temperature is None
                && s.temperature_step is None
        }),
{
}

/// A state read succeeds only on a 2xx reply whose body is a state document,
/// and then carries the state that document describes; every other
/// exchange fails without a state.
pub proof fn lemma_state_read_succeeds_only_on_2xx(
    exchange: HttpExchangeView,
    report: Result<StateReportView, Seq<char>>,
    fallback: Seq<char>,
)
    ensures
        ({
            let r = state_result_of(exchange, report, fallback);
            &&& r.success <==> (exchange matches HttpExchangeView::Answered { status, .. } && 200
                <= status <= 299 && report is Ok)
            &&& r.success ==> r.data == Some(reported_state(report->Ok_0, fallback))
            &&& !r.success ==> r.data is None
        }),
{
}

/// A service call counts as having gone through exactly on a 2xx reply. Any
/// other status, and any failure to send or read, is reported as a failed
/// call without a state; for a refused call the message is "调用失败: ", the
/// status code in decimal, a space, and the reply body.
pub proof fn lemma_service_call_goes_through_only_on_2xx(exchange: HttpExchangeView)
    ensures
        service_failure_of(exchange) is None <==> (exchange matches HttpExchangeView::Answered {
            status,
            ..
        } && 200 <= status <= 299),
        service_failure_of(exchange) matches Some(f) ==> !f.success && f.data is None,
        exchange matches HttpExchangeView::Answered { status, body } ==> (!(200 <= status <= 299)
            ==> service_failure_of(exchange) == Some(
            failed::<ClimateStateView>("调用失败: "@ + decimal(status as nat) + " "@ + body),
        )),
{
}

/// Dropping the slashes at the end of a text leaves a prefix of it that does
/// not end in a slash, followed in the text only by slashes.
pub proof fn lemma_strip_trailing_slashes(s: Seq<char>)
    ensures
        has_prefix(s, strip_trailing(s, '/')),
        strip_trailing(s, '/').len() == 0 || strip_trailing(s, '/').last() != '/',
        forall|i: int| strip_trailing(s, '/').len() <= i < s.len() ==> #[trigger] s[i] == '/',
    decreases s.len(),
{
    if s.len() > 0 && s.last() == '/' {
        lemma_strip_trailing_slashes(s.drop_last());
        let t = strip_trailing(s, '/');
        assert(s.subrange(0, t.len() as int) =~= s.drop_last().subrange(0, t.len() as int));
        assert forall|i: int| t.len() <= i < s.len() implies #[trigger] s[i] == '/' by {
            if i < s.len() - 1 {
                assert(s[i] == s.drop_last()[i]);
            }
        }
    } else {
        assert(s.subrange(0, s.len() as int) =~= s);
    }
}

/// The URL of a service call names the action it was given and nothing
/// else: the URLs of two actions differ only in the action at their end,
/// which follows "/api/services/climate/" after the base URL without its
/// trailing slashes.
pub proof fn lemma_service_url_names_its_action(base_url: Seq<char>, action: Seq<char>, other: Seq<char>)
    ensures
        ({
            let common = service_url_of(base_url, Seq::empty());
            &&& service_url_of(base_url, action) == common + action
            &&& service_url_of(base_url, action).subrange(
                common.len() as int,
                service_url_of(base_url, action).len() as int,
            ) == action
            &&& has_prefix(common, strip_trailing(base_url, '/'))
            &&& common.subrange(strip_trailing(base_url, '/').len() as int, common.len() as int)
                == "/api/services/climate/"@
            &&& (service_url_of(base_url, action) == service_url_of(base_url, other) <==> action
                == other)
        }),
{
    let common = service_url_of(base_url, Seq::empty());
    let stripped = strip_trailing(base_url, '/');
    assert(common =~= stripped + "/api/services/climate/"@);
    assert(service_url_of(base_url, action) =~= common + action);
    assert(service_url_of(base_url, other) =~= common + other);
    assert((common + action).subrange(common.len() as int, (common + action).len() as int)
        =~= action);
    assert((common + other).subrange(common.len() as int, (common + other).len() as int)
        =~= other);
    assert(common.subrange(0, stripped.len() as int) =~= stripped);
    assert(common.subrange(stripped.len() as int, common.len() as int) =~= "/api/services/climate/"@);
}

/// The URL of a state read names the entity it was given, after
/// "/api/states/" and the base URL without its trailing slashes.
pub proof fn lemma_state_url_names_its_entity(base_url: Seq<char>, entity_id: Seq<char>, other: Seq<char>)
    ensures
        ({
            let common = state_url_of(base_url, Seq::empty());
            &&& state_url_of(base_url, entity_id) == common + entity_id
            &&& has_prefix(common, strip_trailing(base_url, '/'))
            &&& common.subrange(strip_trailing(base_url, '/').len() as int, common.len() as int)
                == "/api/states/"@
            &&& (state_url_of(base_url, entity_id) == state_url_of(base_url, other) <==> entity_id
                == other)
        }),
{
    let common = state_url_of(base_url, Seq::empty());
    let stripped = strip_trailing(base_url, '/');
    assert(common =~= stripped + "/api/states/"@);
    assert(state_url_of(base_url, entity_id) =~= common + entity_id);
    assert(state_url_of(base_url, other) =~= common + other);
    assert((common + entity_id).subrange(common.len() as int, (common + entity_id).len() as int)
        =~= entity_id);
    assert((common + other).subrange(common.len() as int, (common + other).len() as int)
        =~= other);
    assert(common.subrange(0, stripped.len() as int) =~= stripped);
    assert(common.subrange(stripped.len() as int, common.len() as int) =~= "/api/states/"@);
}

} // verus!
