//! Automatic power-on after a system start: turn the device on, then poll its
//! state until it is operable, retrying a bounded number of times.
//!
//! The procedure alternates requests to Home Assistant, pauses and decisions.
//! [`AutoPowerOn`] holds the decisions: given what the last request or pause
//! produced, it gives the next thing to do. The caller performs that action and
//! reports its outcome back, until the machine hands out the final result.
use vstd::prelude::*;

use crate::models::{
    failed, succeeded, AppConfig, ClimateState, ClimateStateView, ServiceResult,
    ServiceResultView,
};

verus! {

/// Seconds to wait after an attempt that did not make the device operable.
pub const RETRY_DELAY_SECONDS: u64 = 2;

/// Number of state refreshes after a successful turn-on request.
pub const POST_ACTION_REFRESH_RETRY_COUNT: u32 = 5;

/// Seconds between two state refreshes.
pub const POST_ACTION_REFRESH_INTERVAL_SECONDS: u64 = 2;

/// The device is available and switched on.
pub open spec fn operable(state: ClimateStateView) -> bool {
    state.is_available && state.is_on
}

/// Whether the device can be operated: it is available and switched on.
pub fn is_operable(state: &ClimateState) -> (r: bool)
    ensures
        r == operable(state@),
{
    state.is_available && state.is_on
}

/// What a pause of the procedure waits for.
#[derive(PartialEq, Eq, Structural, Clone, Copy, Debug)]
pub enum Delay {
    /// The pause after a system start.
    Startup,
    /// The pause between two attempts.
    Retry,
    /// The pause between two state refreshes.
    RefreshInterval,
}

/// Where the procedure stands: which outcome it waits for.
#[derive(PartialEq, Eq, Structural, Clone, Copy)]
pub enum Phase {
    AwaitingStartup,
    AwaitingTurnOn,
    AwaitingRetryDelay,
    AwaitingRefresh,
    AwaitingRefreshInterval,
    Finished,
}

/// What the caller is to do next.
pub enum Action {
    /// Pause for the given number of seconds, then report [`Event::Slept`].
    Sleep(Delay, u64),
    /// Ask Home Assistant to turn the device on, then report [`Event::TurnOnReply`].
    TurnOn,
    /// Ask Home Assistant for the device state, then report [`Event::RefreshReply`].
    RefreshState,
    /// The procedure is over with this result.
    Finish(ServiceResult<ClimateState>),
}

/// What the last action produced.
pub enum Event {
    Slept,
    TurnOnReply(ServiceResult<ClimateState>),
    RefreshReply(ServiceResult<ClimateState>),
}

/// Mathematical model of an [`Action`].
pub enum ActionView {
    Sleep(Delay, u64),
    TurnOn,
    RefreshState,
    Finish(ServiceResultView<ClimateStateView>),
}

/// Mathematical model of an [`Event`].
pub enum EventView {
    Slept,
    TurnOnReply(ServiceResultView<ClimateStateView>),
    RefreshReply(ServiceResultView<ClimateStateView>),
}

/// The model of an [`Action`].
pub open spec fn action_view(a: Action) -> ActionView {
    match a {
        Action::Sleep(d, seconds) => ActionView::Sleep(d, seconds),
        Action::TurnOn => ActionView::TurnOn,
        Action::RefreshState => ActionView::RefreshState,
        Action::Finish(r) => ActionView::Finish(r@),
    }
}

/// The model of an [`Event`].
pub open spec fn event_view(e: Event) -> EventView {
    match e {
        Event::Slept => EventView::Slept,
        Event::TurnOnReply(r) => EventView::TurnOnReply(r@),
        Event::RefreshReply(r) => EventView::RefreshReply(r@),
    }
}

/// The state of one automatic power-on run.
pub struct AutoPowerOn {
    phase: Phase,
    retry_count: u32,
    attempts: u32,
    refreshes: u32,
    last_message: String,
    last_refresh_message: String,
}

/// Mathematical model of an [`AutoPowerOn`] run: the phase, the number of
/// turn-on attempts allowed, the number of turn-on requests made, the number
/// of refreshes made in the current attempt, the message of the last failed
/// attempt and that of the last failed refresh.
pub struct AutoPowerOnView {
    pub phase: Phase,
    pub retry_count: nat,
    pub attempts: nat,
    pub refreshes: nat,
    pub last_message: Seq<char>,
    pub last_refresh_message: Seq<char>,
}

impl View for AutoPowerOn {
    type V = AutoPowerOnView;

    closed spec fn view(&self) -> AutoPowerOnView {
        AutoPowerOnView {
            phase: self.phase,
            retry_count: self.retry_count as nat,
            attempts: self.attempts as nat,
            refreshes: self.refreshes as nat,
            last_message: self.last_message@,
            last_refresh_message: self.last_refresh_message@,
        }
    }
}

/// The message of a run that never made the device operable and never saw a failure.
pub open spec fn initial_failure_message() -> Seq<char> {
    "启动自动开机失败。"@
}

/// The message of a successful run.
pub open spec fn success_message() -> Seq<char> {
    "启动自动开机成功。"@
}

/// The message kept when the refreshes after a turn-on all come too early.
pub open spec fn refresh_timeout_message() -> Seq<char> {
    "空调未在预期时间内进入可操作状态。"@
}

/// The message kept when a refresh reports a device that is not operable yet.
pub open spec fn not_operable_message() -> Seq<char> {
    "空调尚未进入可操作状态，继续等待刷新。"@
}

/// The message kept when a refresh succeeds without any state.
pub open spec fn missing_state_message() -> Seq<char> {
    "刷新状态成功，但未获取到空调状态数据。"@
}

/// The run as it starts, allowed `retry_count` turn-on attempts.
pub open spec fn initial_run(retry_count: nat) -> AutoPowerOnView {
    AutoPowerOnView {
        phase: Phase::AwaitingStartup,
        retry_count,
        attempts: 0,
        refreshes: 0,
        last_message: initial_failure_message(),
        last_refresh_message: Seq::empty(),
    }
}

/// The events a run in this state can take: the outcome of the action it issued.
pub open spec fn accepts(m: AutoPowerOnView, e: EventView) -> bool {
    match m.phase {
        Phase::AwaitingStartup | Phase::AwaitingRetryDelay | Phase::AwaitingRefreshInterval => e is Slept,
        Phase::AwaitingTurnOn => e is TurnOnReply,
        Phase::AwaitingRefresh => e is RefreshReply,
        Phase::Finished => false,
    }
}

/// The invariant of a run.
pub open spec fn well_formed(m: AutoPowerOnView) -> bool {
    &&& m.attempts <= m.retry_count
    &&& m.refreshes <= POST_ACTION_REFRESH_RETRY_COUNT
    &&& m.phase == Phase::AwaitingStartup ==> m.attempts == 0
    &&& m.phase == Phase::AwaitingTurnOn ==> m.attempts >= 1
    &&& (m.phase == Phase::AwaitingRefresh || m.phase == Phase::AwaitingRefreshInterval) ==> (
    m.attempts >= 1 && m.refreshes >= 1)
}

/// Starting an attempt: a turn-on request while attempts remain, else the
/// failure with the last message.
pub open spec fn begin_attempt(m: AutoPowerOnView) -> (AutoPowerOnView, ActionView) {
    if m.attempts < m.retry_count {
        (
            AutoPowerOnView {
                phase: Phase::AwaitingTurnOn,
                attempts: m.attempts + 1,
                refreshes: 0,
                ..m
            },
            ActionView::TurnOn,
        )
    } else {
        (AutoPowerOnView { phase: Phase::Finished, ..m }, ActionView::Finish(failed(m.last_message)))
    }
}

/// The message a refresh that did not show an operable device leaves behind.
pub open spec fn refresh_failure_message(r: ServiceResultView<ClimateStateView>) -> Seq<char> {
    if r.success {
        if r.data is Some {
            not_operable_message()
        } else {
            missing_state_message()
        }
    } else {
        r.message
    }
}

/// A refresh that shows an operable device.
pub open spec fn shows_operable(r: ServiceResultView<ClimateStateView>) -> bool {
    r.success && r.data is Some && operable(r.data.unwrap())
}

/// The transition of a run: the next state and the next action.
pub open spec fn next(m: AutoPowerOnView, e: EventView) -> (AutoPowerOnView, ActionView) {
    match e {
        EventView::Slept => {
            if m.phase == Phase::AwaitingRefreshInterval {
                if m.refreshes < POST_ACTION_REFRESH_RETRY_COUNT {
                    (
                        AutoPowerOnView {
                            phase: Phase::AwaitingRefresh,
                            refreshes: m.refreshes + 1,
                            ..m
                        },
                        ActionView::RefreshState,
                    )
                } else {
                    (
                        AutoPowerOnView {
                            phase: Phase::AwaitingRetryDelay,
                            last_message: m.last_refresh_message,
                            ..m
                        },
                        ActionView::Sleep(Delay::Retry, RETRY_DELAY_SECONDS),
                    )
                }
            } else {
                begin_attempt(m)
            }
        },
        EventView::TurnOnReply(r) => {
            if !r.success {
                (
                    AutoPowerOnView { phase: Phase::AwaitingRetryDelay, last_message: r.message, ..m },
                    ActionView::Sleep(Delay::Retry, RETRY_DELAY_SECONDS),
                )
            } else {
                (
                    AutoPowerOnView {
                        phase: Phase::AwaitingRefresh,
                        refreshes: 1,
                        last_refresh_message: refresh_timeout_message(),
                        ..m
                    },
                    ActionView::RefreshState,
                )
            }
        },
        EventView::RefreshReply(r) => {
            if shows_operable(r) {
                (
                    AutoPowerOnView { phase: Phase::Finished, ..m },
                    ActionView::Finish(succeeded(success_message(), r.data.unwrap())),
                )
            } else {
                (
                    AutoPowerOnView {
                        phase: Phase::AwaitingRefreshInterval,
                        last_refresh_message: refresh_failure_message(r),
                        ..m
                    },
                    ActionView::Sleep(Delay::RefreshInterval, POST_ACTION_REFRESH_INTERVAL_SECONDS),
                )
            }
        },
    }
}

/// An upper bound on the number of steps a run has left.
pub open spec fn remaining_steps(m: AutoPowerOnView) -> int {
    let per_attempt = 13int;
    let left = m.retry_count - m.attempts;
    match m.phase {
        Phase::AwaitingStartup | Phase::AwaitingRetryDelay => 1 + per_attempt * left,
        Phase::AwaitingTurnOn => per_attempt * left + 12,
        Phase::AwaitingRefresh => per_attempt * left + 2 * (POST_ACTION_REFRESH_RETRY_COUNT
            - m.refreshes) + 3,
        Phase::AwaitingRefreshInterval => per_attempt * left + 2 * (POST_ACTION_REFRESH_RETRY_COUNT
            - m.refreshes) + 2,
        Phase::Finished => 0,
    }
}

impl AutoPowerOn {
    /// A new run with the attempts and the pause after a system start that
    /// `config` gives, and its first action: that pause.
    pub fn start(config: &AppConfig) -> (r: (AutoPowerOn, Action))
        ensures
            r.0@ == initial_run(config.retry_count as nat),
            action_view(r.1) == ActionView::Sleep(Delay::Startup, config.startup_delay_seconds),
            well_formed(r.0@),
    {
        (
            AutoPowerOn {
                phase: Phase::AwaitingStartup,
                retry_count: config.retry_count,
                attempts: 0,
                refreshes: 0,
                last_message: String::from_str("启动自动开机失败。"),
                last_refresh_message: String::new(),
            },
            Action::Sleep(Delay::Startup, config.startup_delay_seconds),
        )
    }

    /// Where the run stands.
    pub fn phase(&self) -> (p: Phase)
        ensures
            p == self@.phase,
    {
        self.phase
    }

    /// Whether the run takes `event` now: it must be the outcome of the
    /// action the run issued last.
    pub fn takes(&self, event: &Event) -> (r: bool)
        ensures
            r == accepts(self@, event_view(*event)),
    {
        match self.phase {
            Phase::AwaitingStartup | Phase::AwaitingRetryDelay | Phase::AwaitingRefreshInterval => {
                match event {
                    Event::Slept => true,
                    _ => false,
                }
            },
            Phase::AwaitingTurnOn => match event {
                Event::TurnOnReply(_) => true,
                _ => false,
            },
            Phase::AwaitingRefresh => match event {
                Event::RefreshReply(_) => true,
                _ => false,
            },
            Phase::Finished => false,
        }
    }

    fn begin_attempt(self) -> (r: (AutoPowerOn, Action))
        requires
            well_formed(self@),
            self@.phase == Phase::AwaitingStartup || self@.phase == Phase::AwaitingRetryDelay,
        ensures
            (r.0@, action_view(r.1)) == begin_attempt(self@),
    {
        if self.attempts < self.retry_count {
            (
                AutoPowerOn {
                    phase: Phase::AwaitingTurnOn,
                    attempts: self.attempts + 1,
                    refreshes: 0,
                    ..self
                },
                Action::TurnOn,
            )
        } else {
            let result = ServiceResult::fail(self.last_message.as_str());
            (AutoPowerOn { phase: Phase::Finished, ..self }, Action::Finish(result))
        }
    }

    /// Takes the outcome of the last action and gives the next one.
    pub fn step(self, event: Event) -> (r: (AutoPowerOn, Action))
        requires
            well_formed(self@),
            accepts(self@, event_view(event)),
        ensures
            (r.0@, action_view(r.1)) == next(self@, event_view(event)),
            well_formed(r.0@),
    {
        proof {
            lemma_next_keeps_well_formed(self@, event_view(event));
        }
        match event {
            Event::Slept => {
                if let Phase::AwaitingRefreshInterval = self.phase {
                    if self.refreshes < POST_ACTION_REFRESH_RETRY_COUNT {
                        (
                            AutoPowerOn {
                                phase: Phase::AwaitingRefresh,
                                refreshes: self.refreshes + 1,
                                ..self
                            },
                            Action::RefreshState,
                        )
                    } else {
                        let AutoPowerOn {
                            retry_count,
                            attempts,
                            refreshes,
                            last_refresh_message,
                            ..
                        } = self;
                        let last_message = last_refresh_message.clone();
                        (
                            AutoPowerOn {
                                phase: Phase::AwaitingRetryDelay,
                                retry_count,
                                attempts,
                                refreshes,
                                last_message,
                                last_refresh_message,
                            },
                            Action::Sleep(Delay::Retry, RETRY_DELAY_SECONDS),
                        )
                    }
                } else {
                    self.begin_attempt()
                }
            },
            Event::TurnOnReply(reply) => {
                if !reply.success {
                    (
                        AutoPowerOn {
                            phase: Phase::AwaitingRetryDelay,
                            last_message: reply.message,
                            ..self
                        },
                        Action::Sleep(Delay::Retry, RETRY_DELAY_SECONDS),
                    )
                } else {
                    (
                        AutoPowerOn {
                            phase: Phase::AwaitingRefresh,
                            refreshes: 1,
                            last_refresh_message: String::from_str(
                                "空调未在预期时间内进入可操作状态。",
                            ),
                            ..self
                        },
                        Action::RefreshState,
                    )
                }
            },
            Event::RefreshReply(reply) => {
                let ServiceResult { success, message, data } = reply;
                if success {
                    match data {
                        Some(state) => {
                            if is_operable(&state) {
                                let result = ServiceResult::ok("启动自动开机成功。", state);
                                (AutoPowerOn { phase: Phase::Finished, ..self }, Action::Finish(result))
                            } else {
                                (
                                    AutoPowerOn {
                                        phase: Phase::AwaitingRefreshInterval,
                                        last_refresh_message: String::from_str(
                                            "空调尚未进入可操作状态，继续等待刷新。",
                                        ),
                                        ..self
                                    },
                                    Action::Sleep(
                                        Delay::RefreshInterval,
                                        POST_ACTION_REFRESH_INTERVAL_SECONDS,
                                    ),
                                )
                            }
                        },
                        None => (
                            AutoPowerOn {
                                phase: Phase::AwaitingRefreshInterval,
                                last_refresh_message: String::from_str(
                                    "刷新状态成功，但未获取到空调状态数据。",
                                ),
                                ..self
                            },
                            Action::Sleep(
                                Delay::RefreshInterval,
                                POST_ACTION_REFRESH_INTERVAL_SECONDS,
                            ),
                        ),
                    }
                } else {
                    (
                        AutoPowerOn {
                            phase: Phase::AwaitingRefreshInterval,
                            last_refresh_message: message,
                            ..self
                        },
                        Action::Sleep(
                            Delay::RefreshInterval,
                            POST_ACTION_REFRESH_INTERVAL_SECONDS,
                        ),
                    )
                }
            },
        }
    }
}

/// Every step keeps the invariant of a run.
pub proof fn lemma_next_keeps_well_formed(m: AutoPowerOnView, e: EventView)
    requires
        well_formed(m),
        accepts(m, e),
    ensures
        well_formed(next(m, e).0),
{
}

/// A run ends: every step strictly lowers a bound on the steps left, which
/// at the start is one pause and thirteen steps for each allowed attempt, and
/// the run is finished exactly when it reaches 0.
pub proof fn lemma_run_ends(m: AutoPowerOnView, e: EventView, retry_count: nat)
    requires
        well_formed(m),
        accepts(m, e),
    ensures
        0 <= remaining_steps(next(m, e).0) < remaining_steps(m),
        remaining_steps(initial_run(retry_count)) == 1 + 13 * retry_count,
        remaining_steps(m) > 0 <==> m.phase != Phase::Finished,
{
}

/// A finished run takes no further events.
pub proof fn lemma_finished_is_final(m: AutoPowerOnView, e: EventView)
    requires
        m.phase == Phase::Finished,
    ensures
        !accepts(m, e),
{
}

/// The device is asked to turn on at most as often as the configuration
/// allows: each turn-on request counts one attempt, no other action does, the
/// allowance never changes, and a run never exceeds it.
pub proof fn lemma_turn_on_budget(m: AutoPowerOnView, e: EventView)
    requires
        well_formed(m),
        accepts(m, e),
    ensures
        next(m, e).1 is TurnOn ==> next(m, e).0.attempts == m.attempts + 1,
        !(next(m, e).1 is TurnOn) ==> next(m, e).0.attempts == m.attempts,
        next(m, e).0.retry_count == m.retry_count,
        next(m, e).0.attempts <= m.retry_count,
{
}

/// After a successful turn-on the state is refreshed at most five times: each
/// refresh request counts one, the count starts again only with a new
/// turn-on request, and it never exceeds `POST_ACTION_REFRESH_RETRY_COUNT`.
pub proof fn lemma_refresh_budget(m: AutoPowerOnView, e: EventView)
    requires
        well_formed(m),
        accepts(m, e),
    ensures
        next(m, e).1 is RefreshState ==> (next(m, e).0.refreshes == m.refreshes + 1 || (
        e is TurnOnReply && next(m, e).0.refreshes == 1)),
        !(next(m, e).1 is RefreshState) && !(next(m, e).1 is TurnOn) ==> next(m, e).0.refreshes
            == m.refreshes,
        next(m, e).0.refreshes <= POST_ACTION_REFRESH_RETRY_COUNT,
{
}

/// A run succeeds only on a refresh that reports an operable device, and its
/// result carries that very state.
pub proof fn lemma_success_reports_operable_state(m: AutoPowerOnView, e: EventView)
    requires
        well_formed(m),
        accepts(m, e),
        next(m, e).1 matches ActionView::Finish(r) && r.success,
    ensures
        e matches EventView::RefreshReply(reply) && shows_operable(reply) && next(m, e).1
            == ActionView::Finish(succeeded(success_message(), reply.data.unwrap())),
{
}

/// A run fails only when all its allowed attempts were made, with the
/// message of the last failure and no state.
pub proof fn lemma_failure_reports_last_message(m: AutoPowerOnView, e: EventView)
    requires
        well_formed(m),
        accepts(m, e),
        next(m, e).1 matches ActionView::Finish(r) && !r.success,
    ensures
        e is Slept,
        m.attempts == m.retry_count,
        next(m, e).1 == ActionView::Finish(failed::<ClimateStateView>(m.last_message)),
{
}

/// A turn-on that comes back as a failure is not followed by a refresh: the
/// run pauses and keeps its message as the last failure.
pub proof fn lemma_failed_turn_on_is_retried(m: AutoPowerOnView, r: ServiceResultView<ClimateStateView>)
    requires
        well_formed(m),
        m.phase == Phase::AwaitingTurnOn,
        !r.success,
    ensures
        next(m, EventView::TurnOnReply(r)).1 == ActionView::Sleep(Delay::Retry, RETRY_DELAY_SECONDS),
        next(m, EventView::TurnOnReply(r)).0.last_message == r.message,
{
}

/// The run after taking `events` in order, and the actions it issued on the way.
pub open spec fn run_events(m: AutoPowerOnView, events: Seq<EventView>) -> (
    AutoPowerOnView,
    Seq<ActionView>,
)
    decreases events.len(),
{
    if events.len() == 0 {
        (m, Seq::empty())
    } else {
        let (m1, a1) = next(m, events[0]);
        let (last, actions) = run_events(m1, events.drop_first());
        (last, seq![a1] + actions)
    }
}

/// Each of `events` is the outcome that the run waits for when it comes.
pub open spec fn takes_all(m: AutoPowerOnView, events: Seq<EventView>) -> bool
    decreases events.len(),
{
    events.len() == 0 || (accepts(m, events[0]) && takes_all(next(m, events[0]).0, events.drop_first()))
}

/// The number of turn-on requests among `actions`.
pub open spec fn turn_on_requests(actions: Seq<ActionView>) -> nat
    decreases actions.len(),
{
    if actions.len() == 0 {
        0
    } else {
        (if actions[0] is TurnOn {
            1nat
        } else {
            0nat
        }) + turn_on_requests(actions.drop_first())
    }
}

/// Over a whole run, the device is asked to turn on exactly once per
/// attempt: never more often than the configuration allows, and, when the
/// run ends in failure, exactly as often as it allows.
pub proof fn lemma_turn_on_requests_over_a_run(m: AutoPowerOnView, events: Seq<EventView>)
    requires
        well_formed(m),
        takes_all(m, events),
    ensures
        ({
            let (last, actions) = run_events(m, events);
            &&& well_formed(last)
            &&& last.retry_count == m.retry_count
            &&& last.attempts == m.attempts + turn_on_requests(actions)
            &&& last.attempts <= m.retry_count
            &&& (actions.len() > 0 && (actions.last() matches ActionView::Finish(r) && !r.success))
                ==> last.attempts == m.retry_count
        }),
    decreases events.len(),
{
    if events.len() > 0 {
        let e = events[0];
        let (m1, a1) = next(m, e);
        lemma_next_keeps_well_formed(m, e);
        lemma_turn_on_budget(m, e);
        lemma_turn_on_requests_over_a_run(m1, events.drop_first());
        let (last, rest) = run_events(m1, events.drop_first());
        let actions = seq![a1] + rest;
        assert(actions.drop_first() =~= rest);
        if rest.len() == 0 {
            assert(events.drop_first().len() == 0);
            if (a1 matches ActionView::Finish(r) && !r.success) {
                lemma_failure_reports_last_message(m, e);
            }
        } else {
            assert(actions.last() == rest.last());
        }
    }
}

} // verus!
