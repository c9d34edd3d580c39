//! One run of the notification, as a machine that is told what happened
//! outside and answers with what to do next.
//!
//! The machine does no work outside itself. Its caller loads the settings,
//! reads the clock, asks the billing and the rate service and posts the
//! message, and hands each outcome to `step`.

use vstd::prelude::*;
use crate::aws::{
    bill_per_service_query, bill_per_service_query_of, bills_of, cost_metric,
    get_bill_per_service, get_month_total, month_total_of, month_total_query,
    month_total_query_of, BillPerService, BillPerServiceView, CostAndUsage, CostAndUsageView,
    CostQuery, CostQueryView, RemoteQueryError,
};
use crate::calendar::{
    date_at, date_text, iso_date, iso_format, month_to_date, month_to_date_of, today_utc,
};
use crate::decimal::{DecimalError, DecimalValue};
use crate::exchange_rate::{get_exchange_rate, rate_of_body, ExchangeRate, RateError};
use crate::slack::{
    create_slack_payload, delivery_outcome, send_slack, slack_payload_of, DeliveryError,
    PayloadError, SlackBlockView, SlackWebhookPayload,
};

verus! {

/// Why a run failed.
#[derive(Clone, Copy, Debug, PartialEq, Eq, Structural)]
pub enum NotifyError {
    /// No address to post the message to is set.
    Config,
    /// The clock gave a moment outside the calendar.
    Clock,
    /// A query of the billing service failed.
    Query(RemoteQueryError),
    /// No exchange rate could be had.
    Rate(RateError),
    /// An amount of the bill could not be converted.
    Amount(DecimalError),
    /// The message was not delivered.
    Delivery(DeliveryError),
}

/// Where a run stands.
#[derive(Clone, Debug, PartialEq, Eq)]
pub enum State {
    /// Nothing has happened yet.
    Init,
    /// The two billing queries and the rate lookup are under way.
    Fetching { webhook_url: String },
    /// All three have answered; the message is built once the time is known.
    Building {
        webhook_url: String,
        month_total: String,
        bill_per_services: Vec<BillPerService>,
        jpy_rate: ExchangeRate,
    },
    /// The message has been handed over for delivery.
    Delivered,
    /// The run has failed, and for good.
    Failed { error: NotifyError },
}

/// A `State` as mathematics sees it.
pub ghost enum StateView {
    Init,
    Fetching { webhook_url: Seq<char> },
    Building {
        webhook_url: Seq<char>,
        month_total: Seq<char>,
        bill_per_services: Seq<BillPerServiceView>,
        jpy_rate: DecimalValue,
    },
    Delivered,
    Failed { error: NotifyError },
}

impl View for State {
    type V = StateView;

    open spec fn view(&self) -> StateView {
        match *self {
            State::Init => StateView::Init,
            State::Fetching { webhook_url } => StateView::Fetching { webhook_url: webhook_url@ },
            State::Building { webhook_url, month_total, bill_per_services, jpy_rate } => {
                StateView::Building {
                    webhook_url: webhook_url@,
                    month_total: month_total@,
                    bill_per_services: bill_per_services.deep_view(),
                    jpy_rate: jpy_rate@,
                }
            },
            State::Delivered => StateView::Delivered,
            State::Failed { error } => StateView::Failed { error },
        }
    }
}

/// What happened outside.
#[derive(Clone, Debug, PartialEq, Eq)]
pub enum Event {
    /// The run was started: the address to post to, where one is set, and
    /// the clock in seconds since the start of 1970.
    Started { webhook_url: Option<String>, now: i64 },
    /// The three calls have ended: the replies to the total query and to the
    /// grouped query, and the body of the rate service's reply, each `None`
    /// where the call failed.
    Fetched {
        total_reply: Option<CostAndUsage>,
        service_reply: Option<CostAndUsage>,
        rate_reply: Option<String>,
    },
    /// The clock was read, in seconds since the start of 1970.
    Clock { now: i64 },
    /// The message was posted: the status of the answer, `None` where the
    /// call failed before one was had.
    Posted { status: Option<u16> },
}

/// An `Event` as mathematics sees it.
pub ghost enum EventView {
    Started { webhook_url: Option<Seq<char>>, now: int },
    Fetched {
        total_reply: Option<CostAndUsageView>,
        service_reply: Option<CostAndUsageView>,
        rate_reply: Option<Seq<char>>,
    },
    Clock { now: int },
    Posted { status: Option<u16> },
}

impl View for Event {
    type V = EventView;

    open spec fn view(&self) -> EventView {
        match *self {
            Event::Started { webhook_url, now } => EventView::Started {
                webhook_url: webhook_url.deep_view(),
                now: now as int,
            },
            Event::Fetched { total_reply, service_reply, rate_reply } => EventView::Fetched {
                total_reply: total_reply.deep_view(),
                service_reply: service_reply.deep_view(),
                rate_reply: rate_reply.deep_view(),
            },
            Event::Clock { now } => EventView::Clock { now: now as int },
            Event::Posted { status } => EventView::Posted { status },
        }
    }
}

/// What is to be done outside.
#[derive(Debug, PartialEq, Eq)]
pub enum Action {
    /// Send both queries and look the rate up, all at once, and report
    /// `Fetched` when all three have ended.
    Fetch { total_query: CostQuery, service_query: CostQuery },
    /// Read the clock and report `Clock`.
    ReadClock,
    /// Post the message to the address and report `Posted`.
    Deliver { webhook_url: String, payload: SlackWebhookPayload },
    /// End the run with this outcome.
    Finish { outcome: Result<(), NotifyError> },
    /// Nothing: the event was not one that the run was waiting for.
    Ignore,
}

/// An `Action` as mathematics sees it.
pub ghost enum ActionView {
    Fetch { total_query: CostQueryView, service_query: CostQueryView },
    ReadClock,
    Deliver { webhook_url: Seq<char>, payload: Seq<SlackBlockView> },
    Finish { outcome: Result<(), NotifyError> },
    Ignore,
}

impl View for Action {
    type V = ActionView;

    open spec fn view(&self) -> ActionView {
        match *self {
            Action::Fetch { total_query, service_query } => ActionView::Fetch {
                total_query: total_query@,
                service_query: service_query@,
            },
            Action::ReadClock => ActionView::ReadClock,
            Action::Deliver { webhook_url, payload } => ActionView::Deliver {
                webhook_url: webhook_url@,
                payload: payload@,
            },
            Action::Finish { outcome } => ActionView::Finish { outcome },
            Action::Ignore => ActionView::Ignore,
        }
    }
}

/// The period that a run started at `now` asks about, as the billing
/// service takes it: the first day of the month and the day of `now`, both in
/// UTC. `None` where `now` lies outside the calendar.
pub open spec fn period_of(now: int) -> Option<(Seq<char>, Seq<char>)> {
    match date_at(now) {
        None => None,
        Some(today) => {
            let range = month_to_date_of(today);
            match (
                date_text(
                    range.start.year as int,
                    range.start.month as int,
                    range.start.day as int,
                    iso_format(),
                ),
                date_text(
                    range.end.year as int,
                    range.end.month as int,
                    range.end.day as int,
                    iso_format(),
                ),
            ) {
                (Some(start), Some(end)) => Some((start, end)),
                _ => None,
            }
        },
    }
}

/// The state and the action of a run that fails with `error`.
pub open spec fn fail(error: NotifyError) -> (StateView, ActionView) {
    (
        StateView::Failed { error },
        ActionView::Finish { outcome: Err(error) },
    )
}

/// What the three replies come to: the total, the costs per service and the
/// rate; or the first failure among them, in that order.
pub open spec fn fetched_of(
    total_reply: Option<CostAndUsageView>,
    service_reply: Option<CostAndUsageView>,
    rate_reply: Option<Seq<char>>,
) -> Result<(Seq<char>, Seq<BillPerServiceView>, DecimalValue), NotifyError> {
    let total = match total_reply {
        None => Err(RemoteQueryError::RequestFailed),
        Some(reply) => month_total_of(reply, cost_metric()),
    };
    let bills = match service_reply {
        None => Err(RemoteQueryError::RequestFailed),
        Some(reply) => bills_of(reply, cost_metric()),
    };
    let rate = match rate_reply {
        None => Err(RateError::RequestFailed),
        Some(body) => rate_of_body(body),
    };
    match total {
        Err(e) => Err(NotifyError::Query(e)),
        Ok(month_total) => match bills {
            Err(e) => Err(NotifyError::Query(e)),
            Ok(bill_per_services) => match rate {
                Err(e) => Err(NotifyError::Rate(e)),
                Ok(jpy_rate) => Ok((month_total, bill_per_services, jpy_rate)),
            },
        },
    }
}

/// The state that follows `state` on `event`, and the action to take.
pub open spec fn next(state: StateView, event: EventView) -> (StateView, ActionView) {
    match (state, event) {
        (StateView::Failed { error }, _) => fail(error),
        (StateView::Init, EventView::Started { webhook_url, now }) => match webhook_url {
            None => fail(NotifyError::Config),
            Some(url) => match period_of(now) {
                None => fail(NotifyError::Clock),
                Some((start, end)) => (
                    StateView::Fetching { webhook_url: url },
                    ActionView::Fetch {
                        total_query: month_total_query_of(start, end),
                        service_query: bill_per_service_query_of(start, end),
                    },
                ),
            },
        },
        (
            StateView::Fetching { webhook_url },
            EventView::Fetched { total_reply, service_reply, rate_reply },
        ) => match fetched_of(total_reply, service_reply, rate_reply) {
            Err(error) => fail(error),
            Ok((month_total, bill_per_services, jpy_rate)) => (
                StateView::Building { webhook_url, month_total, bill_per_services, jpy_rate },
                ActionView::ReadClock,
            ),
        },
        (
            StateView::Building { webhook_url, month_total, bill_per_services, jpy_rate },
            EventView::Clock { now },
        ) => match slack_payload_of(now, month_total, bill_per_services, jpy_rate) {
            Err(PayloadError::Clock) => fail(NotifyError::Clock),
            Err(PayloadError::Amount(e)) => fail(NotifyError::Amount(e)),
            Ok(payload) => (StateView::Delivered, ActionView::Deliver { webhook_url, payload }),
        },
        (StateView::Delivered, EventView::Posted { status }) => match delivery_outcome(status) {
            Err(e) => fail(NotifyError::Delivery(e)),
            Ok(_) => (StateView::Delivered, ActionView::Finish { outcome: Ok(()) }),
        },
        _ => (state, ActionView::Ignore),
    }
}

/// The period that a run started at `now` asks about.
pub fn period_at(now: i64) -> (r: Option<(String, String)>)
    ensures
        r.deep_view() == period_of(now as int),
{
    match today_utc(now) {
        None => None,
        Some(today) => {
            let range = month_to_date(today);
            match iso_date(range.start) {
                None => None,
                Some(start) => match iso_date(range.end) {
                    None => None,
                    Some(end) => Some((start, end)),
                },
            }
        },
    }
}

/// A failed run, and the action that ends it.
fn failed(error: NotifyError) -> (r: (State, Action))
    ensures
        (r.0@, r.1@) == fail(error),
{
    (State::Failed { error }, Action::Finish { outcome: Err(error) })
}

/// Reads the three replies: the total, the costs per service and the rate,
/// or the first failure among them, in that order.
pub fn read_replies(
    total_reply: &Option<CostAndUsage>,
    service_reply: &Option<CostAndUsage>,
    rate_reply: &Option<String>,
) -> (r: Result<(String, Vec<BillPerService>, ExchangeRate), NotifyError>)
    ensures
        match r {
            Ok((month_total, bill_per_services, jpy_rate)) => fetched_of(
                total_reply.deep_view(),
                service_reply.deep_view(),
                rate_reply.deep_view(),
            ) == Ok::<(Seq<char>, Seq<BillPerServiceView>, DecimalValue), NotifyError>(
                (month_total@, bill_per_services.deep_view(), jpy_rate@),
            ),
            Err(e) => fetched_of(
                total_reply.deep_view(),
                service_reply.deep_view(),
                rate_reply.deep_view(),
            ) == Err::<(Seq<char>, Seq<BillPerServiceView>, DecimalValue), NotifyError>(e),
        },
{
    let total = match total_reply {
        None => Err(RemoteQueryError::RequestFailed),
        Some(reply) => get_month_total(reply),
    };
    let bills = match service_reply {
        None => Err(RemoteQueryError::RequestFailed),
        Some(reply) => get_bill_per_service(reply),
    };
    let rate = match rate_reply {
        None => Err(RateError::RequestFailed),
        Some(body) => get_exchange_rate(body.as_str()),
    };
    match total {
        Err(e) => Err(NotifyError::Query(e)),
        Ok(month_total) => match bills {
            Err(e) => Err(NotifyError::Query(e)),
            Ok(bill_per_services) => match rate {
                Err(e) => Err(NotifyError::Rate(e)),
                Ok(jpy_rate) => Ok((month_total, bill_per_services, jpy_rate)),
            },
        },
    }
}

/// Takes the run one step on: from `state` and what happened outside to the
/// state that follows and what to do next.
pub fn step(state: State, event: Event) -> (r: (State, Action))
    ensures
        (r.0@, r.1@) == next(state@, event@),
{
    match (state, event) {
        (State::Failed { error }, _) => failed(error),
        (State::Init, Event::Started { webhook_url, now }) => match webhook_url {
            None => failed(NotifyError::Config),
            Some(url) => match period_at(now) {
                None => failed(NotifyError::Clock),
                Some((start, end)) => {
                    let total_query = month_total_query(start.clone(), end.clone());
                    let service_query = bill_per_service_query(start, end);
                    (
                        State::Fetching { webhook_url: url },
                        Action::Fetch { total_query, service_query },
                    )
                },
            },
        },
        (
            State::Fetching { webhook_url },
            Event::Fetched { total_reply, service_reply, rate_reply },
        ) => match read_replies(&total_reply, &service_reply, &rate_reply) {
            Err(error) => failed(error),
            Ok((month_total, bill_per_services, jpy_rate)) => (
                State::Building { webhook_url, month_total, bill_per_services, jpy_rate },
                Action::ReadClock,
            ),
        },
        (
            State::Building { webhook_url, month_total, bill_per_services, jpy_rate },
            Event::Clock { now },
        ) => match create_slack_payload(month_total, bill_per_services, jpy_rate, now) {
            Err(PayloadError::Clock) => failed(NotifyError::Clock),
            Err(PayloadError::Amount(e)) => failed(NotifyError::Amount(e)),
            Ok(payload) => (State::Delivered, Action::Deliver { webhook_url, payload }),
        },
        (State::Delivered, Event::Posted { status }) => match send_slack(status) {
            Err(e) => failed(NotifyError::Delivery(e)),
            Ok(_) => (State::Delivered, Action::Finish { outcome: Ok(()) }),
        },
        (state, _) => (state, Action::Ignore),
    }
}

/// A run whose rate lookup fails, while both billing queries succeed, fails
/// with the lookup's reason: it ends there, and no message is built or
/// delivered.
pub proof fn lemma_rate_failure_ends_run(
    webhook_url: Seq<char>,
    total_reply: Option<CostAndUsageView>,
    service_reply: Option<CostAndUsageView>,
    rate_reply: Option<Seq<char>>,
)
    requires
        total_reply matches Some(reply) && month_total_of(reply, cost_metric()) is Ok,
        service_reply matches Some(reply) && bills_of(reply, cost_metric()) is Ok,
        rate_reply matches Some(body) ==> rate_of_body(body) is Err,
    ensures
        next(
            StateView::Fetching { webhook_url },
            EventView::Fetched { total_reply, service_reply, rate_reply },
        ).0 is Failed,
        next(
            StateView::Fetching { webhook_url },
            EventView::Fetched { total_reply, service_reply, rate_reply },
        ).0->Failed_error is Rate,
        next(
            StateView::Fetching { webhook_url },
            EventView::Fetched { total_reply, service_reply, rate_reply },
        ).1 == (ActionView::Finish {
            outcome: Err(
                next(
                    StateView::Fetching { webhook_url },
                    EventView::Fetched { total_reply, service_reply, rate_reply },
                ).0->Failed_error,
            ),
        }),
{
}

/// A message is handed over for delivery at one point only: when the run
/// is building and the clock has been read. So a run that has failed, or has
/// not had all three replies, delivers nothing.
pub proof fn lemma_deliver_only_when_built(state: StateView, event: EventView)
    requires
        next(state, event).1 is Deliver,
    ensures
        state is Building,
        event is Clock,
        next(state, event).0 is Delivered,
{
}

/// A failed run stays failed, with the same reason, whatever happens.
pub proof fn lemma_failed_is_final(error: NotifyError, event: EventView)
    ensures
        next(StateView::Failed { error }, event) == fail(error),
{
}

/// Any failure among the three replies fails the run, and the failure
/// reported is the first in the order total, costs per service, rate.
pub proof fn lemma_first_failure_is_reported(
    webhook_url: Seq<char>,
    total_reply: Option<CostAndUsageView>,
    service_reply: Option<CostAndUsageView>,
    rate_reply: Option<Seq<char>>,
)
    ensures
        fetched_of(total_reply, service_reply, rate_reply) matches Err(error) ==> next(
            StateView::Fetching { webhook_url },
            EventView::Fetched { total_reply, service_reply, rate_reply },
        ) == fail(error),
        fetched_of(total_reply, service_reply, rate_reply) is Ok ==> next(
            StateView::Fetching { webhook_url },
            EventView::Fetched { total_reply, service_reply, rate_reply },
        ).1 is ReadClock,
{
}

} // verus!
