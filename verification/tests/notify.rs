use bill_notify::aws::{
    bill_per_service_query, month_total_query, BillPerService, CostAndUsage, CostGroup,
    GroupError, MetricEntry, MetricValue, RemoteQueryError, ResultByTime,
};
use bill_notify::decimal::DecimalError;
use bill_notify::exchange_rate::{ExchangeRate, RateError};
use bill_notify::notify::{period_at, read_replies, step, Action, Event, NotifyError, State};
use bill_notify::slack::{build_payload, DeliveryError};

const RATE_BODY: &str = "{\"base\":\"USD\",\"rates\":{\"JPY\":150.0}}";

fn amortized(amount: &str) -> Vec<MetricEntry> {
    vec![MetricEntry {
        name: "AmortizedCost".to_string(),
        value: MetricValue { amount: Some(amount.to_string()) },
    }]
}

fn total_reply(amount: &str) -> CostAndUsage {
    CostAndUsage {
        results_by_time: vec![ResultByTime { total: Some(amortized(amount)), groups: vec![] }],
    }
}

fn service_reply(services: &[(&str, &str)]) -> CostAndUsage {
    let groups = services
        .iter()
        .map(|(name, amount)| CostGroup {
            keys: vec![name.to_string()],
            metrics: Some(amortized(amount)),
        })
        .collect();
    CostAndUsage { results_by_time: vec![ResultByTime { total: None, groups }] }
}

fn scenario() -> CostAndUsage {
    service_reply(&[("EC2", "100.00"), ("S3", "0"), ("Lambda", "23.45")])
}

fn bill(name: &str, bill: &str) -> BillPerService {
    BillPerService { name: name.to_string(), bill: bill.to_string() }
}

fn fetching() -> State {
    State::Fetching { webhook_url: "https://hooks.example/T000".to_string() }
}

fn fetched(
    total: Option<CostAndUsage>,
    services: Option<CostAndUsage>,
    rate: Option<&str>,
) -> Event {
    Event::Fetched {
        total_reply: total,
        service_reply: services,
        rate_reply: rate.map(|b| b.to_string()),
    }
}

fn failure(error: NotifyError) -> (State, Action) {
    (State::Failed { error }, Action::Finish { outcome: Err(error) })
}

#[test]
fn period_runs_from_the_first_of_the_month_to_today() {
    assert_eq!(
        period_at(1_700_000_000),
        Some(("2023-11-01".to_string(), "2023-11-14".to_string()))
    );
    assert_eq!(period_at(1_709_251_200), Some(("2024-03-01".to_string(), "2024-03-01".to_string())));
    assert_eq!(period_at(i64::MAX), None);
}

#[test]
fn run_without_an_address_fails_at_once() {
    assert_eq!(
        step(State::Init, Event::Started { webhook_url: None, now: 1_700_000_000 }),
        failure(NotifyError::Config)
    );
}

#[test]
fn run_outside_the_calendar_fails() {
    assert_eq!(
        step(State::Init, Event::Started { webhook_url: Some("u".to_string()), now: i64::MIN }),
        failure(NotifyError::Clock)
    );
}

#[test]
fn started_run_asks_both_queries_over_the_month_to_date() {
    let (state, action) = step(
        State::Init,
        Event::Started { webhook_url: Some("https://hooks.example/T000".to_string()), now: 1_700_000_000 },
    );
    assert_eq!(state, fetching());
    assert_eq!(
        action,
        Action::Fetch {
            total_query: month_total_query("2023-11-01".to_string(), "2023-11-14".to_string()),
            service_query: bill_per_service_query(
                "2023-11-01".to_string(),
                "2023-11-14".to_string()
            ),
        }
    );
}

#[test]
fn replies_are_read_into_total_bills_and_rate() {
    assert_eq!(
        read_replies(&Some(total_reply("123.45")), &Some(scenario()), &Some(RATE_BODY.to_string())),
        Ok((
            "123.45".to_string(),
            vec![bill("EC2", "100.00"), bill("S3", "0"), bill("Lambda", "23.45")],
            ExchangeRate::parse("150").unwrap(),
        ))
    );
}

#[test]
fn whole_run_delivers_the_message() {
    let url = "https://hooks.example/T000".to_string();
    let (state, _) =
        step(State::Init, Event::Started { webhook_url: Some(url.clone()), now: 1_700_000_000 });
    let (state, action) =
        step(state, fetched(Some(total_reply("123.45")), Some(scenario()), Some(RATE_BODY)));
    assert_eq!(action, Action::ReadClock);
    assert_eq!(
        state,
        State::Building {
            webhook_url: url.clone(),
            month_total: "123.45".to_string(),
            bill_per_services: vec![bill("EC2", "100.00"), bill("S3", "0"), bill("Lambda", "23.45")],
            jpy_rate: ExchangeRate::parse("150").unwrap(),
        }
    );
    let (state, action) = step(state, Event::Clock { now: 1_700_000_000 });
    assert_eq!(state, State::Delivered);
    let expected = build_payload(
        "2023-11-15 07:13",
        "123.45",
        &vec![bill("EC2", "100.00"), bill("S3", "0"), bill("Lambda", "23.45")],
        &ExchangeRate::parse("150").unwrap(),
    )
    .unwrap();
    assert_eq!(action, Action::Deliver { webhook_url: url, payload: expected });
    let (state, action) = step(state, Event::Posted { status: Some(200) });
    assert_eq!(state, State::Delivered);
    assert_eq!(action, Action::Finish { outcome: Ok(()) });
}

#[test]
fn failed_rate_lookup_fails_the_run_before_any_delivery() {
    let (state, action) = step(fetching(), fetched(Some(total_reply("123.45")), Some(scenario()), None));
    assert_eq!((state.clone(), action), failure(NotifyError::Rate(RateError::RequestFailed)));
    for event in [
        Event::Clock { now: 1_700_000_000 },
        Event::Posted { status: Some(200) },
        Event::Started { webhook_url: Some("u".to_string()), now: 0 },
        fetched(Some(total_reply("1")), Some(scenario()), Some(RATE_BODY)),
    ] {
        let (next, action) = step(state.clone(), event);
        assert_eq!((next, action), failure(NotifyError::Rate(RateError::RequestFailed)));
    }
}

#[test]
fn reply_without_a_rate_fails_the_run() {
    assert_eq!(
        step(fetching(), fetched(Some(total_reply("1")), Some(scenario()), Some("{\"rates\":{}}"))),
        failure(NotifyError::Rate(RateError::RateMissing))
    );
    assert_eq!(
        step(fetching(), fetched(Some(total_reply("1")), Some(scenario()), Some("oops"))),
        failure(NotifyError::Rate(RateError::MalformedBody))
    );
    assert_eq!(
        step(fetching(), fetched(Some(total_reply("1")), Some(scenario()), Some("{\"rates\":{\"JPY\":0}}"))),
        failure(NotifyError::Rate(RateError::NotPositive))
    );
}

#[test]
fn first_failure_is_the_one_reported() {
    let no_result = CostAndUsage { results_by_time: vec![] };
    let no_amount = service_reply(&[("EC2", "1")]);
    let mut broken = no_amount.clone();
    broken.results_by_time[0].groups[0].metrics = None;
    assert_eq!(
        step(fetching(), fetched(None, None, None)),
        failure(NotifyError::Query(RemoteQueryError::RequestFailed))
    );
    assert_eq!(
        step(fetching(), fetched(Some(no_result.clone()), Some(broken.clone()), None)),
        failure(NotifyError::Query(RemoteQueryError::NoResultByTime))
    );
    assert_eq!(
        step(fetching(), fetched(Some(total_reply("1")), Some(broken), None)),
        failure(NotifyError::Query(RemoteQueryError::Group {
            index: 0,
            cause: GroupError::NoMetrics
        }))
    );
    assert_eq!(
        step(fetching(), fetched(Some(total_reply("1")), None, Some(RATE_BODY))),
        failure(NotifyError::Query(RemoteQueryError::RequestFailed))
    );
}

#[test]
fn amount_that_cannot_be_converted_fails_the_build() {
    let (state, action) =
        step(fetching(), fetched(Some(total_reply("n/a")), Some(scenario()), Some(RATE_BODY)));
    assert_eq!(action, Action::ReadClock);
    assert_eq!(
        step(state, Event::Clock { now: 1_700_000_000 }),
        failure(NotifyError::Amount(DecimalError::Malformed))
    );
}

#[test]
fn clock_outside_the_calendar_fails_the_build() {
    let (state, _) =
        step(fetching(), fetched(Some(total_reply("1")), Some(scenario()), Some(RATE_BODY)));
    assert_eq!(step(state, Event::Clock { now: i64::MAX }), failure(NotifyError::Clock));
}

#[test]
fn refused_message_fails_the_run() {
    assert_eq!(
        step(State::Delivered, Event::Posted { status: Some(500) }),
        failure(NotifyError::Delivery(DeliveryError::Status { code: 500 }))
    );
    assert_eq!(
        step(State::Delivered, Event::Posted { status: Some(400) }),
        failure(NotifyError::Delivery(DeliveryError::Status { code: 400 }))
    );
    assert_eq!(
        step(State::Delivered, Event::Posted { status: None }),
        failure(NotifyError::Delivery(DeliveryError::Transport))
    );
    assert_eq!(
        step(State::Delivered, Event::Posted { status: Some(201) }),
        (State::Delivered, Action::Finish { outcome: Ok(()) })
    );
}

#[test]
fn events_out_of_turn_change_nothing() {
    assert_eq!(
        step(State::Init, Event::Posted { status: Some(200) }),
        (State::Init, Action::Ignore)
    );
    assert_eq!(step(State::Init, Event::Clock { now: 0 }), (State::Init, Action::Ignore));
    assert_eq!(step(fetching(), Event::Clock { now: 0 }), (fetching(), Action::Ignore));
    assert_eq!(
        step(fetching(), Event::Posted { status: Some(200) }),
        (fetching(), Action::Ignore)
    );
    assert_eq!(
        step(State::Delivered, Event::Clock { now: 0 }),
        (State::Delivered, Action::Ignore)
    );
}
