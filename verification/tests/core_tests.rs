use crux_core::app::{dispatch, App, Command};
use crux_core::counter::{
    Count, Counter, Event, Handler, HttpMethod, Model, Operation, Timestamp, ViewModel,
};
use crux_core::decimal::decimal_text;
use crux_core::{Core, Request, Resolve, ResolveError};
use std::collections::VecDeque;

const CONFIRMED_AT: i64 = 1672531200000;
const SHOWN_AT: &str = "2023-01-01 00:00:00 UTC";

fn confirmed(value: i64) -> Count {
    Count { value, updated_at: Timestamp::from_millis(CONFIRMED_AT) }
}

fn view(text: &str, confirmed: bool) -> ViewModel {
    ViewModel { text: text.to_string(), confirmed }
}

fn render() -> Request<Operation, Handler> {
    Request::resolves_never(Operation::Render)
}

fn post(path: &str) -> Request<Operation, Handler> {
    Request::resolves_once(
        Operation::Http(HttpMethod::Post, format!("https://crux-counter.fly.dev{path}")),
        Handler::Received,
    )
}

#[test]
fn new_core_starts_from_initial_model() {
    let core: Core<Counter> = Core::new();
    assert_eq!(core.view(), view("0 (pending)", false));
}

#[test]
fn default_core_is_new_core() {
    let core: Core<Counter> = Core::default();
    assert_eq!(core.view(), view("0 (pending)", false));
}

#[test]
fn get_requests_the_counter_once() {
    let mut core: Core<Counter> = Core::new();
    let requests = core.process_event(Event::Get);
    assert_eq!(
        requests,
        vec![Request::resolves_once(
            Operation::Http(HttpMethod::Get, "https://crux-counter.fly.dev/".to_string()),
            Handler::Received,
        )]
    );
    assert_eq!(core.view(), view("0 (pending)", false));
}

#[test]
fn increment_updates_optimistically_and_posts() {
    let mut core: Core<Counter> = Core::new();
    core.process_event(Event::Update(confirmed(1)));
    assert_eq!(core.view(), view(&format!("1 ({SHOWN_AT})"), true));
    let requests = core.process_event(Event::Increment);
    assert_eq!(requests, vec![post("/inc"), render()]);
    assert_eq!(core.view(), view("2 (pending)", false));
}

#[test]
fn decrement_updates_optimistically_and_posts() {
    let mut core: Core<Counter> = Core::new();
    let requests = core.process_event(Event::Decrement);
    assert_eq!(requests, vec![post("/dec"), render()]);
    assert_eq!(core.view(), view("-1 (pending)", false));
}

#[test]
fn decrement_clears_the_confirmation() {
    let mut core: Core<Counter> = Core::new();
    core.process_event(Event::Update(confirmed(0)));
    assert_eq!(core.view(), view(&format!("0 ({SHOWN_AT})"), true));
    let requests = core.process_event(Event::Decrement);
    assert_eq!(requests, vec![post("/dec"), render()]);
    assert_eq!(core.view(), view("-1 (pending)", false));
}

#[test]
fn resolving_the_post_confirms_the_counter() {
    let mut core: Core<Counter> = Core::new();
    let mut requests = core.process_event(Event::Increment);
    let mut posted = requests.remove(0);
    let follow_up = core.resolve(&mut posted, Some(confirmed(1)));
    // the answer is settled within the call: Received, then Update, then a render
    assert_eq!(follow_up, vec![render()]);
    assert_eq!(core.view(), view(&format!("1 ({SHOWN_AT})"), true));
    // a one-shot request is consumed by resolving it
    assert_eq!(posted.resolution(), Resolve::Never);
    assert_eq!(
        posted.operation,
        Operation::Http(HttpMethod::Post, "https://crux-counter.fly.dev/inc".to_string())
    );
}

#[test]
fn once_request_cannot_be_resolved_twice() {
    let mut request: Request<Operation, Handler> = Request::resolves_once(Operation::Render, Handler::Received);
    assert!(request.is_resolvable());
    assert_eq!(request.resolve(), Ok(Handler::Received));
    assert!(!request.is_resolvable());
    assert_eq!(request.resolve(), Err(ResolveError::Never));
}

#[test]
fn never_request_cannot_be_resolved() {
    let mut request: Request<Operation, Handler> = Request::resolves_never(Operation::Render);
    assert!(!request.is_resolvable());
    assert_eq!(request.resolve(), Err(ResolveError::Never));
    assert_eq!(request, render());
}

#[test]
fn subscription_is_resolved_many_times() {
    let mut core: Core<Counter> = Core::new();
    let mut requests = core.process_event(Event::StartWatch);
    assert_eq!(
        requests,
        vec![Request::resolves_many_times(
            Operation::ServerSentEvents("https://crux-counter.fly.dev/sse".to_string()),
            Handler::Update,
        )]
    );
    let mut stream = requests.remove(0);
    assert_eq!(core.resolve(&mut stream, Some(confirmed(3))), vec![render()]);
    assert_eq!(core.view(), view(&format!("3 ({SHOWN_AT})"), true));
    assert_eq!(core.resolve(&mut stream, Some(confirmed(4))), vec![render()]);
    assert_eq!(core.view(), view(&format!("4 ({SHOWN_AT})"), true));
    assert_eq!(stream.resolution(), Resolve::Many(Handler::Update));
}

#[test]
fn received_event_settles_into_update() {
    let mut core: Core<Counter> = Core::new();
    let requests = core.process_event(Event::Received(Some(confirmed(5))));
    assert_eq!(requests, vec![render()]);
    assert_eq!(core.view(), view(&format!("5 ({SHOWN_AT})"), true));
}

#[test]
fn increment_saturates_at_largest_value() {
    let mut core: Core<Counter> = Core::new();
    core.process_event(Event::Update(confirmed(i64::MAX)));
    core.process_event(Event::Increment);
    assert_eq!(core.view(), view("9223372036854775807 (pending)", false));
}

#[test]
fn decrement_saturates_at_smallest_value() {
    let mut core: Core<Counter> = Core::new();
    core.process_event(Event::Update(confirmed(i64::MIN)));
    core.process_event(Event::Decrement);
    assert_eq!(core.view(), view("-9223372036854775808 (pending)", false));
}

#[test]
fn increment_then_decrement_restores_value() {
    let mut core: Core<Counter> = Core::new();
    core.process_event(Event::Update(confirmed(41)));
    core.process_event(Event::Increment);
    core.process_event(Event::Decrement);
    assert_eq!(core.view(), view("41 (pending)", false));
}

#[test]
fn counter_update_and_view() {
    let app = Counter::create();
    let mut model = Counter::default_model();
    assert_eq!(model, Model { count: Count { value: 0, updated_at: None } });
    let commands = app.update(Event::Received(Some(confirmed(2))), &mut model);
    assert_eq!(commands, vec![Command::Send(Event::Update(confirmed(2)))]);
    assert_eq!(model.count.value, 0);
    assert_eq!(app.resume(Handler::Update, None), Event::Received(None));
    assert_eq!(app.resume(Handler::Update, Some(confirmed(2))), Event::Update(confirmed(2)));
    assert_eq!(app.resume(Handler::Received, Some(confirmed(2))), Event::Received(Some(confirmed(2))));
    assert_eq!(app.view(&model), view("0 (pending)", false));
}

#[test]
fn timestamps_show_as_utc_date_times() {
    let time = Timestamp::from_millis(947638923004).unwrap();
    assert_eq!(time.timestamp_millis(), 947638923004);
    let mut core: Core<Counter> = Core::new();
    core.process_event(Event::Update(Count { value: 7, updated_at: Some(time) }));
    assert_eq!(core.view(), view("7 (2000-01-12 01:02:03.004 UTC)", true));
    assert!(Timestamp::from_millis(i64::MAX).is_none());
}

#[test]
fn decimal_text_matches_display() {
    for value in [0i64, 5, 10, 99, 100, -1, -10, 1234567890, i64::MAX, i64::MIN] {
        assert_eq!(decimal_text(value), value.to_string());
    }
}

#[test]
fn dispatch_keeps_command_order() {
    let commands: Vec<Command<Operation, Handler, Event>> = vec![
        Command::Notify(Operation::Render),
        Command::Send(Event::Get),
        Command::Request(Operation::Http(HttpMethod::Get, "a".to_string()), Handler::Received),
        Command::Send(Event::Increment),
        Command::Subscribe(Operation::ServerSentEvents("b".to_string()), Handler::Update),
    ];
    let mut events: VecDeque<Event> = VecDeque::new();
    events.push_back(Event::Decrement);
    let mut requests: Vec<Request<Operation, Handler>> = Vec::new();
    dispatch(commands, &mut events, &mut requests);
    assert_eq!(events, VecDeque::from(vec![Event::Decrement, Event::Get, Event::Increment]));
    assert_eq!(
        requests,
        vec![
            render(),
            Request::resolves_once(Operation::Http(HttpMethod::Get, "a".to_string()), Handler::Received),
            Request::resolves_many_times(Operation::ServerSentEvents("b".to_string()), Handler::Update),
        ]
    );
}

#[test]
fn fresh_cores_agree_call_by_call() {
    let mut first: Core<Counter> = Core::new();
    let mut second: Core<Counter> = Core::default();
    assert_eq!(first.process_event(Event::Increment), second.process_event(Event::Increment));
    let mut a = first.process_event(Event::Get).remove(0);
    let mut b = second.process_event(Event::Get).remove(0);
    assert_eq!(a, b);
    assert_eq!(first.resolve(&mut a, Some(confirmed(9))), second.resolve(&mut b, Some(confirmed(9))));
    assert_eq!(first.view(), second.view());
    assert_eq!(first.view(), view(&format!("9 ({SHOWN_AT})"), true));
    // an update that issues only a render leaves nothing pending
    assert_eq!(first.process_event(Event::Update(confirmed(9))), vec![render()]);
    assert_eq!(first.view(), view(&format!("9 ({SHOWN_AT})"), true));
}

#[test]
fn service_addresses_parse_for_the_counter() {
    assert!(crux_core::counter::service_addresses_parse());
}
