//! A counter application, kept in step with a remote counter service.
//!
//! Incrementing and decrementing update the local value at once (marking it
//! unconfirmed) and post the change to the service; the service answers with
//! the confirmed counter, which replaces the local one. The view shows the
//! value followed by ` (pending)` or by the confirmation time.
//!
//! A failed answer from the service (`Event::Received(None)`) is not accepted
//! (see [`App::accepts`]): the app fails on it, so the core is not to be given
//! one. The same holds where a service address does not parse.
use vstd::prelude::*;
use vstd::string::StringExecFns;
use crate::app::{App, Command, command_views, emitted_events};
use crate::core_runtime::{settle, settles, outcome_by_any_fuel};
use crate::decimal::{decimal, decimal_round_trip, decimal_text, decimal_value};
use crate::web::{join_url, joined_url, parse_url, parsed_url, utc_display, utc_text};

verus! {

/// The address of the counter service.
pub const API_URL: &'static str = "https://crux-counter.fly.dev";

/// A time at which the service confirmed a counter, in milliseconds since the
/// Unix epoch; always one that `chrono` can represent.
#[derive(PartialEq, Eq, Debug)]
pub struct Timestamp {
    millis: i64,
    text: String,
}

impl Timestamp {
    #[verifier::type_invariant]
    spec fn displayable(self) -> bool {
        utc_display(self.millis) == Some(self.text@)
    }

    /// The time, in milliseconds since the Unix epoch.
    pub closed spec fn epoch_millis(self) -> i64 {
        self.millis
    }

    /// The time `millis` milliseconds after the Unix epoch; `None` where
    /// `chrono` finds it out of range.
    pub fn from_millis(millis: i64) -> (time: Option<Timestamp>)
        ensures
            time is Some <==> utc_display(millis) is Some,
            time matches Some(t) ==> t.epoch_millis() == millis,
    {
        match utc_text(millis) {
            Some(text) => Some(Timestamp { millis, text }),
            None => None,
        }
    }

    /// The time, in milliseconds since the Unix epoch.
    pub fn timestamp_millis(&self) -> (millis: i64)
        ensures
            millis == self.epoch_millis(),
    {
        self.millis
    }
}

/// A counter value, with the time at which the service confirmed it; `None`
/// while a local change is unconfirmed.
#[derive(PartialEq, Eq, Debug)]
pub struct Count {
    pub value: i64,
    pub updated_at: Option<Timestamp>,
}

/// The counter application's state.
#[derive(PartialEq, Eq, Debug)]
pub struct Model {
    pub count: Count,
}

/// What the shell displays: the value with its confirmation state, and
/// whether the service confirmed it.
#[derive(PartialEq, Eq, Debug)]
pub struct ViewModel {
    pub text: String,
    pub confirmed: bool,
}

/// A view model's content.
pub struct ViewModelView {
    pub text: Seq<char>,
    pub confirmed: bool,
}

impl View for ViewModel {
    type V = ViewModelView;

    open spec fn view(&self) -> ViewModelView {
        ViewModelView { text: self.text@, confirmed: self.confirmed }
    }
}

/// Events of the counter application.
#[derive(PartialEq, Eq, Debug)]
pub enum Event {
    /// Fetch the counter from the service.
    Get,
    /// Increment the counter.
    Increment,
    /// Decrement the counter.
    Decrement,
    /// Subscribe to the service's stream of counter updates.
    StartWatch,
    /// The service answered a request (`None`: the request failed).
    Received(Option<Count>),
    /// A confirmed counter to adopt.
    Update(Count),
}

/// HTTP methods the counter uses.
#[derive(Clone, Copy, PartialEq, Eq, Debug)]
pub enum HttpMethod {
    Get,
    Post,
}

/// Operations the counter asks the shell to perform.
#[derive(PartialEq, Eq, Debug)]
pub enum Operation {
    /// Redraw the view.
    Render,
    /// Send an HTTP request to a URL.
    Http(HttpMethod, String),
    /// Listen to server-sent events from a URL.
    ServerSentEvents(String),
}

/// An operation's content, with each URL as its text.
pub enum OperationView {
    Render,
    Http(HttpMethod, Seq<char>),
    ServerSentEvents(Seq<char>),
}

impl View for Operation {
    type V = OperationView;

    open spec fn view(&self) -> OperationView {
        match self {
            Operation::Render => OperationView::Render,
            Operation::Http(method, url) => OperationView::Http(*method, url@),
            Operation::ServerSentEvents(url) => OperationView::ServerSentEvents(url@),
        }
    }
}

/// How an answer from the service is turned back into an event.
#[derive(Clone, Copy, PartialEq, Eq, Debug)]
pub enum Handler {
    /// The answer becomes [`Event::Received`].
    Received,
    /// The answer becomes [`Event::Update`] (a failed answer, [`Event::Received`]).
    Update,
}

/// The counter application.
#[derive(Clone, Copy, PartialEq, Eq, Debug)]
pub struct Counter;

/// One more than `value`, staying at the largest value instead of overflowing.
pub open spec fn incremented(value: i64) -> i64 {
    if value < i64::MAX {
        (value + 1) as i64
    } else {
        value
    }
}

/// One less than `value`, staying at the smallest value instead of overflowing.
pub open spec fn decremented(value: i64) -> i64 {
    if value > i64::MIN {
        (value - 1) as i64
    } else {
        value
    }
}

/// The address of the service's current counter.
pub open spec fn counter_url() -> Option<Seq<char>> {
    parsed_url(API_URL@)
}

/// The address of `path` on the service.
pub open spec fn service_url(path: Seq<char>) -> Option<Seq<char>> {
    joined_url(API_URL@, path)
}

/// Whether every service address the counter uses parses, so that the
/// counter accepts `Get`, `Increment`, `Decrement` and `StartWatch`.
pub fn service_addresses_parse() -> (ok: bool)
    ensures
        ok == (counter_url() is Some && service_url("/inc"@) is Some && service_url("/dec"@) is Some
            && service_url("/sse"@) is Some),
{
    parse_url(API_URL).is_some() && join_url(API_URL, "/inc").is_some() && join_url(
        API_URL,
        "/dec",
    ).is_some() && join_url(API_URL, "/sse").is_some()
}

/// The text shown for a count.
pub open spec fn count_text(count: Count) -> Seq<char> {
    decimal(count.value as int) + match count.updated_at {
        None => " (pending)"@,
        Some(time) => " ("@ + utc_display(time.epoch_millis()).unwrap() + ")"@,
    }
}

/// The commands of one counter transition.
pub type CounterCommand = Command<Operation, Handler, Event>;

/// The content of the commands of one counter transition.
pub type CounterCommandView = Command<OperationView, Handler, Event>;

impl App for Counter {
    type Event = Event;
    type Model = Model;
    type ViewModel = ViewModel;
    type Operation = Operation;
    type Output = Option<Count>;
    type Handler = Handler;

    open spec fn initial_app() -> Counter {
        Counter
    }

    open spec fn initial_model() -> Model {
        Model { count: Count { value: 0, updated_at: None } }
    }

    open spec fn accepts(&self, event: Event, model: Model) -> bool {
        match event {
            Event::Get => counter_url() is Some,
            Event::Increment => service_url("/inc"@) is Some,
            Event::Decrement => service_url("/dec"@) is Some,
            Event::StartWatch => service_url("/sse"@) is Some,
            Event::Received(output) => output is Some,
            Event::Update(_) => true,
        }
    }

    open spec fn transition(&self, event: Event, model: Model) -> (Model, Seq<CounterCommandView>) {
        match event {
            Event::Get => (
                model,
                seq![
                    Command::Request(
                        OperationView::Http(HttpMethod::Get, counter_url().unwrap()),
                        Handler::Received,
                    ),
                ],
            ),
            Event::Increment => (
                Model { count: Count { value: incremented(model.count.value), updated_at: None } },
                seq![
                    Command::Request(
                        OperationView::Http(HttpMethod::Post, service_url("/inc"@).unwrap()),
                        Handler::Received,
                    ),
                    Command::Notify(OperationView::Render),
                ],
            ),
            Event::Decrement => (
                Model { count: Count { value: decremented(model.count.value), updated_at: None } },
                seq![
                    Command::Request(
                        OperationView::Http(HttpMethod::Post, service_url("/dec"@).unwrap()),
                        Handler::Received,
                    ),
                    Command::Notify(OperationView::Render),
                ],
            ),
            Event::StartWatch => (
                model,
                seq![
                    Command::Subscribe(
                        OperationView::ServerSentEvents(service_url("/sse"@).unwrap()),
                        Handler::Update,
                    ),
                ],
            ),
            Event::Received(Some(count)) => (model, seq![Command::Send(Event::Update(count))]),
            Event::Received(None) => (model, Seq::empty()),
            Event::Update(count) => (Model { count }, seq![Command::Notify(OperationView::Render)]),
        }
    }

    open spec fn continuation(&self, handler: Handler, output: Option<Count>) -> Event {
        match (handler, output) {
            (Handler::Update, Some(count)) => Event::Update(count),
            (_, output) => Event::Received(output),
        }
    }

    open spec fn presentation(&self, model: Model) -> ViewModelView {
        ViewModelView { text: count_text(model.count), confirmed: model.count.updated_at is Some }
    }

    fn create() -> (app: Self) {
        Counter
    }

    fn default_model() -> (model: Model) {
        Model { count: Count { value: 0, updated_at: None } }
    }

    fn update(&self, event: Event, model: &mut Model) -> (commands: Vec<CounterCommand>) {
        let ghost before = *model;
        let ghost received = event;
        let mut commands: Vec<CounterCommand> = Vec::new();
        match event {
            Event::Get => {
                if let Some(url) = parse_url(API_URL) {
                    commands.push(
                        Command::Request(Operation::Http(HttpMethod::Get, url), Handler::Received),
                    );
                }
            },
            Event::Increment => {
                let value = if model.count.value < i64::MAX {
                    model.count.value + 1
                } else {
                    model.count.value
                };
                model.count = Count { value, updated_at: None };
                if let Some(url) = join_url(API_URL, "/inc") {
                    commands.push(
                        Command::Request(Operation::Http(HttpMethod::Post, url), Handler::Received),
                    );
                }
                commands.push(Command::Notify(Operation::Render));
            },
            Event::Decrement => {
                let value = if model.count.value > i64::MIN {
                    model.count.value - 1
                } else {
                    model.count.value
                };
                model.count = Count { value, updated_at: None };
                if let Some(url) = join_url(API_URL, "/dec") {
                    commands.push(
                        Command::Request(Operation::Http(HttpMethod::Post, url), Handler::Received),
                    );
                }
                commands.push(Command::Notify(Operation::Render));
            },
            Event::StartWatch => {
                if let Some(url) = join_url(API_URL, "/sse") {
                    commands.push(
                        Command::Subscribe(Operation::ServerSentEvents(url), Handler::Update),
                    );
                }
            },
            Event::Received(Some(count)) => {
                commands.push(Command::Send(Event::Update(count)));
            },
            Event::Received(None) => {},
            Event::Update(count) => {
                model.count = count;
                commands.push(Command::Notify(Operation::Render));
            },
        }
        proof {
            assert(command_views(commands@) =~= self.transition(received, before).1);
        }
        commands
    }

    fn resume(&self, handler: Handler, output: Option<Count>) -> (event: Event) {
        match (handler, output) {
            (Handler::Update, Some(count)) => Event::Update(count),
            (_, output) => Event::Received(output),
        }
    }

    fn view(&self, model: &Model) -> (view_model: ViewModel) {
        let mut text = decimal_text(model.count.value);
        match &model.count.updated_at {
            None => {
                text.append(" (pending)");
            },
            Some(time) => {
                proof {
                    use_type_invariant(time);
                }
                text.append(" (");
                text.append(time.text.as_str());
                text.append(")");
                assert(text@ =~= count_text(model.count));
            },
        }
        ViewModel { text, confirmed: model.count.updated_at.is_some() }
    }
}

/// Every event the counter accepts is settled after at most two steps: the
/// event loop of a counter empties its queue.
pub proof fn counter_events_settle(app: Counter, model: Model, event: Event)
    requires
        app.accepts(event, model),
    ensures
        settles(app, model, seq![event]),
{
    reveal_with_fuel(settle, 3);
    reveal_with_fuel(emitted_events, 3);
    let queue = seq![event];
    let (next, commands) = app.transition(event, model);
    let rest = queue.drop_first() + emitted_events(commands);
    assert(queue.drop_first() =~= Seq::<Event>::empty());
    match event {
        Event::Received(Some(count)) => {
            assert(rest =~= seq![Event::Update(count)]);
            let (_, commands2) = app.transition(Event::Update(count), next);
            assert(rest.drop_first() + emitted_events(commands2) =~= Seq::<Event>::empty());
        },
        _ => {
            assert(rest =~= Seq::<Event>::empty());
        },
    }
    outcome_by_any_fuel(app, model, queue, 2);
}

/// Fetching the counter leaves the model as it is; it only asks for the
/// service's counter (once), at the service's address.
pub proof fn get_keeps_model(app: Counter, model: Model)
    ensures
        app.transition(Event::Get, model).0 == model,
        app.transition(Event::Get, model).1 == seq![
            CounterCommandView::Request(
                OperationView::Http(HttpMethod::Get, parsed_url(API_URL@).unwrap()),
                Handler::Received,
            ),
        ],
{
}

/// Subscribing to updates leaves the model as it is; it only subscribes to
/// the service's stream of updates.
pub proof fn start_watch_keeps_model(app: Counter, model: Model)
    ensures
        app.transition(Event::StartWatch, model).0 == model,
        app.transition(Event::StartWatch, model).1 == seq![
            CounterCommandView::Subscribe(
                OperationView::ServerSentEvents(joined_url(API_URL@, "/sse"@).unwrap()),
                Handler::Update,
            ),
        ],
{
}

/// Incrementing adds exactly one to the value (below the largest value; at
/// it the value stays) and marks it unconfirmed.
pub proof fn increment_adds_one(app: Counter, model: Model)
    ensures
        model.count.value < i64::MAX ==> app.transition(Event::Increment, model).0 == (Model {
            count: Count { value: (model.count.value + 1) as i64, updated_at: None },
        }),
        model.count.value == i64::MAX ==> app.transition(Event::Increment, model).0 == (Model {
            count: Count { value: i64::MAX, updated_at: None },
        }),
        app.transition(Event::Increment, model).0.count.value as int - model.count.value as int
            == (if model.count.value < i64::MAX { 1int } else { 0int }),
{
}

/// Decrementing subtracts exactly one from the value (above the smallest
/// value; at it the value stays) and marks it unconfirmed.
pub proof fn decrement_subtracts_one(app: Counter, model: Model)
    ensures
        model.count.value > i64::MIN ==> app.transition(Event::Decrement, model).0 == (Model {
            count: Count { value: (model.count.value - 1) as i64, updated_at: None },
        }),
        model.count.value == i64::MIN ==> app.transition(Event::Decrement, model).0 == (Model {
            count: Count { value: i64::MIN, updated_at: None },
        }),
        model.count.value as int - app.transition(Event::Decrement, model).0.count.value as int
            == (if model.count.value > i64::MIN { 1int } else { 0int }),
{
}

/// The view shows the value in decimal, sign included, whether or not it is
/// confirmed: the text starts with a decimal text that reads back as the
/// value, followed by ` (pending)` or by the confirmation time as chrono
/// displays it; the flag says whether the value is confirmed.
pub proof fn view_shows_value(app: Counter, model: Model)
    ensures
        ({
            let shown = app.presentation(model);
            let number = decimal(model.count.value as int);
            &&& decimal_value(number) == model.count.value
            &&& (number[0] == '-') == (model.count.value < 0)
            &&& shown.confirmed == (model.count.updated_at is Some)
            &&& match model.count.updated_at {
                None => shown.text == number + " (pending)"@,
                Some(time) => shown.text == number + " ("@ + utc_display(time.epoch_millis()).unwrap()
                    + ")"@,
            }
        }),
{
    decimal_round_trip(model.count.value as int);
    match model.count.updated_at {
        None => {},
        Some(time) => {
            assert(app.presentation(model).text =~= decimal(model.count.value as int) + " ("@
                + utc_display(time.epoch_millis()).unwrap() + ")"@);
        },
    }
}

/// Decrementing after incrementing restores the value (away from the largest
/// value), leaving it unconfirmed until the service answers.
pub proof fn increment_then_decrement(app: Counter, model: Model)
    requires
        model.count.value < i64::MAX,
    ensures
        ({
            let (up, _) = app.transition(Event::Increment, model);
            let (down, _) = app.transition(Event::Decrement, up);
            down == Model { count: Count { value: model.count.value, updated_at: None } }
        }),
{
}

/// Incrementing after decrementing restores the value (away from the smallest
/// value), leaving it unconfirmed until the service answers.
pub proof fn decrement_then_increment(app: Counter, model: Model)
    requires
        model.count.value > i64::MIN,
    ensures
        ({
            let (down, _) = app.transition(Event::Decrement, model);
            let (up, _) = app.transition(Event::Increment, down);
            up == Model { count: Count { value: model.count.value, updated_at: None } }
        }),
{
}

} // verus!
