use vstd::prelude::*;
use crate::request::{Request, RequestView, Resolve, request_views};

verus! {

/// What an application asks for while handling one event.
///
/// Capabilities are modelled as data: instead of spawning tasks that talk to
/// the shell through channels, `update` returns the list of commands it issues,
/// and the core carries them out in order. A [`Command::Request`] or
/// [`Command::Subscribe`] stands for a task that awaits one operation and
/// sends one event per answer (built by the app's handler); a
/// [`Command::Send`] stands for an event sent straight back. Two things a task
/// could do are outside this model: awaiting several operations in turn, and
/// issuing a new request on an answer without going through `update`.
///
/// `Op` is the application's operation type (the payload of an effect
/// request), `H` its handler type and `Ev` its event type.
#[derive(PartialEq, Eq, Debug)]
pub enum Command<Op, H, Ev> {
    /// Ask the shell to perform an operation whose output is not needed.
    Notify(Op),
    /// Ask the shell to perform an operation and answer it once; the answer
    /// is turned into an event by the handler.
    Request(Op, H),
    /// Ask the shell to perform an operation that may answer many times.
    Subscribe(Op, H),
    /// Send an event straight back to the application.
    Send(Ev),
}

/// A command with its operation taken by its view: what a command is,
/// mathematically.
pub open spec fn command_view<Op: View, H, Ev>(command: Command<Op, H, Ev>) -> Command<Op::V, H, Ev> {
    match command {
        Command::Notify(op) => Command::Notify(op@),
        Command::Request(op, h) => Command::Request(op@, h),
        Command::Subscribe(op, h) => Command::Subscribe(op@, h),
        Command::Send(ev) => Command::Send(ev),
    }
}

/// The views of a sequence of commands, in order.
pub open spec fn command_views<Op: View, H, Ev>(commands: Seq<Command<Op, H, Ev>>) -> Seq<
    Command<Op::V, H, Ev>,
> {
    commands.map_values(|c: Command<Op, H, Ev>| command_view(c))
}

/// An application driven by a [`crate::Core`].
///
/// Implementors give each executable method a mathematical counterpart and
/// prove that the method computes it.
pub trait App: Sized {
    /// Events the application reacts to.
    type Event;
    /// The application state.
    type Model;
    /// What the shell displays.
    type ViewModel: View;
    /// Operations the shell performs on the application's behalf.
    type Operation: View;
    /// The output the shell answers an operation with.
    type Output;
    /// The data that routes an operation's output back into an event.
    type Handler: Copy;

    /// The application value a core starts with.
    spec fn initial_app() -> Self;

    /// The model an application starts from.
    spec fn initial_model() -> Self::Model;

    /// Whether the application handles `event` in state `model`; on any
    /// other event it fails (it is not to be given such an event).
    spec fn accepts(&self, event: Self::Event, model: Self::Model) -> bool;

    /// The model after handling `event`, and the commands issued meanwhile
    /// (each operation by its view).
    spec fn transition(&self, event: Self::Event, model: Self::Model) -> (
        Self::Model,
        Seq<Command<<Self::Operation as View>::V, Self::Handler, Self::Event>>,
    );

    /// The event that an operation's `output` becomes under `handler`.
    spec fn continuation(&self, handler: Self::Handler, output: Self::Output) -> Self::Event;

    /// What the shell displays for `model`.
    spec fn presentation(&self, model: Self::Model) -> <Self::ViewModel as View>::V;

    /// Creates the application.
    fn create() -> (app: Self)
        ensures
            app == Self::initial_app(),
    ;

    /// Creates the initial model.
    fn default_model() -> (model: Self::Model)
        ensures
            model == Self::initial_model(),
    ;

    /// Handles `event`, updating `model` and returning the commands issued.
    fn update(&self, event: Self::Event, model: &mut Self::Model) -> (commands: Vec<
        Command<Self::Operation, Self::Handler, Self::Event>,
    >)
        requires
            self.accepts(event, *old(model)),
        ensures
            (*final(model), command_views(commands@)) == self.transition(event, *old(model)),
    ;

    /// Turns an operation's output into the event it answers with.
    fn resume(&self, handler: Self::Handler, output: Self::Output) -> (event: Self::Event)
        ensures
            event == self.continuation(handler, output),
    ;

    /// Computes what the shell displays for `model`.
    fn view(&self, model: &Self::Model) -> (view_model: Self::ViewModel)
        ensures
            view_model@ == self.presentation(*model),
    ;
}

/// The effect requests that a sequence of commands hands to the shell, in
/// order.
pub open spec fn emitted_requests<V, H, Ev>(commands: Seq<Command<V, H, Ev>>) -> Seq<
    RequestView<V, H>,
>
    decreases commands.len(),
{
    if commands.len() == 0 {
        Seq::empty()
    } else {
        emitted_requests(commands.drop_last()) + command_requests(commands.last())
    }
}

/// The events that a sequence of commands sends back to the application, in
/// order.
pub open spec fn emitted_events<V, H, Ev>(commands: Seq<Command<V, H, Ev>>) -> Seq<Ev>
    decreases commands.len(),
{
    if commands.len() == 0 {
        Seq::empty()
    } else {
        emitted_events(commands.drop_last()) + command_events(commands.last())
    }
}

/// The effect request (if any) that one command hands to the shell.
pub open spec fn command_requests<V, H, Ev>(command: Command<V, H, Ev>) -> Seq<RequestView<V, H>> {
    match command {
        Command::Notify(op) => seq![RequestView { operation: op, resolve: Resolve::Never }],
        Command::Request(op, h) => seq![RequestView { operation: op, resolve: Resolve::Once(h) }],
        Command::Subscribe(op, h) => seq![RequestView { operation: op, resolve: Resolve::Many(h) }],
        Command::Send(_) => Seq::empty(),
    }
}

/// The event (if any) that one command sends back to the application.
pub open spec fn command_events<V, H, Ev>(command: Command<V, H, Ev>) -> Seq<Ev> {
    match command {
        Command::Send(ev) => seq![ev],
        _ => Seq::empty(),
    }
}

/// Carries out `commands` in order: each effect request is appended to
/// `requests` and each event to `events`.
pub fn dispatch<Op: View, H: Copy, Ev>(
    commands: Vec<Command<Op, H, Ev>>,
    events: &mut std::collections::VecDeque<Ev>,
    requests: &mut Vec<Request<Op, H>>,
)
    ensures
        final(events)@ == old(events)@ + emitted_events(command_views(commands@)),
        request_views(final(requests)@) == request_views(old(requests)@) + emitted_requests(
            command_views(commands@),
        ),
{
    let ghost all = command_views(commands@);
    let total: usize = commands.len();
    let mut rest = commands;
    let mut done: usize = 0;
    while rest.len() > 0
        invariant
            done + rest@.len() == all.len(),
            all.len() == total,
            command_views(rest@) == all.subrange(done as int, all.len() as int),
            events@ == old(events)@ + emitted_events(all.subrange(0, done as int)),
            request_views(requests@) == request_views(old(requests)@) + emitted_requests(
                all.subrange(0, done as int),
            ),
        decreases rest@.len(),
    {
        let ghost rest_before = rest@;
        let ghost requests_before = requests@;
        let command = rest.remove(0);
        proof {
            assert(command_views(rest_before)[0] == all[done as int]);
            assert(all.subrange(0, done + 1).drop_last() =~= all.subrange(0, done as int));
            assert(all.subrange(0, done + 1).last() == command_view(command));
        }
        match command {
            Command::Notify(op) => {
                requests.push(Request::resolves_never(op));
            },
            Command::Request(op, h) => {
                requests.push(Request::resolves_once(op, h));
            },
            Command::Subscribe(op, h) => {
                requests.push(Request::resolves_many_times(op, h));
            },
            Command::Send(ev) => {
                events.push_back(ev);
            },
        }
        proof {
            assert(request_views(requests@) =~= request_views(requests_before) + command_requests(
                command_view(command),
            ));
            assert(command_views(rest@) =~= command_views(rest_before).subrange(
                1,
                rest_before.len() as int,
            ));
        }
        done = done + 1;
    }
    proof {
        assert(all.subrange(0, done as int) =~= all);
    }
}

} // verus!
