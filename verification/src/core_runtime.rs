use vstd::prelude::*;
use std::collections::VecDeque;
use crate::app::{App, Command, command_views, dispatch, emitted_events, emitted_requests};
use crate::request::{Request, RequestView, request_views};

verus! {

/// Runs the application's event loop on `queue` for at most `fuel` events.
///
/// The first event is handled, the events it sends back are appended to the
/// queue, and the rest is settled in turn. The result is the final model with
/// every effect request issued on the way, in order; `None` if the queue is
/// not empty after `fuel` events, or an event on the way is one the app does
/// not accept.
pub open spec fn settle<A: App>(app: A, model: A::Model, queue: Seq<A::Event>, fuel: nat) -> Option<
    (A::Model, Seq<RequestView<<A::Operation as View>::V, A::Handler>>),
>
    decreases fuel,
{
    if queue.len() == 0 {
        Some((model, Seq::empty()))
    } else if fuel == 0 || !app.accepts(queue[0], model) {
        None
    } else {
        let (next, commands) = app.transition(queue[0], model);
        match settle(app, next, queue.drop_first() + emitted_events(commands), (fuel - 1) as nat) {
            Some((last, requests)) => Some((last, emitted_requests(commands) + requests)),
            None => None,
        }
    }
}

/// Whether the event loop empties `queue` after finitely many events, every
/// one of them accepted by the app.
pub open spec fn settles<A: App>(app: A, model: A::Model, queue: Seq<A::Event>) -> bool {
    exists|fuel: nat| (#[trigger] settle(app, model, queue, fuel)) is Some
}

/// The final model and the effect requests issued when the event loop
/// empties `queue` (meaningful where [`settles`] holds).
pub open spec fn outcome<A: App>(app: A, model: A::Model, queue: Seq<A::Event>) -> (
    A::Model,
    Seq<RequestView<<A::Operation as View>::V, A::Handler>>,
) {
    settle(app, model, queue, choose|fuel: nat| (#[trigger] settle(app, model, queue, fuel)) is Some).unwrap()
}

/// Settling with more fuel than needed gives the same result: the outcome of
/// the event loop does not depend on the bound it is run with.
pub proof fn settle_fuel_irrelevant<A: App>(
    app: A,
    model: A::Model,
    queue: Seq<A::Event>,
    fuel: nat,
    more: nat,
)
    requires
        settle(app, model, queue, fuel) is Some,
        fuel <= more,
    ensures
        settle(app, model, queue, more) == settle(app, model, queue, fuel),
    decreases fuel,
{
    if queue.len() != 0 {
        let (next, commands) = app.transition(queue[0], model);
        settle_fuel_irrelevant(
            app,
            next,
            queue.drop_first() + emitted_events(commands),
            (fuel - 1) as nat,
            (more - 1) as nat,
        );
    }
}

/// Any bound under which the event loop empties the queue gives its outcome.
pub proof fn outcome_by_any_fuel<A: App>(app: A, model: A::Model, queue: Seq<A::Event>, fuel: nat)
    requires
        settle(app, model, queue, fuel) is Some,
    ensures
        settles(app, model, queue),
        settle(app, model, queue, fuel) == Some(outcome(app, model, queue)),
{
    let chosen = choose|f: nat| (#[trigger] settle(app, model, queue, f)) is Some;
    if chosen <= fuel {
        settle_fuel_irrelevant(app, model, queue, chosen, fuel);
    } else {
        settle_fuel_irrelevant(app, model, queue, fuel, chosen);
    }
}

/// With no event to handle, the model is unchanged and no request is issued.
pub proof fn outcome_of_empty_queue<A: App>(app: A, model: A::Model)
    ensures
        settles(app, model, Seq::<A::Event>::empty()),
        outcome(app, model, Seq::<A::Event>::empty()) == (
            model,
            Seq::<RequestView<<A::Operation as View>::V, A::Handler>>::empty(),
        ),
{
    assert(settle(app, model, Seq::<A::Event>::empty(), 0) is Some);
    outcome_by_any_fuel(app, model, Seq::<A::Event>::empty(), 0);
}

/// Settling a queue is handling its first event, then settling the rest of
/// the queue followed by the events that handling sent back; the requests
/// of that first step come first.
pub proof fn outcome_unfolds<A: App>(app: A, model: A::Model, queue: Seq<A::Event>)
    requires
        settles(app, model, queue),
        queue.len() > 0,
    ensures
        ({
            let (next, commands) = app.transition(queue[0], model);
            let rest = queue.drop_first() + emitted_events(commands);
            &&& settles(app, next, rest)
            &&& outcome(app, model, queue) == (
                outcome(app, next, rest).0,
                emitted_requests(commands) + outcome(app, next, rest).1,
            )
        }),
{
    let fuel = choose|f: nat| (#[trigger] settle(app, model, queue, f)) is Some;
    let (next, commands) = app.transition(queue[0], model);
    let rest = queue.drop_first() + emitted_events(commands);
    outcome_by_any_fuel(app, next, rest, (fuel - 1) as nat);
}

/// An event whose handling issues no command only moves the model to its
/// next state; no effect request is issued.
pub proof fn quiet_event_outcome<A: App>(app: A, model: A::Model, event: A::Event)
    requires
        app.accepts(event, model),
        app.transition(event, model).1 == Seq::<Command<<A::Operation as View>::V, A::Handler, A::Event>>::empty(),
    ensures
        settles(app, model, seq![event]),
        outcome(app, model, seq![event]) == (
            app.transition(event, model).0,
            Seq::<RequestView<<A::Operation as View>::V, A::Handler>>::empty(),
        ),
{
    let queue = seq![event];
    let (next, commands) = app.transition(event, model);
    assert(emitted_events(commands) =~= Seq::<A::Event>::empty());
    assert(emitted_requests(commands) =~= Seq::<RequestView<<A::Operation as View>::V, A::Handler>>::empty());
    assert(queue.drop_first() + emitted_events(commands) =~= Seq::<A::Event>::empty());
    assert(settle(app, next, Seq::<A::Event>::empty(), 0) is Some);
    assert(settle(app, model, queue, 1) == Some((next, Seq::<RequestView<<A::Operation as View>::V, A::Handler>>::empty())));
    outcome_by_any_fuel(app, model, queue, 1);
}

/// The core of an application: it owns the application and its model, runs
/// the event loop, and hands effect requests to the shell.
///
/// The event loop is synchronous: where an executor would run capability
/// tasks and a channel would carry the events they send back, each call here
/// carries out the commands the app issues (see [`crate::app::Command`]) and
/// settles the event queue first in, first out before returning. Between
/// calls the core keeps nothing but the application and its model: every
/// request issued during a call is returned by that call, once, in issue
/// order, and every event sent during a call is handled within it.
pub struct Core<A: App> {
    model: A::Model,
    app: A,
}

impl<A: App> Core<A> {
    /// The application's current model.
    pub closed spec fn current_model(&self) -> A::Model {
        self.model
    }

    /// The application the core drives.
    pub closed spec fn application(&self) -> A {
        self.app
    }

    /// Creates a core for a fresh application with its initial model.
    pub fn new() -> (core: Self)
        ensures
            core.application() == A::initial_app(),
            core.current_model() == A::initial_model(),
    {
        Core { model: A::default_model(), app: A::create() }
    }

    /// Runs the application's update with `event`, settles every event the
    /// application sends back meanwhile, and returns the effect requests
    /// issued, in order.
    pub fn process_event(&mut self, event: A::Event) -> (requests: Vec<
        Request<A::Operation, A::Handler>,
    >)
        requires
            settles(old(self).application(), old(self).current_model(), seq![event]),
        ensures
            final(self).application() == old(self).application(),
            (final(self).current_model(), request_views(requests@)) == outcome(
                old(self).application(),
                old(self).current_model(),
                seq![event],
            ),
    {
        let mut events: VecDeque<A::Event> = VecDeque::new();
        events.push_back(event);
        proof {
            assert(events@ =~= seq![event]);
        }
        self.process(events)
    }

    /// Resolves an effect `request` with the shell's `output` and runs the
    /// event the output becomes, returning the effect requests issued.
    ///
    /// The request is borrowed mutably: a request that is expected to be
    /// resolved only once is consumed and can no longer be resolved.
    pub fn resolve(
        &mut self,
        request: &mut Request<A::Operation, A::Handler>,
        output: A::Output,
    ) -> (requests: Vec<Request<A::Operation, A::Handler>>)
        requires
            old(request)@.resolve.is_resolvable(),
            settles(
                old(self).application(),
                old(self).current_model(),
                seq![old(self).application().continuation(old(request)@.resolve.handler(), output)],
            ),
        ensures
            final(request)@ == (RequestView {
                operation: old(request)@.operation,
                resolve: old(request)@.resolve.after_answer(),
            }),
            final(self).application() == old(self).application(),
            (final(self).current_model(), request_views(requests@)) == outcome(
                old(self).application(),
                old(self).current_model(),
                seq![old(self).application().continuation(old(request)@.resolve.handler(), output)],
            ),
    {
        let mut events: VecDeque<A::Event> = VecDeque::new();
        match request.resolve() {
            Ok(handler) => {
                let event = self.app.resume(handler, output);
                events.push_back(event);
            },
            Err(_) => {},
        }
        proof {
            assert(events@ =~= seq![
                self.app.continuation(old(request)@.resolve.handler(), output),
            ]);
        }
        self.process(events)
    }

    /// Settles every event of `events` (and the events they send back), in
    /// order, and drains the effect requests issued.
    fn process(&mut self, events: VecDeque<A::Event>) -> (requests: Vec<
        Request<A::Operation, A::Handler>,
    >)
        requires
            settles(old(self).app, old(self).model, events@),
        ensures
            final(self).app == old(self).app,
            (final(self).model, request_views(requests@)) == outcome(old(self).app, old(self).model, events@),
    {
        let ghost mut fuel: nat = choose|f: nat|
            (#[trigger] settle(self.app, self.model, events@, f)) is Some;
        let ghost target = outcome(self.app, self.model, events@);
        let mut queue = events;
        let mut requests: Vec<Request<A::Operation, A::Handler>> = Vec::new();
        while queue.len() > 0
            invariant
                self.app == old(self).app,
                settle(self.app, self.model, queue@, fuel) matches Some((last, rest)) && last
                    == target.0 && request_views(requests@) + rest == target.1,
            decreases fuel,
        {
            let ghost before = queue@;
            if let Some(event) = queue.pop_front() {
                let commands = self.app.update(event, &mut self.model);
                let ghost issued = command_views(commands@);
                let ghost requests_before = request_views(requests@);
                dispatch(commands, &mut queue, &mut requests);
                proof {
                    assert(before.drop_first() =~= before.subrange(1, before.len() as int));
                    let tail = settle(self.app, self.model, queue@, (fuel - 1) as nat).unwrap().1;
                    assert(requests_before + (emitted_requests(issued) + tail) =~= request_views(
                        requests@,
                    ) + tail);
                    fuel = (fuel - 1) as nat;
                }
            }
        }
        requests
    }

    /// The application's current view model.
    pub fn view(&self) -> (view_model: A::ViewModel)
        ensures
            view_model@ == self.application().presentation(self.current_model()),
    {
        self.app.view(&self.model)
    }
}

/// Two cores that drive the same application from the same model are
/// indistinguishable: on the same queue of events they settle alike, reach
/// the same model, issue the same requests and show the same view. In
/// particular any two fresh cores (from `new` or `default`) agree call by
/// call when fed the same events and answers.
pub proof fn equal_cores_agree<A: App>(first: Core<A>, second: Core<A>, queue: Seq<A::Event>)
    requires
        first.application() == second.application(),
        first.current_model() == second.current_model(),
    ensures
        settles(first.application(), first.current_model(), queue) == settles(
            second.application(),
            second.current_model(),
            queue,
        ),
        outcome(first.application(), first.current_model(), queue) == outcome(
            second.application(),
            second.current_model(),
            queue,
        ),
        first.application().presentation(first.current_model())
            == second.application().presentation(second.current_model()),
{
}

/// Once a call has returned, running the event loop again with no new event
/// changes nothing and issues no request: the core holds no pending work.
pub proof fn idle_core_is_quiet<A: App>(core: Core<A>)
    ensures
        settles(core.application(), core.current_model(), Seq::<A::Event>::empty()),
        outcome(core.application(), core.current_model(), Seq::<A::Event>::empty()) == (
            core.current_model(),
            Seq::<RequestView<<A::Operation as View>::V, A::Handler>>::empty(),
        ),
{
    outcome_of_empty_queue(core.application(), core.current_model());
}

impl<A: App> Default for Core<A> {
    fn default() -> (core: Self)
        ensures
            core.application() == A::initial_app(),
            core.current_model() == A::initial_model(),
    {
        Self::new()
    }
}

} // verus!
