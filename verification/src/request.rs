use vstd::prelude::*;

verus! {

/// How (and whether) an effect request can be answered by the shell.
///
/// `H` is the application's handler: the piece of data that, together with
/// the operation's output, determines the event sent back to the app.
#[derive(Clone, Copy, PartialEq, Eq, Debug)]
pub enum Resolve<H> {
    /// A notification: the app expects no answer.
    Never,
    /// A request that is answered exactly once.
    Once(H),
    /// A subscription that may be answered any number of times.
    Many(H),
}

/// Why a request could not be resolved.
#[derive(Clone, Copy, PartialEq, Eq, Debug)]
pub enum ResolveError {
    /// The request does not expect an answer (or was already answered once).
    Never,
}

/// An effect request handed to the shell: the operation to perform, and how
/// its output is to be routed back into the application.
#[derive(PartialEq, Eq, Debug)]
pub struct Request<Op, H> {
    pub operation: Op,
    resolve: Resolve<H>,
}

impl<H> Resolve<H> {
    /// Whether a request with this resolver can still be answered.
    pub open spec fn is_resolvable(self) -> bool {
        !(self is Never)
    }

    /// The handler carried by a resolvable request.
    pub open spec fn handler(self) -> H
        recommends
            self.is_resolvable(),
    {
        match self {
            Resolve::Once(h) => h,
            Resolve::Many(h) => h,
            Resolve::Never => arbitrary(),
        }
    }

    /// The resolver that remains after one answer: a one-shot request is
    /// used up, the others are unchanged.
    pub open spec fn after_answer(self) -> Resolve<H> {
        match self {
            Resolve::Once(_) => Resolve::Never,
            _ => self,
        }
    }
}

/// Answering a one-shot request uses it up, so it can never be answered
/// again; a subscription stays answerable with the same handler, and a
/// notification stays unanswerable.
pub proof fn answer_spends_only_once_requests<H>(resolve: Resolve<H>)
    ensures
        resolve is Once ==> !resolve.after_answer().is_resolvable(),
        resolve is Many ==> resolve.after_answer() == resolve,
        resolve is Never ==> resolve.after_answer() == resolve,
{
}

/// What an effect request is, mathematically: the operation (by its view)
/// and how the request can (still) be answered.
pub struct RequestView<V, H> {
    pub operation: V,
    pub resolve: Resolve<H>,
}

impl<Op: View, H> View for Request<Op, H> {
    type V = RequestView<Op::V, H>;

    closed spec fn view(&self) -> RequestView<Op::V, H> {
        RequestView { operation: self.operation@, resolve: self.resolve }
    }
}

/// The views of a sequence of requests, in order.
pub open spec fn request_views<Op: View, H>(requests: Seq<Request<Op, H>>) -> Seq<
    RequestView<Op::V, H>,
> {
    requests.map_values(|r: Request<Op, H>| r@)
}

impl<Op: View, H: Copy> Request<Op, H> {
    /// A request that resolves never (a notification).
    pub fn resolves_never(operation: Op) -> (r: Self)
        ensures
            r@ == (RequestView { operation: operation@, resolve: Resolve::<H>::Never }),
    {
        Request { operation, resolve: Resolve::Never }
    }

    /// A request that is expected to be resolved exactly once.
    pub fn resolves_once(operation: Op, handler: H) -> (r: Self)
        ensures
            r@ == (RequestView { operation: operation@, resolve: Resolve::Once(handler) }),
    {
        Request { operation, resolve: Resolve::Once(handler) }
    }

    /// A request that may be resolved any number of times.
    pub fn resolves_many_times(operation: Op, handler: H) -> (r: Self)
        ensures
            r@ == (RequestView { operation: operation@, resolve: Resolve::Many(handler) }),
    {
        Request { operation, resolve: Resolve::Many(handler) }
    }

    /// How the request can (still) be answered.
    pub fn resolution(&self) -> (r: Resolve<H>)
        ensures
            r == self@.resolve,
    {
        self.resolve
    }

    /// Whether the request can still be resolved.
    pub fn is_resolvable(&self) -> (b: bool)
        ensures
            b == self@.resolve.is_resolvable(),
    {
        match self.resolve {
            Resolve::Never => false,
            _ => true,
        }
    }

    /// Takes the handler that answers this request. A one-shot request is
    /// consumed: it becomes a request that can no longer be resolved.
    pub fn resolve(&mut self) -> (res: Result<H, ResolveError>)
        ensures
            final(self)@ == (RequestView {
                operation: old(self)@.operation,
                resolve: old(self)@.resolve.after_answer(),
            }),
            old(self)@.resolve.is_resolvable() ==> res == Ok::<H, ResolveError>(
                old(self)@.resolve.handler(),
            ),
            !old(self)@.resolve.is_resolvable() ==> res == Err::<H, ResolveError>(ResolveError::Never),
    {
        match self.resolve {
            Resolve::Never => Err(ResolveError::Never),
            Resolve::Many(h) => Ok(h),
            Resolve::Once(h) => {
                self.resolve = Resolve::Never;
                Ok(h)
            },
        }
    }
}

} // verus!
