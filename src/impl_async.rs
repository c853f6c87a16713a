use std::future::Future;
use vstd::prelude::*;

verus! {

/// A request that runs against a client of type `C` by building a deferred
/// computation, which an outside driver completes to a response of type `Rs`.
///
/// The computation may borrow from the request and the client, so it lives no
/// longer than `'f`, and every borrowed binding must live at least as long.
pub trait RequestAsync<'f, C, Rs> {
    /// The deferred computation; a boxed and pinned `dyn Future` does.
    type Deferred: Future<Output = Rs> + 'f;

    /// The inputs on which this request is able to run. By default every
    /// input is admitted: running is total.
    open spec fn admits(&self, client: C) -> bool {
        true
    }

    /// Which computations running this request against `client` may build.
    /// By default nothing is promised.
    open spec fn defers(&self, client: C, deferred: Self::Deferred) -> bool {
        true
    }

    /// Builds the computation that runs the request against `client`.
    /// The request's own work runs as an outside driver polls the result.
    fn execute_async(self, client: C) -> (deferred: Self::Deferred)
        where
            Self: 'f,
        requires
            self.admits(client),
        ensures
            self.defers(client, deferred),
    ;
}

/// A client that requests of type `Rq` can be committed to, for a deferred
/// response.
///
/// Every type has it, through the one implementation below.
pub trait ContextAsync<'f, C, Rs, Rq> where Self: 'f, Rq: RequestAsync<'f, C, Rs> + 'f {
    /// The requests that can be committed to this client.
    spec fn can_commit_async(self, request: Rq) -> bool;

    /// Which computations committing `request` to this client may build.
    spec fn commits_async(self, request: Rq, deferred: Rq::Deferred) -> bool;

    /// Commits `request` to this client and returns the computation that
    /// yields its response.
    fn commit_async(self, request: Rq) -> (deferred: Rq::Deferred)
        requires
            self.can_commit_async(request),
        ensures
            self.commits_async(request, deferred),
    ;
}

impl<'f, C, Rs, Rq> ContextAsync<'f, C, Rs, Rq> for C where
    Self: 'f,
    Rq: RequestAsync<'f, C, Rs> + 'f,
 {
    open spec fn can_commit_async(self, request: Rq) -> bool {
        request.admits(self)
    }

    open spec fn commits_async(self, request: Rq, deferred: Rq::Deferred) -> bool {
        request.defers(self, deferred)
    }

    fn commit_async(self, request: Rq) -> (deferred: Rq::Deferred)
        ensures
            request.defers(self, deferred),
    {
        request.execute_async(self)
    }
}

/// Committing a request to a client for a deferred response is exactly
/// building the request's own computation for that client: it is admitted on
/// the same inputs and builds the same computations, whatever the bindings of
/// the two are.
pub proof fn commit_async_forwards_to_execute_async<'f, C, Rs, Rq>(
    client: C,
    request: Rq,
    deferred: Rq::Deferred,
)
    where
        C: 'f,
        Rq: RequestAsync<'f, C, Rs> + 'f,
    ensures
        <C as ContextAsync<'f, C, Rs, Rq>>::can_commit_async(client, request) == request.admits(
            client,
        ),
        <C as ContextAsync<'f, C, Rs, Rq>>::commits_async(client, request, deferred)
            == request.defers(client, deferred),
{
}

} // verus!
