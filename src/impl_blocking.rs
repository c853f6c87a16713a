use vstd::prelude::*;

verus! {

/// A request that runs against a client of type `C` and yields a response
/// of type `Rs`.
///
/// `Self` and `C` may each be an owned value, a `&T` or a `&mut T`; every such
/// choice is a separate conformance.
pub trait Request<C, Rs> {
    /// The inputs on which this request is able to run. By default every
    /// input is admitted: running is total.
    open spec fn admits(&self, client: C) -> bool {
        true
    }

    /// What running this request against `client` may yield. By default
    /// nothing is promised; a verified conformance states its logic here.
    open spec fn executes(&self, client: C, response: Rs) -> bool {
        true
    }

    /// Runs the request against `client`.
    fn execute(self, client: C) -> (response: Rs)
        requires
            self.admits(client),
        ensures
            self.executes(client, response),
    ;
}

/// A client that requests of type `Rq` can be committed to.
///
/// Every type has it, through the one implementation below.
pub trait Context<C, Rs, Rq> where Rq: Request<C, Rs> {
    /// The requests that can be committed to this client.
    spec fn can_commit(self, request: Rq) -> bool;

    /// What committing `request` to this client may yield.
    spec fn commits(self, request: Rq, response: Rs) -> bool;

    /// Commits `request` to this client and returns its response.
    fn commit(self, request: Rq) -> (response: Rs)
        requires
            self.can_commit(request),
        ensures
            self.commits(request, response),
    ;
}

impl<C, Rs, Rq> Context<C, Rs, Rq> for C where Rq: Request<C, Rs> {
    open spec fn can_commit(self, request: Rq) -> bool {
        request.admits(self)
    }

    open spec fn commits(self, request: Rq, response: Rs) -> bool {
        request.executes(self, response)
    }

    fn commit(self, request: Rq) -> (response: Rs)
        ensures
            request.executes(self, response),
    {
        request.execute(self)
    }
}

/// Committing a request to a client is exactly running the request against
/// that client: it is admitted on the same inputs and yields the same
/// responses, whatever the bindings of the two are.
pub proof fn commit_forwards_to_execute<C, Rs, Rq>(client: C, request: Rq, response: Rs)
    where
        Rq: Request<C, Rs>,
    ensures
        <C as Context<C, Rs, Rq>>::can_commit(client, request) == request.admits(client),
        <C as Context<C, Rs, Rq>>::commits(client, request, response) == request.executes(
            client,
            response,
        ),
{
}

} // verus!
