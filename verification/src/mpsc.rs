//! The in-process transport: endpoints that are found by name in a registry,
//! and requests and responses that travel as JSON text over channels. What
//! sends and receives is the channel's own; what is sent, and what is made of
//! what comes back, is decided here.

use crate::contract::ServiceContract;
use crate::directory::Directory;
use crate::dispatch::{checked, dispatch, operation_index, plan, served, InvokeTarget};
use crate::envelope::{
    decode_request, decode_response, described, encode_request, encode_response, request_fault,
    request_in, request_tree, response_fault, response_in, response_tree, text_of,
};
use crate::error::{reply, Fault, FaultView, ServiceError};
use crate::model::{ServiceContractModel, ServiceContractModelView};
use crate::proxy::{
    after_close, proxy_view, unit_proxy, CallbackSlot, Forwarder, ProxyView, ServiceProxy,
};
use crate::runtime::HostRuntime;
use crate::session::{share, HostedService, SessionFactory};
use crate::value::{Tree, TreeView};
use std::borrow::Cow;
use std::rc::Rc;
use vstd::prelude::*;

verus! {

/// Whether `result` is what a call ends in when the transport brought back
/// `response`: the transport's error, the result that the response carries,
/// or the error of its reading where the response carries none.
pub open spec fn result_of(
    response: Result<Seq<char>, Seq<char>>,
    result: Result<TreeView, Seq<char>>,
) -> bool {
    match response {
        Err(e) => result == Err::<TreeView, Seq<char>>(e),
        Ok(text) => match response_in(text) {
            Some(carried) => result == carried,
            None => result matches Err(e) && described(e, response_fault(text)),
        },
    }
}

/// Whether `response` is what serving the message `message` on `target` may
/// give while the call's slot holds `callback`: the text of a response
/// envelope around what the request is served with, or around the error of
/// its reading where the message holds no request.
pub open spec fn reply_to<T: InvokeTarget>(
    contract: ServiceContractModelView,
    target: &T,
    callback: ProxyView,
    message: Seq<char>,
    response: Seq<char>,
) -> bool {
    exists|result: Result<TreeView, Seq<char>>|
        {
            &&& match request_in(message) {
                Some((name, params)) => served(
                    contract,
                    target,
                    Some(callback),
                    name,
                    params,
                    result,
                ),
                None => result matches Err(e) && described(e, request_fault(message)),
            }
            &&& response == text_of(#[trigger] response_tree(result))
        }
}

/// While a request is dispatched, the implementation finds in its slot the
/// callback proxy of the connection that the request came on, and no other:
/// whatever is answered to a request that reaches the implementation is the
/// text of an answer that the implementation gives with that very proxy in
/// the slot, checked against the declared return type.
pub proof fn lemma_callback_in_slot<T: InvokeTarget>(
    contract: ServiceContractModelView,
    target: &T,
    callback: ProxyView,
    message: Seq<char>,
    response: Seq<char>,
)
    requires
        reply_to(contract, target, callback, message, response),
        request_in(message) matches Some((name, params)) && plan(contract, name, params) is Ok,
    ensures
        ({
            let (name, params) = request_in(message)->Some_0;
            let invocation = plan(contract, name, params)->Ok_0;
            let operation = contract.operations[invocation.operation];
            exists|answer: Result<TreeView, Seq<char>>|
                #[trigger] target.answers(
                    operation.name,
                    invocation.arguments,
                    Some(callback),
                    answer,
                ) && response == text_of(response_tree(checked(operation.output, answer)))
        }),
{
    let (name, params) = request_in(message)->Some_0;
    let invocation = plan(contract, name, params)->Ok_0;
    let operation = contract.operations[invocation.operation];
    let result = choose|result: Result<TreeView, Seq<char>>|
        served(contract, target, Some(callback), name, params, result) && response == text_of(
            #[trigger] response_tree(result),
        );
    let answer = choose|answer: Result<TreeView, Seq<char>>|
        #[trigger] target.answers(operation.name, invocation.arguments, Some(callback), answer)
            && result == checked(operation.output, answer);
    assert(target.answers(operation.name, invocation.arguments, Some(callback), answer)
        && response == text_of(response_tree(checked(operation.output, answer))));
}

/// A request for an operation that the contract does not have is answered,
/// with the response that carries `Bad fn`, and with nothing else: the
/// connection is as it was, and serves the request that comes next.
pub proof fn lemma_unknown_operation_is_answered<T: InvokeTarget>(
    contract: ServiceContractModelView,
    target: &T,
    callback: ProxyView,
    message: Seq<char>,
    response: Seq<char>,
)
    requires
        reply_to(contract, target, callback, message, response),
        request_in(message) matches Some((name, params)) && operation_index(
            contract.operations,
            name,
            0,
        ) is None,
    ensures
        response == text_of(response_tree(Err(FaultView::BadOperation.description()))),
{
}

/// Serves one request message on `target`: reads the request, puts
/// `callback` into the call's slot, dispatches, clears the slot, and writes
/// the response. The slot is the call's own: while the implementation runs
/// it holds `callback`, the proxy that was given and no other, and it holds
/// nothing before or after. Every message has a response: one that holds no
/// request is answered with an error, and so is a request that the
/// dispatcher refuses.
pub fn serve_message<T: InvokeTarget, K: Forwarder>(
    contract: &ServiceContractModel,
    target: &T,
    callback: &Rc<ServiceProxy<K>>,
    message: &str,
) -> (r: String)
    ensures
        reply_to(contract@, target, callback@, message@, r@),
{
    let result = match decode_request(message) {
        Err(e) => Err(e),
        Ok(request) => {
            let mut slot: CallbackSlot<K> = CallbackSlot::new();
            slot.set_task_callback(share(callback));
            assert(slot.proxy() == Some(callback@));
            let result = dispatch(
                contract,
                target,
                request.name.as_str(),
                &request.params,
                &slot,
            );
            slot.clear();
            result
        },
    };
    let ghost carried = reply(result);
    let response = encode_response(result);
    assert(response@ == text_of(response_tree(carried)));
    response
}

/// A client's callback implementation, ready to serve the server's calls.
pub struct CallbackLoop<T: InvokeTarget> {
    pub contract: ServiceContractModel,
    pub target: T,
}

impl<T: InvokeTarget> CallbackLoop<T> {
    /// The loop that serves calls of `contract` on `target`.
    pub fn new(contract: ServiceContractModel, target: T) -> (r: Self)
        ensures
            r.contract == contract,
            r.target == target,
    {
        CallbackLoop { contract, target }
    }

    /// Serves one message of the server. A callback has no callback of its
    /// own: its slot holds the proxy of the unit contract.
    pub fn serve(&self, message: &str) -> (r: String)
        ensures
            reply_to(self.contract@, &self.target, unit_proxy(), message@, r@),
    {
        let nothing: Rc<ServiceProxy<()>> = Rc::new(
            ServiceProxy::new(ServiceContractModel::unit(), ()),
        );
        serve_message(&self.contract, &self.target, &nothing, message)
    }
}

/// The server's end of one connection: the session that was minted for it,
/// the instance that serves it, and the proxy through which the instance
/// calls the client back.
pub struct MpscSession<T: InvokeTarget, K: Forwarder> {
    pub session_id: String,
    pub session: Rc<T>,
    pub callback: Rc<ServiceProxy<K>>,
}

impl<T: InvokeTarget, K: Forwarder> MpscSession<T, K> {
    /// Serves one request message of the connection under `contract`, with
    /// the connection's own callback proxy in the call's slot. Every message
    /// is answered, and the connection itself is left as it is, whatever the
    /// request was: a request that is refused closes nothing.
    pub fn serve(&self, contract: &ServiceContract, message: &str) -> (r: String)
        ensures
            reply_to(contract.model()@, &self.session, self.callback@, message@, r@),
    {
        serve_message(contract.contract(), &self.session, &self.callback, message)
    }
}

/// An endpoint of the in-process transport, known by its name.
#[derive(Debug, PartialEq, Eq)]
pub struct MpscEndpoint {
    pub endpoint: String,
}

impl MpscEndpoint {
    /// The endpoint that is known as `endpoint`.
    pub fn new(endpoint: &str) -> (r: Self)
        ensures
            r.endpoint@ == endpoint@,
    {
        MpscEndpoint { endpoint: endpoint.to_owned() }
    }

    /// Takes a connection in: mints a session at the runtime, as
    /// `HostRuntime::get_session` does where no session is asked for. What
    /// comes back is the session that the client is told of, with the
    /// instance that serves it and the contract of its callbacks, still to
    /// be bound to the forwarder that reaches the client.
    pub fn accept<F: SessionFactory, H: HostedService<SessionInfo = F::SessionInfo>>(
        &self,
        host: &mut HostRuntime<F, H>,
    ) -> (r: Admission<H::ServiceInstance>)
        ensures
            HostRuntime::session_given(*old(host), *final(host), None, r.session_id@, r.session),
            exists|contract: ServiceContract|
                #[trigger] old(host).hosted().implements(contract) && r.callbacks@
                    == contract.callback_model()@,
    {
        let callbacks = host.contract().callback_contract().duplicate();
        let (id, session) = host.get_session(None);
        let session_id = match id {
            Cow::Borrowed(id) => id.to_owned(),
            Cow::Owned(id) => id,
        };
        Admission { session_id, session, callbacks }
    }
}

/// A connection that an endpoint has taken in: the session that was minted
/// for it, the instance that serves it, and the contract of its callbacks.
pub struct Admission<T: InvokeTarget> {
    pub session_id: String,
    pub session: Rc<T>,
    pub callbacks: ServiceContractModel,
}

impl<T: InvokeTarget> Admission<T> {
    /// Binds the connection to `callback`, the forwarder that reaches its
    /// client: from now on the instance finds a proxy of the callback
    /// contract over that forwarder, and over no other, in the slot of each
    /// of its calls.
    pub fn bind<K: Forwarder>(self, callback: K) -> (r: MpscSession<T, K>)
        ensures
            r.session_id == self.session_id,
            r.session == self.session,
            r.callback.forwarder == callback,
            r.callback.contract == self.callbacks,
            r.callback@ == proxy_view(callback, self.callbacks@),
    {
        MpscSession {
            session_id: self.session_id,
            session: self.session,
            callback: Rc::new(ServiceProxy::new(self.callbacks, callback)),
        }
    }
}

/// What a loop of the transport finds on the channel that it waits on.
pub enum Arrival<M> {
    /// Something has come.
    Came(M),
    /// The channel has ended: the other side has closed it.
    Ended,
    /// The channel has failed.
    Broken(ServiceError),
}

/// What a loop of the transport does about what it has found.
pub enum Turn<A> {
    /// It hands this on, and waits for what comes next.
    Go(A),
    /// It ends, with this result.
    Over(Result<(), ServiceError>),
}

/// How a loop ends on what it has found: not at all where something has
/// come, cleanly where the other side has closed the channel, and with the
/// transport's error where the channel has failed.
pub open spec fn ending<M>(arrival: Arrival<M>) -> Option<Result<(), Seq<char>>> {
    match arrival {
        Arrival::Came(_) => None,
        Arrival::Ended => Some(Ok(())),
        Arrival::Broken(e) => Some(Err(e@)),
    }
}

/// How `turn` ends its loop: not at all where it goes on.
pub open spec fn ended_in<A>(turn: Turn<A>) -> Option<Result<(), Seq<char>>> {
    match turn {
        Turn::Go(_) => None,
        Turn::Over(Ok(_)) => Some(Ok(())),
        Turn::Over(Err(e)) => Some(Err(e@)),
    }
}

impl<T: InvokeTarget, K: Forwarder> MpscSession<T, K> {
    /// One turn of the connection's loop. A message is served and its
    /// response handed on, whatever the request was. When the client has
    /// closed its forwarder the loop ends, and ends cleanly; only a failure
    /// of the channel ends it with an error, which is the channel's.
    pub fn turn(&self, contract: &ServiceContract, arrival: Arrival<String>) -> (r: Turn<String>)
        ensures
            ended_in(r) == ending(arrival),
            arrival matches Arrival::Came(message) ==> (r matches Turn::Go(response) && reply_to(
                contract.model()@,
                &self.session,
                self.callback@,
                message@,
                response@,
            )),
    {
        match arrival {
            Arrival::Came(message) => Turn::Go(self.serve(contract, message.as_str())),
            Arrival::Ended => Turn::Over(Ok(())),
            Arrival::Broken(e) => Turn::Over(Err(e)),
        }
    }
}

impl MpscEndpoint {
    /// One turn of the endpoint's loop. A client that connects is taken in,
    /// as `accept` does. When nobody can connect any more the loop ends, and
    /// ends cleanly; only a failure of the channel ends it with an error,
    /// which is the channel's. A loop that ends leaves the sessions alone.
    pub fn turn<F: SessionFactory, H: HostedService<SessionInfo = F::SessionInfo>>(
        &self,
        host: &mut HostRuntime<F, H>,
        arrival: Arrival<()>,
    ) -> (r: Turn<Admission<H::ServiceInstance>>)
        ensures
            ended_in(r) == ending(arrival),
            arrival is Came ==> (r matches Turn::Go(admitted) && HostRuntime::session_given(
                *old(host),
                *final(host),
                None,
                admitted.session_id@,
                admitted.session,
            ) && exists|contract: ServiceContract|
                #[trigger] old(host).hosted().implements(contract) && admitted.callbacks@
                    == contract.callback_model()@),
            !(arrival is Came) ==> *final(host) == *old(host),
    {
        match arrival {
            Arrival::Came(_) => Turn::Go(self.accept(host)),
            Arrival::Ended => Turn::Over(Ok(())),
            Arrival::Broken(e) => Turn::Over(Err(e)),
        }
    }
}

/// The registry of the endpoints that listen: what a server registers under
/// its endpoint's name, a client finds there.
pub type EndpointRegistry<T> = Directory<T>;

/// What is registered under `name`.
pub fn get_endpoint<'a, T>(registry: &'a EndpointRegistry<T>, name: &str) -> (r: Option<&'a T>)
    ensures
        match registry.value(name@) {
            Some(endpoint) => r == Some(&endpoint),
            None => r is None,
        },
{
    registry.get(name)
}

/// Registers `endpoint` under `name`, in place of what was registered there.
pub fn set_endpoint<T>(registry: &mut EndpointRegistry<T>, name: &str, endpoint: T)
    ensures
        final(registry).value(name@) == Some(endpoint),
        forall|k: Seq<char>|
            k != name@ ==> #[trigger] final(registry).value(k) == old(registry).value(k),
{
    registry.insert(name, endpoint);
}

/// The state of a forwarder of the in-process transport: it turns a call
/// into the request message to send, and the response message that came back
/// into the call's result, as long as it is open.
#[derive(Debug, PartialEq, Eq)]
pub struct MpscForwarder {
    id: String,
    closed: bool,
}

impl MpscForwarder {
    /// The id of the session that the forwarder belongs to.
    pub closed spec fn session_id(&self) -> Seq<char> {
        self.id@
    }

    /// Whether the forwarder was closed.
    pub closed spec fn is_closed(&self) -> bool {
        self.closed
    }

    /// An open forwarder for the session `id`.
    pub fn new(id: String) -> (r: Self)
        ensures
            r.session_id() == id@,
            !r.is_closed(),
    {
        MpscForwarder { id, closed: false }
    }

    /// The id of the session that the forwarder belongs to.
    pub fn id(&self) -> (r: &String)
        ensures
            r@ == self.session_id(),
    {
        &self.id
    }

    /// Whether the forwarder was closed.
    pub fn closed(&self) -> (r: bool)
        ensures
            r == self.is_closed(),
    {
        self.closed
    }

    /// The message to send for a request of `name` with the encoded
    /// `params`. A closed forwarder sends nothing: it fails with `closed`.
    pub fn request(&self, name: &str, params: Tree) -> (r: Result<String, ServiceError>)
        ensures
            self.is_closed() ==> reply(r) == Err::<Seq<char>, Seq<char>>(
                FaultView::Closed.description(),
            ),
            !self.is_closed() ==> reply(r) == Ok::<Seq<char>, Seq<char>>(
                text_of(request_tree(name@, params@)),
            ),
    {
        if self.closed {
            return Err(Fault::Closed.into_error());
        }
        Ok(encode_request(name, params))
    }

    /// The result of a call for which the transport brought back `response`:
    /// the transport's error, or the result that the response message
    /// carries. A forwarder that was closed in the meantime fails with
    /// `closed`.
    pub fn result(&self, response: Result<String, ServiceError>) -> (r: Result<
        Tree,
        ServiceError,
    >)
        ensures
            self.is_closed() ==> reply(r) == Err::<TreeView, Seq<char>>(
                FaultView::Closed.description(),
            ),
            !self.is_closed() ==> result_of(reply(response), reply(r)),
    {
        if self.closed {
            return Err(Fault::Closed.into_error());
        }
        match response {
            Err(e) => Err(e),
            Ok(text) => match decode_response(text.as_str()) {
                Err(e) => Err(e),
                Ok(envelope) => envelope.result,
            },
        }
    }

    /// Forwards a call of `name` with the encoded `params` through
    /// `exchange`, which takes a request message to the server and brings
    /// the response to it back. The call's result is made of the response
    /// that `exchange` brought for this call's own request, and of no other.
    /// A closed forwarder sends nothing: it fails with `closed`.
    pub fn forward<C: FnOnce(String) -> Result<String, ServiceError>>(
        &self,
        name: &str,
        params: Tree,
        exchange: C,
    ) -> (r: Result<Tree, ServiceError>)
        requires
            forall|message: String| call_requires(exchange, (message,)),
        ensures
            self.is_closed() ==> reply(r) == Err::<TreeView, Seq<char>>(
                FaultView::Closed.description(),
            ),
            !self.is_closed() ==> exists|message: String, response: Result<String, ServiceError>|
                {
                    &&& message@ == text_of(request_tree(name@, params@))
                    &&& #[trigger] call_ensures(exchange, (message,), response)
                    &&& result_of(reply(response), reply(r))
                },
    {
        match self.request(name, params) {
            Err(e) => Err(e),
            Ok(message) => {
                let ghost sent = message;
                let response = exchange(message);
                let ghost brought = response;
                let r = self.result(response);
                assert(call_ensures(exchange, (sent,), brought) && result_of(
                    reply(brought),
                    reply(r),
                ));
                r
            },
        }
    }

    /// Closes the forwarder. A forwarder is closed once: the first close
    /// succeeds, and the channel is to be closed with it; every later close
    /// fails with `closed`.
    pub fn close(&mut self) -> (r: Result<(), ServiceError>)
        ensures
            (final(self).is_closed(), reply(r)) == after_close(old(self).is_closed()),
            final(self).session_id() == old(self).session_id(),
    {
        if self.closed {
            return Err(Fault::Closed.into_error());
        }
        self.closed = true;
        Ok(())
    }
}

/// The description of a connection to an endpoint that is not registered.
pub open spec fn no_endpoint() -> Seq<char> {
    "no endpoint of that name"@
}

/// A client's connection to a service: the proxy of the service's contract,
/// over the forwarder that the transport made for the connection.
pub struct MpscServiceConnection<F: Forwarder> {
    pub proxy: ServiceProxy<F>,
}

impl<F: Forwarder> MpscServiceConnection<F> {
    /// The connection for `contract` over `forwarder`, which carries the
    /// requests of the session that the handshake brought.
    pub fn connect(contract: &ServiceContract, forwarder: F) -> (r: Self)
        ensures
            r.proxy.contract@ == contract.model()@,
            r.proxy.forwarder == forwarder,
    {
        MpscServiceConnection { proxy: ServiceProxy::new(contract.contract().duplicate(), forwarder) }
    }

    /// The proxy of the service's contract.
    pub fn proxy(&self) -> (r: &ServiceProxy<F>)
        ensures
            *r == self.proxy,
    {
        &self.proxy
    }

    /// Closes the connection.
    pub fn close(&mut self) -> (r: Result<(), ServiceError>)
        ensures
            old(self).proxy.forwarder.closes(final(self).proxy.forwarder, reply(r)),
            final(self).proxy.contract == old(self).proxy.contract,
    {
        self.proxy.close()
    }
}

/// A client of the in-process transport, for one endpoint.
#[derive(Debug, PartialEq, Eq)]
pub struct MpscClient {
    pub endpoint: String,
}

impl MpscClient {
    /// A client for the endpoint that is known as `endpoint`.
    pub fn new(endpoint: &str) -> (r: MpscClient)
        ensures
            r.endpoint@ == endpoint@,
    {
        MpscClient { endpoint: endpoint.to_owned() }
    }

    /// What a client of a contract without callback connects through: the
    /// endpoint that `registry` holds under the client's name. Where it holds
    /// none, the connection fails before anything is sent.
    pub fn connect<'a, T>(&self, registry: &'a EndpointRegistry<T>) -> (r: Result<
        &'a T,
        ServiceError,
    >)
        ensures
            match registry.value(self.endpoint@) {
                Some(endpoint) => r matches Ok(e) && *e == endpoint,
                None => r matches Err(e) && e@ == no_endpoint(),
            },
    {
        match get_endpoint(registry, self.endpoint.as_str()) {
            Some(endpoint) => Ok(endpoint),
            None => Err(Fault::TransportError("no endpoint of that name".to_owned()).into_error()),
        }
    }

    /// What a client of a contract with a callback connects through and
    /// with: the endpoint that `registry` holds under the client's name, and
    /// the loop that serves the server's calls on `callback`, which
    /// implements the callback contract of `contract`.
    pub fn connect_duplex<'a, T, C: InvokeTarget>(
        &self,
        registry: &'a EndpointRegistry<T>,
        contract: &ServiceContract,
        callback: C,
    ) -> (r: Result<(&'a T, CallbackLoop<C>), ServiceError>)
        ensures
            match registry.value(self.endpoint@) {
                Some(endpoint) => r matches Ok((e, serving)) && *e == endpoint
                    && serving.contract@ == contract.callback_model()@ && serving.target
                    == callback,
                None => r matches Err(e) && e@ == no_endpoint(),
            },
    {
        match get_endpoint(registry, self.endpoint.as_str()) {
            Some(endpoint) => Ok(
                (endpoint, CallbackLoop::new(contract.callback_contract().duplicate(), callback)),
            ),
            None => Err(Fault::TransportError("no endpoint of that name".to_owned()).into_error()),
        }
    }
}

} // verus!
