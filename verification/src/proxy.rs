//! The client's side of a contract: the forwarder that carries a call, the
//! proxy that encodes it, and the slot through which an implementation
//! reaches its caller's callback.

use crate::dispatch::{checked, operation_index, outgoing};
use crate::error::{reply, Fault, FaultView, ServiceError};
use crate::model::{unit_model, ServiceContractModel, ServiceContractModelView};
use crate::value::{views, Tree, TreeView};
use std::rc::Rc;
use vstd::prelude::*;

verus! {

/// What a proxy uses to push an encoded request and obtain the response.
/// Implemented by each transport.
pub trait Forwarder: Sized {
    /// Whether `result` is what this forwarder brings back for a request of
    /// `name` with the encoded `params`. A forwarder that says nothing of
    /// itself accepts every result.
    open spec fn carries(
        &self,
        name: Seq<char>,
        params: TreeView,
        result: Result<TreeView, Seq<char>>,
    ) -> bool {
        true
    }

    /// Sends a request and waits for its response.
    fn forward(&self, name: &str, params: Tree) -> (r: Result<Tree, ServiceError>)
        ensures
            self.carries(name@, params@, reply(r)),
    ;

    /// Whether a close may turn this forwarder into `after` and end in
    /// `result`. A forwarder that says nothing of itself accepts every close.
    open spec fn closes(&self, after: Self, result: Result<(), Seq<char>>) -> bool {
        true
    }

    /// Releases the connection.
    fn close(&mut self) -> (r: Result<(), ServiceError>)
        ensures
            old(self).closes(*final(self), reply(r)),
    ;
}

/// What a close makes of a forwarder that was closed or not: it is closed
/// from then on, and the close fails if it was closed before.
pub open spec fn after_close(closed: bool) -> (bool, Result<(), Seq<char>>) {
    (
        true,
        if closed {
            Err(FaultView::Closed.description())
        } else {
            Ok(())
        },
    )
}

/// A forwarder is closed once, and a closed forwarder carries nothing: the
/// first close succeeds, every later close fails, and the forwarder stays
/// closed, so that whatever is forwarded after a close ends in `closed`.
pub proof fn lemma_closed_for_good(closed: bool)
    ensures
        after_close(false).1 is Ok,
        after_close(closed).0,
        after_close(after_close(closed).0).1 == Err::<(), Seq<char>>("closed"@),
        after_close(after_close(closed).0).0,
{
}

/// The forwarder of the unit contract, which has no operation to forward.
impl Forwarder for () {
    open spec fn carries(
        &self,
        name: Seq<char>,
        params: TreeView,
        result: Result<TreeView, Seq<char>>,
    ) -> bool {
        result == Err::<TreeView, Seq<char>>(FaultView::BadOperation.description())
    }

    fn forward(&self, name: &str, params: Tree) -> (r: Result<Tree, ServiceError>) {
        Err(Fault::BadOperation.into_error())
    }

    open spec fn closes(&self, after: (), result: Result<(), Seq<char>>) -> bool {
        result == Ok::<(), Seq<char>>(())
    }

    fn close(&mut self) -> (r: Result<(), ServiceError>) {
        Ok(())
    }
}

/// Whether `result` is what a call of `name` with `values` through `proxy`
/// may end in: the fault that keeps the proxy from sending, or what the
/// forwarder brings back for the encoded arguments, checked against the
/// operation's declared return type.
pub open spec fn called<F: Forwarder>(
    proxy: &ServiceProxy<F>,
    name: Seq<char>,
    values: Seq<TreeView>,
    result: Result<TreeView, Seq<char>>,
) -> bool {
    match outgoing(proxy.contract@, name, values) {
        Err(fault) => result == Err::<TreeView, Seq<char>>(fault.description()),
        Ok(params) => exists|brought: Result<TreeView, Seq<char>>|
            #[trigger] proxy.forwarder.carries(name, params, brought) && result == checked(
                proxy.contract@.operations[operation_index(
                    proxy.contract@.operations,
                    name,
                    0,
                )->Some_0].output,
                brought,
            ),
    }
}

/// A proxy of a contract: it exposes the contract's operations and forwards
/// each call through its forwarder.
pub struct ServiceProxy<F: Forwarder> {
    pub forwarder: F,
    pub contract: ServiceContractModel,
}

/// What is seen of a proxy, whatever its forwarder is: the contract, and
/// which result its forwarder may bring back for which request.
pub struct ProxyView {
    pub contract: ServiceContractModelView,
    pub carries: spec_fn(Seq<char>, TreeView, Result<TreeView, Seq<char>>) -> bool,
}

/// What is seen of a proxy of `contract` over `forwarder`.
pub open spec fn proxy_view<F: Forwarder>(
    forwarder: F,
    contract: ServiceContractModelView,
) -> ProxyView {
    ProxyView {
        contract,
        carries: |name: Seq<char>, params: TreeView, result: Result<TreeView, Seq<char>>|
            forwarder.carries(name, params, result),
    }
}

/// What is seen of the proxy of the unit contract over the unit forwarder:
/// the proxy that an implementation finds where its caller has no callback.
pub open spec fn unit_proxy() -> ProxyView {
    proxy_view((), unit_model())
}

impl<F: Forwarder> View for ServiceProxy<F> {
    type V = ProxyView;

    open spec fn view(&self) -> ProxyView {
        proxy_view(self.forwarder, self.contract@)
    }
}

impl<F: Forwarder> ServiceProxy<F> {
    /// A proxy of `contract` over the forwarder `f`.
    pub fn new(contract: ServiceContractModel, f: F) -> (r: ServiceProxy<F>)
        ensures
            r.forwarder == f,
            r.contract == contract,
    {
        ServiceProxy { forwarder: f, contract }
    }

    /// Calls the operation `name` with `arguments`, given in declared order.
    /// A name that the contract does not have ends in `Bad fn`, arguments
    /// that the operation does not take in an encode error, and in neither
    /// case is anything sent. Otherwise the arguments go out as a record
    /// under their declared names, and what the forwarder brings back is the
    /// result, unless it is no value of the declared return type.
    pub fn call(&self, name: &str, arguments: Vec<Tree>) -> (r: Result<Tree, ServiceError>)
        ensures
            called(self, name@, views(arguments@), reply(r)),
    {
        match self.contract.resolve(name) {
            None => Err(Fault::BadOperation.into_error()),
            Some(i) => {
                let operation = &self.contract.operations[i];
                assert(self.contract@.operations[i as int] == operation@);
                match operation.pack(arguments) {
                    Err(fault) => Err(fault.into_error()),
                    Ok(params) => {
                        let ghost sent = params@;
                        let brought = self.forwarder.forward(name, params);
                        assert(self.forwarder.carries(name@, sent, reply(brought)));
                        operation.check(brought)
                    },
                }
            },
        }
    }

    /// Closes the forwarder.
    pub fn close(&mut self) -> (r: Result<(), ServiceError>)
        ensures
            old(self).forwarder.closes(final(self).forwarder, reply(r)),
            final(self).contract == old(self).contract,
    {
        self.forwarder.close()
    }
}

/// Where the proxy of the caller's callback contract stands while a call is
/// dispatched. It is set before the implementation is called and cleared
/// after.
pub struct CallbackSlot<F: Forwarder> {
    proxy: Option<Rc<ServiceProxy<F>>>,
}

impl<F: Forwarder> CallbackSlot<F> {
    /// The proxy in the slot, if it is set.
    pub closed spec fn held(&self) -> Option<Rc<ServiceProxy<F>>> {
        self.proxy
    }

    /// Whether the slot holds a proxy.
    pub open spec fn is_set(&self) -> bool {
        self.held() is Some
    }

    /// What is seen of the proxy in the slot, if it is set.
    pub open spec fn proxy(&self) -> Option<ProxyView> {
        match self.held() {
            Some(held) => Some(held@),
            None => None,
        }
    }

    /// A slot that is not set.
    pub fn new() -> (r: CallbackSlot<F>)
        ensures
            !r.is_set(),
    {
        CallbackSlot { proxy: None }
    }

    /// Puts `callback` into the slot.
    pub fn set_task_callback(&mut self, callback: Rc<ServiceProxy<F>>)
        ensures
            final(self).held() == Some(callback),
    {
        self.proxy = Some(callback);
    }

    /// Empties the slot.
    pub fn clear(&mut self)
        ensures
            !final(self).is_set(),
    {
        self.proxy = None;
    }

    /// The proxy in the slot, if it is set.
    pub fn get_task_callback(&self) -> (r: Option<&Rc<ServiceProxy<F>>>)
        ensures
            r is Some <==> self.is_set(),
            r matches Some(p) ==> Some(*p) == self.held(),
    {
        self.proxy.as_ref()
    }
}

} // verus!
