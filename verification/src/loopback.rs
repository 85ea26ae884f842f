//! The shortest transport: a forwarder that hands each request straight to
//! the dispatcher of an implementation in the same process.

use crate::contract::ServiceContract;
use crate::dispatch::{
    checked, dispatch, lemma_operation_index, lemma_round_trip_of_contract, operation_index,
    outgoing, served, InvokeTarget,
};
use crate::error::{reply, Fault, FaultView, ServiceError};
use crate::model::{well_formed, ServiceContractModel};
use crate::proxy::{after_close, called, unit_proxy, CallbackSlot, Forwarder, ServiceProxy};
use crate::value::{Tree, TreeView};
use std::rc::Rc;
use vstd::prelude::*;

verus! {

/// A forwarder to an implementation in the same process. A request is
/// served where it is forwarded; the implementation finds no callback but
/// that of the unit contract.
pub struct Loopback<T: InvokeTarget> {
    contract: ServiceContractModel,
    target: T,
    closed: bool,
}

impl<T: InvokeTarget> Loopback<T> {
    /// The contract whose dispatcher serves the requests.
    pub closed spec fn served_contract(&self) -> ServiceContractModel {
        self.contract
    }

    /// The implementation that answers.
    pub closed spec fn implementation(&self) -> T {
        self.target
    }

    /// Whether the forwarder was closed.
    pub closed spec fn is_closed(&self) -> bool {
        self.closed
    }

    /// An open forwarder to `target`, which implements `contract`.
    pub fn new(contract: &ServiceContract, target: T) -> (r: Self)
        ensures
            r.served_contract()@ == contract.model()@,
            well_formed(r.served_contract()@),
            r.implementation() == target,
            !r.is_closed(),
    {
        Loopback { contract: contract.contract().duplicate(), target, closed: false }
    }

    /// A proxy of `contract` over an open forwarder to `target`, which
    /// implements it.
    pub fn proxy(contract: &ServiceContract, target: T) -> (r: ServiceProxy<Loopback<T>>)
        ensures
            r.contract@ == contract.model()@,
            r.forwarder.served_contract()@ == contract.model()@,
            well_formed(r.contract@),
            r.forwarder.implementation() == target,
            !r.forwarder.is_closed(),
    {
        ServiceProxy::new(contract.contract().duplicate(), Loopback::new(contract, target))
    }
}

impl<T: InvokeTarget> Forwarder for Loopback<T> {
    open spec fn carries(
        &self,
        name: Seq<char>,
        params: TreeView,
        result: Result<TreeView, Seq<char>>,
    ) -> bool {
        if self.is_closed() {
            result == Err::<TreeView, Seq<char>>(FaultView::Closed.description())
        } else {
            served(
                self.served_contract()@,
                &self.implementation(),
                Some(unit_proxy()),
                name,
                params,
                result,
            )
        }
    }

    /// Serves the request on the implementation. A closed forwarder serves
    /// nothing: it fails with `closed`.
    fn forward(&self, name: &str, params: Tree) -> (r: Result<Tree, ServiceError>) {
        if self.closed {
            return Err(Fault::Closed.into_error());
        }
        let mut slot: CallbackSlot<()> = CallbackSlot::new();
        slot.set_task_callback(Rc::new(ServiceProxy::new(ServiceContractModel::unit(), ())));
        let r = dispatch(&self.contract, &self.target, name, &params, &slot);
        slot.clear();
        r
    }

    open spec fn closes(&self, after: Self, result: Result<(), Seq<char>>) -> bool {
        &&& (after.is_closed(), result) == after_close(self.is_closed())
        &&& after.served_contract() == self.served_contract()
        &&& after.implementation() == self.implementation()
    }

    /// Closes the forwarder: the first time with success, every later time
    /// with `closed`.
    fn close(&mut self) -> (r: Result<(), ServiceError>) {
        if self.closed {
            return Err(Fault::Closed.into_error());
        }
        self.closed = true;
        Ok(())
    }
}

/// A call through a proxy reaches the implementation as it was made, and the
/// implementation's answer is the call's result. Whenever a proxy of a
/// well-formed contract stands before an open forwarder to an implementation
/// of the same contract, and the proxy takes the call, the result is an
/// answer of the implementation to the operation that was called, with the
/// arguments that were passed, given with the unit contract's proxy in the
/// slot and checked against the declared return type.
pub proof fn lemma_call_reaches_implementation<T: InvokeTarget>(
    proxy: ServiceProxy<Loopback<T>>,
    name: Seq<char>,
    values: Seq<TreeView>,
    result: Result<TreeView, Seq<char>>,
)
    requires
        well_formed(proxy.contract@),
        proxy.forwarder.served_contract()@ == proxy.contract@,
        !proxy.forwarder.is_closed(),
        outgoing(proxy.contract@, name, values) is Ok,
        called(&proxy, name, values, result),
    ensures
        operation_index(proxy.contract@.operations, name, 0) is Some,
        exists|answer: Result<TreeView, Seq<char>>|
            #[trigger] proxy.forwarder.implementation().answers(
                name,
                values,
                Some(unit_proxy()),
                answer,
            ) && result
                == checked(
                proxy.contract@.operations[operation_index(
                    proxy.contract@.operations,
                    name,
                    0,
                )->Some_0].output,
                answer,
            ),
{
    let contract = proxy.contract@;
    let target = proxy.forwarder.implementation();
    let params = outgoing(contract, name, values)->Ok_0;
    let i = operation_index(contract.operations, name, 0)->Some_0;
    let output = contract.operations[i].output;
    lemma_operation_index(contract.operations, name, 0);
    lemma_round_trip_of_contract(contract, name, values);
    let brought = choose|brought: Result<TreeView, Seq<char>>|
        #[trigger] proxy.forwarder.carries(name, params, brought) && result == checked(
            output,
            brought,
        );
    assert(served(contract, &target, Some(unit_proxy()), name, params, brought));
    let answer = choose|answer: Result<TreeView, Seq<char>>|
        #[trigger] target.answers(contract.operations[i].name, values, Some(unit_proxy()), answer)
            && brought
            == checked(output, answer);
    assert(target.answers(name, values, Some(unit_proxy()), answer) && result == checked(
        output,
        answer,
    ));
}

} // verus!
