//! The two ways to host a service: one instance for all, or one for each
//! session.

use crate::contract::ServiceContract;
use crate::session::{share, HostedService, SessionService, SingletonService};
use std::marker::PhantomData;
use std::rc::Rc;
use vstd::prelude::*;

verus! {

/// Hosts one instance, created once, that serves every session.
pub struct Singleton<T, I> {
    pub singleton: Rc<T>,
    pub contract: ServiceContract,
    pub p_session: PhantomData<I>,
}

impl<T: SingletonService, I> Singleton<T, I> {
    /// A host of `contract` that serves every session with `singleton`.
    pub fn new(contract: ServiceContract, singleton: T) -> (r: Singleton<T, I>)
        ensures
            *r.singleton == singleton,
            r.contract == contract,
    {
        Singleton { singleton: Rc::new(singleton), contract, p_session: PhantomData }
    }
}

impl<T: SingletonService, I> HostedService for Singleton<T, I> {
    type ServiceInstance = Rc<T>;

    type SessionInfo = I;

    open spec fn provides(&self, session_info: Rc<I>, instance: Rc<T>) -> bool {
        instance == self.singleton
    }

    open spec fn implements(&self, contract: ServiceContract) -> bool {
        contract == self.contract
    }

    fn contract(&self) -> (r: &ServiceContract) {
        &self.contract
    }

    fn get_session(&self, _session_info: Rc<I>) -> (r: Rc<T>) {
        share(&self.singleton)
    }
}

/// Hosts a service of which each session gets an instance of its own, built
/// from the session's state.
pub struct Session<T> {
    pub contract: ServiceContract,
    pub phantom_session: PhantomData<T>,
}

impl<T: SessionService> Session<T> {
    /// A host of `contract` that builds a `T` for each session.
    pub fn new(contract: ServiceContract) -> (r: Session<T>)
        ensures
            r.contract == contract,
    {
        Session { contract, phantom_session: PhantomData }
    }
}

impl<T: SessionService> HostedService for Session<T> {
    type ServiceInstance = Box<T>;

    type SessionInfo = T::SessionInfo;

    open spec fn provides(&self, session_info: Rc<T::SessionInfo>, instance: Box<T>) -> bool {
        T::constructs(session_info, *instance)
    }

    open spec fn implements(&self, contract: ServiceContract) -> bool {
        contract == self.contract
    }

    fn contract(&self) -> (r: &ServiceContract) {
        &self.contract
    }

    fn get_session(&self, session_info: Rc<T::SessionInfo>) -> (r: Box<T>) {
        T::construct(session_info)
    }
}

impl ServiceContract {
    /// A host of this contract that serves every session with `service`.
    pub fn singleton<T: SingletonService, I>(self, service: T) -> (r: Singleton<T, I>)
        ensures
            *r.singleton == service,
            r.contract == self,
    {
        Singleton::new(self, service)
    }

    /// A host of this contract that builds a `T` for each session.
    pub fn session<T: SessionService>(self) -> (r: Session<T>)
        ensures
            r.contract == self,
    {
        Session::new(self)
    }
}

/// Every instance that a singleton host hands out is its one instance: two
/// that it hands out are the same, whatever sessions they are handed out
/// for.
pub proof fn lemma_singleton_same_instance<T: SingletonService, I>(
    host: Singleton<T, I>,
    first_session: Rc<I>,
    first: Rc<T>,
    second_session: Rc<I>,
    second: Rc<T>,
)
    requires
        host.provides(first_session, first),
        host.provides(second_session, second),
    ensures
        first == second,
        first == host.singleton,
{
}

} // verus!
