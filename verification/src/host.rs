//! The host: one hosted service, a session factory, and the endpoints through
//! which callers reach it.

use crate::contract::ServiceContract;
use crate::error::{reply, ServiceError};
use crate::runtime::{asked, HostRuntime};
use crate::session::{
    DefaultSessionFactory, HostedService, SessionFactory, SessionId, SingletonService,
};
use std::borrow::Cow;
use std::rc::Rc;
use vstd::prelude::*;

verus! {

/// A listener on one transport. It takes connections, asks the runtime for
/// their sessions, and serves their requests until the transport closes.
pub trait ServiceEndpoint<F: SessionFactory, H: HostedService<SessionInfo = F::SessionInfo>> {
    /// Whether a run of this endpoint may end in `result`. An endpoint that
    /// says nothing of itself may end in any.
    open spec fn finishes(&self, result: Result<(), Seq<char>>) -> bool {
        true
    }

    /// Serves until the transport closes: `Ok` on a clean close, `Err` on a
    /// transport error. The endpoint reaches the runtime's sessions through
    /// `get_session` alone: it leaves the hosted service and the session
    /// factory as they are.
    fn run(&self, host: &mut HostRuntime<F, H>) -> (r: Result<(), ServiceError>)
        ensures
            self.finishes(reply(r)),
            final(host).hosted() == old(host).hosted(),
            final(host).factory() == old(host).factory(),
    ;
}

/// An endpoint that hosts a service by itself: it is made from the service
/// that it hosts, of which one instance serves every caller.
pub trait SingletonEndpoint: Sized {
    /// The endpoint that hosts `service`, which implements `contract`.
    fn singleton_host<T: SingletonService + Send + 'static>(
        contract: ServiceContract,
        service: T,
    ) -> Self;
}

/// Where a host stands in its life.
#[derive(Debug, Clone, Copy, PartialEq, Eq, Structural)]
pub enum HostState {
    /// Built, not yet run.
    Configured,
    /// Run, with all its endpoints ended cleanly. It is not run again.
    Terminated,
}

/// The top-level builder of a service: bind a hosted service, a session
/// factory and endpoints, then run.
#[verifier::reject_recursive_types(F)]
#[verifier::reject_recursive_types(H)]
pub struct ServiceHost<F: SessionFactory, H: HostedService<SessionInfo = F::SessionInfo>> {
    hosted: H,
    session_factory: F,
    endpoints: Vec<Box<dyn ServiceEndpoint<F, H>>>,
    state: HostState,
}

/// How far the endpoints of a running host have come: for each endpoint
/// whether it still runs, and the error of the first that failed.
pub struct Progress {
    pub running: Seq<bool>,
    pub failure: Option<Seq<char>>,
}

impl Progress {
    /// The progress of a host that starts with `count` endpoints: all run,
    /// none has failed.
    pub open spec fn start(count: nat) -> Progress {
        Progress { running: Seq::new(count, |i: int| true), failure: None }
    }

    /// The progress after the endpoint `index` has ended in `result`. An
    /// endpoint ends once: what is said of one that does not run, or that
    /// the host does not have, changes nothing. The first error stays.
    pub open spec fn ended(self, index: int, result: Result<(), Seq<char>>) -> Progress {
        if 0 <= index < self.running.len() && self.running[index] {
            Progress {
                running: self.running.update(index, false),
                failure: match (self.failure, result) {
                    (None, Err(e)) => Some(e),
                    _ => self.failure,
                },
            }
        } else {
            self
        }
    }

    /// Whether the run is over: an endpoint has failed, or none runs any
    /// more.
    pub open spec fn is_over(self) -> bool {
        self.failure is Some || forall|i: int| 0 <= i < self.running.len() ==> !self.running[i]
    }
}

/// A host while its endpoints run. Whoever drives the endpoints tells it of
/// each endpoint that ends; when the run is over the host comes back, or the
/// error of the first endpoint that failed.
#[verifier::reject_recursive_types(F)]
#[verifier::reject_recursive_types(H)]
pub struct RunningHost<F: SessionFactory, H: HostedService<SessionInfo = F::SessionInfo>> {
    runtime: HostRuntime<F, H>,
    endpoints: Vec<Box<dyn ServiceEndpoint<F, H>>>,
    running: Vec<bool>,
    failure: Option<ServiceError>,
}

impl<F: SessionFactory, H: HostedService<SessionInfo = F::SessionInfo>> RunningHost<F, H> {
    /// The runtime that the endpoints share.
    pub closed spec fn runtime(&self) -> HostRuntime<F, H> {
        self.runtime
    }

    /// The endpoints, in the order in which they were added.
    pub closed spec fn endpoints(&self) -> Seq<Box<dyn ServiceEndpoint<F, H>>> {
        self.endpoints@
    }

    /// How far the endpoints have come.
    pub closed spec fn progress(&self) -> Progress {
        Progress {
            running: self.running@,
            failure: match self.failure {
                Some(e) => Some(e@),
                None => None,
            },
        }
    }

    /// The session `id` of the runtime, exactly as `HostRuntime::get_session`
    /// gives it. The endpoints and their progress stay as they are.
    pub fn get_session<'b>(&mut self, id: Option<&'b str>) -> (r: (
        Cow<'b, str>,
        Rc<H::ServiceInstance>,
    ))
        ensures
            final(self).progress() == old(self).progress(),
            final(self).endpoints() == old(self).endpoints(),
            HostRuntime::session_given(
                old(self).runtime(),
                final(self).runtime(),
                asked(id),
                r.0@,
                r.1,
            ),
    {
        self.runtime.get_session(id)
    }

    /// The runtime that the endpoints share, for the endpoint that is served
    /// next. Whatever is done with it, the endpoints and their progress stay
    /// as they are.
    pub fn sessions(&mut self) -> (r: &mut HostRuntime<F, H>)
        ensures
            *r == old(self).runtime(),
            final(self).runtime() == *final(r),
            final(self).progress() == old(self).progress(),
            final(self).endpoints() == old(self).endpoints(),
    {
        &mut self.runtime
    }

    /// The contract that the hosted service implements.
    pub fn contract(&self) -> (r: &ServiceContract)
        ensures
            self.runtime().hosted().implements(*r),
    {
        self.runtime.contract()
    }

    /// Takes note that the endpoint `index` has ended in `result`.
    pub fn ended(&mut self, index: usize, result: Result<(), ServiceError>)
        ensures
            final(self).progress() == old(self).progress().ended(index as int, reply(result)),
            final(self).runtime() == old(self).runtime(),
            final(self).endpoints() == old(self).endpoints(),
    {
        if index < self.running.len() && self.running[index] {
            self.running.set(index, false);
            if self.failure.is_none() {
                match result {
                    Err(e) => {
                        self.failure = Some(e);
                    },
                    Ok(_) => {},
                }
            }
        }
    }

    /// Whether the run is over: an endpoint has failed, or none runs any
    /// more.
    pub fn is_over(&self) -> (r: bool)
        ensures
            r == self.progress().is_over(),
    {
        if self.failure.is_some() {
            return true;
        }
        let mut i: usize = 0;
        while i < self.running.len()
            invariant
                i <= self.running.len(),
                self.failure is None,
                forall|j: int| 0 <= j < i ==> !self.running@[j],
            decreases self.running.len() - i,
        {
            if self.running[i] {
                assert(self.progress().running[i as int]);
                return false;
            }
            i = i + 1;
        }
        true
    }

    /// The end of a run that is over: the error of the first endpoint that
    /// failed, or the host, terminated, with what the runtime held.
    pub fn finish(self) -> (r: Result<ServiceHost<F, H>, ServiceError>)
        requires
            self.progress().is_over(),
        ensures
            match self.progress().failure {
                Some(e) => r matches Err(f) && f@ == e,
                None => r matches Ok(host) && host.state() == HostState::Terminated
                    && host.hosted() == self.runtime().hosted() && host.factory()
                    == self.runtime().factory() && host.endpoints() == self.endpoints(),
            },
    {
        match self.failure {
            Some(e) => Err(e),
            None => {
                let (hosted, session_factory) = self.runtime.into_parts();
                Ok(
                    ServiceHost {
                        hosted,
                        session_factory,
                        endpoints: self.endpoints,
                        state: HostState::Terminated,
                    },
                )
            },
        }
    }
}

impl<H: HostedService<SessionInfo = SessionId>> ServiceHost<DefaultSessionFactory, H> {
    /// A host of `service` with the default session factory and no endpoint.
    pub fn new(service: H) -> (r: Self)
        ensures
            r.hosted() == service,
            r.factory() == DefaultSessionFactory,
            r.endpoints().len() == 0,
            r.state() == HostState::Configured,
    {
        ServiceHost {
            hosted: service,
            session_factory: DefaultSessionFactory,
            endpoints: Vec::new(),
            state: HostState::Configured,
        }
    }
}

impl<F: SessionFactory, H: HostedService<SessionInfo = F::SessionInfo>> ServiceHost<F, H> {
    /// The hosted service.
    pub closed spec fn hosted(&self) -> H {
        self.hosted
    }

    /// The session factory.
    pub closed spec fn factory(&self) -> F {
        self.session_factory
    }

    /// The endpoints, in the order in which they were added.
    pub closed spec fn endpoints(&self) -> Seq<Box<dyn ServiceEndpoint<F, H>>> {
        self.endpoints@
    }

    /// Where the host stands in its life.
    pub closed spec fn state(&self) -> HostState {
        self.state
    }

    /// Whether the host has been run.
    pub fn is_terminated(&self) -> (r: bool)
        ensures
            r == (self.state() == HostState::Terminated),
    {
        self.state == HostState::Terminated
    }

    /// The number of endpoints.
    pub fn endpoint_count(&self) -> (r: usize)
        ensures
            r == self.endpoints().len(),
    {
        self.endpoints.len()
    }

    /// The hosted service.
    pub fn service(&self) -> (r: &H)
        ensures
            *r == self.hosted(),
    {
        &self.hosted
    }

    /// A host of the same service with `session_factory` in place of the
    /// factory it had. The endpoints belong to the factory they were added
    /// for: the new host has none yet.
    pub fn session_factory<N: SessionFactory<SessionInfo = F::SessionInfo>>(
        self,
        session_factory: N,
    ) -> (r: ServiceHost<N, H>)
        ensures
            r.hosted() == self.hosted(),
            r.factory() == session_factory,
            r.endpoints().len() == 0,
            r.state() == self.state(),
    {
        ServiceHost {
            hosted: self.hosted,
            session_factory,
            endpoints: Vec::new(),
            state: self.state,
        }
    }

    /// The same host with one more endpoint, behind those it has.
    pub fn endpoint(self, endpoint: Box<dyn ServiceEndpoint<F, H>>) -> (r: Self)
        ensures
            r.hosted() == self.hosted(),
            r.factory() == self.factory(),
            r.state() == self.state(),
            r.endpoints() == self.endpoints().push(endpoint),
    {
        let mut host = self;
        host.endpoints.push(endpoint);
        host
    }

    /// Starts the run: the host's parts go into a runtime without sessions,
    /// and every endpoint is taken to run. Only a host that has not been run
    /// is started.
    pub fn start(self) -> (r: RunningHost<F, H>)
        requires
            self.state() == HostState::Configured,
        ensures
            r.runtime().hosted() == self.hosted(),
            r.runtime().factory() == self.factory(),
            r.runtime().cache().len() == 0,
            r.endpoints() == self.endpoints(),
            r.progress() == Progress::start(self.endpoints().len()),
    {
        let ServiceHost { hosted, session_factory, endpoints, state } = self;
        let mut running: Vec<bool> = Vec::new();
        let mut i: usize = 0;
        while i < endpoints.len()
            invariant
                i <= endpoints.len(),
                running.len() == i,
                forall|j: int| 0 <= j < i ==> running@[j],
            decreases endpoints.len() - i,
        {
            running.push(true);
            i = i + 1;
        }
        let r = RunningHost {
            runtime: HostRuntime::new(hosted, session_factory),
            endpoints,
            running,
            failure: None,
        };
        assert(r.progress().running =~= Progress::start(self.endpoints().len()).running);
        r
    }

    /// Runs every endpoint over one runtime, each to its end, in the order in
    /// which they were added, and gives the host back, terminated, when all
    /// have ended cleanly. The first endpoint that fails ends the run with
    /// its error; no endpoint behind it is run. Only a host that has not been
    /// run is run.
    pub fn run(self) -> (r: Result<Self, ServiceError>)
        requires
            self.state() == HostState::Configured,
        ensures
            match r {
                Ok(host) => {
                    &&& host.state() == HostState::Terminated
                    &&& host.hosted() == self.hosted()
                    &&& host.factory() == self.factory()
                    &&& host.endpoints() == self.endpoints()
                    &&& forall|i: int|
                        0 <= i < self.endpoints().len() ==> (#[trigger] self.endpoints()[i]).finishes(
                            Ok(()),
                        )
                },
                Err(e) => exists|i: int|
                    {
                        &&& 0 <= i < self.endpoints().len()
                        &&& (#[trigger] self.endpoints()[i]).finishes(Err(e@))
                        &&& forall|j: int|
                            0 <= j < i ==> (#[trigger] self.endpoints()[j]).finishes(Ok(()))
                    },
            },
    {
        let mut running = self.start();
        let count = running.endpoints.len();
        let mut i: usize = 0;
        while i < count
            invariant
                i <= count,
                count == self.endpoints().len(),
                running.endpoints@ == self.endpoints(),
                running.runtime.hosted() == self.hosted(),
                running.runtime.factory() == self.factory(),
                running.progress().failure is None,
                running.progress().running.len() == count,
                forall|j: int| 0 <= j < i ==> !running.progress().running[j],
                forall|j: int| i <= j < count ==> running.progress().running[j],
                forall|j: int| 0 <= j < i ==> (#[trigger] self.endpoints()[j]).finishes(Ok(())),
            decreases count - i,
        {
            let result = running.endpoints[i].run(&mut running.runtime);
            let ghost ended = reply(result);
            assert(self.endpoints()[i as int].finishes(ended));
            running.ended(i, result);
            if running.failure.is_some() {
                return running.finish();
            }
            i = i + 1;
        }
        running.finish()
    }
}

} // verus!
