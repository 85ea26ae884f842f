use serco::contract::ServiceContract;
use serco::dispatch::InvokeTarget;
use serco::error::ServiceError;
use serco::hosted::Singleton;
use serco::host::{ServiceEndpoint, ServiceHost, SingletonEndpoint};
use serco::model::ServiceContractModel;
use serco::mpsc::{MpscEndpoint, MpscSession};
use serco::proxy::{CallbackSlot, Forwarder};
use serco::runtime::HostRuntime;
use serco::session::{
    DefaultSessionFactory, HostedService, SessionFactory, SessionId, SingletonService,
};
use serco::value::Tree;
use std::cell::RefCell;
use std::rc::Rc;

fn contract() -> ServiceContract {
    let model = ServiceContractModel::try_from("", "trait T { fn f( &self ) -> String; }").unwrap();
    ServiceContract::simplex(model).unwrap()
}

struct Service;

impl InvokeTarget for Service {
    fn invoke<F: Forwarder>(
        &self,
        _operation: &str,
        _arguments: Vec<Tree>,
        _callback: &CallbackSlot<F>,
    ) -> Result<Tree, ServiceError> {
        Ok(Tree::from_text("served"))
    }
}

impl SingletonService for Service {}

type Hosted = Singleton<Service, SessionId>;

/// An endpoint that serves what it is told to and ends as it is told to.
struct Scripted {
    name: &'static str,
    requests: Vec<&'static str>,
    end: Result<(), &'static str>,
    log: Rc<RefCell<Vec<String>>>,
}

impl<F: SessionFactory, H: HostedService<SessionInfo = F::SessionInfo>> ServiceEndpoint<F, H>
    for Scripted
{
    fn run(&self, host: &mut HostRuntime<F, H>) -> Result<(), ServiceError> {
        let endpoint = MpscEndpoint::new(self.name);
        let session: MpscSession<H::ServiceInstance, ()> = endpoint.accept(host).bind(());
        self.log.borrow_mut().push(format!("{} accepted {:?}", self.name, session.session_id));
        for request in &self.requests {
            let response = session.serve(host.contract(), request);
            self.log.borrow_mut().push(format!("{} answered {}", self.name, response));
        }
        self.end.map_err(|e| ServiceError(e.to_string()))
    }
}

fn scripted(
    name: &'static str,
    requests: Vec<&'static str>,
    end: Result<(), &'static str>,
    log: &Rc<RefCell<Vec<String>>>,
) -> Box<dyn ServiceEndpoint<DefaultSessionFactory, Hosted>> {
    Box::new(Scripted { name, requests, end, log: log.clone() })
}

#[test]
fn a_host_is_built_step_by_step() {
    let host = ServiceHost::new(Singleton::new(contract(), Service));
    assert!(!host.is_terminated());
    assert_eq!(host.endpoint_count(), 0);

    let log = Rc::new(RefCell::new(vec![]));
    let host = host.endpoint(scripted("a", vec![], Ok(()), &log));
    let host = host.endpoint(scripted("b", vec![], Ok(()), &log));
    assert_eq!(host.endpoint_count(), 2);
    assert!(!host.is_terminated());

    // A new factory takes the place of the old one; the endpoints were the old one's.
    let host = host.session_factory(DefaultSessionFactory);
    assert_eq!(host.endpoint_count(), 0);
    assert!(!host.is_terminated());
    assert_eq!(host.service().contract, contract());
}

#[test]
fn a_host_runs_its_endpoints_in_order_and_comes_back() {
    let log = Rc::new(RefCell::new(vec![]));
    let host = ServiceHost::new(Singleton::new(contract(), Service))
        .endpoint(scripted("a", vec!["{\"name\":\"f\",\"params\":{}}"], Ok(()), &log))
        .endpoint(scripted("b", vec!["{\"name\":\"g\",\"params\":{}}", "?"], Ok(()), &log));

    let host = match host.run() {
        Ok(host) => host,
        Err(e) => panic!("the host failed: {:?}", e),
    };
    assert!(host.is_terminated());
    assert_eq!(host.endpoint_count(), 2);
    let log = log.borrow();
    assert_eq!(log.len(), 5);
    assert_eq!(log[0], "a accepted \"\"");
    assert_eq!(log[1], "a answered {\"result\":{\"Ok\":\"served\"}}");
    assert_eq!(log[2], "b accepted \"\"");
    assert_eq!(log[3], "b answered {\"result\":{\"Err\":\"Bad fn\"}}");
    assert!(log[4].starts_with("b answered {\"result\":{\"Err\":"));
}

#[test]
fn the_first_endpoint_that_fails_ends_the_run() {
    let log = Rc::new(RefCell::new(vec![]));
    let host = ServiceHost::new(Singleton::new(contract(), Service))
        .endpoint(scripted("a", vec![], Ok(()), &log))
        .endpoint(scripted("b", vec![], Err("broken"), &log))
        .endpoint(scripted("c", vec![], Err("never"), &log));

    match host.run() {
        Ok(_) => panic!("the host came back"),
        Err(e) => assert_eq!(e, ServiceError("broken".to_string())),
    }
    assert_eq!(*log.borrow(), vec!["a accepted \"\"".to_string(), "b accepted \"\"".to_string()]);
}

#[test]
fn a_host_without_endpoints_ends_at_once() {
    let host = ServiceHost::new(Singleton::new(contract(), Service));
    let host = match host.run() {
        Ok(host) => host,
        Err(e) => panic!("the host failed: {:?}", e),
    };
    assert!(host.is_terminated());
}

#[test]
fn a_running_host_is_over_when_all_endpoints_have_ended() {
    let log = Rc::new(RefCell::new(vec![]));
    let host = ServiceHost::new(Singleton::new(contract(), Service))
        .endpoint(scripted("a", vec![], Ok(()), &log))
        .endpoint(scripted("b", vec![], Ok(()), &log))
        .endpoint(scripted("c", vec![], Ok(()), &log));
    let mut running = host.start();
    assert!(!running.is_over());
    assert_eq!(*running.contract(), contract());
    let (id, _) = running.get_session(None);
    assert_eq!(id, "");

    // The endpoints end in any order; what is said twice, or of an endpoint
    // that is not there, changes nothing.
    running.ended(2, Ok(()));
    assert!(!running.is_over());
    running.ended(0, Ok(()));
    running.ended(0, Err(ServiceError("late".to_string())));
    running.ended(7, Err(ServiceError("nobody".to_string())));
    assert!(!running.is_over());
    running.ended(1, Ok(()));
    assert!(running.is_over());
    let host = match running.finish() {
        Ok(host) => host,
        Err(e) => panic!("the host failed: {:?}", e),
    };
    assert!(host.is_terminated());
    assert_eq!(host.endpoint_count(), 3);
}

#[test]
fn a_running_host_is_over_with_the_first_failure() {
    let log = Rc::new(RefCell::new(vec![]));
    let host = ServiceHost::new(Singleton::new(contract(), Service))
        .endpoint(scripted("a", vec![], Ok(()), &log))
        .endpoint(scripted("b", vec![], Ok(()), &log))
        .endpoint(scripted("c", vec![], Ok(()), &log));
    let mut running = host.start();
    running.ended(1, Err(ServiceError("first".to_string())));
    assert!(running.is_over());
    running.ended(2, Err(ServiceError("second".to_string())));
    running.ended(0, Ok(()));
    assert!(running.is_over());
    match running.finish() {
        Ok(_) => panic!("the host came back"),
        Err(e) => assert_eq!(e, ServiceError("first".to_string())),
    }
}

/// An endpoint that hosts its service by itself and answers what it is asked.
struct Alone<T: SingletonService> {
    contract: ServiceContract,
    service: T,
}

impl SingletonEndpoint for Alone<Service> {
    fn singleton_host<T: SingletonService + Send + 'static>(
        contract: ServiceContract,
        _service: T,
    ) -> Self {
        Alone { contract, service: Service }
    }
}

#[test]
fn an_endpoint_may_host_a_singleton_by_itself() {
    let alone: Alone<Service> = SingletonEndpoint::singleton_host(contract(), Service);
    assert_eq!(alone.contract, contract());
    let proxy = serco::loopback::Loopback::proxy(&alone.contract, alone.service);
    assert_eq!(proxy.call("f", vec![]), Ok(Tree::from_text("served")));
}

#[test]
fn the_endpoints_of_a_running_host_share_its_sessions() {
    let log = Rc::new(RefCell::new(vec![]));
    let host = ServiceHost::new(Singleton::new(contract(), Service))
        .endpoint(scripted("a", vec![], Ok(()), &log));
    let mut running = host.start();
    let admitted = MpscEndpoint::new("a").accept(running.sessions());
    assert_eq!(admitted.session_id, "");
    assert_eq!(admitted.callbacks, ServiceContractModel::unit());
    let session = admitted.bind(());
    assert_eq!(
        session.serve(running.contract(), "{\"name\":\"f\",\"params\":{}}"),
        "{\"result\":{\"Ok\":\"served\"}}"
    );
    // A request that is refused is answered, and the connection serves on.
    assert_eq!(
        session.serve(running.contract(), "{\"name\":\"nope\",\"params\":{}}"),
        "{\"result\":{\"Err\":\"Bad fn\"}}"
    );
    assert_eq!(
        session.serve(running.contract(), "{\"name\":\"f\",\"params\":{}}"),
        "{\"result\":{\"Ok\":\"served\"}}"
    );
    assert_eq!(running.sessions().session_count(), 1);
    let (id, _) = running.get_session(Some("other"));
    assert_eq!(id, "other");
    assert_eq!(running.sessions().session_count(), 2);
    running.ended(0, Ok(()));
    assert!(running.is_over());
}
