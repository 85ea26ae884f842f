use serco::contract::ServiceContract;
use serco::dispatch::InvokeTarget;
use serco::error::ServiceError;
use serco::hosted::Singleton;
use serco::model::ServiceContractModel;
use serco::mpsc::{Admission, Arrival, MpscEndpoint, Turn};
use serco::proxy::{CallbackSlot, Forwarder};
use serco::runtime::HostRuntime;
use serco::session::{DefaultSessionFactory, SessionId, SingletonService};
use serco::value::Tree;
use std::rc::Rc;

struct Even;

impl InvokeTarget for Even {
    fn invoke<F: Forwarder>(
        &self,
        operation: &str,
        arguments: Vec<Tree>,
        _callback: &CallbackSlot<F>,
    ) -> Result<Tree, ServiceError> {
        assert_eq!(operation, "foo");
        Ok(Tree::from_bool(arguments[0].as_i32().unwrap() % 2 == 0))
    }
}

impl SingletonService for Even {}

type Hosting = HostRuntime<DefaultSessionFactory, Singleton<Even, SessionId>>;

fn hosting() -> Hosting {
    let model =
        ServiceContractModel::try_from("", "trait Parity { fn foo( &self, a : i32 ) -> bool; }")
            .unwrap();
    let contract = ServiceContract::simplex(model).unwrap();
    HostRuntime::new(Singleton::new(contract, Even), DefaultSessionFactory)
}

fn admitted(turn: Turn<Admission<Rc<Even>>>) -> Admission<Rc<Even>> {
    match turn {
        Turn::Go(admitted) => admitted,
        Turn::Over(result) => panic!("the endpoint's loop ended: {:?}", result),
    }
}

fn answer(turn: Turn<String>) -> String {
    match turn {
        Turn::Go(response) => response,
        Turn::Over(result) => panic!("the connection's loop ended: {:?}", result),
    }
}

fn end<A>(turn: Turn<A>) -> Result<(), ServiceError> {
    match turn {
        Turn::Go(_) => panic!("the loop goes on"),
        Turn::Over(result) => result,
    }
}

#[test]
fn a_connection_is_served_until_its_client_closes() {
    let mut host = hosting();
    let endpoint = MpscEndpoint::new("parity");
    let taken = admitted(endpoint.turn(&mut host, Arrival::Came(())));
    assert_eq!(taken.session_id, "");
    assert_eq!(host.session_count(), 1);
    let session = taken.bind(());

    let came = |text: &str| Arrival::Came(text.to_string());
    assert_eq!(
        answer(session.turn(host.contract(), came("{\"name\":\"foo\",\"params\":{\"a\":2}}"))),
        "{\"result\":{\"Ok\":true}}"
    );
    // A request that is refused is answered, and the loop goes on.
    assert_eq!(
        answer(session.turn(host.contract(), came("{\"name\":\"nope\",\"params\":{}}"))),
        "{\"result\":{\"Err\":\"Bad fn\"}}"
    );
    assert_eq!(
        answer(session.turn(host.contract(), came("{\"name\":\"foo\",\"params\":{\"a\":3}}"))),
        "{\"result\":{\"Ok\":false}}"
    );
    // The client has closed its forwarder: the loop ends, and ends cleanly.
    assert_eq!(end(session.turn(host.contract(), Arrival::Ended)), Ok(()));
}

#[test]
fn a_broken_channel_ends_a_loop_with_its_error() {
    let mut host = hosting();
    let endpoint = MpscEndpoint::new("parity");
    let session = admitted(endpoint.turn(&mut host, Arrival::Came(()))).bind(());

    let broke = || ServiceError("the channel broke".to_string());
    assert_eq!(end(session.turn(host.contract(), Arrival::Broken(broke()))), Err(broke()));
    assert_eq!(end(endpoint.turn(&mut host, Arrival::Broken(broke()))), Err(broke()));
    assert_eq!(host.session_count(), 1);
}

#[test]
fn an_endpoint_that_nobody_can_reach_any_more_ends_cleanly() {
    let mut host = hosting();
    let endpoint = MpscEndpoint::new("parity");
    assert_eq!(end(endpoint.turn(&mut host, Arrival::Ended)), Ok(()));
    // No session was minted for a connection that never came.
    assert_eq!(host.session_count(), 0);
}
