use serco::contract::ServiceContract;
use serco::dispatch::InvokeTarget;
use serco::error::ServiceError;
use serco::model::ServiceContractModel;
use serco::mpsc::{CallbackLoop, MpscClient, MpscEndpoint, MpscForwarder, MpscServiceConnection};
use serco::proxy::{CallbackSlot, Forwarder, ServiceProxy};
use serco::value::Tree;

fn error(description: &str) -> ServiceError {
    ServiceError(description.to_string())
}

#[test]
fn a_call_goes_out_as_a_request_and_comes_back_as_its_result() {
    let forwarder = MpscForwarder::new("session".to_string());
    assert_eq!(forwarder.id(), "session");
    let params = Tree::Record(vec![("a".to_string(), Tree::from_i32(2))]);
    assert_eq!(
        forwarder.request("foo", params),
        Ok("{\"name\":\"foo\",\"params\":{\"a\":2}}".to_string())
    );
    assert_eq!(
        forwarder.request("nope", Tree::Record(vec![])),
        Ok("{\"name\":\"nope\",\"params\":{}}".to_string())
    );
    assert_eq!(
        forwarder.result(Ok("{\"result\":{\"Ok\":true}}".to_string())),
        Ok(Tree::from_bool(true))
    );
    assert_eq!(
        forwarder.result(Ok("{\"result\":{\"Err\":\"Bad fn\"}}".to_string())),
        Err(error("Bad fn"))
    );
}

#[test]
fn a_response_belongs_to_the_call_that_sent_its_request() {
    let forwarder = MpscForwarder::new("s".to_string());
    // A server that tells of each request whether its argument is even.
    let even = |message: String| -> Result<String, ServiceError> {
        if message == "{\"name\":\"foo\",\"params\":{\"a\":2}}" {
            Ok("{\"result\":{\"Ok\":true}}".to_string())
        } else if message == "{\"name\":\"foo\",\"params\":{\"a\":3}}" {
            Ok("{\"result\":{\"Ok\":false}}".to_string())
        } else {
            Err(error("no such request"))
        }
    };
    let a = |n: i32| Tree::Record(vec![("a".to_string(), Tree::from_i32(n))]);
    let first = forwarder.forward("foo", a(2), even);
    let second = forwarder.forward("foo", a(3), even);
    assert_eq!(first, Ok(Tree::from_bool(true)));
    assert_eq!(second, Ok(Tree::from_bool(false)));
    assert_eq!(forwarder.forward("bar", a(2), even), Err(error("no such request")));

    let mut closed = MpscForwarder::new("s".to_string());
    assert_eq!(closed.close(), Ok(()));
    let never = |_: String| -> Result<String, ServiceError> { panic!("nothing is sent") };
    assert_eq!(closed.forward("foo", a(2), never), Err(error("closed")));
}

#[test]
fn a_broken_transport_and_a_broken_response_are_errors() {
    let forwarder = MpscForwarder::new(String::new());
    assert_eq!(
        forwarder.result(Err(error("the far side is gone"))),
        Err(error("the far side is gone"))
    );
    assert!(forwarder.result(Ok("not json".to_string())).is_err());
    assert_eq!(
        forwarder.result(Ok("{\"result\":{}}".to_string())),
        Err(error("a response holds one result"))
    );
    assert_eq!(
        forwarder.result(Ok("{\"result\":{\"Ok\":0.5}}".to_string())),
        Err(error("a number that is no 64-bit integer, or a nesting too deep"))
    );
}

#[test]
fn a_forwarder_is_closed_once() {
    let mut forwarder = MpscForwarder::new("s".to_string());
    assert!(!forwarder.closed());
    assert!(forwarder.request("f", Tree::Null).is_ok());
    assert_eq!(forwarder.close(), Ok(()));
    assert!(forwarder.closed());

    // Nothing goes out any more, and what is still to come back is dropped.
    assert_eq!(forwarder.request("f", Tree::Null), Err(error("closed")));
    assert_eq!(
        forwarder.result(Ok("{\"result\":{\"Ok\":null}}".to_string())),
        Err(error("closed"))
    );
    assert_eq!(forwarder.result(Err(error("gone"))), Err(error("closed")));
    assert_eq!(forwarder.close(), Err(error("closed")));
    assert_eq!(forwarder.close(), Err(error("closed")));
    assert!(forwarder.closed());
    assert_eq!(forwarder.id(), "s");
}

struct Greeter;

impl InvokeTarget for Greeter {
    fn invoke<F: Forwarder>(
        &self,
        operation: &str,
        arguments: Vec<Tree>,
        callback: &CallbackSlot<F>,
    ) -> Result<Tree, ServiceError> {
        assert!(callback.get_task_callback().is_some());
        Ok(Tree::from_text(&format!("{} {}", operation, arguments[0].as_text().unwrap())))
    }
}

#[test]
fn a_callback_loop_serves_the_messages_of_the_server() {
    let contract =
        ServiceContractModel::try_from("", "trait Greet { fn hello( &self, whom: String ) -> String; }")
            .unwrap();
    let serving = CallbackLoop::new(contract, Greeter);
    assert_eq!(
        serving.serve("{\"name\":\"hello\",\"params\":{\"whom\":\"world\"}}"),
        "{\"result\":{\"Ok\":\"hello world\"}}"
    );
    assert_eq!(
        serving.serve("{\"name\":\"hello\",\"params\":{}}"),
        "{\"result\":{\"Err\":\"wrong number of arguments\"}}"
    );
    assert_eq!(
        serving.serve("{\"name\":\"hello\",\"params\":{\"who\":\"world\"}}"),
        "{\"result\":{\"Err\":\"missing argument whom\"}}"
    );
    assert_eq!(
        serving.serve("{\"name\":\"hello\",\"params\":{\"whom\":1}}"),
        "{\"result\":{\"Err\":\"invalid type for argument whom\"}}"
    );
    assert_eq!(
        serving.serve("{\"name\":\"bye\",\"params\":{}}"),
        "{\"result\":{\"Err\":\"Bad fn\"}}"
    );
    assert_eq!(
        serving.serve("{\"params\":{}}"),
        "{\"result\":{\"Err\":\"a request holds a name and params\"}}"
    );
    let garbled = serving.serve("{");
    assert!(garbled.starts_with("{\"result\":{\"Err\":\""));
}

#[test]
fn endpoints_clients_and_connections_are_made_of_their_parts() {
    assert_eq!(MpscEndpoint::new("test"), MpscEndpoint { endpoint: "test".to_string() });
    assert_eq!(MpscClient::new("test"), MpscClient { endpoint: "test".to_string() });
    let proxy = ServiceProxy::new(ServiceContractModel::unit(), ());
    assert_eq!(proxy.contract, ServiceContractModel::unit());
    let mut connection = MpscServiceConnection::connect(&ServiceContract::unit(), ());
    assert_eq!(connection.proxy().contract, ServiceContractModel::unit());
    assert_eq!(connection.proxy().call("f", vec![]), Err(error("Bad fn")));
    assert_eq!(connection.close(), Ok(()));
}
