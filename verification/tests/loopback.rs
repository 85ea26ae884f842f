use serco::contract::ServiceContract;
use serco::dispatch::InvokeTarget;
use serco::error::ServiceError;
use serco::loopback::Loopback;
use serco::model::ServiceContractModel;
use serco::proxy::{CallbackSlot, Forwarder};
use serco::value::Tree;
use std::cell::Cell;

fn contract() -> ServiceContract {
    let model = ServiceContractModel::try_from(
        "",
        "trait Sum { fn add( &self, a: i32, b: i32 ) -> i32; fn total( &self ) -> i32; }",
    )
    .unwrap();
    ServiceContract::simplex(model).unwrap()
}

struct Summing {
    total: Cell<i32>,
}

impl InvokeTarget for Summing {
    fn invoke<F: Forwarder>(
        &self,
        operation: &str,
        arguments: Vec<Tree>,
        callback: &CallbackSlot<F>,
    ) -> Result<Tree, ServiceError> {
        assert!(callback.get_task_callback().is_some());
        match operation {
            "add" => {
                let sum = arguments[0].as_i32().unwrap() + arguments[1].as_i32().unwrap();
                self.total.set(self.total.get() + sum);
                Ok(Tree::from_i32(sum))
            }
            "total" => Ok(Tree::from_i32(self.total.get())),
            other => panic!("dispatched an operation the contract does not have: {}", other),
        }
    }
}

fn error(description: &str) -> ServiceError {
    ServiceError(description.to_string())
}

#[test]
fn a_call_is_answered_by_the_implementation() {
    let proxy = Loopback::proxy(&contract(), Summing { total: Cell::new(0) });
    assert_eq!(proxy.call("add", vec![Tree::from_i32(2), Tree::from_i32(3)]), Ok(Tree::from_i32(5)));
    assert_eq!(proxy.call("add", vec![Tree::from_i32(-7), Tree::from_i32(3)]), Ok(Tree::from_i32(-4)));
    assert_eq!(proxy.call("total", vec![]), Ok(Tree::from_i32(1)));
}

#[test]
fn a_call_that_the_contract_does_not_take_reaches_nobody() {
    let proxy = Loopback::proxy(&contract(), Summing { total: Cell::new(0) });
    assert_eq!(proxy.call("sub", vec![]), Err(error("Bad fn")));
    assert_eq!(proxy.call("add", vec![Tree::from_i32(2)]), Err(error("wrong number of arguments")));
    assert_eq!(
        proxy.call("add", vec![Tree::from_i32(2), Tree::from_bool(true)]),
        Err(error("invalid type for argument b"))
    );
    assert_eq!(proxy.call("total", vec![]), Ok(Tree::from_i32(0)));
}

#[test]
fn a_request_that_no_proxy_sends_is_refused_by_the_dispatcher() {
    let forwarder = Loopback::new(&contract(), Summing { total: Cell::new(0) });
    let record = |fields: Vec<(&str, Tree)>| {
        Tree::Record(fields.into_iter().map(|(k, v)| (k.to_string(), v)).collect())
    };
    assert_eq!(forwarder.forward("sub", record(vec![])), Err(error("Bad fn")));
    assert_eq!(forwarder.forward("total", Tree::Null), Err(error("expected a record of arguments")));
    assert_eq!(
        forwarder.forward("add", record(vec![("a", Tree::from_i32(1))])),
        Err(error("wrong number of arguments"))
    );
    assert_eq!(
        forwarder.forward("add", record(vec![("b", Tree::from_i32(1)), ("a", Tree::from_i32(2))])),
        Ok(Tree::from_i32(3))
    );
}

#[test]
fn a_closed_loopback_serves_nothing() {
    let mut proxy = Loopback::proxy(&contract(), Summing { total: Cell::new(0) });
    assert_eq!(proxy.call("total", vec![]), Ok(Tree::from_i32(0)));
    assert_eq!(proxy.close(), Ok(()));
    assert_eq!(proxy.call("total", vec![]), Err(error("closed")));
    assert_eq!(proxy.close(), Err(error("closed")));
    assert_eq!(proxy.call("add", vec![Tree::from_i32(1), Tree::from_i32(1)]), Err(error("closed")));
}
