use serco::contract::ServiceContract;
use serco::dispatch::InvokeTarget;
use serco::envelope::{decode_response, encode_request};
use serco::error::ServiceError;
use serco::hosted::{Session, Singleton};
use serco::model::ServiceContractModel;
use serco::mpsc::{
    get_endpoint, set_endpoint, CallbackLoop, EndpointRegistry, MpscClient, MpscEndpoint,
    MpscForwarder, MpscServiceConnection,
};
use serco::proxy::{CallbackSlot, Forwarder};
use serco::runtime::HostRuntime;
use serco::session::{
    DefaultSessionFactory, HostedService, SessionFactory, SessionId, SessionInfo, SessionService,
    SingletonService,
};
use serco::value::Tree;
use std::borrow::Cow;
use std::cell::{Cell, RefCell};
use std::rc::Rc;

fn my_service() -> ServiceContract {
    let model = ServiceContractModel::try_from(
        "",
        "pub trait MyService { fn name( &self ) -> String; fn foo( &self, a : i32 ) -> bool; }",
    )
    .unwrap();
    ServiceContract::simplex(model).unwrap()
}

fn callback_service() -> ServiceContract {
    let model = ServiceContractModel::try_from(
        "( callback = CallbackContract )",
        "pub trait CallbackService { fn serve( &self ) -> String; }",
    )
    .unwrap();
    let callback = ServiceContractModel::try_from(
        "",
        "pub trait CallbackContract { fn callback( &self ) -> String; }",
    )
    .unwrap();
    ServiceContract::new(model, callback).unwrap()
}

struct MyServiceImplementation(&'static str);

impl InvokeTarget for MyServiceImplementation {
    fn invoke<F: Forwarder>(
        &self,
        operation: &str,
        arguments: Vec<Tree>,
        _callback: &CallbackSlot<F>,
    ) -> Result<Tree, ServiceError> {
        match operation {
            "name" => Ok(Tree::from_text(self.0)),
            "foo" => Ok(Tree::from_bool(arguments[0].as_i32().unwrap() % 2 == 0)),
            other => panic!("dispatched an operation the contract does not have: {}", other),
        }
    }
}

impl SingletonService for MyServiceImplementation {}

struct ComplexSession {
    key: String,
    value: Cell<i32>,
}

impl SessionInfo for ComplexSession {
    fn key(&self) -> Cow<str> {
        Cow::from(self.key.as_str())
    }
}

struct ComplexSessionFactory {
    minted: Cell<usize>,
}

impl SessionFactory for ComplexSessionFactory {
    type SessionInfo = ComplexSession;

    fn create_session(&self) -> (String, Rc<ComplexSession>) {
        let id = format!("{}", self.minted.get());
        self.minted.set(self.minted.get() + 1);
        (id.clone(), Rc::new(ComplexSession { key: id, value: Cell::new(0) }))
    }

    fn get_session(&self, key: &str) -> Rc<ComplexSession> {
        Rc::new(ComplexSession { key: key.to_string(), value: Cell::new(0) })
    }
}

struct SessionImplementation {
    session: Rc<ComplexSession>,
}

impl InvokeTarget for SessionImplementation {
    fn invoke<F: Forwarder>(
        &self,
        operation: &str,
        arguments: Vec<Tree>,
        _callback: &CallbackSlot<F>,
    ) -> Result<Tree, ServiceError> {
        match operation {
            "name" => Ok(Tree::from_text(&self.session.value.get().to_string())),
            "foo" => {
                self.session.value.set(arguments[0].as_i32().unwrap());
                Ok(Tree::from_bool(true))
            }
            other => panic!("dispatched an operation the contract does not have: {}", other),
        }
    }
}

impl SessionService for SessionImplementation {
    type SessionInfo = ComplexSession;

    fn construct(session: Rc<ComplexSession>) -> Box<Self> {
        Box::new(SessionImplementation { session })
    }
}

struct MyCallbackService;

impl InvokeTarget for MyCallbackService {
    fn invoke<F: Forwarder>(
        &self,
        operation: &str,
        _arguments: Vec<Tree>,
        callback: &CallbackSlot<F>,
    ) -> Result<Tree, ServiceError> {
        assert_eq!(operation, "serve");
        let cb = callback.get_task_callback().expect("the slot is set during dispatch");
        let s = cb.call("callback", vec![])?.as_text().unwrap();
        Ok(Tree::from_text(&format!("< {} >", s)))
    }
}

impl SingletonService for MyCallbackService {}

struct MyCallback;

impl InvokeTarget for MyCallback {
    fn invoke<F: Forwarder>(
        &self,
        operation: &str,
        _arguments: Vec<Tree>,
        callback: &CallbackSlot<F>,
    ) -> Result<Tree, ServiceError> {
        assert_eq!(operation, "callback");
        // A callback has no callback of its own: what stands in its slot is
        // the proxy of the unit contract.
        let unit = callback.get_task_callback().expect("the slot is set during dispatch");
        assert_eq!(unit.call("anything", vec![]), Err(ServiceError("Bad fn".to_string())));
        Ok(Tree::from_text("Callback"))
    }
}

/// A channel that hands each message to a function and brings back what the
/// function returns, until it is closed.
struct Pipe {
    far_side: Box<dyn Fn(String) -> Result<String, ServiceError>>,
    open: Rc<Cell<bool>>,
}

impl Pipe {
    fn exchange(&self, message: String) -> Result<String, ServiceError> {
        if !self.open.get() {
            return Err(ServiceError("the channel is closed".to_string()));
        }
        (self.far_side)(message)
    }
}

/// The forwarder of a connection: what the library makes of a call goes
/// through the pipe, and what comes back goes to the library.
struct Wire {
    state: MpscForwarder,
    pipe: Pipe,
}

impl Forwarder for Wire {
    fn forward(&self, name: &str, params: Tree) -> Result<Tree, ServiceError> {
        self.state.forward(name, params, |message| self.pipe.exchange(message))
    }

    fn close(&mut self) -> Result<(), ServiceError> {
        self.state.close()?;
        self.pipe.open.set(false);
        Ok(())
    }
}

/// The listening end of a host: what the registry holds for an endpoint.
struct Listener<F, H>
where
    F: SessionFactory + 'static,
    H: HostedService<SessionInfo = F::SessionInfo> + 'static,
{
    host: Rc<RefCell<HostRuntime<F, H>>>,
    endpoint: MpscEndpoint,
    connections: Rc<RefCell<Vec<Rc<Cell<bool>>>>>,
}

impl<F, H> Listener<F, H>
where
    F: SessionFactory + 'static,
    H: HostedService<SessionInfo = F::SessionInfo> + 'static,
{
    /// The handshake: the server takes the connection in and names its session.
    fn shake<T: InvokeTarget + 'static>(&self, callback: CallbackLoop<T>) -> (String, Pipe) {
        let admitted = self.endpoint.accept(&mut self.host.borrow_mut());
        let id = admitted.session_id.clone();
        let session = admitted.bind(Wire {
            state: MpscForwarder::new(id.clone()),
            pipe: Pipe {
                far_side: Box::new(move |message| Ok(callback.serve(&message))),
                open: Rc::new(Cell::new(true)),
            },
        });
        assert_eq!(session.callback.forwarder.state.id(), &id);
        let host = self.host.clone();
        let open = Rc::new(Cell::new(true));
        self.connections.borrow_mut().push(open.clone());
        (
            id,
            Pipe {
                far_side: Box::new(move |message| {
                    Ok(session.serve(host.borrow().contract(), &message))
                }),
                open,
            },
        )
    }
}

struct Hosting<F, H>
where
    F: SessionFactory + 'static,
    H: HostedService<SessionInfo = F::SessionInfo> + 'static,
{
    host: Rc<RefCell<HostRuntime<F, H>>>,
    registry: EndpointRegistry<Listener<F, H>>,
    connections: Rc<RefCell<Vec<Rc<Cell<bool>>>>>,
}

fn host<F, H>(hosted: H, factory: F, name: &str) -> Hosting<F, H>
where
    F: SessionFactory + 'static,
    H: HostedService<SessionInfo = F::SessionInfo> + 'static,
{
    let host = Rc::new(RefCell::new(HostRuntime::new(hosted, factory)));
    let connections = Rc::new(RefCell::new(Vec::new()));
    let mut registry = EndpointRegistry::new();
    set_endpoint(
        &mut registry,
        name,
        Listener {
            host: host.clone(),
            endpoint: MpscEndpoint::new(name),
            connections: connections.clone(),
        },
    );
    Hosting { host, registry, connections }
}

impl<F, H> Hosting<F, H>
where
    F: SessionFactory + 'static,
    H: HostedService<SessionInfo = F::SessionInfo> + 'static,
{
    fn connect(&self, name: &str, contract: ServiceContract) -> MpscServiceConnection<Wire> {
        let listener = MpscClient::new(name).connect(&self.registry).unwrap();
        let (id, pipe) = listener.shake(CallbackLoop::new(ServiceContractModel::unit(), ()));
        MpscServiceConnection::connect(&contract, Wire { state: MpscForwarder::new(id), pipe })
    }

    fn connect_duplex<T: InvokeTarget + 'static>(
        &self,
        name: &str,
        contract: ServiceContract,
        callback: T,
    ) -> MpscServiceConnection<Wire> {
        let (listener, serving) =
            MpscClient::new(name).connect_duplex(&self.registry, &contract, callback).unwrap();
        let (id, pipe) = listener.shake(serving);
        MpscServiceConnection::connect(&contract, Wire { state: MpscForwarder::new(id), pipe })
    }
}

fn text(result: Result<Tree, ServiceError>) -> String {
    result.unwrap().as_text().unwrap()
}

fn truth(result: Result<Tree, ServiceError>) -> bool {
    result.unwrap().as_bool().unwrap()
}

#[test]
fn singleton_echo() {
    let hosted: Singleton<MyServiceImplementation, SessionId> =
        Singleton::new(my_service(), MyServiceImplementation("unique"));
    let hosting = host(hosted, DefaultSessionFactory, "test");
    let conn = hosting.connect("test", my_service());

    assert_eq!(truth(conn.proxy().call("foo", vec![Tree::from_i32(2)])), true);
    assert_eq!(truth(conn.proxy().call("foo", vec![Tree::from_i32(3)])), false);
    assert_eq!(text(conn.proxy().call("name", vec![])), "unique");
}

#[test]
fn per_session_counter() {
    let hosted: Session<SessionImplementation> = Session::new(my_service());
    let factory = ComplexSessionFactory { minted: Cell::new(0) };
    let hosting = host(hosted, factory, "test");
    let conn = hosting.connect("test", my_service());

    assert_eq!(text(conn.proxy().call("name", vec![])), "0");
    assert_eq!(truth(conn.proxy().call("foo", vec![Tree::from_i32(7)])), true);
    assert_eq!(text(conn.proxy().call("name", vec![])), "7");
}

#[test]
fn duplex_callback() {
    let hosted: Singleton<MyCallbackService, SessionId> =
        Singleton::new(callback_service(), MyCallbackService);
    let hosting = host(hosted, DefaultSessionFactory, "callback");
    let conn = hosting.connect_duplex("callback", callback_service(), MyCallback);

    assert_eq!(text(conn.proxy().call("serve", vec![])), "< Callback >");
}

#[test]
fn callback_without_a_client_callback_is_refused() {
    let hosted: Singleton<MyCallbackService, SessionId> =
        Singleton::new(callback_service(), MyCallbackService);
    let hosting = host(hosted, DefaultSessionFactory, "callback");
    let conn = hosting.connect("callback", callback_service());

    // The server's call finds no operation at the client, and the answer that
    // the server then has is none of the declared type.
    assert_eq!(conn.proxy().call("serve", vec![]), Err(ServiceError("Bad fn".to_string())));
}

#[test]
fn unknown_operation() {
    let hosted: Singleton<MyServiceImplementation, SessionId> =
        Singleton::new(my_service(), MyServiceImplementation("unique"));
    let hosting = host(hosted, DefaultSessionFactory, "test");
    let conn = hosting.connect("test", my_service());

    // A request that no proxy of the contract would send.
    let request = encode_request("nope", Tree::Record(vec![]));
    assert_eq!(request, "{\"name\":\"nope\",\"params\":{}}");
    let listener = get_endpoint(&hosting.registry, "test").unwrap();
    let (_id, pipe) = listener.shake(CallbackLoop::new(ServiceContractModel::unit(), ()));
    let response = pipe.exchange(request).unwrap();
    assert_eq!(response, "{\"result\":{\"Err\":\"Bad fn\"}}");
    assert_eq!(decode_response(&response).unwrap().result, Err(ServiceError("Bad fn".to_string())));

    // The proxy refuses the name before anything is sent.
    assert_eq!(conn.proxy().call("nope", vec![]), Err(ServiceError("Bad fn".to_string())));

    // The connections stay open.
    let again = pipe.exchange(encode_request("name", Tree::Record(vec![]))).unwrap();
    assert_eq!(again, "{\"result\":{\"Ok\":\"unique\"}}");
    assert_eq!(truth(conn.proxy().call("foo", vec![Tree::from_i32(4)])), true);
}

#[test]
fn multi_session_isolation() {
    let hosted: Session<SessionImplementation> = Session::new(my_service());
    let factory = ComplexSessionFactory { minted: Cell::new(0) };
    let hosting = host(hosted, factory, "test");
    let first = hosting.connect("test", my_service());
    let second = hosting.connect("test", my_service());
    assert_eq!(first.proxy().forwarder.state.id(), "0");
    assert_eq!(second.proxy().forwarder.state.id(), "1");

    assert_eq!(truth(first.proxy().call("foo", vec![Tree::from_i32(1)])), true);
    assert_eq!(truth(second.proxy().call("foo", vec![Tree::from_i32(2)])), true);
    assert_eq!(text(first.proxy().call("name", vec![])), "1");
    assert_eq!(text(second.proxy().call("name", vec![])), "2");
    assert_eq!(hosting.host.borrow().session_count(), 2);
}

#[test]
fn close_semantics() {
    let hosted: Singleton<MyServiceImplementation, SessionId> =
        Singleton::new(my_service(), MyServiceImplementation("unique"));
    let hosting = host(hosted, DefaultSessionFactory, "test");
    let mut conn = hosting.connect("test", my_service());

    assert_eq!(text(conn.proxy().call("name", vec![])), "unique");
    assert!(!conn.proxy().forwarder.state.closed());
    assert_eq!(conn.close(), Ok(()));
    assert!(conn.proxy().forwarder.state.closed());
    assert_eq!(conn.proxy().call("name", vec![]), Err(ServiceError("closed".to_string())));
    assert_eq!(conn.close(), Err(ServiceError("closed".to_string())));
    assert_eq!(conn.proxy().call("name", vec![]), Err(ServiceError("closed".to_string())));

    // The server's end of the connection has seen the close.
    assert_eq!(hosting.connections.borrow().len(), 1);
    assert!(!hosting.connections.borrow()[0].get());
}

#[test]
fn singleton_is_one_instance_in_one_session() {
    struct Counter(Cell<i32>);
    impl InvokeTarget for Counter {
        fn invoke<F: Forwarder>(
            &self,
            _operation: &str,
            _arguments: Vec<Tree>,
            _callback: &CallbackSlot<F>,
        ) -> Result<Tree, ServiceError> {
            self.0.set(self.0.get() + 1);
            Ok(Tree::from_i32(self.0.get()))
        }
    }
    impl SingletonService for Counter {}

    let contract = || {
        let model =
            ServiceContractModel::try_from("", "trait Count { fn next( &self ) -> i32; }").unwrap();
        ServiceContract::simplex(model).unwrap()
    };
    let hosted: Singleton<Counter, SessionId> = Singleton::new(contract(), Counter(Cell::new(0)));
    let hosting = host(hosted, DefaultSessionFactory, "count");
    let first = hosting.connect("count", contract());
    let second = hosting.connect("count", contract());

    assert_eq!(first.proxy().call("next", vec![]).unwrap().as_i32(), Some(1));
    assert_eq!(second.proxy().call("next", vec![]).unwrap().as_i32(), Some(2));
    assert_eq!(first.proxy().call("next", vec![]).unwrap().as_i32(), Some(3));
    assert_eq!(hosting.host.borrow().session_count(), 1);
}

#[test]
fn connecting_to_nothing_fails() {
    let registry: EndpointRegistry<u8> = EndpointRegistry::new();
    let client = MpscClient::new("test");
    assert_eq!(client.connect(&registry), Err(ServiceError("no endpoint of that name".to_string())));
    let duplex = client.connect_duplex(&registry, &callback_service(), MyCallback);
    assert_eq!(duplex.err(), Some(ServiceError("no endpoint of that name".to_string())));

    let mut registry = registry;
    set_endpoint(&mut registry, "test", 7);
    assert_eq!(client.connect(&registry), Ok(&7));
    let (endpoint, serving) =
        client.connect_duplex(&registry, &callback_service(), MyCallback).ok().unwrap();
    assert_eq!(*endpoint, 7);
    assert_eq!(serving.contract, *callback_service().callback_contract());
    assert_eq!(MpscClient::new("other").connect(&registry).err().unwrap().0, "no endpoint of that name");
}
