use serco::contract::ServiceContract;
use serco::directory::Directory;
use serco::dispatch::InvokeTarget;
use serco::error::ServiceError;
use serco::hosted::{Session, Singleton};
use serco::model::ServiceContractModel;
use serco::mpsc::{get_endpoint, set_endpoint, EndpointRegistry};
use serco::proxy::{CallbackSlot, Forwarder};
use serco::runtime::HostRuntime;
use serco::session::{
    DefaultSessionFactory, HostedService, SessionFactory, SessionId, SessionInfo, SessionService,
    SingletonService,
};
use serco::value::Tree;
use std::borrow::Cow;
use std::cell::Cell;
use std::rc::Rc;

fn contract() -> ServiceContract {
    let model = ServiceContractModel::try_from("", "trait T { fn f( &self ); }").unwrap();
    ServiceContract::simplex(model).unwrap()
}

struct Keyed(String);

impl SessionInfo for Keyed {
    fn key(&self) -> Cow<str> {
        Cow::from(self.0.as_str())
    }
}

/// A factory that counts what it is asked for.
struct Counting {
    created: Cell<usize>,
    fetched: Cell<usize>,
}

impl Counting {
    fn new() -> Self {
        Counting { created: Cell::new(0), fetched: Cell::new(0) }
    }
}

impl SessionFactory for Counting {
    type SessionInfo = Keyed;

    fn create_session(&self) -> (String, Rc<Keyed>) {
        self.created.set(self.created.get() + 1);
        let id = format!("minted-{}", self.created.get());
        (id.clone(), Rc::new(Keyed(id)))
    }

    fn get_session(&self, key: &str) -> Rc<Keyed> {
        self.fetched.set(self.fetched.get() + 1);
        Rc::new(Keyed(key.to_string()))
    }
}

struct Instance {
    key: String,
}

impl InvokeTarget for Instance {
    fn invoke<F: Forwarder>(
        &self,
        _operation: &str,
        _arguments: Vec<Tree>,
        _callback: &CallbackSlot<F>,
    ) -> Result<Tree, ServiceError> {
        Ok(Tree::from_text(&self.key))
    }
}

impl SessionService for Instance {
    type SessionInfo = Keyed;

    fn construct(session: Rc<Keyed>) -> Box<Self> {
        Box::new(Instance { key: session.key().into_owned() })
    }
}

impl SingletonService for Instance {}

#[test]
fn a_session_that_is_asked_for_by_id_is_built_once() {
    let hosted: Session<Instance> = Session::new(contract());
    let mut runtime = HostRuntime::new(hosted, Counting::new());
    assert_eq!(runtime.session_count(), 0);

    let (id, first) = runtime.get_session(Some("alpha"));
    assert_eq!(id, "alpha");
    assert_eq!(first.key, "alpha");
    assert_eq!(runtime.session_count(), 1);

    let (id, again) = runtime.get_session(Some("alpha"));
    assert_eq!(id, "alpha");
    assert!(Rc::ptr_eq(&first, &again));
    assert_eq!(runtime.session_count(), 1);

    let (_, other) = runtime.get_session(Some("beta"));
    assert_eq!(other.key, "beta");
    assert!(!Rc::ptr_eq(&first, &other));
    assert_eq!(runtime.session_count(), 2);

    // The first session is still served by its instance.
    let (_, third) = runtime.get_session(Some("alpha"));
    assert!(Rc::ptr_eq(&first, &third));

    let (_, factory) = runtime.into_parts();
    assert_eq!(factory.fetched.get(), 2);
    assert_eq!(factory.created.get(), 0);
}

#[test]
fn a_session_that_is_not_named_is_minted() {
    let hosted: Session<Instance> = Session::new(contract());
    let mut runtime = HostRuntime::new(hosted, Counting::new());

    let (first_id, first) = runtime.get_session(None);
    let (second_id, second) = runtime.get_session(None);
    assert_eq!(first_id, "minted-1");
    assert_eq!(second_id, "minted-2");
    assert_eq!(first.key, "minted-1");
    assert_eq!(second.key, "minted-2");
    assert_eq!(runtime.session_count(), 2);

    // A minted session is found again under its id.
    let (id, found) = runtime.get_session(Some("minted-1"));
    assert_eq!(id, "minted-1");
    assert!(Rc::ptr_eq(&first, &found));
    assert_eq!(runtime.session_count(), 2);
}

#[test]
fn the_default_factory_mints_the_empty_id() {
    let (id, info) = DefaultSessionFactory.create_session();
    assert_eq!(id, "");
    assert_eq!(*info, SessionId(String::new()));
    assert_eq!(info.key(), "");
    assert_eq!(*DefaultSessionFactory.get_session("anything"), SessionId(String::new()));
    assert_eq!(DefaultSessionFactory::default(), DefaultSessionFactory);
    assert_eq!(SessionId("k".to_string()).key(), "k");
    assert_eq!(17usize.key(), "17");
    assert_eq!(0usize.key(), "0");
    assert_eq!(9usize.key(), "9");
    assert_eq!(10usize.key(), "10");
    assert_eq!(1234567890usize.key(), "1234567890");
    assert_eq!(usize::MAX.key(), usize::MAX.to_string());
    assert_eq!(serco::session::decimal(305), "305");
}

#[test]
fn a_singleton_serves_every_session_with_its_one_instance() {
    let hosted: Singleton<Instance, SessionId> =
        contract().singleton(Instance { key: "only".to_string() });
    let one = hosted.get_session(Rc::new(SessionId("a".to_string())));
    let two = hosted.get_session(Rc::new(SessionId("b".to_string())));
    assert!(Rc::ptr_eq(&one, &two));
    assert!(Rc::ptr_eq(&one, &hosted.singleton));
    assert_eq!(*hosted.contract(), contract());

    let mut runtime = HostRuntime::new(hosted, DefaultSessionFactory);
    let (first_id, first) = runtime.get_session(None);
    let (second_id, second) = runtime.get_session(None);
    let (_, named) = runtime.get_session(Some("named"));
    assert_eq!(first_id, "");
    assert_eq!(second_id, "");
    assert!(Rc::ptr_eq(&*first, &*second));
    assert!(Rc::ptr_eq(&*first, &*named));
    assert_eq!(first.key, "only");
    assert_eq!(runtime.session_count(), 2);
    assert_eq!(*runtime.contract(), contract());
}

#[test]
fn a_session_host_builds_an_instance_for_each_state() {
    let hosted: Session<Instance> = contract().session();
    let a = hosted.get_session(Rc::new(Keyed("a".to_string())));
    let b = hosted.get_session(Rc::new(Keyed("b".to_string())));
    assert_eq!(a.key, "a");
    assert_eq!(b.key, "b");
    assert_eq!(*hosted.contract(), contract());
    assert_eq!(Instance { key: "x".to_string() }.service().key, "x");
}

#[test]
fn a_directory_keeps_one_value_under_each_key() {
    let mut directory: Directory<u32> = Directory::new();
    assert_eq!(directory.len(), 0);
    assert_eq!(directory.get("a"), None);
    directory.insert("a", 1);
    directory.insert("b", 2);
    directory.insert("", 3);
    assert_eq!(directory.len(), 3);
    assert_eq!(directory.get("a"), Some(&1));
    assert_eq!(directory.get("b"), Some(&2));
    assert_eq!(directory.get(""), Some(&3));
    assert_eq!(directory.get("c"), None);
    directory.insert("a", 10);
    assert_eq!(directory.len(), 3);
    assert_eq!(directory.get("a"), Some(&10));
    assert_eq!(directory.get("b"), Some(&2));
}

#[test]
fn endpoints_are_registered_and_found_by_name() {
    let mut registry: EndpointRegistry<&'static str> = EndpointRegistry::new();
    assert_eq!(get_endpoint(&registry, "test"), None);
    set_endpoint(&mut registry, "test", "first");
    set_endpoint(&mut registry, "callback", "second");
    assert_eq!(get_endpoint(&registry, "test"), Some(&"first"));
    assert_eq!(get_endpoint(&registry, "callback"), Some(&"second"));
    set_endpoint(&mut registry, "test", "third");
    assert_eq!(get_endpoint(&registry, "test"), Some(&"third"));
    assert_eq!(get_endpoint(&registry, "callback"), Some(&"second"));
    assert_eq!(get_endpoint(&registry, "Test"), None);
}
