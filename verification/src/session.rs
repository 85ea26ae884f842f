//! Sessions: the state that belongs to one caller, the factory that mints
//! it, and the hosted service that turns it into a service instance.

use crate::contract::ServiceContract;
use crate::dispatch::InvokeTarget;
use std::borrow::Cow;
use std::rc::Rc;
use vstd::prelude::*;
use vstd::string::StringExecFns;

verus! {

/// `Rc::clone`: one more reference to the value that `shared` points to.
#[verifier::external_body]
pub(crate) fn share<T>(shared: &Rc<T>) -> (r: Rc<T>)
    ensures
        r == *shared,
{
    shared.clone()
}

/// The state of one session.
pub trait SessionInfo {
    /// The key under which the session is known.
    fn key(&self) -> Cow<str>;
}

/// The state of a session that has a key and nothing else.
#[derive(Debug, PartialEq, Eq, Hash)]
pub struct SessionId(pub String);

impl SessionInfo for SessionId {
    fn key(&self) -> (k: Cow<str>)
        ensures
            k@ == self.0@,
    {
        Cow::Borrowed(self.0.as_str())
    }
}

/// The decimal digit of `d`, for `d` below ten.
pub open spec fn digit_text(d: nat) -> Seq<char> {
    if d == 0 {
        "0"@
    } else if d == 1 {
        "1"@
    } else if d == 2 {
        "2"@
    } else if d == 3 {
        "3"@
    } else if d == 4 {
        "4"@
    } else if d == 5 {
        "5"@
    } else if d == 6 {
        "6"@
    } else if d == 7 {
        "7"@
    } else if d == 8 {
        "8"@
    } else {
        "9"@
    }
}

/// The decimal text of `n`: its digits, the most significant first, without
/// leading zeros.
pub open spec fn decimal_text(n: nat) -> Seq<char>
    decreases n,
{
    if n < 10 {
        digit_text(n)
    } else {
        decimal_text(n / 10) + digit_text(n % 10)
    }
}

fn digit(d: usize) -> (r: &'static str)
    requires
        d < 10,
    ensures
        r@ == digit_text(d as nat),
{
    if d == 0 {
        "0"
    } else if d == 1 {
        "1"
    } else if d == 2 {
        "2"
    } else if d == 3 {
        "3"
    } else if d == 4 {
        "4"
    } else if d == 5 {
        "5"
    } else if d == 6 {
        "6"
    } else if d == 7 {
        "7"
    } else if d == 8 {
        "8"
    } else {
        "9"
    }
}

/// The decimal text of `n`.
pub fn decimal(n: usize) -> (r: String)
    ensures
        r@ == decimal_text(n as nat),
    decreases n,
{
    if n < 10 {
        digit(n).to_owned()
    } else {
        decimal(n / 10).concat(digit(n % 10))
    }
}

/// A number as the state of a session: its key is the number in decimal.
impl SessionInfo for usize {
    fn key(&self) -> (k: Cow<str>)
        ensures
            k@ == decimal_text(*self as nat),
    {
        Cow::Owned(decimal(*self))
    }
}

/// Mints sessions and finds them again.
pub trait SessionFactory {
    type SessionInfo: SessionInfo;

    /// Whether this factory hands out `id` with the state `info` for a new
    /// session. A factory that says nothing of itself may hand out any.
    open spec fn mints(&self, id: Seq<char>, info: Rc<Self::SessionInfo>) -> bool {
        true
    }

    /// A fresh session: its id and its state.
    fn create_session(&self) -> (r: (String, Rc<Self::SessionInfo>))
        ensures
            self.mints(r.0@, r.1),
    ;

    /// Whether this factory gives `info` as the state of the session `key`.
    /// A factory that says nothing of itself may give any.
    open spec fn finds(&self, key: Seq<char>, info: Rc<Self::SessionInfo>) -> bool {
        true
    }

    /// The state of the session `key`.
    fn get_session(&self, key: &str) -> (r: Rc<Self::SessionInfo>)
        ensures
            self.finds(key@, r),
    ;
}

/// The factory of a host that was given none: every session has the empty id
/// and no state beside it.
#[derive(Debug, Clone, Copy, PartialEq, Eq)]
pub struct DefaultSessionFactory;

impl Default for DefaultSessionFactory {
    fn default() -> Self {
        DefaultSessionFactory
    }
}

impl SessionFactory for DefaultSessionFactory {
    type SessionInfo = SessionId;

    open spec fn mints(&self, id: Seq<char>, info: Rc<SessionId>) -> bool {
        id == Seq::<char>::empty() && info.0@ == Seq::<char>::empty()
    }

    fn create_session(&self) -> (r: (String, Rc<SessionId>)) {
        (String::new(), Rc::new(SessionId(String::new())))
    }

    open spec fn finds(&self, key: Seq<char>, info: Rc<SessionId>) -> bool {
        info.0@ == Seq::<char>::empty()
    }

    fn get_session(&self, _key: &str) -> (r: Rc<SessionId>) {
        Rc::new(SessionId(String::new()))
    }
}

/// The server's source of service instances for a contract, given the state
/// of a session.
pub trait HostedService {
    type ServiceInstance: InvokeTarget;

    type SessionInfo;

    /// Whether `instance` is one that this service hands out for a session
    /// with the state `session_info`. A service that says nothing of itself
    /// may hand out any.
    open spec fn provides(
        &self,
        session_info: Rc<Self::SessionInfo>,
        instance: Self::ServiceInstance,
    ) -> bool {
        true
    }

    /// Whether `contract` is the contract that the instances implement. A
    /// service that says nothing of itself may implement any.
    open spec fn implements(&self, contract: ServiceContract) -> bool {
        true
    }

    /// The contract that the instances implement.
    fn contract(&self) -> (r: &ServiceContract)
        ensures
            self.implements(*r),
    ;

    /// The instance that serves the session with the state `session_info`.
    fn get_session(&self, session_info: Rc<Self::SessionInfo>) -> (r: Self::ServiceInstance)
        ensures
            self.provides(session_info, r),
    ;
}

/// An implementation of which one instance serves every session.
pub trait SingletonService: InvokeTarget + Sized {
    /// The implementation, boxed.
    fn service(self) -> (r: Box<Self>)
        ensures
            *r == self,
    {
        Box::new(self)
    }
}

/// An implementation that is built anew for each session, from the session's
/// state.
pub trait SessionService: InvokeTarget + Sized {
    type SessionInfo: SessionInfo;

    /// Whether `instance` is one that is built for a session with the state
    /// `session`. An implementation that says nothing of itself may build
    /// any.
    open spec fn constructs(session: Rc<Self::SessionInfo>, instance: Self) -> bool {
        true
    }

    /// The instance that serves the session with the state `session`.
    fn construct(session: Rc<Self::SessionInfo>) -> (r: Box<Self>)
        ensures
            Self::constructs(session, *r),
    ;
}

} // verus!
