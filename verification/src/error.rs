//! The error that a call ends in, and the kinds of fault behind it.

use vstd::prelude::*;

verus! {

/// The description of a failed call, as it goes over the wire.
#[derive(Debug, PartialEq, Eq)]
pub struct ServiceError(pub String);

impl View for ServiceError {
    type V = Seq<char>;

    open spec fn view(&self) -> Seq<char> {
        self.0@
    }
}

/// What can go wrong with a call between the proxy and the implementation.
#[derive(Debug, PartialEq, Eq)]
pub enum Fault {
    /// The contract has no operation of the name that was asked for.
    BadOperation,
    /// The arguments could not be decoded; the implementation was not called.
    DecodeError(String),
    /// The result could not be encoded.
    EncodeError(String),
    /// The transport could not deliver the request or the response.
    TransportError(String),
    /// The forwarder was used after it was closed.
    Closed,
}

/// The mathematical value of a `Fault`.
pub enum FaultView {
    BadOperation,
    DecodeError(Seq<char>),
    EncodeError(Seq<char>),
    TransportError(Seq<char>),
    Closed,
}

impl View for Fault {
    type V = FaultView;

    open spec fn view(&self) -> FaultView {
        match self {
            Fault::BadOperation => FaultView::BadOperation,
            Fault::DecodeError(d) => FaultView::DecodeError(d@),
            Fault::EncodeError(d) => FaultView::EncodeError(d@),
            Fault::TransportError(d) => FaultView::TransportError(d@),
            Fault::Closed => FaultView::Closed,
        }
    }
}

impl FaultView {
    /// The description under which a fault goes over the wire.
    pub open spec fn description(self) -> Seq<char> {
        match self {
            FaultView::BadOperation => "Bad fn"@,
            FaultView::DecodeError(d) => d,
            FaultView::EncodeError(d) => d,
            FaultView::TransportError(d) => d,
            FaultView::Closed => "closed"@,
        }
    }
}

/// A result with the views of what it holds.
pub open spec fn reply<T: View, E: View>(r: Result<T, E>) -> Result<T::V, E::V> {
    match r {
        Ok(t) => Ok(t@),
        Err(e) => Err(e@),
    }
}

impl Fault {
    /// The error that stands for this fault on the wire.
    pub fn into_error(self) -> (e: ServiceError)
        ensures
            e@ == self@.description(),
    {
        match self {
            Fault::BadOperation => ServiceError("Bad fn".to_owned()),
            Fault::DecodeError(d) => ServiceError(d),
            Fault::EncodeError(d) => ServiceError(d),
            Fault::TransportError(d) => ServiceError(d),
            Fault::Closed => ServiceError("closed".to_owned()),
        }
    }
}

impl ServiceError {
    /// An error that carries `description`.
    pub fn new(description: &str) -> (e: ServiceError)
        ensures
            e@ == description@,
    {
        ServiceError(description.to_owned())
    }

    /// An error described by the debug text of `src`. Which text that is lies
    /// with the `Debug` impl of `T`; nothing is stated of it.
    #[verifier::external_body]
    pub fn from<T: std::fmt::Debug>(src: T) -> ServiceError {
        ServiceError(format!("{:?}", src))
    }

    /// A copy of this error.
    pub fn duplicate(&self) -> (e: ServiceError)
        ensures
            e@ == self@,
    {
        ServiceError(self.0.clone())
    }
}

} // verus!
