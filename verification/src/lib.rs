//! A framework for remote procedure calls: contracts, their dispatchers and
//! proxies, sessions, callbacks and the host that serves them.

pub mod contract;
pub mod directory;
pub mod dispatch;
pub mod document;
pub mod envelope;
pub mod error;
pub mod host;
pub mod hosted;
pub mod json;
pub mod loopback;
pub mod model;
pub mod mpsc;
pub mod proxy;
pub mod runtime;
pub mod service;
pub mod session;
pub mod syntax;
pub mod types;
pub mod value;
