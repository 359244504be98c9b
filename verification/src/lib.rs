pub mod iris_error_wrapper;
pub mod protocol;

pub use iris_error_wrapper::IrisErrorKind;
pub use iris_error_wrapper::IrisErrorWrapper;

use vstd::prelude::*;

verus! {

/// Every fallible operation returns its payload or a uniform error value.
pub type IrisResult<T> = Result<T, IrisErrorWrapper>;

/// The well-known topology service, used for service-availability
/// subscriptions.
pub const TOPO_SERVICE: u32 = 1;

/// The transport's fixed maximum message size: receive buffers are
/// dimensioned to it, and a receive never reports more bytes than this.
pub const MAX_USER_MSG_SIZE: usize = 66000;

/// The transport's delivery mode, chosen once when a connection is
/// created and immutable thereafter.
#[derive(Clone, Copy, Debug, PartialEq, Eq, Structural)]
pub enum SockType {
    Stream,
    Datagram,
    Raw,
    Rdm,
    Sequential,
}

/// Whether an address resolves cluster-wide or to one specific node.
#[derive(Clone, Copy, Debug, PartialEq, Eq, Structural)]
pub enum ScopeType {
    Cluster,
    Node,
}

/// Blocking behaviour of a socket handle.
#[derive(Clone, Copy, Debug, PartialEq, Eq, Structural)]
pub enum SockOption {
    Standard,
    NonBlocking,
}

/// A three-part service address: service type, instance, and node.
///
/// A node of `0` denotes "any node in cluster scope"; a non-zero node
/// pins the address to that specific node.
#[derive(Clone, Copy, Debug, PartialEq, Eq, Structural)]
pub struct IrisAddressType {
    pub addr_type: u32,
    pub instance: u32,
    pub node: u32,
}

impl IrisAddressType {
    /// The all-zero address: service type 0, instance 0, any node.
    pub fn new() -> (r: Self)
        ensures
            r.addr_type == 0,
            r.instance == 0,
            r.node == 0,
    {
        IrisAddressType { addr_type: 0, instance: 0, node: 0 }
    }
}

/// What service to watch for, and how long to wait for it.
#[derive(Clone, Copy, Debug, PartialEq, Eq, Structural)]
pub struct Subscription {
    pub service: u32,
    pub instance: u32,
    pub timeout: i32,
}

} // verus!
