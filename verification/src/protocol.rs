//! Pure protocol logic of the connection operations: scope resolution,
//! request construction, and classification of the status codes and byte
//! counts the raw transport reports.
//!
//! The raw transport calls themselves are foreign; each operation's
//! decision logic stands here as a function from the transport's report
//! to the operation's result, so every success/failure contract is
//! checked for every report the transport could make.

use vstd::prelude::*;

use crate::iris_error_wrapper::error_message;
use crate::iris_error_wrapper::IrisErrorKind;
use crate::iris_error_wrapper::IrisErrorWrapper;
use crate::IrisAddressType;
use crate::IrisResult;
use crate::ScopeType;
use crate::SockType;
use crate::Subscription;

verus! {

/// The numeric transport code of a delivery mode.
pub open spec fn sock_type_code(t: SockType) -> int {
    match t {
        SockType::Stream => 1,
        SockType::Datagram => 2,
        SockType::Raw => 3,
        SockType::Rdm => 4,
        SockType::Sequential => 5,
    }
}

/// The delivery mode a numeric transport code denotes; unknown codes
/// fall back to the reliable-datagram mode.
pub open spec fn sock_type_of(code: int) -> SockType {
    if code == 1 {
        SockType::Stream
    } else if code == 2 {
        SockType::Datagram
    } else if code == 3 {
        SockType::Raw
    } else if code == 5 {
        SockType::Sequential
    } else {
        SockType::Rdm
    }
}

/// The node value a scope resolves to: cluster scope means "any node"
/// (0), node scope means the connection's own node.
pub open spec fn node_for_scope_spec(own_node: u32, scope: ScopeType) -> u32 {
    match scope {
        ScopeType::Cluster => 0u32,
        ScopeType::Node => own_node,
    }
}

pub fn sock_type_value(t: SockType) -> (v: i32)
    ensures
        v == sock_type_code(t),
{
    match t {
        SockType::Stream => 1,
        SockType::Datagram => 2,
        SockType::Raw => 3,
        SockType::Rdm => 4,
        SockType::Sequential => 5,
    }
}

pub fn get_sock_type(code: u32) -> (t: SockType)
    ensures
        t == sock_type_of(code as int),
{
    match code {
        1 => SockType::Stream,
        2 => SockType::Datagram,
        3 => SockType::Raw,
        4 => SockType::Rdm,
        5 => SockType::Sequential,
        _ => SockType::Rdm,
    }
}

/// Whether a handle value is a legal identifier: the transport's error
/// sentinel is zero, and any other value names a live endpoint.
pub fn handle_is_valid(socket: i32) -> (r: bool)
    ensures
        r <==> socket != 0,
{
    socket != 0
}

pub fn get_node_for_scope(own_node: u32, scope: ScopeType) -> (node: u32)
    ensures
        node == node_for_scope_spec(own_node, scope),
{
    match scope {
        ScopeType::Cluster => 0,
        ScopeType::Node => own_node,
    }
}

/// The single-instance destination a connect resolves to: the requested
/// service and instance, at the node the scope names.
pub fn connect_addr(service_type: u32, instance: u32, own_node: u32, scope: ScopeType) -> (a: IrisAddressType)
    ensures
        a.addr_type == service_type,
        a.instance == instance,
        a.node == node_for_scope_spec(own_node, scope),
{
    let node = get_node_for_scope(own_node, scope);
    IrisAddressType { addr_type: service_type, instance, node }
}

/// The cluster-wide address a service-discovery wait watches: the
/// subscribed service and instance, with the node fixed at "any".
pub fn wait_addr(sub: &Subscription) -> (a: IrisAddressType)
    ensures
        a.addr_type == sub.service,
        a.instance == sub.instance,
        a.node == 0,
{
    IrisAddressType { addr_type: sub.service, instance: sub.instance, node: 0 }
}

/// The request a subscription registers: service type, an instance range
/// collapsed to the single subscribed instance, the keep-expiring flag
/// (always set), and the timeout.
pub fn subscribe_request(sub: &Subscription) -> (r: (u32, u32, u32, bool, i32))
    ensures
        r == (sub.service, sub.instance, sub.instance, true, sub.timeout),
{
    (sub.service, sub.instance, sub.instance, true, sub.timeout)
}

/// Classification of a zero-is-success status report.
fn status_result(status: i32, fail_desc: &str) -> (r: IrisResult<()>)
    ensures
        r is Ok <==> status == 0,
        status != 0 ==> r is Err && r->Err_0.spec_kind() == IrisErrorKind::GenericFailure
            && r->Err_0.spec_desc() == error_message(fail_desc@, r->Err_0.spec_code() as int),
{
    if status == 0 {
        Ok(())
    } else {
        Err(IrisErrorWrapper::new(fail_desc))
    }
}

/// The outcome of a bind, from the transport's status report: zero is
/// success; exactly `-1` is the distinct scope error, its code kept;
/// anything else is a generic bind failure.
pub fn bind_result(status: i32) -> (r: IrisResult<()>)
    ensures
        r is Ok <==> status == 0,
        status == -1 ==> r is Err && r->Err_0.spec_kind() == IrisErrorKind::ScopeError
            && r->Err_0.spec_code() == -1
            && r->Err_0.spec_desc() == error_message("Bind failed due to scope error!"@, -1),
        status != 0 && status != -1 ==> r is Err
            && r->Err_0.spec_kind() == IrisErrorKind::GenericFailure
            && r->Err_0.spec_desc() == error_message("Bind failed!"@, r->Err_0.spec_code() as int),
{
    if status == 0 {
        Ok(())
    } else if status == -1 {
        Err(IrisErrorWrapper::with_kind_and_code("Bind failed due to scope error!", -1, IrisErrorKind::ScopeError))
    } else {
        Err(IrisErrorWrapper::new("Bind failed!"))
    }
}

/// The outcome of a connection-oriented handshake, from its status report.
pub fn connect_result(status: i32) -> (r: IrisResult<()>)
    ensures
        r is Ok <==> status == 0,
        status != 0 ==> r is Err && r->Err_0.spec_kind() == IrisErrorKind::GenericFailure
            && r->Err_0.spec_desc() == error_message("Connect failed!"@, r->Err_0.spec_code() as int),
{
    status_result(status, "Connect failed!")
}

/// The outcome of a listen, from its status report.
pub fn listen_result(status: i32) -> (r: IrisResult<()>)
    ensures
        r is Ok <==> status == 0,
        status != 0 ==> r is Err && r->Err_0.spec_kind() == IrisErrorKind::GenericFailure
            && r->Err_0.spec_desc() == error_message("Listen failed!"@, r->Err_0.spec_code() as int),
{
    status_result(status, "Listen failed!")
}

/// The outcome of an accept: on a zero status the peer address the
/// transport reported, otherwise a generic failure.
pub fn accept_result(status: i32, peer: IrisAddressType) -> (r: IrisResult<IrisAddressType>)
    ensures
        r is Ok <==> status == 0,
        status == 0 ==> r is Ok && r->Ok_0 == peer,
        status != 0 ==> r is Err && r->Err_0.spec_kind() == IrisErrorKind::GenericFailure
            && r->Err_0.spec_desc() == error_message("Accept failed!"@, r->Err_0.spec_code() as int),
{
    if status == 0 {
        Ok(peer)
    } else {
        Err(IrisErrorWrapper::new("Accept failed!"))
    }
}

/// The outcome of a subscription registration, from its status report.
pub fn subscribe_result(status: i32) -> (r: IrisResult<()>)
    ensures
        r is Ok <==> status == 0,
        status != 0 ==> r is Err && r->Err_0.spec_kind() == IrisErrorKind::GenericFailure
            && r->Err_0.spec_desc() == error_message("Subscription failed!"@, r->Err_0.spec_code() as int),
{
    status_result(status, "Subscription failed!")
}

/// The outcome of a group join, from its status report.
pub fn join_result(status: i32) -> (r: IrisResult<()>)
    ensures
        r is Ok <==> status == 0,
        status != 0 ==> r is Err && r->Err_0.spec_kind() == IrisErrorKind::GenericFailure
            && r->Err_0.spec_desc() == error_message("Group join failed!"@, r->Err_0.spec_code() as int),
{
    status_result(status, "Group join failed!")
}

/// The outcome of a group leave, from its status report.
pub fn leave_result(status: i32) -> (r: IrisResult<()>)
    ensures
        r is Ok <==> status == 0,
        status != 0 ==> r is Err && r->Err_0.spec_kind() == IrisErrorKind::GenericFailure
            && r->Err_0.spec_desc() == error_message("Group leave failed!"@, r->Err_0.spec_code() as int),
{
    status_result(status, "Group leave failed!")
}

/// The outcome of a service-discovery wait: the transport's boolean is
/// success exactly when true; a falsy result is the timeout kind.
pub fn wait_for_service_result(found: bool) -> (r: IrisResult<bool>)
    ensures
        r is Ok <==> found,
        found ==> r is Ok && r->Ok_0 == true,
        !found ==> r is Err && r->Err_0.spec_kind() == IrisErrorKind::Timeout
            && r->Err_0.spec_desc() == error_message("Service not available in time"@, r->Err_0.spec_code() as int),
{
    if found {
        Ok(found)
    } else {
        Err(IrisErrorWrapper::with_kind("Service not available in time", IrisErrorKind::Timeout))
    }
}

/// How a transfer's reported byte count classifies against the length
/// of the payload that was to be sent.
pub enum TransferClass {
    /// The transport reported exactly the payload length: the whole
    /// payload was sent.
    Complete,
    /// A positive count smaller than the payload length: the remainder
    /// is unsent and the caller must retry it.
    Partial,
    /// A count of zero or less (for a non-empty payload), or any other
    /// count that is no prefix of the payload: a hard failure.
    Failed,
}

/// The success classification shared by `send`, `sendto` and
/// `multicast`: a function of the payload length and the transport's
/// reported count alone.
pub open spec fn classify_transfer(len: int, reported: int) -> TransferClass {
    if reported == len {
        TransferClass::Complete
    } else if 0 < reported < len {
        TransferClass::Partial
    } else {
        TransferClass::Failed
    }
}

/// Classification of a transfer report, shared by the three send
/// variants; only the hard-failure description differs between them.
fn transfer_result(len: usize, reported: i32, fail_desc: &str) -> (r: IrisResult<i32>)
    ensures
        r is Ok <==> classify_transfer(len as int, reported as int) is Complete,
        r is Ok ==> r->Ok_0 == reported,
        classify_transfer(len as int, reported as int) is Partial ==> r is Err
            && r->Err_0.spec_kind() == IrisErrorKind::PartialTransfer
            && r->Err_0.spec_code() == reported
            && r->Err_0.spec_desc() == error_message("Data only sent partially"@, reported as int),
        classify_transfer(len as int, reported as int) is Failed ==> r is Err
            && r->Err_0.spec_kind() == IrisErrorKind::GenericFailure
            && r->Err_0.spec_desc() == error_message(fail_desc@, r->Err_0.spec_code() as int),
{
    if reported >= 0 && reported as usize == len {
        Ok(reported)
    } else if reported > 0 && (reported as usize) < len {
        Err(IrisErrorWrapper::with_kind_and_code("Data only sent partially", reported, IrisErrorKind::PartialTransfer))
    } else {
        Err(IrisErrorWrapper::new(fail_desc))
    }
}

/// The outcome of a send on a connected handle, from the payload length
/// and the transport's reported count: success exactly when the count
/// equals the length; a smaller positive count is the partial-transfer
/// kind, its code carrying the count actually sent; anything else is a
/// hard send failure.
pub fn send_result(len: usize, reported: i32) -> (r: IrisResult<i32>)
    ensures
        r is Ok <==> classify_transfer(len as int, reported as int) is Complete,
        r is Ok ==> r->Ok_0 == reported,
        classify_transfer(len as int, reported as int) is Partial ==> r is Err
            && r->Err_0.spec_kind() == IrisErrorKind::PartialTransfer
            && r->Err_0.spec_code() == reported,
        classify_transfer(len as int, reported as int) is Failed ==> r is Err
            && r->Err_0.spec_kind() == IrisErrorKind::GenericFailure
            && r->Err_0.spec_desc() == error_message("Send failed!"@, r->Err_0.spec_code() as int),
{
    transfer_result(len, reported, "Send failed!")
}

/// The outcome of a sendto on an unconnected handle; the classification
/// is exactly that of `send_result`.
pub fn sendto_result(len: usize, reported: i32) -> (r: IrisResult<i32>)
    ensures
        r is Ok <==> classify_transfer(len as int, reported as int) is Complete,
        r is Ok ==> r->Ok_0 == reported,
        classify_transfer(len as int, reported as int) is Partial ==> r is Err
            && r->Err_0.spec_kind() == IrisErrorKind::PartialTransfer
            && r->Err_0.spec_code() == reported,
        classify_transfer(len as int, reported as int) is Failed ==> r is Err
            && r->Err_0.spec_kind() == IrisErrorKind::GenericFailure
            && r->Err_0.spec_desc() == error_message("Sendto failed!"@, r->Err_0.spec_code() as int),
{
    transfer_result(len, reported, "Sendto failed!")
}

/// The outcome of a multicast to a group address; the classification is
/// exactly that of `send_result`.
pub fn multicast_result(len: usize, reported: i32) -> (r: IrisResult<i32>)
    ensures
        r is Ok <==> classify_transfer(len as int, reported as int) is Complete,
        r is Ok ==> r->Ok_0 == reported,
        classify_transfer(len as int, reported as int) is Partial ==> r is Err
            && r->Err_0.spec_kind() == IrisErrorKind::PartialTransfer
            && r->Err_0.spec_code() == reported,
        classify_transfer(len as int, reported as int) is Failed ==> r is Err
            && r->Err_0.spec_kind() == IrisErrorKind::GenericFailure
            && r->Err_0.spec_desc() == error_message("Multicast failed!"@, r->Err_0.spec_code() as int),
{
    transfer_result(len, reported, "Multicast failed!")
}

/// The bytes a receive yields for a given report: exactly the reported
/// prefix of the receive buffer, truncated and never padded.
pub open spec fn received_bytes(reported: int, buf: Seq<u8>) -> Seq<u8> {
    buf.subrange(0, reported)
}

/// The outcome of a blocking receive, from the transport's reported
/// count and the buffer it filled: a positive count yields exactly that
/// many leading bytes of the buffer; zero is the distinct no-data kind
/// (possibly a membership event, not a hard error); negative is a
/// receive failure.
pub fn recv_result(reported: i32, buf: &[u8]) -> (r: IrisResult<Vec<u8>>)
    requires
        reported >= 0 ==> reported as int <= buf@.len(),
    ensures
        r is Ok <==> reported > 0,
        reported > 0 ==> r is Ok && r->Ok_0@ == received_bytes(reported as int, buf@),
        reported == 0 ==> r is Err && r->Err_0.spec_kind() == IrisErrorKind::NoData
            && r->Err_0.spec_desc() == error_message("No data was received! Could be a event!"@, r->Err_0.spec_code() as int),
        reported < 0 ==> r is Err && r->Err_0.spec_kind() == IrisErrorKind::GenericFailure
            && r->Err_0.spec_desc() == error_message("Error during recv!"@, r->Err_0.spec_code() as int),
{
    if reported > 0 {
        let taken = vstd::slice::slice_subrange(buf, 0, reported as usize);
        Ok(vstd::slice::slice_to_vec(taken))
    } else if reported == 0 {
        Err(IrisErrorWrapper::with_kind("No data was received! Could be a event!", IrisErrorKind::NoData))
    } else {
        Err(IrisErrorWrapper::new("Error during recv!"))
    }
}

/// The outcome of a receive that also yields identities, from the
/// transport's reported count, the buffer it filled, and the socket and
/// member identities it reported: any non-negative count (zero included,
/// for membership events) is success, the reported identities written to
/// the caller's output addresses and exactly the reported prefix of the
/// buffer returned; a negative count is a failure that leaves both
/// output addresses unchanged.
pub fn recv_from_result(
    reported: i32,
    buf: &[u8],
    sock_id: IrisAddressType,
    member_id: IrisAddressType,
    sock: &mut IrisAddressType,
    member: &mut IrisAddressType,
) -> (r: IrisResult<Vec<u8>>)
    requires
        reported >= 0 ==> reported as int <= buf@.len(),
    ensures
        r is Ok <==> reported >= 0,
        reported >= 0 ==> r is Ok && r->Ok_0@ == received_bytes(reported as int, buf@)
            && *final(sock) == sock_id && *final(member) == member_id,
        reported < 0 ==> r is Err && r->Err_0.spec_kind() == IrisErrorKind::GenericFailure
            && r->Err_0.spec_desc() == error_message("No data was received!"@, r->Err_0.spec_code() as int)
            && *final(sock) == *old(sock) && *final(member) == *old(member),
{
    if reported >= 0 {
        sock.addr_type = sock_id.addr_type;
        sock.instance = sock_id.instance;
        sock.node = sock_id.node;

        member.addr_type = member_id.addr_type;
        member.instance = member_id.instance;
        member.node = member_id.node;

        let taken = vstd::slice::slice_subrange(buf, 0, reported as usize);
        Ok(vstd::slice::slice_to_vec(taken))
    } else {
        Err(IrisErrorWrapper::new("No data was received!"))
    }
}

/// The outcome of the non-blocking toggle: success exactly when the
/// transport echoed the handle value back unchanged (the underlying
/// call's idiosyncratic success signal, preserved as such).
pub fn make_non_blocking_result(socket: i32, echoed: i32) -> (r: IrisResult<()>)
    ensures
        r is Ok <==> echoed == socket,
        echoed != socket ==> r is Err && r->Err_0.spec_kind() == IrisErrorKind::GenericFailure
            && r->Err_0.spec_desc() == error_message("Making socket non-blocking failed!"@, r->Err_0.spec_code() as int),
{
    if echoed == socket {
        Ok(())
    } else {
        Err(IrisErrorWrapper::new("Making socket non-blocking failed!"))
    }
}

/// The success classification of the transfer operations is a function
/// of the payload length and the transport's echoed count alone, and it
/// is the same trichotomy for `send_result`, `sendto_result` and
/// `multicast_result`: an echo equal to the length is complete, a
/// positive echo short of the length is partial, and any echo of zero or
/// less for a non-empty payload — as well as any echo beyond the length
/// — is a hard failure.
pub proof fn lemma_transfer_classification(len: int, reported: int)
    requires
        0 <= len,
    ensures
        reported == len ==> classify_transfer(len, reported) is Complete,
        0 < reported < len ==> classify_transfer(len, reported) is Partial,
        reported <= 0 && 0 < len ==> classify_transfer(len, reported) is Failed,
        reported > len ==> classify_transfer(len, reported) is Failed,
{
}

/// Round trip: when the transport accepts a whole payload (an echo equal
/// to its length, so the send classifies as complete) and delivers it in
/// full at the receiver (a receive buffer beginning with the payload and
/// a report of its length), the bytes the receive yields are the payload
/// itself, byte-identical and in order.
///
/// The payload must be non-empty: a zero-byte report is the no-data
/// event, which a plain receive never classifies as success.
pub proof fn lemma_round_trip(payload: Seq<u8>, buf: Seq<u8>)
    requires
        0 < payload.len() <= buf.len(),
        buf.subrange(0, payload.len() as int) == payload,
    ensures
        classify_transfer(payload.len() as int, payload.len() as int) is Complete,
        payload.len() as int > 0,
        received_bytes(payload.len() as int, buf) == payload,
{
}

/// A report of zero bytes yields the empty byte sequence: a membership
/// event on a group socket surfaces through `recv_from_result` as a
/// zero-length success, never as an error.
pub proof fn lemma_membership_event_empty(buf: Seq<u8>)
    ensures
        received_bytes(0, buf) == Seq::<u8>::empty(),
{
    assert(received_bytes(0, buf) =~= Seq::<u8>::empty());
}

} // verus!
