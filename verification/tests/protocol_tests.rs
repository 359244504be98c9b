use iris::protocol::accept_result;
use iris::protocol::bind_result;
use iris::protocol::connect_addr;
use iris::protocol::connect_result;
use iris::protocol::get_node_for_scope;
use iris::protocol::get_sock_type;
use iris::protocol::handle_is_valid;
use iris::protocol::join_result;
use iris::protocol::leave_result;
use iris::protocol::listen_result;
use iris::protocol::make_non_blocking_result;
use iris::protocol::multicast_result;
use iris::protocol::recv_from_result;
use iris::protocol::recv_result;
use iris::protocol::send_result;
use iris::protocol::sendto_result;
use iris::protocol::sock_type_value;
use iris::protocol::subscribe_request;
use iris::protocol::subscribe_result;
use iris::protocol::wait_addr;
use iris::protocol::wait_for_service_result;
use iris::IrisAddressType;
use iris::IrisErrorKind;
use iris::ScopeType;
use iris::SockType;
use iris::Subscription;
use iris::MAX_USER_MSG_SIZE;
use iris::TOPO_SERVICE;

#[test]
fn test_topo_service_constant() {
    assert_eq!(TOPO_SERVICE, 1);
    assert_eq!(MAX_USER_MSG_SIZE, 66000);
}

#[test]
fn test_sock_type_values() {
    assert_eq!(sock_type_value(SockType::Stream), 1);
    assert_eq!(sock_type_value(SockType::Datagram), 2);
    assert_eq!(sock_type_value(SockType::Raw), 3);
    assert_eq!(sock_type_value(SockType::Rdm), 4);
    assert_eq!(sock_type_value(SockType::Sequential), 5);
}

#[test]
fn test_get_sock_type() {
    assert_eq!(get_sock_type(1), SockType::Stream);
    assert_eq!(get_sock_type(2), SockType::Datagram);
    assert_eq!(get_sock_type(3), SockType::Raw);
    assert_eq!(get_sock_type(4), SockType::Rdm);
    assert_eq!(get_sock_type(5), SockType::Sequential);
    assert_eq!(get_sock_type(0), SockType::Rdm);
    assert_eq!(get_sock_type(99), SockType::Rdm);
}

#[test]
fn test_handle_validity() {
    assert!(handle_is_valid(3));
    assert!(handle_is_valid(-1));
    assert!(!handle_is_valid(0));
}

#[test]
fn test_node_for_scope() {
    assert_eq!(get_node_for_scope(7777, ScopeType::Cluster), 0);
    assert_eq!(get_node_for_scope(7777, ScopeType::Node), 7777);
    assert_eq!(get_node_for_scope(0, ScopeType::Node), 0);
}

#[test]
fn test_connect_addr() {
    let a = connect_addr(12345, 115, 42, ScopeType::Cluster);
    assert_eq!(a.addr_type, 12345);
    assert_eq!(a.instance, 115);
    assert_eq!(a.node, 0);

    let b = connect_addr(12345, 115, 42, ScopeType::Node);
    assert_eq!(b.node, 42);
}

#[test]
fn test_wait_addr_fixes_any_node() {
    let sub = Subscription { service: 12345, instance: 115, timeout: 10000 };
    let a = wait_addr(&sub);
    assert_eq!(a.addr_type, 12345);
    assert_eq!(a.instance, 115);
    assert_eq!(a.node, 0);
}

#[test]
fn test_subscribe_request_sets_keep_expiring() {
    let sub = Subscription { service: 12345, instance: 115, timeout: 30 };
    assert_eq!(subscribe_request(&sub), (12345, 115, 115, true, 30));
}

#[test]
fn test_bind_scope_error_kind() {
    // An invalid range or scope combination surfaces as the transport's
    // distinguished -1 status, and must come back as the scope-error
    // kind with its code kept, not as the generic failure kind.
    let err = bind_result(-1).unwrap_err();
    assert_eq!(err.kind(), IrisErrorKind::ScopeError);
    assert_eq!(err.error_code(), -1);
    assert_eq!(err.desc(), "Bind failed due to scope error!: -1");

    assert!(bind_result(0).is_ok());

    let other = bind_result(3).unwrap_err();
    assert_eq!(other.kind(), IrisErrorKind::GenericFailure);
    assert_eq!(other.desc(), format!("Bind failed!: {}", other.error_code()));
}

#[test]
fn test_send_classification() {
    // Echo equal to the payload length: success.
    let ok = send_result(4, 4).unwrap();
    assert_eq!(ok, 4);

    // Positive echo short of the length: the partial-transfer kind,
    // carrying the count actually transferred.
    let partial = send_result(4, 2).unwrap_err();
    assert_eq!(partial.kind(), IrisErrorKind::PartialTransfer);
    assert_eq!(partial.error_code(), 2);
    assert_eq!(partial.desc(), "Data only sent partially: 2");

    // Echo of zero or less: a hard failure.
    let zero = send_result(4, 0).unwrap_err();
    assert_eq!(zero.kind(), IrisErrorKind::GenericFailure);
    assert_eq!(zero.desc(), format!("Send failed!: {}", zero.error_code()));
    let neg = send_result(4, -1).unwrap_err();
    assert_eq!(neg.kind(), IrisErrorKind::GenericFailure);

    // An empty payload fully echoed is a success.
    assert_eq!(send_result(0, 0).unwrap(), 0);

    // An echo beyond the length is a hard failure too.
    assert_eq!(send_result(4, 9).unwrap_err().kind(), IrisErrorKind::GenericFailure);
}

#[test]
fn test_sendto_and_multicast_classify_like_send() {
    for (len, echo) in [(4usize, 4i32), (4, 2), (4, 0), (4, -1), (0, 0), (4, 9)] {
        let s = send_result(len, echo);
        let st = sendto_result(len, echo);
        let mc = multicast_result(len, echo);
        assert_eq!(s.is_ok(), st.is_ok());
        assert_eq!(s.is_ok(), mc.is_ok());
        if let (Err(a), Err(b), Err(c)) = (s, st, mc) {
            assert_eq!(a.kind(), b.kind());
            assert_eq!(a.kind(), c.kind());
            assert_eq!(a.error_code(), b.error_code());
        }
    }
    assert_eq!(sendto_result(4, 2).unwrap_err().kind(), IrisErrorKind::PartialTransfer);
    assert_eq!(multicast_result(4, 2).unwrap_err().kind(), IrisErrorKind::PartialTransfer);
    let st_err = sendto_result(4, -1).unwrap_err();
    assert_eq!(st_err.desc(), format!("Sendto failed!: {}", st_err.error_code()));
    let mc_err = multicast_result(4, -1).unwrap_err();
    assert_eq!(mc_err.desc(), format!("Multicast failed!: {}", mc_err.error_code()));
}

#[test]
fn test_recv_truncates_never_pads() {
    let buf = [1u8, 2, 3, 4, 5, 0, 0, 0];
    let got = recv_result(5, &buf).unwrap();
    assert_eq!(got, vec![1, 2, 3, 4, 5]);

    let short = recv_result(2, &buf).unwrap();
    assert_eq!(short, vec![1, 2]);
}

#[test]
fn test_recv_zero_is_no_data_kind() {
    let buf = [0u8; 4];
    let err = recv_result(0, &buf).unwrap_err();
    assert_eq!(err.kind(), IrisErrorKind::NoData);
    assert_eq!(err.desc(), format!("No data was received! Could be a event!: {}", err.error_code()));

    let hard = recv_result(-1, &buf).unwrap_err();
    assert_eq!(hard.kind(), IrisErrorKind::GenericFailure);
    assert_eq!(hard.desc(), format!("Error during recv!: {}", hard.error_code()));
}

#[test]
fn test_recv_from_membership_event_is_success() {
    // A zero-length report right after another member joins the group
    // is a membership event: a zero-length success, not an error.
    let buf = [0u8; 8];
    let group_sock = IrisAddressType { addr_type: 12121, instance: 100, node: 0 };
    let joiner = IrisAddressType { addr_type: 0, instance: 77, node: 3 };
    let mut sock = IrisAddressType::new();
    let mut member = IrisAddressType::new();

    let got = recv_from_result(0, &buf, group_sock, joiner, &mut sock, &mut member).unwrap();
    assert_eq!(got.len(), 0);
    assert_eq!(sock, group_sock);
    assert_eq!(member, joiner);
}

#[test]
fn test_recv_from_failure_leaves_outputs_unchanged() {
    let buf = [0u8; 8];
    let id = IrisAddressType { addr_type: 9, instance: 9, node: 9 };
    let mut sock = IrisAddressType { addr_type: 1, instance: 2, node: 3 };
    let mut member = IrisAddressType { addr_type: 4, instance: 5, node: 6 };

    let err = recv_from_result(-1, &buf, id, id, &mut sock, &mut member).unwrap_err();
    assert_eq!(err.kind(), IrisErrorKind::GenericFailure);
    assert_eq!(err.desc(), format!("No data was received!: {}", err.error_code()));
    assert_eq!(sock, IrisAddressType { addr_type: 1, instance: 2, node: 3 });
    assert_eq!(member, IrisAddressType { addr_type: 4, instance: 5, node: 6 });
}

#[test]
fn test_status_results() {
    assert!(connect_result(0).is_ok());
    let c_err = connect_result(1).unwrap_err();
    assert_eq!(c_err.desc(), format!("Connect failed!: {}", c_err.error_code()));
    assert!(listen_result(0).is_ok());
    let l_err = listen_result(-2).unwrap_err();
    assert_eq!(l_err.desc(), format!("Listen failed!: {}", l_err.error_code()));
    assert!(subscribe_result(0).is_ok());
    let sub_err = subscribe_result(5).unwrap_err();
    assert_eq!(sub_err.desc(), format!("Subscription failed!: {}", sub_err.error_code()));
}

#[test]
fn test_join_then_leave_success() {
    // Zero statuses from join and then leave both classify as success.
    assert!(join_result(0).is_ok());
    assert!(leave_result(0).is_ok());
    let j = join_result(-1).unwrap_err();
    assert_eq!(j.kind(), IrisErrorKind::GenericFailure);
    assert_eq!(j.desc(), format!("Group join failed!: {}", j.error_code()));
    let lv_err = leave_result(2).unwrap_err();
    assert_eq!(lv_err.desc(), format!("Group leave failed!: {}", lv_err.error_code()));
}

#[test]
fn test_accept_result() {
    let peer = IrisAddressType { addr_type: 7, instance: 8, node: 9 };
    assert_eq!(accept_result(0, peer).unwrap(), peer);
    let err = accept_result(-1, peer).unwrap_err();
    assert_eq!(err.kind(), IrisErrorKind::GenericFailure);
    assert_eq!(err.desc(), format!("Accept failed!: {}", err.error_code()));
}

#[test]
fn test_wait_for_service_result() {
    assert_eq!(wait_for_service_result(true).unwrap(), true);
    let err = wait_for_service_result(false).unwrap_err();
    assert_eq!(err.kind(), IrisErrorKind::Timeout);
    assert_eq!(err.desc(), format!("Service not available in time: {}", err.error_code()));
}

#[test]
fn test_make_non_blocking_echo_check() {
    // Success is the transport echoing the same handle value back.
    assert!(make_non_blocking_result(12, 12).is_ok());
    let err = make_non_blocking_result(12, 0).unwrap_err();
    assert_eq!(err.kind(), IrisErrorKind::GenericFailure);
    assert!(make_non_blocking_result(12, -1).is_err());
}

#[test]
fn test_end_to_end_reports() {
    // The concrete exchange: service type 12345, instance 115, bound
    // over [201, 201] in cluster scope by a server; a client discovers
    // the service, sends the four bytes "asdf" to {12345, 115, 0}, the
    // server reads them back exactly and replies with the two bytes
    // "jk" to the recovered address.
    let server_node: u32 = 55;
    assert_eq!(get_node_for_scope(server_node, ScopeType::Cluster), 0);
    let lower: u32 = 201;
    let upper: u32 = 201;
    assert!(lower <= upper);
    assert!(bind_result(0).is_ok());

    let sub = Subscription { service: 12345, instance: 115, timeout: 10000 };
    assert_eq!(wait_addr(&sub), IrisAddressType { addr_type: 12345, instance: 115, node: 0 });
    assert_eq!(wait_for_service_result(true).unwrap(), true);

    let payload = vec![b'a', b's', b'd', b'f'];
    let dest = IrisAddressType { addr_type: 12345, instance: 115, node: 0 };
    assert_eq!(dest.node, 0);
    assert_eq!(sendto_result(payload.len(), 4).unwrap(), 4);

    // The server's receive: the transport hands the payload at the head
    // of the receive buffer and reports its length, along with the
    // bound socket identity and the sender identity.
    let mut server_buf = [0u8; 16];
    server_buf[..4].copy_from_slice(&payload);
    let sock_id = IrisAddressType { addr_type: 0, instance: 33, node: 1 };
    let member_id = IrisAddressType::new();
    let mut sender = IrisAddressType::new();
    let mut member = IrisAddressType::new();
    let got = recv_from_result(4, &server_buf, sock_id, member_id, &mut sender, &mut member).unwrap();
    assert_eq!(got, payload);
    assert_eq!(sender, sock_id);

    // The reply goes to the recovered sender address.
    let reply = vec![b'j', b'k'];
    assert_eq!(sendto_result(reply.len(), 2).unwrap(), 2);

    let mut client_buf = [0u8; 16];
    client_buf[..2].copy_from_slice(&reply);
    let answer = recv_result(2, &client_buf).unwrap();
    assert_eq!(answer, reply);
}
