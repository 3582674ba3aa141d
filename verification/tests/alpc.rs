use zircon_nt10::alpc::connection::{AlpcConnection, AlpcConnectionState};
use zircon_nt10::alpc::cross_proc::{
    post_cross_address_space_into_remote_va, user_canonical_dest_va, AlpcDuplexLink,
    CrossAsBounce, ProcessId, RemoteCopyPlan, CROSS_AS_BOUNCE_CAP,
};
use zircon_nt10::alpc::message::{AlpcInlineMessage, ALPC_INLINE_BYTES};
use zircon_nt10::alpc::phase6_csrss::{
    try_alpc_handoff_csrss_spawn_stub, zr_alpc_csrss_api_port_utf8,
    ZR_ALPC_CSRSS_API_PORT_UTF8_LEN,
};
use zircon_nt10::alpc::port::{AlpcPort, AlpcPortId, AlpcPortIdAllocator, QUEUE_DEPTH};
use zircon_nt10::alpc::session_policy::{
    alpc_allow_connection, PORT_FLAGS_ANY_SESSION, PORT_FLAGS_SYSTEM_ONLY,
};

#[test]
fn duplex_round_trip() {
    let mut ids = AlpcPortIdAllocator::new();
    let sp = ProcessId(4);
    let cp = ProcessId(8);
    let mut link = AlpcDuplexLink::new(&mut ids, sp, cp);
    assert!(link.post_from_client(cp, b"hello").is_ok());
    let m = link.recv_at_server().unwrap();
    assert_eq!(m.len as usize, 5);
    assert_eq!(&m.data[..5], b"hello");
    assert!(link.post_from_server(sp, b"ack").is_ok());
    let r = link.recv_at_client().unwrap();
    assert_eq!(&r.data[..3], b"ack");
}

#[test]
fn wrong_sender_rejected() {
    let sp = ProcessId(100);
    let cp = ProcessId(200);
    let mut ids = AlpcPortIdAllocator::new();
    let mut link = AlpcDuplexLink::new(&mut ids, sp, cp);
    assert!(link.post_from_client(sp, b"x").is_err());
    assert!(link.post_from_server(cp, b"x").is_err());
}

#[test]
fn cross_address_space_bounce_zero_cr3() {
    let mut bounce = CrossAsBounce::new();
    assert!(bounce.post_cross_address_space(0, None, b"alpc-bounce").is_ok());
    assert_eq!(bounce.cross_as_bounce_len_for_test(), 11);
    let mut t = [0u8; 16];
    let n = bounce.cross_as_bounce_bytes_for_test(&mut t);
    assert_eq!(n, 11);
    assert_eq!(&t[..11], b"alpc-bounce");
}

#[test]
fn cross_address_space_rejects_unknown_cr3() {
    let mut bounce = CrossAsBounce::new();
    assert!(bounce.post_cross_address_space(u64::MAX, None, b"x").is_err());
}

#[test]
fn cross_into_remote_rejects_non_canonical_user_va_stub() {
    assert!(post_cross_address_space_into_remote_va(1, 0xFFFF_8000_0000_0000, b"x", false).is_err());
}

#[test]
fn blocks_session0_only_port_from_interactive() {
    assert!(!alpc_allow_connection(PORT_FLAGS_SYSTEM_ONLY, 1));
    assert!(alpc_allow_connection(PORT_FLAGS_SYSTEM_ONLY, 0));
    assert!(alpc_allow_connection(PORT_FLAGS_ANY_SESSION, 1));
}

#[test]
fn port_ids_count_up_from_one() {
    let mut ids = AlpcPortIdAllocator::new();
    assert_eq!(ids.allocate(), AlpcPortId(1));
    assert_eq!(ids.allocate(), AlpcPortId(2));
    let p = AlpcPort::new(&mut ids);
    assert_eq!(p.get_id(), AlpcPortId(3));
    let link = AlpcDuplexLink::new(&mut ids, ProcessId(1), ProcessId(2));
    assert_eq!(link.server_port_id(), AlpcPortId(4));
    assert_eq!(link.client_side_port_id(), AlpcPortId(5));
}

#[test]
fn port_queue_is_fifo_and_bounded() {
    let mut ids = AlpcPortIdAllocator::new();
    let mut p = AlpcPort::new(&mut ids);
    assert!(p.try_recv().is_err());
    for i in 0..QUEUE_DEPTH {
        assert!(p.try_send(&[i as u8, 7]).is_ok());
    }
    assert!(p.try_send(b"overflow").is_err());
    for i in 0..QUEUE_DEPTH {
        let m = p.try_recv().unwrap();
        assert_eq!(m.len, 2);
        assert_eq!(&m.data[..2], &[i as u8, 7]);
    }
    assert!(p.try_recv().is_err());
}

#[test]
fn port_queue_wraps_around() {
    let mut ids = AlpcPortIdAllocator::new();
    let mut p = AlpcPort::new(&mut ids);
    for round in 0u8..10 {
        assert!(p.try_send(&[round]).is_ok());
        assert!(p.try_send(&[round, round]).is_ok());
        assert_eq!(p.try_recv().unwrap().data[0], round);
        let m = p.try_recv().unwrap();
        assert_eq!(m.len, 2);
    }
}

#[test]
fn payload_too_long_rejected() {
    let mut ids = AlpcPortIdAllocator::new();
    let mut p = AlpcPort::new(&mut ids);
    let big = [1u8; ALPC_INLINE_BYTES + 1];
    assert!(p.try_send(&big).is_err());
    let exact = [2u8; ALPC_INLINE_BYTES];
    assert!(p.try_send(&exact).is_ok());
    let m = p.try_recv().unwrap();
    assert_eq!(m.len as usize, ALPC_INLINE_BYTES);
    assert_eq!(m.data, exact);
}

#[test]
fn message_from_payload_zero_fills() {
    let m = AlpcInlineMessage::from_payload(b"abc");
    assert_eq!(m.len, 3);
    assert_eq!(m._pad, 0);
    assert_eq!(&m.data[..3], b"abc");
    assert!(m.data[3..].iter().all(|b| *b == 0));
    let e = AlpcInlineMessage::empty();
    assert_eq!(e.len, 0);
    assert!(e.data.iter().all(|b| *b == 0));
}

#[test]
fn duplex_queue_full_rejects() {
    let mut ids = AlpcPortIdAllocator::new();
    let mut link = AlpcDuplexLink::new(&mut ids, ProcessId(1), ProcessId(2));
    for _ in 0..QUEUE_DEPTH {
        assert!(link.post_from_client(ProcessId(2), b"m").is_ok());
    }
    assert!(link.post_from_client(ProcessId(2), b"m").is_err());
    assert!(link.recv_at_client().is_err());
    assert!(link.post_from_server(ProcessId(1), b"s").is_ok());
    assert_eq!(link.recv_at_client().unwrap().data[0], b's');
}

#[test]
fn bounce_rejects_oversize_and_keeps_previous() {
    let mut bounce = CrossAsBounce::new();
    assert!(bounce.post_cross_address_space(0, None, b"keep").is_ok());
    let big = vec![0u8; CROSS_AS_BOUNCE_CAP + 1];
    assert!(bounce.post_cross_address_space(0, None, &big).is_err());
    assert_eq!(bounce.cross_as_bounce_len_for_test(), 4);
    assert!(bounce.post_cross_address_space(5, Some(6), b"x").is_err());
    assert_eq!(bounce.cross_as_bounce_len_for_test(), 4);
    assert!(bounce.post_cross_address_space(5, Some(5), b"xy").is_ok());
    assert_eq!(bounce.cross_as_bounce_len_for_test(), 2);
    assert!(bounce.post_cross_address_space(9, None, b"").is_ok());
    assert_eq!(bounce.cross_as_bounce_len_for_test(), 0);
}

#[test]
fn bounce_bytes_truncates_to_output() {
    let mut bounce = CrossAsBounce::new();
    assert!(bounce.post_cross_address_space(0, None, b"abcdef").is_ok());
    let mut t = [9u8; 3];
    assert_eq!(bounce.cross_as_bounce_bytes_for_test(&mut t), 3);
    assert_eq!(&t, b"abc");
}

#[test]
fn remote_copy_plan_when_switch_possible() {
    assert_eq!(
        post_cross_address_space_into_remote_va(7, 0x1000, b"abc", true),
        Ok(Some(RemoteCopyPlan { cr3: 7, dest: 0x1000, len: 3 }))
    );
    assert_eq!(post_cross_address_space_into_remote_va(7, 0x1000, b"", true), Ok(None));
    // Without an address-space switch the copy is unavailable, even for an empty source.
    assert_eq!(post_cross_address_space_into_remote_va(7, 0x1000, b"", false), Err(()));
    assert!(post_cross_address_space_into_remote_va(0, 0x1000, b"a", true).is_err());
    assert!(post_cross_address_space_into_remote_va(1, 0xFFFF_8000_0000_0000, b"x", true).is_err());
    assert!(user_canonical_dest_va(0x7FFF_FFFF_FFFF));
    assert!(!user_canonical_dest_va(0x8000_0000_0000));
}

#[test]
fn connection_lifecycle() {
    let mut c = AlpcConnection::new(AlpcPortId(3));
    assert_eq!(c.state, AlpcConnectionState::Disconnected);
    assert!(c.accept().is_err());
    assert!(c.listen().is_ok());
    assert_eq!(c.state, AlpcConnectionState::Listening);
    assert!(c.connect().is_err());
    assert!(c.accept().is_ok());
    assert_eq!(c.state, AlpcConnectionState::Connected);
    assert!(c.disconnect().is_ok());
    assert!(c.disconnect().is_err());
    assert!(c.connect().is_ok());
    assert_eq!(c.port, AlpcPortId(3));
}

#[test]
fn csrss_port_name_and_stub() {
    let s = zr_alpc_csrss_api_port_utf8();
    assert_eq!(s.len(), ZR_ALPC_CSRSS_API_PORT_UTF8_LEN);
    assert_eq!(s, "\\RPC Control\\ZrNt10CsrssApi");
    assert!(try_alpc_handoff_csrss_spawn_stub(ProcessId(4), 0).is_err());
}
