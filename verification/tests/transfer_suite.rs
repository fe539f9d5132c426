//! The stop-and-wait machines: block sequencing with wrap-around,
//! retransmission bounds, duplicate handling, and TID enforcement.

use tftplib::conn::{unknown_tid_reply, PeerAddr, SourceCheck, TftpConnState};
use tftplib::error::ConnectionError;
use tftplib::packet::{MutableTftpAck, MutableTftpData, Packet, TftpPacket};
use tftplib::transfer::{
    classify_recv_failure, AckOutcome, DataOutcome, ReceiveTransfer, RecvFailure, SendTransfer,
    TimeoutOutcome,
};

#[test]
fn send_blocks_count_from_one() {
    let mut tx = SendTransfer::new(512, 5);
    assert_eq!(tx.block, 0);
    tx.next_block(512);
    assert_eq!(tx.block, 1);
    assert!(!tx.end_of_stream);
    assert_eq!(tx.on_ack(1), AckOutcome::Accepted);
    tx.next_block(512);
    assert_eq!(tx.block, 2);
    assert_eq!(tx.on_ack(2), AckOutcome::Accepted);
    tx.next_block(100);
    assert!(tx.end_of_stream);
    assert_eq!(tx.on_ack(3), AckOutcome::Finished);
    assert!(tx.done);
}

#[test]
fn send_block_counter_wraps_to_zero() {
    // run a transfer longer than 65535 blocks and watch the wrap
    let mut tx = SendTransfer::new(8, 5);
    assert!(!tx.has_outstanding());
    for _ in 0..65535u32 {
        tx.next_block(8);
        let b = tx.block;
        assert_eq!(tx.on_ack(b), AckOutcome::Accepted);
    }
    assert_eq!(tx.block, 65535);
    tx.next_block(8);
    // block number 0 is legitimate after the wrap: a block is still
    // outstanding
    assert_eq!(tx.block, 0);
    assert!(tx.has_outstanding());
    assert_eq!(tx.on_ack(0), AckOutcome::Accepted);
    tx.next_block(8);
    assert_eq!(tx.block, 1);
}

#[test]
fn stale_ack_is_dropped_and_does_not_reset_retries() {
    let mut tx = SendTransfer::new(512, 5);
    tx.next_block(512);
    tx.next_block(512);
    assert_eq!(tx.on_timeout(), TimeoutOutcome::Retransmit);
    assert_eq!(tx.retransmit_count, 1);
    assert_eq!(tx.on_ack(1), AckOutcome::Ignored);
    assert_eq!(tx.retransmit_count, 1);
    assert_eq!(tx.on_ack(2), AckOutcome::Accepted);
    assert_eq!(tx.retransmit_count, 0);
}

#[test]
fn retransmission_gives_up_on_fifth_timeout() {
    // blocksize 4, a 10-byte file: DATA 1 "abcd" goes out, no ACK ever
    let mut tx = SendTransfer::new(4, 5);
    tx.next_block(4);
    for k in 1..5u8 {
        assert_eq!(tx.on_timeout(), TimeoutOutcome::Retransmit);
        assert_eq!(tx.retransmit_count, k);
    }
    assert_eq!(tx.on_timeout(), TimeoutOutcome::Failed);
}

#[test]
fn single_retry_budget_fails_at_once() {
    let mut tx = SendTransfer::new(512, 1);
    tx.next_block(512);
    assert_eq!(tx.on_timeout(), TimeoutOutcome::Failed);
}

#[test]
fn wire_reply_handling_on_send_side() {
    let mut tx = SendTransfer::new(512, 5);
    tx.next_block(512);
    let ack = MutableTftpAck::new(1);
    let pkt = TftpPacket::try_from_buf(ack.as_bytes()).unwrap();
    assert_eq!(tx.on_wire_reply(&pkt), Ok(AckOutcome::Accepted));

    tx.next_block(512);
    let err_pkt = [0u8, 5, 0, 3, b'f', b'u', b'l', b'l', 0];
    let pkt = TftpPacket::try_from_buf(&err_pkt).unwrap();
    match tx.on_wire_reply(&pkt) {
        Err(ConnectionError::PeerError(e)) => {
            assert_eq!(e.code, tftplib::error::ErrorCode::StorageError);
            assert_eq!(e.msg, b"full".to_vec());
        },
        other => panic!("expected a peer error, got {:?}", other),
    }

    let data = MutableTftpData::with(9, b"zz");
    let pkt = TftpPacket::try_from_buf(data.as_bytes()).unwrap();
    assert_eq!(tx.on_wire_reply(&pkt), Err(ConnectionError::UnexpectedPacket));
}

#[test]
fn receive_writes_each_block_once() {
    let mut rx = ReceiveTransfer::new(512);
    assert_eq!(rx.on_data(1, 512), DataOutcome::AcceptWrite);
    assert_eq!(rx.last_block, 1);
    // a retransmitted block 1 is re-acknowledged, not rewritten
    assert_eq!(rx.on_data(1, 512), DataOutcome::DuplicateAck);
    assert_eq!(rx.last_block, 1);
    // an out-of-order block is dropped
    assert_eq!(rx.on_data(3, 512), DataOutcome::Ignore);
    assert_eq!(rx.last_block, 1);
    assert_eq!(rx.on_data(2, 100), DataOutcome::AcceptWrite);
    assert!(rx.done);
}

#[test]
fn receive_block_counter_wraps_to_zero() {
    let mut rx = ReceiveTransfer::new(8);
    for _ in 0..65535u32 {
        let next = rx.last_block.wrapping_add(1);
        assert_eq!(rx.on_data(next, 8), DataOutcome::AcceptWrite);
    }
    assert_eq!(rx.last_block, 65535);
    assert_eq!(rx.on_data(0, 8), DataOutcome::AcceptWrite);
    assert_eq!(rx.last_block, 0);
    assert_eq!(rx.on_data(1, 3), DataOutcome::AcceptWrite);
    assert!(rx.done);
}

#[test]
fn wire_packet_handling_on_receive_side() {
    let mut rx = ReceiveTransfer::new(512);
    let data = MutableTftpData::with(1, b"abc");
    let pkt = TftpPacket::try_from_buf(data.as_bytes()).unwrap();
    assert_eq!(rx.on_wire_packet(&pkt), Ok(DataOutcome::AcceptWrite));
    assert!(rx.done);
}

#[test]
fn tid_gate_accepts_only_the_locked_peer() {
    let peer = PeerAddr { ip: 0x0A000001, port: 54321 };
    let intruder = PeerAddr { ip: 0x0A000001, port: 40000 };
    let mut conn = TftpConnState::new();
    assert_eq!(conn.check_source(intruder), SourceCheck::Accepted);
    conn.lock_peer(peer);
    assert_eq!(conn.check_source(peer), SourceCheck::Accepted);
    assert_eq!(conn.check_source(intruder), SourceCheck::RejectUnknownTid);
}

#[test]
fn wrong_tid_datagram_is_answered_and_ignored() {
    let peer = PeerAddr { ip: 0x0A000001, port: 54321 };
    let intruder = PeerAddr { ip: 0x0A000001, port: 40000 };
    let mut conn = TftpConnState::new();
    conn.lock_peer(peer);

    let data = MutableTftpData::with(1, b"evil");
    match conn.receive_check(data.as_bytes(), intruder) {
        Err(ConnectionError::UnknownTid) => {},
        _ => panic!("expected the TID gate to refuse"),
    }
    let mut expected = vec![0u8, 5, 0, 5];
    expected.extend_from_slice(b"Unknown TID\0");
    assert_eq!(unknown_tid_reply(), expected);

    // the same bytes from the locked peer reach the transfer
    match conn.receive_check(data.as_bytes(), peer) {
        Ok(TftpPacket::Data(d)) => assert_eq!(d.blocknum(), 1),
        _ => panic!("expected the datagram to pass"),
    }
}

#[test]
fn receive_check_reports_parse_failures() {
    let conn = TftpConnState::new();
    let src = PeerAddr { ip: 1, port: 1 };
    match conn.receive_check(&[0, 9, 0, 0], src) {
        Err(ConnectionError::InvalidResponse(e)) => {
            assert_eq!(e, tftplib::error::ParseError::InvalidOpcode(9));
        },
        _ => panic!("expected a parse refusal"),
    }
}

#[test]
fn conn_state_mode_and_options() {
    let mut conn = TftpConnState::new();
    assert_eq!(conn.tx_mode(), tftplib::Mode::Octet);
    assert_eq!(conn.opt_blocksize(), 512);
    assert_eq!(conn.opt_timeout(), 5);
    assert_eq!(conn.opt_transfer_size(), 0);
    assert!(conn.peer().is_none());
    assert!(conn.set_tx_mode(tftplib::Mode::Octet).is_ok());
    assert_eq!(
        conn.set_tx_mode(tftplib::Mode::NetAscii),
        Err(ConnectionError::UnsupportedTxMode)
    );
    conn.set_options(&vec![tftplib::options::TftpOption::Timeout(9)]);
    assert_eq!(conn.opt_timeout(), 9);
}

#[test]
fn duplicate_data_is_reacked_at_the_wire_step() {
    let mut rx = ReceiveTransfer::new(512);
    // a short block would end the transfer; use a full-size block
    let payload = vec![9u8; 512];
    let d1 = MutableTftpData::with(1, &payload);
    let pkt = TftpPacket::try_from_buf(d1.as_bytes()).unwrap();
    assert_eq!(rx.on_wire_packet(&pkt), Ok(DataOutcome::AcceptWrite));
    // the retransmitted block 1 is owed another ACK, not another write
    assert_eq!(rx.on_wire_packet(&pkt), Ok(DataOutcome::DuplicateAck));
    assert_eq!(rx.last_block, 1);
}

#[test]
fn recv_failure_classification() {
    assert_eq!(
        classify_recv_failure(&ConnectionError::Timeout),
        RecvFailure::CountTimeout
    );
    assert_eq!(
        classify_recv_failure(&ConnectionError::UnknownTid),
        RecvFailure::KeepWaiting
    );
    assert_eq!(classify_recv_failure(&ConnectionError::IO), RecvFailure::Fatal);
    assert_eq!(
        classify_recv_failure(&ConnectionError::Cancelled),
        RecvFailure::Fatal
    );
}

#[test]
fn first_reply_must_come_from_the_server_ip() {
    let server_ip: u128 = 0x0A000001;
    let good = PeerAddr { ip: 0x0A000001, port: 50000 };
    let bad = PeerAddr { ip: 0x0A000002, port: 69 };
    assert_eq!(
        TftpConnState::check_first_reply_source(server_ip, good),
        Ok(good)
    );
    assert_eq!(
        TftpConnState::check_first_reply_source(server_ip, bad),
        Err(tftplib::error::RequestError::UnknownPeer)
    );
}
