//! Whole-exchange scenarios: default read, negotiated write with an exact
//! blocksize multiple, negotiation fallback, and netascii rejection.

use tftplib::builder::TftpReqBuilder;
use tftplib::client::{client_handle_first_reply, ClientOpts, FirstReply};
use tftplib::conn::TftpConnState;
use tftplib::error::RequestError;
use tftplib::options::TftpOption;
use tftplib::packet::{
    MutableTftpAck, MutableTftpData, Packet, TftpPacket, TftpReq,
};
use tftplib::server::{check_negotiation_ack, handle_request, negotiate_options};
use tftplib::transfer::{AckOutcome, DataOutcome, ReceiveTransfer, SendTransfer};
use tftplib::{Mode, RequestKind};

#[test]
fn rrq_with_default_options() {
    // client sends RRQ "hello.txt" "octet"
    let req = TftpReqBuilder::new()
        .kind(RequestKind::Rrq)
        .mode(Mode::Octet)
        .filename(b"hello.txt")
        .build();

    // the server validates it and finds nothing to negotiate
    let parsed = TftpReq::try_from_buf(req.as_bytes()).unwrap();
    let sr = handle_request(&parsed).unwrap();
    assert_eq!(sr.kind, RequestKind::Rrq);
    assert_eq!(sr.filename, b"hello.txt".to_vec());
    assert!(negotiate_options(&sr.raw_opts, 6, sr.kind).unwrap().is_none());

    // the server sends the file as DATA block 1
    let mut tx = SendTransfer::new(512, 5);
    tx.next_block(6);
    let data = MutableTftpData::with(tx.block, b"hello\n");
    assert_eq!(data.as_bytes(), &[0, 3, 0, 1, b'h', b'e', b'l', b'l', b'o', b'\n']);
    assert!(tx.end_of_stream);

    // the client writes the six bytes and acknowledges block 1
    let mut rx = ReceiveTransfer::new(512);
    assert_eq!(rx.on_data(1, 6), DataOutcome::AcceptWrite);
    let ack = MutableTftpAck::new(rx.last_block);
    assert_eq!(ack.as_bytes(), &[0, 4, 0, 1]);
    // the payload was shorter than the blocksize: the transfer is over
    assert!(rx.done);

    assert_eq!(tx.on_ack(1), AckOutcome::Finished);
    assert!(tx.done);
}

#[test]
fn wrq_exact_multiple_of_blocksize() {
    // a write request announcing a blocksize; 2 itself lies below the
    // valid range of RFC 2348, so the negotiated exchange uses the
    // smallest valid blocksize and the exact-multiple behaviour is then
    // exercised at blocksize 2 on the transfer machines
    let opts = [TftpOption::Blocksize(8)];
    let req = TftpReqBuilder::new()
        .kind(RequestKind::Wrq)
        .mode(Mode::Octet)
        .filename(b"ab.bin")
        .options(&opts)
        .build();

    let parsed = TftpReq::try_from_buf(req.as_bytes()).unwrap();
    let sr = handle_request(&parsed).unwrap();
    assert_eq!(sr.kind, RequestKind::Wrq);

    // the server acknowledges blksize=8 with an OACK
    let (accepted, oack) = negotiate_options(&sr.raw_opts, 0, sr.kind).unwrap().unwrap();
    assert_eq!(accepted, vec![TftpOption::Blocksize(8)]);
    let mut expected = vec![0u8, 6];
    expected.extend_from_slice(b"blksize\08\0");
    assert_eq!(oack, expected);

    // the OACK is the go-ahead for the client's first data block
    let mut conn = TftpConnState::new();
    let requested = vec![TftpOption::Blocksize(8)];
    let pkt = TftpPacket::try_from_buf(&oack).unwrap();
    assert_eq!(
        client_handle_first_reply(&mut conn, &requested, RequestKind::Wrq, &pkt),
        Ok(FirstReply::OptionsAccepted)
    );
    assert_eq!(conn.opt_blocksize(), 8);

    // blocksize 2, file b"ab": DATA 1 "ab", ACK 1, DATA 2 "", ACK 2
    let mut tx = SendTransfer::new(2, 5);
    let mut rx = ReceiveTransfer::new(2);

    tx.next_block(2);
    let d1 = MutableTftpData::with(tx.block, b"ab");
    assert_eq!(d1.as_bytes(), &[0, 3, 0, 1, b'a', b'b']);
    assert_eq!(rx.on_data(1, 2), DataOutcome::AcceptWrite);
    assert!(!rx.done);
    assert_eq!(tx.on_ack(1), AckOutcome::Accepted);

    // the file length is an exact multiple of the blocksize:
    // a final empty DATA block closes the transfer
    tx.next_block(0);
    assert!(tx.end_of_stream);
    let d2 = MutableTftpData::with(tx.block, b"");
    assert_eq!(d2.as_bytes(), &[0, 3, 0, 2]);
    assert_eq!(rx.on_data(2, 0), DataOutcome::AcceptWrite);
    assert!(rx.done);
    assert_eq!(tx.on_ack(2), AckOutcome::Finished);
}

#[test]
fn option_negotiation_fallback() {
    // the client asked for tsize=0 and blksize=1024
    let config = ClientOpts { blocksize: 1024, timeout: 5, transfer_size: true };
    let requested = config.request_options();
    assert_eq!(
        requested,
        vec![TftpOption::TransferSize(0), TftpOption::Blocksize(1024)]
    );

    // the server ignores the options and answers with DATA block 1 directly
    let payload = vec![7u8; 512];
    let first = MutableTftpData::with(1, &payload);

    let mut conn = TftpConnState::new();
    conn.set_options(&requested);
    let pkt = TftpPacket::try_from_buf(first.as_bytes()).unwrap();
    assert_eq!(
        client_handle_first_reply(&mut conn, &requested, RequestKind::Rrq, &pkt),
        Ok(FirstReply::FirstData)
    );
    // the effective options reverted to the protocol defaults
    assert_eq!(conn.opt_blocksize(), 512);
    assert_eq!(conn.opt_timeout(), 5);
    assert_eq!(conn.opt_transfer_size(), 0);

    // the received block is the first block of the transfer
    let mut rx = ReceiveTransfer::new(conn.opt_blocksize());
    match pkt {
        TftpPacket::Data(d) => {
            assert_eq!(rx.on_data(d.blocknum(), d.data_len()), DataOutcome::AcceptWrite);
        },
        _ => panic!("expected data"),
    }
    // a full-size block keeps the transfer running
    assert!(!rx.done);
}

#[test]
fn oack_with_unrequested_option_fails() {
    // the client asked for nothing, yet the OACK acknowledges blksize
    let mut oack = vec![0u8, 6];
    oack.extend_from_slice(b"blksize\01024\0");
    let requested: Vec<TftpOption> = Vec::new();
    let mut conn = TftpConnState::new();
    let pkt = TftpPacket::try_from_buf(&oack).unwrap();
    assert_eq!(
        client_handle_first_reply(&mut conn, &requested, RequestKind::Rrq, &pkt),
        Err(RequestError::OptionNegotiationFailed(
            tftplib::error::OptionError::InvalidOption
        ))
    );
}

#[test]
fn netascii_rejection() {
    let req = TftpReqBuilder::new()
        .kind(RequestKind::Rrq)
        .mode(Mode::NetAscii)
        .filename(b"x")
        .build();
    let parsed = TftpReq::try_from_buf(req.as_bytes()).unwrap();
    let rej = handle_request(&parsed).err().unwrap();
    let mut expected = vec![0u8, 5, 0, 4];
    expected.extend_from_slice(b"NetAscii mode not supported\0");
    assert_eq!(rej.reply, expected);
    assert_eq!(
        rej.error,
        RequestError::ConnectionError(tftplib::error::ConnectionError::UnsupportedTxMode)
    );
}

#[test]
fn malformed_mode_is_answered_with_illegal_operation() {
    let buf = [0u8, 1, b'f', 0, b'm', b'a'];
    let parsed = TftpReq::try_from_buf(&buf).unwrap();
    let rej = handle_request(&parsed).err().unwrap();
    assert_eq!(rej.error, RequestError::MalformedRequest);
    let mut expected = vec![0u8, 5, 0, 4];
    expected.extend_from_slice(b"Malformed request; invalid mode\0");
    assert_eq!(rej.reply, expected);
}

#[test]
fn client_request_options_from_config() {
    let config = ClientOpts { blocksize: 512, timeout: 5, transfer_size: false };
    assert!(config.request_options().is_empty());
    let config = ClientOpts { blocksize: 512, timeout: 30, transfer_size: false };
    assert_eq!(config.request_options(), vec![TftpOption::Timeout(30)]);
}

#[test]
fn wrq_go_ahead_without_negotiation() {
    // the server answers a plain WRQ with ACK 0; defaults stay in force
    let requested: Vec<TftpOption> = Vec::new();
    let ack0 = MutableTftpAck::new(0);
    let mut conn = TftpConnState::new();
    let pkt = TftpPacket::try_from_buf(ack0.as_bytes()).unwrap();
    assert_eq!(
        client_handle_first_reply(&mut conn, &requested, RequestKind::Wrq, &pkt),
        Ok(FirstReply::GoAhead)
    );
    assert_eq!(conn.opt_blocksize(), 512);
}

#[test]
fn peer_error_as_first_reply() {
    let err = [0u8, 5, 0, 1, 0];
    let requested: Vec<TftpOption> = Vec::new();
    let mut conn = TftpConnState::new();
    let pkt = TftpPacket::try_from_buf(&err).unwrap();
    match client_handle_first_reply(&mut conn, &requested, RequestKind::Rrq, &pkt) {
        Err(RequestError::ConnectionError(tftplib::error::ConnectionError::PeerError(e))) => {
            assert_eq!(e.code, tftplib::error::ErrorCode::FileNotFound);
        },
        other => panic!("expected a peer error, got {:?}", other),
    }
}

#[test]
fn oack_go_ahead_needs_ack_zero() {
    let ack0 = MutableTftpAck::new(0);
    let pkt = TftpPacket::try_from_buf(ack0.as_bytes()).unwrap();
    assert_eq!(check_negotiation_ack(&pkt), Ok(()));

    let ack1 = MutableTftpAck::new(1);
    let pkt = TftpPacket::try_from_buf(ack1.as_bytes()).unwrap();
    assert_eq!(
        check_negotiation_ack(&pkt),
        Err(tftplib::error::OptionError::NoAck)
    );

    let data = MutableTftpData::with(1, b"x");
    let pkt = TftpPacket::try_from_buf(data.as_bytes()).unwrap();
    assert_eq!(
        check_negotiation_ack(&pkt),
        Err(tftplib::error::OptionError::NoAck)
    );
}
