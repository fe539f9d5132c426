//! Packet codec round trips and parse failure cases on concrete wire bytes.

use tftplib::builder::{TftpErrorBuilder, TftpOAckBuilder, TftpReqBuilder};
use tftplib::error::{ErrorCode, ParseError};
use tftplib::options::TftpOption;
use tftplib::packet::{
    MutableTftpAck, MutableTftpData, MutableTftpError, MutableTftpOAck, Packet, PacketKind,
    TftpAck, TftpData, TftpError, TftpOAck, TftpPacket, TftpReq,
};
use tftplib::{Mode, RequestKind};

#[test]
fn ack_roundtrip() {
    let ack = MutableTftpAck::new(7);
    assert_eq!(ack.as_bytes(), &[0, 4, 0, 7]);
    let parsed = TftpAck::try_from_buf(ack.as_bytes()).unwrap();
    assert_eq!(parsed.blocknum(), 7);
}

#[test]
fn ack_set_blocknum() {
    let mut ack = MutableTftpAck::new(1);
    ack.set_blocknum(65535);
    assert_eq!(ack.as_bytes(), &[0, 4, 255, 255]);
}

#[test]
fn data_roundtrip() {
    let data = MutableTftpData::with(1, b"hello\n");
    assert_eq!(data.as_bytes(), &[0, 3, 0, 1, b'h', b'e', b'l', b'l', b'o', b'\n']);
    let parsed = TftpData::try_from_buf(data.as_bytes()).unwrap();
    assert_eq!(parsed.blocknum(), 1);
    assert_eq!(parsed.data(), b"hello\n");
    assert_eq!(parsed.data_len(), 6);
}

#[test]
fn data_set_blocknum_and_payload() {
    let mut data = MutableTftpData::with(1, b"abcd");
    data.set_blocknum(2);
    data.set_data(b"xy");
    assert_eq!(data.as_bytes(), &[0, 3, 0, 2, b'x', b'y']);
    assert_eq!(data.blocknum(), 2);
    assert_eq!(data.len(), 6);
}

#[test]
fn error_roundtrip() {
    let pkt = TftpErrorBuilder::new()
        .error_code(ErrorCode::FileNotFound)
        .error_msg(b"nope")
        .build();
    assert_eq!(pkt.as_bytes(), &[0, 5, 0, 1, b'n', b'o', b'p', b'e', 0]);
    let parsed = TftpError::try_from_buf(pkt.as_bytes()).unwrap();
    assert_eq!(parsed.error_code(), ErrorCode::FileNotFound);
    assert_eq!(parsed.error_msg().unwrap(), b"nope");
}

#[test]
fn error_unknown_code_reads_not_defined() {
    let buf = [0u8, 5, 0, 99, b'x', 0];
    let parsed = TftpError::try_from_buf(&buf).unwrap();
    assert_eq!(parsed.error_code(), ErrorCode::NotDefined);
}

#[test]
fn error_builder_without_msg() {
    let pkt = TftpErrorBuilder::new().error_code(ErrorCode::UnknownTid).build();
    assert_eq!(pkt.as_bytes(), &[0, 5, 0, 5, 0]);
}

#[test]
fn mutable_error_set_msg() {
    let mut pkt = MutableTftpError::with(ErrorCode::NotDefined, b"one");
    pkt.set_error_code(ErrorCode::StorageError);
    pkt.set_error_msg(b"two");
    assert_eq!(pkt.as_bytes(), &[0, 5, 0, 3, b't', b'w', b'o', 0]);
}

#[test]
fn req_roundtrip_with_options() {
    let opts = [TftpOption::TransferSize(0), TftpOption::Blocksize(1024)];
    let req = TftpReqBuilder::new()
        .kind(RequestKind::Rrq)
        .mode(Mode::Octet)
        .filename(b"hello.txt")
        .options(&opts)
        .build();
    let mut expected = vec![0u8, 1];
    expected.extend_from_slice(b"hello.txt\0octet\0tsize\00\0blksize\01024\0");
    assert_eq!(req.as_bytes(), &expected[..]);

    let parsed = TftpReq::try_from_buf(req.as_bytes()).unwrap();
    assert_eq!(parsed.kind(), RequestKind::Rrq);
    assert_eq!(parsed.filename().unwrap(), b"hello.txt");
    assert_eq!(parsed.mode().unwrap(), Mode::Octet);
    let pairs = parsed.options().unwrap();
    assert_eq!(pairs.len(), 2);
    assert_eq!(pairs[0].0, b"tsize");
    assert_eq!(pairs[0].1, b"0");
    assert_eq!(pairs[1].0, b"blksize");
    assert_eq!(pairs[1].1, b"1024");
}

#[test]
fn wrq_roundtrip_plain() {
    let req = TftpReqBuilder::new()
        .kind(RequestKind::Wrq)
        .mode(Mode::Octet)
        .filename(b"up.bin")
        .build();
    let parsed = TftpReq::try_from_buf(req.as_bytes()).unwrap();
    assert_eq!(parsed.kind(), RequestKind::Wrq);
    assert_eq!(parsed.filename().unwrap(), b"up.bin");
    assert!(parsed.options().unwrap().is_empty());
}

#[test]
fn oack_roundtrip() {
    let oack = TftpOAckBuilder::new()
        .option(TftpOption::Blocksize(2))
        .option(TftpOption::Timeout(9))
        .build();
    let mut expected = vec![0u8, 6];
    expected.extend_from_slice(b"blksize\02\0timeout\09\0");
    assert_eq!(oack.as_bytes(), &expected[..]);
    let parsed = TftpOAck::try_from_buf(oack.as_bytes()).unwrap();
    let pairs = parsed.options().unwrap();
    assert_eq!(pairs.len(), 2);
    assert_eq!(pairs[0].0, b"blksize");
    assert_eq!(pairs[0].1, b"2");
    assert_eq!(pairs[1].0, b"timeout");
    assert_eq!(pairs[1].1, b"9");
}

#[test]
fn mutable_oack_accumulates() {
    let mut oack = MutableTftpOAck::new();
    oack.add_option(b"blksize", b"512");
    oack.add_option(b"tsize", b"100");
    assert_eq!(oack.num_of_options(), 2);
    let mut expected = vec![0u8, 6];
    expected.extend_from_slice(b"blksize\0512\0tsize\0100\0");
    assert_eq!(oack.as_bytes(), &expected[..]);
}

#[test]
fn classify_dispatches_by_opcode() {
    let rrq = TftpReqBuilder::new().filename(b"f").build();
    match TftpPacket::try_from_buf(rrq.as_bytes()).unwrap() {
        TftpPacket::Req(r) => assert_eq!(r.kind(), RequestKind::Rrq),
        _ => panic!("expected a request"),
    }
    let ack = MutableTftpAck::new(3);
    let pkt = TftpPacket::try_from_buf(ack.as_bytes()).unwrap();
    assert_eq!(pkt.packet_kind(), PacketKind::Ack);
}

#[test]
fn classify_rejects_bad_opcode() {
    match TftpPacket::try_from_buf(&[0, 9, 0, 0]) {
        Err(e) => assert_eq!(e, ParseError::InvalidOpcode(9)),
        Ok(_) => panic!("expected a refusal"),
    }
}

#[test]
fn classify_rejects_short_buffers() {
    match TftpPacket::try_from_buf(&[0]) {
        Err(e) => assert_eq!(e, ParseError::UnexpectedEof),
        Ok(_) => panic!("expected a refusal"),
    }
    match TftpPacket::try_from_buf(&[0, 1, b'f', 0]) {
        Err(e) => assert_eq!(e, ParseError::UnexpectedEof),
        Ok(_) => panic!("expected a refusal"),
    }
    match TftpPacket::try_from_buf(&[0, 3, 0]) {
        Err(e) => assert_eq!(e, ParseError::UnexpectedEof),
        Ok(_) => panic!("expected a refusal"),
    }
}

#[test]
fn ack_must_be_exactly_four_bytes() {
    match TftpPacket::try_from_buf(&[0, 4, 0, 1, 0]) {
        Err(e) => assert_eq!(e, ParseError::MalformedPacket),
        Ok(_) => panic!("expected a refusal"),
    }
}

#[test]
fn filename_must_be_terminated() {
    let buf = [0u8, 1, b'a', b'b', b'c', b'd'];
    let req = TftpReq::try_from_buf(&buf).unwrap();
    assert_eq!(req.filename(), Err(ParseError::NotNullTerminated));
    assert_eq!(req.mode(), Err(ParseError::NotNullTerminated));
}

#[test]
fn filename_must_be_nonempty() {
    let buf = [0u8, 1, 0, b'o', b'c', b't', b'e', b't', 0];
    let req = TftpReq::try_from_buf(&buf).unwrap();
    assert_eq!(req.filename(), Err(ParseError::MalformedPacket));
}

#[test]
fn filename_must_be_ascii() {
    let buf = [0u8, 1, 0xC3, 0xA9, 0, b'o', b'c', b't', b'e', b't', 0];
    let req = TftpReq::try_from_buf(&buf).unwrap();
    assert_eq!(req.filename(), Err(ParseError::NotAscii));
}

#[test]
fn mode_is_case_insensitive() {
    let mut buf = vec![0u8, 1];
    buf.extend_from_slice(b"f\0OCTET\0");
    let req = TftpReq::try_from_buf(&buf).unwrap();
    assert_eq!(req.mode().unwrap(), Mode::Octet);

    let mut buf = vec![0u8, 2];
    buf.extend_from_slice(b"f\0NetAscii\0");
    let req = TftpReq::try_from_buf(&buf).unwrap();
    assert_eq!(req.mode().unwrap(), Mode::NetAscii);
}

#[test]
fn unknown_mode_is_refused() {
    let mut buf = vec![0u8, 1];
    buf.extend_from_slice(b"f\0mail\0");
    let req = TftpReq::try_from_buf(&buf).unwrap();
    assert_eq!(req.mode(), Err(ParseError::UnknownTxMode));
}

#[test]
fn odd_option_tokens_are_malformed() {
    // a key with no value token at all
    let mut buf = vec![0u8, 1];
    buf.extend_from_slice(b"f\0octet\0blksize");
    let req = TftpReq::try_from_buf(&buf).unwrap();
    assert_eq!(req.options(), Err(ParseError::MalformedPacket));
}

#[test]
fn terminated_key_without_value_reads_empty_value() {
    // "blksize\0" splits into the key and an empty value token
    let mut buf = vec![0u8, 1];
    buf.extend_from_slice(b"f\0octet\0blksize\0");
    let req = TftpReq::try_from_buf(&buf).unwrap();
    let pairs = req.options().unwrap();
    assert_eq!(pairs.len(), 1);
    assert_eq!(pairs[0].0, b"blksize");
    assert!(pairs[0].1.is_empty());
}

#[test]
fn trailing_short_token_ends_options() {
    let mut buf = vec![0u8, 1];
    buf.extend_from_slice(b"f\0octet\0blksize\08\0x");
    let req = TftpReq::try_from_buf(&buf).unwrap();
    let pairs = req.options().unwrap();
    assert_eq!(pairs.len(), 1);
    assert_eq!(pairs[0].0, b"blksize");
    assert_eq!(pairs[0].1, b"8");
}

#[test]
fn duplicate_keys_are_kept_in_order() {
    let mut buf = vec![0u8, 1];
    buf.extend_from_slice(b"f\0octet\0blksize\08\0blksize\016\0");
    let req = TftpReq::try_from_buf(&buf).unwrap();
    let pairs = req.options().unwrap();
    assert_eq!(pairs.len(), 2);
    assert_eq!(pairs[0].1, b"8");
    assert_eq!(pairs[1].1, b"16");
}

#[test]
fn wrong_opcode_for_each_view() {
    assert!(TftpReq::check_from_slice(&[0, 3, 0, 1, 0, 0]).is_err());
    assert!(TftpData::check_from_slice(&[0, 4, 0, 1]).is_err());
    assert!(TftpAck::check_from_slice(&[0, 3, 0, 1]).is_err());
    assert!(TftpOAck::check_from_slice(&[0, 5, 0, 1, 0, 0]).is_err());
    assert!(TftpError::check_from_slice(&[0, 6, 0, 1, 0, 0]).is_err());
}
