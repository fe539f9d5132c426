//! Option parsing, validation ranges, lookup semantics, and the server's
//! negotiation step.

use tftplib::error::OptionError;
use tftplib::options::{
    lookup_option, parse_tftp_options, TftpOption, TftpOptionKind, TftpOptions,
};
use tftplib::server::negotiate_options;
use tftplib::RequestKind;

fn pair(k: &[u8], v: &[u8]) -> (Vec<u8>, Vec<u8>) {
    (k.to_vec(), v.to_vec())
}

#[test]
fn parses_all_three_options() {
    let raw = vec![pair(b"blksize", b"1024"), pair(b"timeout", b"7"), pair(b"tsize", b"0")];
    let opts = parse_tftp_options(&raw).unwrap();
    assert_eq!(
        opts,
        vec![
            TftpOption::Blocksize(1024),
            TftpOption::Timeout(7),
            TftpOption::TransferSize(0),
        ]
    );
}

#[test]
fn unknown_keys_are_skipped() {
    let raw = vec![pair(b"windowsize", b"8"), pair(b"blksize", b"512")];
    let opts = parse_tftp_options(&raw).unwrap();
    assert_eq!(opts, vec![TftpOption::Blocksize(512)]);
}

#[test]
fn keys_compare_case_insensitively() {
    let raw = vec![pair(b"BlkSize", b"16"), pair(b"TIMEOUT", b"1")];
    let opts = parse_tftp_options(&raw).unwrap();
    assert_eq!(opts, vec![TftpOption::Blocksize(16), TftpOption::Timeout(1)]);
}

#[test]
fn last_value_wins() {
    let raw = vec![pair(b"blksize", b"8"), pair(b"blksize", b"16")];
    let opts = parse_tftp_options(&raw).unwrap();
    assert_eq!(opts, vec![TftpOption::Blocksize(16)]);
    let v = lookup_option(&raw, b"blksize").unwrap();
    assert_eq!(v, b"16");
}

#[test]
fn malformed_value_fails_negotiation() {
    let raw = vec![pair(b"blksize", b"12x4")];
    assert_eq!(parse_tftp_options(&raw), Err(OptionError::InvalidOption));
    let raw = vec![pair(b"timeout", b"")];
    assert_eq!(parse_tftp_options(&raw), Err(OptionError::InvalidOption));
}

#[test]
fn out_of_range_values_fail_negotiation() {
    assert_eq!(
        parse_tftp_options(&vec![pair(b"blksize", b"7")]),
        Err(OptionError::InvalidOption)
    );
    assert_eq!(
        parse_tftp_options(&vec![pair(b"blksize", b"65465")]),
        Err(OptionError::InvalidOption)
    );
    assert_eq!(
        parse_tftp_options(&vec![pair(b"timeout", b"0")]),
        Err(OptionError::InvalidOption)
    );
    assert_eq!(
        parse_tftp_options(&vec![pair(b"timeout", b"256")]),
        Err(OptionError::InvalidOption)
    );
    assert_eq!(
        parse_tftp_options(&vec![pair(b"tsize", b"4294967296")]),
        Err(OptionError::InvalidOption)
    );
    // the bounds themselves are accepted
    assert_eq!(
        parse_tftp_options(&vec![pair(b"blksize", b"8")]).unwrap(),
        vec![TftpOption::Blocksize(8)]
    );
    assert_eq!(
        parse_tftp_options(&vec![pair(b"blksize", b"65464")]).unwrap(),
        vec![TftpOption::Blocksize(65464)]
    );
}

#[test]
fn option_kinds_and_wire_pairs() {
    let o = TftpOption::Blocksize(512);
    assert_eq!(o.kind(), TftpOptionKind::Blocksize);
    let (k, v) = o.as_str_tuple();
    assert_eq!(k, b"blksize");
    assert_eq!(v, b"512");
    let (k, v) = TftpOption::Timeout(30).as_str_tuple();
    assert_eq!(k, b"timeout");
    assert_eq!(v, b"30");
    let (k, v) = TftpOption::TransferSize(4294967295).as_str_tuple();
    assert_eq!(k, b"tsize");
    assert_eq!(v, b"4294967295");
}

#[test]
fn defaults_and_overrides() {
    let mut eff = TftpOptions::default();
    assert_eq!(eff.blocksize, 512);
    assert_eq!(eff.timeout_secs, 5);
    assert_eq!(eff.transfer_size, 0);
    eff.set_options(&vec![TftpOption::Blocksize(1024), TftpOption::TransferSize(99)]);
    assert_eq!(eff.blocksize, 1024);
    assert_eq!(eff.timeout_secs, 5);
    assert_eq!(eff.transfer_size, 99);
}

#[test]
fn negotiation_conserves_requested_keys() {
    // a client asking for tsize and blksize gets exactly those back,
    // with the file size substituted on a read request
    let raw = vec![pair(b"tsize", b"0"), pair(b"blksize", b"1024")];
    let (accepted, oack) = negotiate_options(&raw, 4321, RequestKind::Rrq).unwrap().unwrap();
    assert_eq!(
        accepted,
        vec![TftpOption::Blocksize(1024), TftpOption::TransferSize(4321)]
    );
    let mut expected = vec![0u8, 6];
    expected.extend_from_slice(b"blksize\01024\0tsize\04321\0");
    assert_eq!(oack, expected);

    let mut eff = TftpOptions::default();
    eff.set_options(&accepted);
    assert_eq!(eff.blocksize, 1024);
    assert_eq!(eff.timeout_secs, 5);
    assert_eq!(eff.transfer_size, 4321);
}

#[test]
fn negotiation_keeps_announced_size_on_write() {
    let raw = vec![pair(b"tsize", b"777")];
    let (accepted, _) = negotiate_options(&raw, 0, RequestKind::Wrq).unwrap().unwrap();
    assert_eq!(accepted, vec![TftpOption::TransferSize(777)]);
}

#[test]
fn negotiation_without_options_needs_no_oack() {
    let raw: Vec<(Vec<u8>, Vec<u8>)> = Vec::new();
    assert!(negotiate_options(&raw, 0, RequestKind::Rrq).unwrap().is_none());
}

#[test]
fn negotiation_rejects_bad_values() {
    let raw = vec![pair(b"blksize", b"4")];
    assert_eq!(
        negotiate_options(&raw, 0, RequestKind::Rrq).err(),
        Some(OptionError::InvalidOption)
    );
}

#[test]
fn leading_zeros_are_plain_decimal() {
    let raw = vec![pair(b"blksize", b"0512")];
    assert_eq!(
        parse_tftp_options(&raw).unwrap(),
        vec![TftpOption::Blocksize(512)]
    );
}

#[test]
fn largest_transfer_size_is_accepted() {
    let raw = vec![pair(b"tsize", b"4294967295")];
    assert_eq!(
        parse_tftp_options(&raw).unwrap(),
        vec![TftpOption::TransferSize(4294967295)]
    );
}

#[test]
fn add_option_replaces_by_kind() {
    let mut opts = vec![TftpOption::TransferSize(0), TftpOption::Blocksize(512)];
    tftplib::options::add_option(&mut opts, TftpOption::Blocksize(1024));
    assert_eq!(opts, vec![TftpOption::TransferSize(0), TftpOption::Blocksize(1024)]);
    tftplib::options::add_option(&mut opts, TftpOption::Timeout(9));
    assert_eq!(
        opts,
        vec![
            TftpOption::TransferSize(0),
            TftpOption::Blocksize(1024),
            TftpOption::Timeout(9),
        ]
    );
}
