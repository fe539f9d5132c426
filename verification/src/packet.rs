//! Zero-copy packet views over byte buffers: classification of inbound
//! datagrams and field accessors, each specified against a mathematical
//! parse function over the buffer's byte sequence.

use vstd::prelude::*;
use vstd::slice::slice_subrange;

use crate::bytes::{
    ascii_ok, ascii_range_ok, be16, bytes_range, find_nul, find_nul_from, lower_seq, read_u16_be,
};
use crate::error::{ErrorCode, ParseError};
use crate::{spec_netascii, spec_octet, Mode, RequestKind};

verus! {

/// The kind of a classified packet.
#[derive(Debug, Clone, Copy, PartialEq, Eq, Structural)]
pub enum PacketKind {
    Req(RequestKind),
    Data,
    Ack,
    Error,
    OAck,
}

/// A packet's backing storage: either a borrowed receive buffer (the
/// zero-copy path) or an owned buffer.
pub enum PacketBuf<'a> {
    Borrowed(&'a [u8]),
    Owned(Vec<u8>),
}

impl<'a> View for PacketBuf<'a> {
    type V = Seq<u8>;

    open spec fn view(&self) -> Seq<u8> {
        match self {
            PacketBuf::Borrowed(b) => b@,
            PacketBuf::Owned(v) => v@,
        }
    }
}

impl<'a> PacketBuf<'a> {
    pub fn inner(&self) -> (r: &[u8])
        ensures
            r@ == self@,
    {
        match self {
            PacketBuf::Borrowed(b) => b,
            PacketBuf::Owned(v) => v.as_slice(),
        }
    }
}

/// Opcode of a buffer, or -1 when the buffer is too short to hold one.
pub open spec fn spec_opcode(b: Seq<u8>) -> int {
    if b.len() < 2 {
        -1
    } else {
        be16(b[0], b[1])
    }
}

pub open spec fn req_shape_ok(b: Seq<u8>) -> bool {
    b.len() >= 6 && (spec_opcode(b) == 1 || spec_opcode(b) == 2)
}

pub open spec fn data_shape_ok(b: Seq<u8>) -> bool {
    b.len() >= 4 && spec_opcode(b) == 3
}

pub open spec fn ack_shape_ok(b: Seq<u8>) -> bool {
    b.len() == 4 && spec_opcode(b) == 4
}

pub open spec fn error_shape_ok(b: Seq<u8>) -> bool {
    b.len() >= 5 && spec_opcode(b) == 5
}

pub open spec fn oack_shape_ok(b: Seq<u8>) -> bool {
    b.len() >= 2 && spec_opcode(b) == 6
}

/// No byte of the field is NUL.
pub open spec fn no_nul(s: Seq<u8>) -> bool {
    forall|j: int| 0 <= j < s.len() ==> #[trigger] s[j] != 0
}

/// A well-formed NUL-terminated ASCII field (filename, mode, error message).
pub open spec fn wf_field(s: Seq<u8>) -> bool {
    s.len() >= 1 && no_nul(s) && ascii_ok(s)
}

/// A well-formed option key: the parser treats tokens shorter than two
/// bytes as the end of the option list, so keys carry at least two bytes.
pub open spec fn wf_key(s: Seq<u8>) -> bool {
    s.len() >= 2 && no_nul(s) && ascii_ok(s)
}

/// A well-formed option value; values may be empty.
pub open spec fn wf_val(s: Seq<u8>) -> bool {
    no_nul(s) && ascii_ok(s)
}

pub open spec fn wf_opts(opts: Seq<(Seq<u8>, Seq<u8>)>) -> bool {
    forall|i: int| 0 <= i < opts.len() ==> wf_key(#[trigger] opts[i].0) && wf_val(opts[i].1)
}

/// The NUL-terminated ASCII field starting at `i`.
pub open spec fn spec_cstr_at(b: Seq<u8>, i: int) -> Result<Seq<u8>, ParseError> {
    let k = find_nul(b, i);
    if k == b.len() {
        Err(ParseError::NotNullTerminated)
    } else if !ascii_ok(b.subrange(i, k)) {
        Err(ParseError::NotAscii)
    } else {
        Ok(b.subrange(i, k))
    }
}

/// Filename field of a request; it must be present and non-empty.
pub open spec fn spec_req_filename(b: Seq<u8>) -> Result<Seq<u8>, ParseError> {
    match spec_cstr_at(b, 2) {
        Ok(f) => {
            if f.len() == 0 {
                Err(ParseError::MalformedPacket)
            } else {
                Ok(f)
            }
        },
        Err(e) => Err(e),
    }
}

/// Raw mode field of a request: the NUL-terminated field after the filename.
pub open spec fn spec_req_mode_raw(b: Seq<u8>) -> Result<Seq<u8>, ParseError> {
    let k1 = find_nul(b, 2);
    if k1 == b.len() {
        Err(ParseError::NotNullTerminated)
    } else {
        spec_cstr_at(b, k1 + 1)
    }
}

/// Mode of a request, compared case-insensitively.
pub open spec fn spec_req_mode(b: Seq<u8>) -> Result<Mode, ParseError> {
    match spec_req_mode_raw(b) {
        Ok(m) => {
            if lower_seq(m) == spec_octet() {
                Ok(Mode::Octet)
            } else if lower_seq(m) == spec_netascii() {
                Ok(Mode::NetAscii)
            } else {
                Err(ParseError::UnknownTxMode)
            }
        },
        Err(e) => Err(e),
    }
}

/// Start of the option region of a request: just after the mode's NUL.
/// When either terminator is missing there is no region.
pub open spec fn spec_req_opts_start(b: Seq<u8>) -> int {
    let k1 = find_nul(b, 2);
    if k1 == b.len() {
        b.len() as int
    } else {
        let k2 = find_nul(b, k1 + 1);
        if k2 == b.len() {
            b.len() as int
        } else {
            k2 + 1
        }
    }
}

/// Parses the option region of `b` from position `i` as key/value pairs.
/// Tokens are the NUL-separated fields; a token shorter than two bytes ends
/// the list, and a key without a value is malformed.
pub open spec fn spec_parse_opts_at(b: Seq<u8>, i: int) -> Result<
    Seq<(Seq<u8>, Seq<u8>)>,
    ParseError,
>
    decreases b.len() - i,
    via spec_parse_opts_at_dec
{
    if i < 0 || i > b.len() {
        Err(ParseError::MalformedPacket)
    } else {
        let k = find_nul(b, i);
        let key = b.subrange(i, k);
        if key.len() < 2 {
            Ok(Seq::empty())
        } else if !ascii_ok(key) {
            Err(ParseError::NotAscii)
        } else if k == b.len() {
            Err(ParseError::MalformedPacket)
        } else {
            let k2 = find_nul(b, k + 1);
            let val = b.subrange(k + 1, k2);
            if !ascii_ok(val) {
                Err(ParseError::NotAscii)
            } else if k2 == b.len() {
                Ok(seq![(key, val)])
            } else {
                match spec_parse_opts_at(b, k2 + 1) {
                    Ok(rest) => Ok(seq![(key, val)] + rest),
                    Err(e) => Err(e),
                }
            }
        }
    }
}

#[via_fn]
proof fn spec_parse_opts_at_dec(b: Seq<u8>, i: int) {
    if 0 <= i <= b.len() {
        crate::bytes::lemma_find_nul_bounds(b, i);
        let k = find_nul(b, i);
        if k < b.len() {
            crate::bytes::lemma_find_nul_bounds(b, k + 1);
        }
    }
}

pub open spec fn spec_req_options(b: Seq<u8>) -> Result<Seq<(Seq<u8>, Seq<u8>)>, ParseError> {
    spec_parse_opts_at(b, spec_req_opts_start(b))
}

pub open spec fn spec_oack_options(b: Seq<u8>) -> Result<Seq<(Seq<u8>, Seq<u8>)>, ParseError> {
    spec_parse_opts_at(b, 2)
}

pub open spec fn spec_req_kind(b: Seq<u8>) -> RequestKind {
    if spec_opcode(b) == 1 {
        RequestKind::Rrq
    } else {
        RequestKind::Wrq
    }
}

pub open spec fn spec_data_block(b: Seq<u8>) -> int {
    be16(b[2], b[3])
}

pub open spec fn spec_data_payload(b: Seq<u8>) -> Seq<u8> {
    b.subrange(4, b.len() as int)
}

pub open spec fn spec_ack_block(b: Seq<u8>) -> int {
    be16(b[2], b[3])
}

pub open spec fn spec_error_code(b: Seq<u8>) -> ErrorCode {
    ErrorCode::spec_of_u16(be16(b[2], b[3]))
}

pub open spec fn spec_error_msg(b: Seq<u8>) -> Result<Seq<u8>, ParseError> {
    spec_cstr_at(b, 4)
}

/// View of a sequence of owned key/value pairs.
pub open spec fn pairs_view(v: Seq<(Vec<u8>, Vec<u8>)>) -> Seq<(Seq<u8>, Seq<u8>)> {
    v.map_values(|p: (Vec<u8>, Vec<u8>)| (p.0@, p.1@))
}

/// Shared exec parser for an option region starting at `start`.
fn parse_options_at(buf: &[u8], start: usize) -> (r: Result<
    Vec<(Vec<u8>, Vec<u8>)>,
    ParseError,
>)
    requires
        start <= buf@.len(),
    ensures
        match r {
            Ok(v) => spec_parse_opts_at(buf@, start as int) == Ok::<_, ParseError>(pairs_view(v@)),
            Err(e) => spec_parse_opts_at(buf@, start as int) == Err::<Seq<(Seq<u8>, Seq<u8>)>, _>(
                e,
            ),
        },
{
    let ghost s = buf@;
    let mut acc: Vec<(Vec<u8>, Vec<u8>)> = Vec::new();
    let mut i = start;
    loop
        invariant_except_break
            start <= i <= s.len(),
            s == buf@,
            spec_parse_opts_at(s, start as int) == (match spec_parse_opts_at(s, i as int) {
                Ok(rest) => Ok::<_, ParseError>(pairs_view(acc@) + rest),
                Err(e) => Err::<Seq<(Seq<u8>, Seq<u8>)>, _>(e),
            }),
        ensures
            match spec_parse_opts_at(s, start as int) {
                Ok(full) => full == pairs_view(acc@),
                Err(_) => false,
            },
        decreases s.len() - i,
    {
        let k = find_nul_from(buf, i);
        proof {
            crate::bytes::lemma_find_nul_bounds(s, i as int);
        }
        if k - i < 2 {
            proof {
                assert(s.subrange(i as int, k as int).len() < 2);
                assert(spec_parse_opts_at(s, i as int) == Ok::<_, ParseError>(
                    Seq::<(Seq<u8>, Seq<u8>)>::empty(),
                ));
                assert(pairs_view(acc@) + Seq::<(Seq<u8>, Seq<u8>)>::empty() =~= pairs_view(
                    acc@,
                ));
            }
            break ;
        }
        if !ascii_range_ok(buf, i, k) {
            return Err(ParseError::NotAscii);
        }
        if k == buf.len() {
            return Err(ParseError::MalformedPacket);
        }
        let k2 = find_nul_from(buf, k + 1);
        proof {
            crate::bytes::lemma_find_nul_bounds(s, k + 1);
        }
        if !ascii_range_ok(buf, k + 1, k2) {
            return Err(ParseError::NotAscii);
        }
        let key = bytes_range(buf, i, k);
        let val = bytes_range(buf, k + 1, k2);
        let ghost pair = (key@, val@);
        let ghost acc_old = acc@;
        acc.push((key, val));
        proof {
            assert(acc@.drop_last() =~= acc_old);
            assert(pairs_view(acc@) =~= pairs_view(acc_old).push(pair));
        }
        if k2 == buf.len() {
            proof {
                assert(spec_parse_opts_at(s, i as int) == Ok::<_, ParseError>(seq![pair]));
                assert(pairs_view(acc_old) + seq![pair] =~= pairs_view(acc@));
            }
            break ;
        }
        proof {
            let rest_r = spec_parse_opts_at(s, k2 + 1);
            assert(spec_parse_opts_at(s, i as int) == (match rest_r {
                Ok(rest) => Ok::<_, ParseError>(seq![pair] + rest),
                Err(e) => Err::<Seq<(Seq<u8>, Seq<u8>)>, _>(e),
            }));
            match rest_r {
                Ok(rest) => {
                    assert(pairs_view(acc_old) + (seq![pair] + rest) =~= pairs_view(acc@)
                        + rest);
                },
                Err(_) => {},
            }
        }
        i = k2 + 1;
    }
    Ok(acc)
}

// ############################################################################
// #### TFTP REQUEST (RRQ/WRQ) ################################################
// ############################################################################

/// A read or write request, viewed over its wire bytes.
pub struct TftpReq<'a> {
    pub inner: PacketBuf<'a>,
}

impl<'a> View for TftpReq<'a> {
    type V = Seq<u8>;

    open spec fn view(&self) -> Seq<u8> {
        self.inner@
    }
}

impl<'a> TftpReq<'a> {
    /// Wraps a borrowed buffer; the caller has checked the shape.
    pub fn from_borrowed(buf: &'a [u8]) -> (r: Self)
        ensures
            r@ == buf@,
    {
        TftpReq { inner: PacketBuf::Borrowed(buf) }
    }

    /// Wraps an owned buffer; the caller has checked the shape.
    pub fn from_owned(buf: Vec<u8>) -> (r: Self)
        ensures
            r@ == buf@,
    {
        TftpReq { inner: PacketBuf::Owned(buf) }
    }

    fn inner(&self) -> (r: &[u8])
        ensures
            r@ == self@,
    {
        self.inner.inner()
    }

    /// Checks that the buffer can carry a request: long enough and with a
    /// request opcode.
    pub fn check_from_slice(buf: &[u8]) -> (r: Result<(), ParseError>)
        ensures
            r is Ok <==> req_shape_ok(buf@),
            r is Err ==> r == Err::<(), ParseError>(
                if buf@.len() < 6 {
                    ParseError::UnexpectedEof
                } else {
                    ParseError::UnexpectedOpcode
                },
            ),
    {
        if buf.len() < 6 {
            Err(ParseError::UnexpectedEof)
        } else {
            let op = read_u16_be(buf, 0);
            if op == 1 || op == 2 {
                Ok(())
            } else {
                Err(ParseError::UnexpectedOpcode)
            }
        }
    }

    /// Checked constructor over a borrowed buffer.
    pub fn try_from_buf(buf: &'a [u8]) -> (r: Result<Self, ParseError>)
        ensures
            r is Ok <==> req_shape_ok(buf@),
            r matches Ok(p) ==> p@ == buf@,
            r matches Err(e) ==> e == (if buf@.len() < 6 {
                ParseError::UnexpectedEof
            } else {
                ParseError::UnexpectedOpcode
            }),
    {
        Self::check_from_slice(buf)?;
        Ok(Self::from_borrowed(buf))
    }

    pub fn kind(&self) -> (r: RequestKind)
        requires
            req_shape_ok(self@),
        ensures
            r == spec_req_kind(self@),
    {
        let buf = self.inner();
        if read_u16_be(buf, 0) == 1 {
            RequestKind::Rrq
        } else {
            RequestKind::Wrq
        }
    }

    /// The filename field: present, NUL-terminated, ASCII and non-empty.
    pub fn filename(&self) -> (r: Result<Vec<u8>, ParseError>)
        requires
            self@.len() >= 2,
        ensures
            match r {
                Ok(f) => spec_req_filename(self@) == Ok::<_, ParseError>(f@),
                Err(e) => spec_req_filename(self@) == Err::<Seq<u8>, _>(e),
            },
    {
        let buf = self.inner();
        let k = find_nul_from(buf, 2);
        proof {
            crate::bytes::lemma_find_nul_bounds(self@, 2);
        }
        if k == buf.len() {
            return Err(ParseError::NotNullTerminated);
        }
        if !ascii_range_ok(buf, 2, k) {
            return Err(ParseError::NotAscii);
        }
        if k == 2 {
            return Err(ParseError::MalformedPacket);
        }
        Ok(bytes_range(buf, 2, k))
    }

    /// The transfer mode field, matched case-insensitively.
    pub fn mode(&self) -> (r: Result<Mode, ParseError>)
        requires
            self@.len() >= 2,
        ensures
            match r {
                Ok(m) => spec_req_mode(self@) == Ok::<_, ParseError>(m),
                Err(e) => spec_req_mode(self@) == Err::<Mode, _>(e),
            },
    {
        let buf = self.inner();
        let k1 = find_nul_from(buf, 2);
        proof {
            crate::bytes::lemma_find_nul_bounds(self@, 2);
        }
        if k1 == buf.len() {
            return Err(ParseError::NotNullTerminated);
        }
        let k = find_nul_from(buf, k1 + 1);
        proof {
            crate::bytes::lemma_find_nul_bounds(self@, k1 + 1);
        }
        if k == buf.len() {
            return Err(ParseError::NotNullTerminated);
        }
        if !ascii_range_ok(buf, k1 + 1, k) {
            return Err(ParseError::NotAscii);
        }
        let octet = crate::octet_bytes();
        if crate::bytes::range_eq_ci(buf, k1 + 1, k, octet.as_slice()) {
            proof {
                lemma_lower_ascii_fixpoint(spec_octet());
            }
            return Ok(Mode::Octet);
        }
        let netascii = crate::netascii_bytes();
        if crate::bytes::range_eq_ci(buf, k1 + 1, k, netascii.as_slice()) {
            proof {
                lemma_lower_ascii_fixpoint(spec_netascii());
                lemma_lower_distinct();
            }
            return Ok(Mode::NetAscii);
        }
        proof {
            lemma_lower_ascii_fixpoint(spec_octet());
            lemma_lower_ascii_fixpoint(spec_netascii());
        }
        Err(ParseError::UnknownTxMode)
    }

    /// The option key/value pairs, in wire order; duplicates are kept.
    pub fn options(&self) -> (r: Result<Vec<(Vec<u8>, Vec<u8>)>, ParseError>)
        requires
            self@.len() >= 2,
        ensures
            match r {
                Ok(v) => spec_req_options(self@) == Ok::<_, ParseError>(pairs_view(v@)),
                Err(e) => spec_req_options(self@) == Err::<Seq<(Seq<u8>, Seq<u8>)>, _>(e),
            },
    {
        let buf = self.inner();
        let k1 = find_nul_from(buf, 2);
        proof {
            crate::bytes::lemma_find_nul_bounds(self@, 2);
        }
        if k1 == buf.len() {
            return parse_options_at(buf, buf.len());
        }
        let k2 = find_nul_from(buf, k1 + 1);
        proof {
            crate::bytes::lemma_find_nul_bounds(self@, k1 + 1);
        }
        if k2 == buf.len() {
            return parse_options_at(buf, buf.len());
        }
        parse_options_at(buf, k2 + 1)
    }
}

/// Lower-casing a lower-case ASCII word changes nothing.
proof fn lemma_lower_ascii_fixpoint(s: Seq<u8>)
    requires
        forall|j: int| 0 <= j < s.len() ==> !(65 <= #[trigger] s[j] <= 90),
    ensures
        lower_seq(s) == s,
{
    assert(lower_seq(s) =~= s);
}

/// "octet" and "netascii" differ.
proof fn lemma_lower_distinct()
    ensures
        spec_octet() != spec_netascii(),
{
    assert(spec_octet().len() == 5);
    assert(spec_netascii().len() == 8);
}

// ############################################################################
// #### TFTP DATA #############################################################
// ############################################################################

/// A DATA packet view: block number and payload.
pub struct TftpData<'a> {
    pub inner: PacketBuf<'a>,
}

impl<'a> View for TftpData<'a> {
    type V = Seq<u8>;

    open spec fn view(&self) -> Seq<u8> {
        self.inner@
    }
}

impl<'a> TftpData<'a> {
    pub fn from_borrowed(buf: &'a [u8]) -> (r: Self)
        ensures
            r@ == buf@,
    {
        TftpData { inner: PacketBuf::Borrowed(buf) }
    }

    pub fn from_owned(buf: Vec<u8>) -> (r: Self)
        ensures
            r@ == buf@,
    {
        TftpData { inner: PacketBuf::Owned(buf) }
    }

    fn inner(&self) -> (r: &[u8])
        ensures
            r@ == self@,
    {
        self.inner.inner()
    }

    pub fn check_from_slice(buf: &[u8]) -> (r: Result<(), ParseError>)
        ensures
            r is Ok <==> data_shape_ok(buf@),
            r is Err ==> r == Err::<(), ParseError>(
                if buf@.len() < 4 {
                    ParseError::UnexpectedEof
                } else {
                    ParseError::UnexpectedOpcode
                },
            ),
    {
        if buf.len() < 4 {
            Err(ParseError::UnexpectedEof)
        } else if read_u16_be(buf, 0) != 3 {
            Err(ParseError::UnexpectedOpcode)
        } else {
            Ok(())
        }
    }

    pub fn try_from_buf(buf: &'a [u8]) -> (r: Result<Self, ParseError>)
        ensures
            r is Ok <==> data_shape_ok(buf@),
            r matches Ok(p) ==> p@ == buf@,
            r matches Err(e) ==> e == (if buf@.len() < 4 {
                ParseError::UnexpectedEof
            } else {
                ParseError::UnexpectedOpcode
            }),
    {
        Self::check_from_slice(buf)?;
        Ok(Self::from_borrowed(buf))
    }

    pub fn blocknum(&self) -> (r: u16)
        requires
            self@.len() >= 4,
        ensures
            r == spec_data_block(self@),
    {
        read_u16_be(self.inner(), 2)
    }

    /// The payload: everything after the four header bytes.
    pub fn data(&self) -> (r: &[u8])
        requires
            self@.len() >= 4,
        ensures
            r@ == spec_data_payload(self@),
    {
        let buf = self.inner();
        slice_subrange(buf, 4, buf.len())
    }

    pub fn data_len(&self) -> (r: usize)
        requires
            self@.len() >= 4,
        ensures
            r == self@.len() - 4,
    {
        self.inner().len() - 4
    }
}

// ############################################################################
// #### TFTP ACK ##############################################################
// ############################################################################

/// An ACK packet view: exactly four bytes.
pub struct TftpAck<'a> {
    pub inner: PacketBuf<'a>,
}

impl<'a> View for TftpAck<'a> {
    type V = Seq<u8>;

    open spec fn view(&self) -> Seq<u8> {
        self.inner@
    }
}

impl<'a> TftpAck<'a> {
    pub fn from_borrowed(buf: &'a [u8]) -> (r: Self)
        ensures
            r@ == buf@,
    {
        TftpAck { inner: PacketBuf::Borrowed(buf) }
    }

    pub fn from_owned(buf: Vec<u8>) -> (r: Self)
        ensures
            r@ == buf@,
    {
        TftpAck { inner: PacketBuf::Owned(buf) }
    }

    fn inner(&self) -> (r: &[u8])
        ensures
            r@ == self@,
    {
        self.inner.inner()
    }

    pub fn check_from_slice(buf: &[u8]) -> (r: Result<(), ParseError>)
        ensures
            r is Ok <==> ack_shape_ok(buf@),
            r is Err ==> r == Err::<(), ParseError>(
                if buf@.len() < 4 {
                    ParseError::UnexpectedEof
                } else if spec_opcode(buf@) != 4 {
                    ParseError::UnexpectedOpcode
                } else {
                    ParseError::MalformedPacket
                },
            ),
    {
        if buf.len() < 4 {
            Err(ParseError::UnexpectedEof)
        } else if read_u16_be(buf, 0) != 4 {
            Err(ParseError::UnexpectedOpcode)
        } else if buf.len() != 4 {
            Err(ParseError::MalformedPacket)
        } else {
            Ok(())
        }
    }

    pub fn try_from_buf(buf: &'a [u8]) -> (r: Result<Self, ParseError>)
        ensures
            r is Ok <==> ack_shape_ok(buf@),
            r matches Ok(p) ==> p@ == buf@,
            r matches Err(e) ==> e == (if buf@.len() < 4 {
                ParseError::UnexpectedEof
            } else if spec_opcode(buf@) != 4 {
                ParseError::UnexpectedOpcode
            } else {
                ParseError::MalformedPacket
            }),
    {
        Self::check_from_slice(buf)?;
        Ok(Self::from_borrowed(buf))
    }

    pub fn blocknum(&self) -> (r: u16)
        requires
            self@.len() >= 4,
        ensures
            r == spec_ack_block(self@),
    {
        read_u16_be(self.inner(), 2)
    }
}

// ############################################################################
// #### TFTP OACK #############################################################
// ############################################################################

/// An option-acknowledgement view: opcode and key/value pairs.
pub struct TftpOAck<'a> {
    pub inner: PacketBuf<'a>,
}

impl<'a> View for TftpOAck<'a> {
    type V = Seq<u8>;

    open spec fn view(&self) -> Seq<u8> {
        self.inner@
    }
}

impl<'a> TftpOAck<'a> {
    pub fn from_borrowed(buf: &'a [u8]) -> (r: Self)
        ensures
            r@ == buf@,
    {
        TftpOAck { inner: PacketBuf::Borrowed(buf) }
    }

    pub fn from_owned(buf: Vec<u8>) -> (r: Self)
        ensures
            r@ == buf@,
    {
        TftpOAck { inner: PacketBuf::Owned(buf) }
    }

    fn inner(&self) -> (r: &[u8])
        ensures
            r@ == self@,
    {
        self.inner.inner()
    }

    pub fn check_from_slice(buf: &[u8]) -> (r: Result<(), ParseError>)
        ensures
            r is Ok <==> oack_shape_ok(buf@),
            r is Err ==> r == Err::<(), ParseError>(
                if buf@.len() < 2 {
                    ParseError::UnexpectedEof
                } else {
                    ParseError::UnexpectedOpcode
                },
            ),
    {
        if buf.len() < 2 {
            Err(ParseError::UnexpectedEof)
        } else if read_u16_be(buf, 0) != 6 {
            Err(ParseError::UnexpectedOpcode)
        } else {
            Ok(())
        }
    }

    pub fn try_from_buf(buf: &'a [u8]) -> (r: Result<Self, ParseError>)
        ensures
            r is Ok <==> oack_shape_ok(buf@),
            r matches Ok(p) ==> p@ == buf@,
            r matches Err(e) ==> e == (if buf@.len() < 2 {
                ParseError::UnexpectedEof
            } else {
                ParseError::UnexpectedOpcode
            }),
    {
        Self::check_from_slice(buf)?;
        Ok(Self::from_borrowed(buf))
    }

    /// The acknowledged option pairs, in wire order.
    pub fn options(&self) -> (r: Result<Vec<(Vec<u8>, Vec<u8>)>, ParseError>)
        requires
            self@.len() >= 2,
        ensures
            match r {
                Ok(v) => spec_oack_options(self@) == Ok::<_, ParseError>(pairs_view(v@)),
                Err(e) => spec_oack_options(self@) == Err::<Seq<(Seq<u8>, Seq<u8>)>, _>(e),
            },
    {
        parse_options_at(self.inner(), 2)
    }
}

// ############################################################################
// #### TFTP ERROR ############################################################
// ############################################################################

/// An ERROR packet view: code and NUL-terminated message.
pub struct TftpError<'a> {
    pub inner: PacketBuf<'a>,
}

impl<'a> View for TftpError<'a> {
    type V = Seq<u8>;

    open spec fn view(&self) -> Seq<u8> {
        self.inner@
    }
}

impl<'a> TftpError<'a> {
    pub fn from_borrowed(buf: &'a [u8]) -> (r: Self)
        ensures
            r@ == buf@,
    {
        TftpError { inner: PacketBuf::Borrowed(buf) }
    }

    pub fn from_owned(buf: Vec<u8>) -> (r: Self)
        ensures
            r@ == buf@,
    {
        TftpError { inner: PacketBuf::Owned(buf) }
    }

    fn inner(&self) -> (r: &[u8])
        ensures
            r@ == self@,
    {
        self.inner.inner()
    }

    pub fn check_from_slice(buf: &[u8]) -> (r: Result<(), ParseError>)
        ensures
            r is Ok <==> error_shape_ok(buf@),
            r is Err ==> r == Err::<(), ParseError>(
                if buf@.len() < 5 {
                    ParseError::UnexpectedEof
                } else {
                    ParseError::UnexpectedOpcode
                },
            ),
    {
        if buf.len() < 5 {
            Err(ParseError::UnexpectedEof)
        } else if read_u16_be(buf, 0) != 5 {
            Err(ParseError::UnexpectedOpcode)
        } else {
            Ok(())
        }
    }

    pub fn try_from_buf(buf: &'a [u8]) -> (r: Result<Self, ParseError>)
        ensures
            r is Ok <==> error_shape_ok(buf@),
            r matches Ok(p) ==> p@ == buf@,
            r matches Err(e) ==> e == (if buf@.len() < 5 {
                ParseError::UnexpectedEof
            } else {
                ParseError::UnexpectedOpcode
            }),
    {
        Self::check_from_slice(buf)?;
        Ok(Self::from_borrowed(buf))
    }

    /// The wire error code; values outside 0..=8 read as `NotDefined`.
    pub fn error_code(&self) -> (r: ErrorCode)
        requires
            self@.len() >= 4,
        ensures
            r == spec_error_code(self@),
    {
        ErrorCode::of_u16(read_u16_be(self.inner(), 2))
    }

    /// The NUL-terminated ASCII message.
    pub fn error_msg(&self) -> (r: Result<Vec<u8>, ParseError>)
        requires
            self@.len() >= 4,
        ensures
            match r {
                Ok(m) => spec_error_msg(self@) == Ok::<_, ParseError>(m@),
                Err(e) => spec_error_msg(self@) == Err::<Seq<u8>, _>(e),
            },
    {
        let buf = self.inner();
        let k = find_nul_from(buf, 4);
        proof {
            crate::bytes::lemma_find_nul_bounds(self@, 4);
        }
        if k == buf.len() {
            return Err(ParseError::NotNullTerminated);
        }
        if !ascii_range_ok(buf, 4, k) {
            return Err(ParseError::NotAscii);
        }
        Ok(bytes_range(buf, 4, k))
    }

    /// The received error in owned form, for the `PeerError` variant.
    /// A missing or non-ASCII message reads as empty.
    pub fn to_owned_error(&self) -> (r: crate::error::TftpError)
        requires
            self@.len() >= 4,
        ensures
            r.code == spec_error_code(self@),
            spec_error_msg(self@) matches Ok(m) ==> r.msg@ == m,
            spec_error_msg(self@) is Err ==> r.msg@ == Seq::<u8>::empty(),
    {
        let code = self.error_code();
        match self.error_msg() {
            Ok(m) => crate::error::TftpError { code, msg: m },
            Err(_) => crate::error::TftpError { code, msg: Vec::new() },
        }
    }
}

// ############################################################################
// #### CLASSIFIED PACKETS ####################################################
// ############################################################################

/// A classified inbound packet.
pub enum TftpPacket<'a> {
    Req(TftpReq<'a>),
    Data(TftpData<'a>),
    Ack(TftpAck<'a>),
    OAck(TftpOAck<'a>),
    Error(TftpError<'a>),
}

impl<'a> View for TftpPacket<'a> {
    type V = Seq<u8>;

    open spec fn view(&self) -> Seq<u8> {
        match self {
            TftpPacket::Req(p) => p@,
            TftpPacket::Data(p) => p@,
            TftpPacket::Ack(p) => p@,
            TftpPacket::OAck(p) => p@,
            TftpPacket::Error(p) => p@,
        }
    }
}

/// Classification of a datagram by shape; which variant `try_from_buf`
/// yields, or the parse error it reports.
pub open spec fn spec_classify(b: Seq<u8>) -> Result<PacketKind, ParseError> {
    if b.len() < 2 {
        Err(ParseError::UnexpectedEof)
    } else if spec_opcode(b) == 1 || spec_opcode(b) == 2 {
        if b.len() < 6 {
            Err(ParseError::UnexpectedEof)
        } else {
            Ok(PacketKind::Req(spec_req_kind(b)))
        }
    } else if spec_opcode(b) == 3 {
        if b.len() < 4 {
            Err(ParseError::UnexpectedEof)
        } else {
            Ok(PacketKind::Data)
        }
    } else if spec_opcode(b) == 4 {
        if b.len() < 4 {
            Err(ParseError::UnexpectedEof)
        } else if b.len() != 4 {
            Err(ParseError::MalformedPacket)
        } else {
            Ok(PacketKind::Ack)
        }
    } else if spec_opcode(b) == 5 {
        if b.len() < 5 {
            Err(ParseError::UnexpectedEof)
        } else {
            Ok(PacketKind::Error)
        }
    } else if spec_opcode(b) == 6 {
        Ok(PacketKind::OAck)
    } else {
        Err(ParseError::InvalidOpcode(spec_opcode(b) as u16))
    }
}

impl<'a> TftpPacket<'a> {
    pub open spec fn spec_kind(&self) -> PacketKind {
        match self {
            TftpPacket::Req(p) => PacketKind::Req(spec_req_kind(p@)),
            TftpPacket::Data(_) => PacketKind::Data,
            TftpPacket::Ack(_) => PacketKind::Ack,
            TftpPacket::OAck(_) => PacketKind::OAck,
            TftpPacket::Error(_) => PacketKind::Error,
        }
    }

    /// Well-formed by construction: each variant's shape predicate holds.
    pub open spec fn wf(&self) -> bool {
        match self {
            TftpPacket::Req(p) => req_shape_ok(p@),
            TftpPacket::Data(p) => data_shape_ok(p@),
            TftpPacket::Ack(p) => ack_shape_ok(p@),
            TftpPacket::OAck(p) => oack_shape_ok(p@),
            TftpPacket::Error(p) => error_shape_ok(p@),
        }
    }

    pub fn packet_kind(&self) -> (r: PacketKind)
        requires
            self.wf(),
        ensures
            r == self.spec_kind(),
    {
        match self {
            TftpPacket::Req(p) => PacketKind::Req(p.kind()),
            TftpPacket::Data(_) => PacketKind::Data,
            TftpPacket::Ack(_) => PacketKind::Ack,
            TftpPacket::OAck(_) => PacketKind::OAck,
            TftpPacket::Error(_) => PacketKind::Error,
        }
    }

    /// Classifies a datagram. On success the returned view keeps the whole
    /// buffer, the variant matches `spec_classify`, and the variant's shape
    /// predicate holds.
    pub fn try_from_buf(buf: &'a [u8]) -> (r: Result<Self, ParseError>)
        ensures
            match r {
                Ok(p) => spec_classify(buf@) == Ok::<_, ParseError>(p.spec_kind()) && p@ == buf@
                    && p.wf(),
                Err(e) => spec_classify(buf@) == Err::<PacketKind, _>(e),
            },
    {
        if buf.len() < 2 {
            return Err(ParseError::UnexpectedEof);
        }
        let op = read_u16_be(buf, 0);
        if op == 1 || op == 2 {
            match TftpReq::try_from_buf(buf) {
                Ok(p) => Ok(TftpPacket::Req(p)),
                Err(e) => Err(e),
            }
        } else if op == 3 {
            match TftpData::try_from_buf(buf) {
                Ok(p) => Ok(TftpPacket::Data(p)),
                Err(e) => Err(e),
            }
        } else if op == 4 {
            match TftpAck::try_from_buf(buf) {
                Ok(p) => Ok(TftpPacket::Ack(p)),
                Err(e) => Err(e),
            }
        } else if op == 5 {
            match TftpError::try_from_buf(buf) {
                Ok(p) => Ok(TftpPacket::Error(p)),
                Err(e) => Err(e),
            }
        } else if op == 6 {
            match TftpOAck::try_from_buf(buf) {
                Ok(p) => Ok(TftpPacket::OAck(p)),
                Err(e) => Err(e),
            }
        } else {
            Err(ParseError::InvalidOpcode(op))
        }
    }
}

// ############################################################################
// #### SERIALIZED FORMS ######################################################
// ############################################################################

/// A NUL-terminated field.
pub open spec fn spec_cstr(s: Seq<u8>) -> Seq<u8> {
    s + seq![0u8]
}

/// Wire form of one option pair.
pub open spec fn spec_pair_bytes(p: (Seq<u8>, Seq<u8>)) -> Seq<u8> {
    spec_cstr(p.0) + spec_cstr(p.1)
}

/// Wire form of an option list.
pub open spec fn spec_opts_bytes(opts: Seq<(Seq<u8>, Seq<u8>)>) -> Seq<u8>
    decreases opts.len(),
{
    if opts.len() == 0 {
        Seq::empty()
    } else {
        spec_pair_bytes(opts[0]) + spec_opts_bytes(opts.drop_first())
    }
}

/// Appending one pair appends its wire form.
pub proof fn lemma_opts_bytes_snoc(opts: Seq<(Seq<u8>, Seq<u8>)>, p: (Seq<u8>, Seq<u8>))
    ensures
        spec_opts_bytes(opts.push(p)) == spec_opts_bytes(opts) + spec_pair_bytes(p),
    decreases opts.len(),
{
    if opts.len() == 0 {
        let single = opts.push(p);
        assert(single.drop_first() =~= Seq::<(Seq<u8>, Seq<u8>)>::empty());
        assert(single[0] == p);
        assert(spec_opts_bytes(single.drop_first()) == Seq::<u8>::empty());
        assert(spec_opts_bytes(single) == spec_pair_bytes(p) + Seq::<u8>::empty());
        assert(spec_pair_bytes(p) + Seq::<u8>::empty() =~= spec_opts_bytes(opts) + spec_pair_bytes(
            p,
        ));
    } else {
        lemma_opts_bytes_snoc(opts.drop_first(), p);
        assert(opts.push(p).drop_first() =~= opts.drop_first().push(p));
        assert(opts.push(p)[0] == opts[0]);
        assert(spec_opts_bytes(opts.push(p)) == spec_pair_bytes(opts[0]) + spec_opts_bytes(
            opts.drop_first().push(p),
        ));
        assert(spec_opts_bytes(opts.push(p)) =~= spec_opts_bytes(opts) + spec_pair_bytes(p));
    }
}

/// Wire form of a request.
pub open spec fn spec_req_bytes(
    kind: RequestKind,
    filename: Seq<u8>,
    mode: Seq<u8>,
    opts: Seq<(Seq<u8>, Seq<u8>)>,
) -> Seq<u8> {
    crate::bytes::spec_u16_be(kind.spec_opcode()) + spec_cstr(filename) + spec_cstr(mode)
        + spec_opts_bytes(opts)
}

/// Wire form of a DATA packet.
pub open spec fn spec_data_bytes(block: u16, payload: Seq<u8>) -> Seq<u8> {
    crate::bytes::spec_u16_be(3) + crate::bytes::spec_u16_be(block) + payload
}

/// Wire form of an ACK packet.
pub open spec fn spec_ack_bytes(block: u16) -> Seq<u8> {
    crate::bytes::spec_u16_be(4) + crate::bytes::spec_u16_be(block)
}

/// Wire form of an ERROR packet.
pub open spec fn spec_error_bytes(code: ErrorCode, msg: Seq<u8>) -> Seq<u8> {
    crate::bytes::spec_u16_be(5) + crate::bytes::spec_u16_be(code.spec_u16()) + spec_cstr(msg)
}

/// Wire form of an OACK packet.
pub open spec fn spec_oack_bytes(opts: Seq<(Seq<u8>, Seq<u8>)>) -> Seq<u8> {
    crate::bytes::spec_u16_be(6) + spec_opts_bytes(opts)
}

// ############################################################################
// #### MUTABLE PACKETS #######################################################
// ############################################################################

/// An outbound DATA packet under construction, in an owned buffer.
pub struct MutableTftpData {
    pub buf: Vec<u8>,
}

impl View for MutableTftpData {
    type V = Seq<u8>;

    open spec fn view(&self) -> Seq<u8> {
        self.buf@
    }
}

impl MutableTftpData {
    pub open spec fn wf(&self) -> bool {
        data_shape_ok(self@)
    }

    /// Builds a DATA packet from a block number and payload.
    pub fn with(blocknum: u16, data: &[u8]) -> (r: Self)
        ensures
            r@ == spec_data_bytes(blocknum, data@),
            r.wf(),
    {
        let mut buf: Vec<u8> = Vec::new();
        crate::bytes::push_u16_be(&mut buf, crate::OPCODE_DATA);
        crate::bytes::push_u16_be(&mut buf, blocknum);
        crate::bytes::push_bytes(&mut buf, data);
        proof {
            crate::bytes::lemma_u16_be_roundtrip(3);
            assert(buf@ =~= spec_data_bytes(blocknum, data@));
        }
        MutableTftpData { buf }
    }

    pub fn set_blocknum(&mut self, blocknum: u16)
        requires
            old(self).wf(),
        ensures
            final(self).wf(),
            final(self)@ == spec_data_bytes(blocknum, spec_data_payload(old(self)@)),
    {
        let ghost pre = self@;
        self.buf[2] = (blocknum / 256) as u8;
        self.buf[3] = (blocknum % 256) as u8;
        proof {
            crate::bytes::lemma_u16_be_roundtrip(3);
            assert(self@ =~= spec_data_bytes(blocknum, spec_data_payload(pre)));
        }
    }

    /// Replaces the payload, keeping block number and opcode.
    pub fn set_data(&mut self, data: &[u8])
        requires
            old(self).wf(),
        ensures
            final(self).wf(),
            final(self)@ == spec_data_bytes(spec_data_block(old(self)@) as u16, data@),
    {
        let ghost pre = self@;
        let b = self.blocknum();
        self.buf.truncate(4);
        crate::bytes::push_bytes(&mut self.buf, data);
        proof {
            crate::bytes::lemma_u16_be_roundtrip(3);
            crate::bytes::lemma_u16_be_roundtrip(spec_data_block(pre) as u16);
            assert(spec_data_block(pre) <= u16::MAX) by {
                assert(pre[2] < 256 && pre[3] < 256);
            }
            assert(self@ =~= spec_data_bytes(spec_data_block(pre) as u16, data@));
        }
    }

    pub fn blocknum(&self) -> (r: u16)
        requires
            self.wf(),
        ensures
            r == spec_data_block(self@),
    {
        read_u16_be(self.buf.as_slice(), 2)
    }

    pub fn len(&self) -> (r: usize)
        ensures
            r == self@.len(),
    {
        self.buf.len()
    }

    pub fn as_bytes(&self) -> (r: &[u8])
        ensures
            r@ == self@,
    {
        self.buf.as_slice()
    }
}

/// An outbound ACK packet.
pub struct MutableTftpAck {
    pub buf: Vec<u8>,
}

impl View for MutableTftpAck {
    type V = Seq<u8>;

    open spec fn view(&self) -> Seq<u8> {
        self.buf@
    }
}

impl MutableTftpAck {
    pub fn new(blocknum: u16) -> (r: Self)
        ensures
            r@ == spec_ack_bytes(blocknum),
            ack_shape_ok(r@),
    {
        let mut buf: Vec<u8> = Vec::new();
        crate::bytes::push_u16_be(&mut buf, crate::OPCODE_ACK);
        crate::bytes::push_u16_be(&mut buf, blocknum);
        proof {
            crate::bytes::lemma_u16_be_roundtrip(4);
            assert(buf@ =~= spec_ack_bytes(blocknum));
        }
        MutableTftpAck { buf }
    }

    pub fn set_blocknum(&mut self, blocknum: u16)
        requires
            ack_shape_ok(old(self)@),
        ensures
            final(self)@ == spec_ack_bytes(blocknum),
            ack_shape_ok(final(self)@),
    {
        self.buf[2] = (blocknum / 256) as u8;
        self.buf[3] = (blocknum % 256) as u8;
        proof {
            crate::bytes::lemma_u16_be_roundtrip(4);
            assert(self@ =~= spec_ack_bytes(blocknum));
        }
    }

    pub fn as_bytes(&self) -> (r: &[u8])
        ensures
            r@ == self@,
    {
        self.buf.as_slice()
    }
}

/// An outbound ERROR packet.
pub struct MutableTftpError {
    pub buf: Vec<u8>,
}

impl View for MutableTftpError {
    type V = Seq<u8>;

    open spec fn view(&self) -> Seq<u8> {
        self.buf@
    }
}

impl MutableTftpError {
    /// Builds an ERROR packet; the message is written as given and
    /// NUL-terminated.
    pub fn with(code: ErrorCode, msg: &[u8]) -> (r: Self)
        ensures
            r@ == spec_error_bytes(code, msg@),
            error_shape_ok(r@),
    {
        let mut buf: Vec<u8> = Vec::new();
        crate::bytes::push_u16_be(&mut buf, crate::OPCODE_ERROR);
        crate::bytes::push_u16_be(&mut buf, code.as_u16());
        crate::bytes::push_bytes(&mut buf, msg);
        buf.push(0);
        proof {
            crate::bytes::lemma_u16_be_roundtrip(5);
            assert(buf@ =~= spec_error_bytes(code, msg@));
        }
        MutableTftpError { buf }
    }

    pub fn set_error_code(&mut self, code: ErrorCode)
        requires
            error_shape_ok(old(self)@),
        ensures
            error_shape_ok(final(self)@),
            final(self)@ == old(self)@.update(2, (code.spec_u16() / 256) as u8).update(
                3,
                (code.spec_u16() % 256) as u8,
            ),
            spec_error_code(final(self)@) == ErrorCode::spec_of_u16(code.spec_u16() as int),
    {
        let c = code.as_u16();
        self.buf[2] = (c / 256) as u8;
        self.buf[3] = (c % 256) as u8;
        proof {
            crate::bytes::lemma_u16_be_roundtrip(5);
            crate::bytes::lemma_u16_be_roundtrip(code.spec_u16());
        }
    }

    /// Replaces the message, keeping opcode and code bytes.
    pub fn set_error_msg(&mut self, msg: &[u8])
        requires
            error_shape_ok(old(self)@),
        ensures
            error_shape_ok(final(self)@),
            final(self)@ == old(self)@.subrange(0, 4) + msg@ + seq![0u8],
    {
        self.buf.truncate(4);
        crate::bytes::push_bytes(&mut self.buf, msg);
        self.buf.push(0);
        proof {
            assert(self@ =~= old(self)@.subrange(0, 4) + msg@ + seq![0u8]);
        }
    }

    pub fn len(&self) -> (r: usize)
        ensures
            r == self@.len(),
    {
        self.buf.len()
    }

    pub fn as_bytes(&self) -> (r: &[u8])
        ensures
            r@ == self@,
    {
        self.buf.as_slice()
    }
}

/// An outbound OACK packet built pair by pair. The ghost field tracks the
/// option pairs written so far.
pub struct MutableTftpOAck {
    pub data: Vec<u8>,
    pub n_options: u8,
    pub opts: Ghost<Seq<(Seq<u8>, Seq<u8>)>>,
}

impl View for MutableTftpOAck {
    type V = Seq<u8>;

    open spec fn view(&self) -> Seq<u8> {
        self.data@
    }
}

impl MutableTftpOAck {
    pub open spec fn wf(&self) -> bool {
        self.data@ == spec_oack_bytes(self.opts@) && self.n_options == self.opts@.len()
    }

    pub fn new() -> (r: Self)
        ensures
            r.wf(),
            r.opts@ == Seq::<(Seq<u8>, Seq<u8>)>::empty(),
    {
        let mut data: Vec<u8> = Vec::new();
        crate::bytes::push_u16_be(&mut data, crate::OPCODE_OACK);
        proof {
            assert(data@ =~= spec_oack_bytes(Seq::<(Seq<u8>, Seq<u8>)>::empty()));
        }
        MutableTftpOAck { data, n_options: 0, opts: Ghost(Seq::empty()) }
    }

    /// Like `new`, with room reserved for the expected packet size.
    pub fn with_capacity(capacity: usize) -> (r: Self)
        ensures
            r.wf(),
            r.opts@ == Seq::<(Seq<u8>, Seq<u8>)>::empty(),
    {
        let mut data: Vec<u8> = Vec::with_capacity(capacity);
        crate::bytes::push_u16_be(&mut data, crate::OPCODE_OACK);
        proof {
            assert(data@ =~= spec_oack_bytes(Seq::<(Seq<u8>, Seq<u8>)>::empty()));
        }
        MutableTftpOAck { data, n_options: 0, opts: Ghost(Seq::empty()) }
    }

    /// Like `new`, reusing the given buffer's allocation.
    pub fn from(buf: Vec<u8>) -> (r: Self)
        ensures
            r.wf(),
            r.opts@ == Seq::<(Seq<u8>, Seq<u8>)>::empty(),
    {
        let mut data = buf;
        data.clear();
        crate::bytes::push_u16_be(&mut data, crate::OPCODE_OACK);
        proof {
            assert(data@ =~= spec_oack_bytes(Seq::<(Seq<u8>, Seq<u8>)>::empty()));
        }
        MutableTftpOAck { data, n_options: 0, opts: Ghost(Seq::empty()) }
    }

    pub fn add_option(&mut self, key: &[u8], val: &[u8])
        requires
            old(self).wf(),
            old(self).opts@.len() < 255,
        ensures
            final(self).wf(),
            final(self).opts@ == old(self).opts@.push((key@, val@)),
    {
        crate::bytes::push_bytes(&mut self.data, key);
        self.data.push(0);
        crate::bytes::push_bytes(&mut self.data, val);
        self.data.push(0);
        self.n_options = self.n_options + 1;
        proof {
            self.opts@ = old(self).opts@.push((key@, val@));
            lemma_opts_bytes_snoc(old(self).opts@, (key@, val@));
            assert(self.data@ =~= spec_oack_bytes(self.opts@));
        }
    }

    pub fn num_of_options(&self) -> (r: u8)
        ensures
            r == self.n_options,
    {
        self.n_options
    }

    pub fn len(&self) -> (r: usize)
        ensures
            r == self@.len(),
    {
        self.data.len()
    }

    pub fn as_bytes(&self) -> (r: &[u8])
        ensures
            r@ == self@,
    {
        self.data.as_slice()
    }
}

/// An assembled outbound packet.
pub enum MutableTftpPacket {
    Data(MutableTftpData),
    Ack(MutableTftpAck),
    Error(MutableTftpError),
}

impl View for MutableTftpPacket {
    type V = Seq<u8>;

    open spec fn view(&self) -> Seq<u8> {
        match self {
            MutableTftpPacket::Data(p) => p@,
            MutableTftpPacket::Ack(p) => p@,
            MutableTftpPacket::Error(p) => p@,
        }
    }
}

impl MutableTftpPacket {
    pub fn as_bytes(&self) -> (r: &[u8])
        ensures
            r@ == self@,
    {
        match self {
            MutableTftpPacket::Data(p) => p.as_bytes(),
            MutableTftpPacket::Ack(p) => p.as_bytes(),
            MutableTftpPacket::Error(p) => p.as_bytes(),
        }
    }
}

// ############################################################################
// #### THE PACKET TRAIT ######################################################
// ############################################################################

/// Common face of every packet: well-formedness, wire bytes, and kind.
pub trait Packet {
    spec fn wf(&self) -> bool;

    spec fn wire(&self) -> Seq<u8>;

    spec fn spec_kind(&self) -> PacketKind;

    fn packet_kind(&self) -> (r: PacketKind)
        requires
            self.wf(),
        ensures
            r == self.spec_kind(),
    ;

    fn as_bytes(&self) -> (r: &[u8])
        requires
            self.wf(),
        ensures
            r@ == self.wire(),
    ;
}

impl<'a> Packet for TftpReq<'a> {
    open spec fn wf(&self) -> bool {
        req_shape_ok(self@)
    }

    open spec fn wire(&self) -> Seq<u8> {
        self@
    }

    open spec fn spec_kind(&self) -> PacketKind {
        PacketKind::Req(spec_req_kind(self@))
    }

    fn packet_kind(&self) -> (r: PacketKind) {
        PacketKind::Req(self.kind())
    }

    fn as_bytes(&self) -> (r: &[u8]) {
        self.inner()
    }
}

impl<'a> Packet for TftpData<'a> {
    open spec fn wf(&self) -> bool {
        data_shape_ok(self@)
    }

    open spec fn wire(&self) -> Seq<u8> {
        self@
    }

    open spec fn spec_kind(&self) -> PacketKind {
        PacketKind::Data
    }

    fn packet_kind(&self) -> (r: PacketKind) {
        PacketKind::Data
    }

    fn as_bytes(&self) -> (r: &[u8]) {
        self.inner()
    }
}

impl<'a> Packet for TftpAck<'a> {
    open spec fn wf(&self) -> bool {
        ack_shape_ok(self@)
    }

    open spec fn wire(&self) -> Seq<u8> {
        self@
    }

    open spec fn spec_kind(&self) -> PacketKind {
        PacketKind::Ack
    }

    fn packet_kind(&self) -> (r: PacketKind) {
        PacketKind::Ack
    }

    fn as_bytes(&self) -> (r: &[u8]) {
        self.inner()
    }
}

impl<'a> Packet for TftpOAck<'a> {
    open spec fn wf(&self) -> bool {
        oack_shape_ok(self@)
    }

    open spec fn wire(&self) -> Seq<u8> {
        self@
    }

    open spec fn spec_kind(&self) -> PacketKind {
        PacketKind::OAck
    }

    fn packet_kind(&self) -> (r: PacketKind) {
        PacketKind::OAck
    }

    fn as_bytes(&self) -> (r: &[u8]) {
        self.inner()
    }
}

impl<'a> Packet for TftpError<'a> {
    open spec fn wf(&self) -> bool {
        error_shape_ok(self@)
    }

    open spec fn wire(&self) -> Seq<u8> {
        self@
    }

    open spec fn spec_kind(&self) -> PacketKind {
        PacketKind::Error
    }

    fn packet_kind(&self) -> (r: PacketKind) {
        PacketKind::Error
    }

    fn as_bytes(&self) -> (r: &[u8]) {
        self.inner()
    }
}

impl Packet for MutableTftpData {
    open spec fn wf(&self) -> bool {
        data_shape_ok(self@)
    }

    open spec fn wire(&self) -> Seq<u8> {
        self@
    }

    open spec fn spec_kind(&self) -> PacketKind {
        PacketKind::Data
    }

    fn packet_kind(&self) -> (r: PacketKind) {
        PacketKind::Data
    }

    fn as_bytes(&self) -> (r: &[u8]) {
        self.buf.as_slice()
    }
}

impl Packet for MutableTftpAck {
    open spec fn wf(&self) -> bool {
        ack_shape_ok(self@)
    }

    open spec fn wire(&self) -> Seq<u8> {
        self@
    }

    open spec fn spec_kind(&self) -> PacketKind {
        PacketKind::Ack
    }

    fn packet_kind(&self) -> (r: PacketKind) {
        PacketKind::Ack
    }

    fn as_bytes(&self) -> (r: &[u8]) {
        self.buf.as_slice()
    }
}

impl Packet for MutableTftpError {
    open spec fn wf(&self) -> bool {
        error_shape_ok(self@)
    }

    open spec fn wire(&self) -> Seq<u8> {
        self@
    }

    open spec fn spec_kind(&self) -> PacketKind {
        PacketKind::Error
    }

    fn packet_kind(&self) -> (r: PacketKind) {
        PacketKind::Error
    }

    fn as_bytes(&self) -> (r: &[u8]) {
        self.buf.as_slice()
    }
}

// ############################################################################
// #### ROUND TRIP ############################################################
// ############################################################################

/// A decoded packet, with every field as a mathematical value: the model
/// the codec's round trip is stated over. The mode is kept as its raw
/// bytes, so the statement is exact rather than up to case.
pub enum PacketModel {
    Req { kind: RequestKind, filename: Seq<u8>, mode: Seq<u8>, options: Seq<(Seq<u8>, Seq<u8>)> },
    Data { block: u16, payload: Seq<u8> },
    Ack { block: u16 },
    OAck { options: Seq<(Seq<u8>, Seq<u8>)> },
    Error { code: ErrorCode, msg: Seq<u8> },
}

/// A well-formed packet: every ASCII field is non-empty, NUL-free ASCII,
/// and option keys carry at least two bytes.
pub open spec fn wf_model(p: PacketModel) -> bool {
    match p {
        PacketModel::Req { filename, mode, options, .. } => wf_field(filename) && wf_field(mode)
            && wf_opts(options),
        PacketModel::Data { .. } => true,
        PacketModel::Ack { .. } => true,
        PacketModel::OAck { options } => wf_opts(options),
        PacketModel::Error { msg, .. } => no_nul(msg) && ascii_ok(msg),
    }
}

/// The wire bytes of a packet.
pub open spec fn spec_serialize(p: PacketModel) -> Seq<u8> {
    match p {
        PacketModel::Req { kind, filename, mode, options } => spec_req_bytes(
            kind,
            filename,
            mode,
            options,
        ),
        PacketModel::Data { block, payload } => spec_data_bytes(block, payload),
        PacketModel::Ack { block } => spec_ack_bytes(block),
        PacketModel::OAck { options } => spec_oack_bytes(options),
        PacketModel::Error { code, msg } => spec_error_bytes(code, msg),
    }
}

/// The packet a byte buffer decodes to: classification by opcode and
/// shape, then every field of that kind, with the first field failure
/// reported.
pub open spec fn spec_parse(b: Seq<u8>) -> Result<PacketModel, ParseError> {
    match spec_classify(b) {
        Err(e) => Err(e),
        Ok(k) => match k {
            PacketKind::Req(kind) => match spec_req_filename(b) {
                Err(e) => Err(e),
                Ok(filename) => match spec_req_mode_raw(b) {
                    Err(e) => Err(e),
                    Ok(mode) => match spec_req_options(b) {
                        Err(e) => Err(e),
                        Ok(options) => Ok(
                            PacketModel::Req { kind, filename, mode, options },
                        ),
                    },
                },
            },
            PacketKind::Data => Ok(
                PacketModel::Data {
                    block: spec_data_block(b) as u16,
                    payload: spec_data_payload(b),
                },
            ),
            PacketKind::Ack => Ok(PacketModel::Ack { block: spec_ack_block(b) as u16 }),
            PacketKind::OAck => match spec_oack_options(b) {
                Err(e) => Err(e),
                Ok(options) => Ok(PacketModel::OAck { options }),
            },
            PacketKind::Error => match spec_error_msg(b) {
                Err(e) => Err(e),
                Ok(msg) => Ok(PacketModel::Error { code: spec_error_code(b), msg }),
            },
        },
    }
}

/// Round trip of the codec: parsing the serialization of any well-formed
/// packet of any kind yields that packet back, field for field.
pub proof fn lemma_codec_roundtrip(p: PacketModel)
    requires
        wf_model(p),
    ensures
        spec_parse(spec_serialize(p)) == Ok::<_, ParseError>(p),
{
    match p {
        PacketModel::Req { kind, filename, mode, options } => {
            lemma_req_roundtrip(kind, filename, mode, options);
        },
        PacketModel::Data { block, payload } => {
            lemma_data_roundtrip(block, payload);
        },
        PacketModel::Ack { block } => {
            lemma_ack_roundtrip(block);
        },
        PacketModel::OAck { options } => {
            lemma_oack_roundtrip(options);
        },
        PacketModel::Error { code, msg } => {
            lemma_error_roundtrip(code, msg);
        },
    }
}

/// A NUL-terminated field embedded at `i` parses back to itself.
pub proof fn lemma_cstr_parse(b: Seq<u8>, i: int, f: Seq<u8>)
    requires
        0 <= i,
        i + f.len() + 1 <= b.len(),
        no_nul(f),
        ascii_ok(f),
        b.subrange(i, i + f.len() as int) == f,
        b[i + f.len()] == 0,
    ensures
        find_nul(b, i) == i + f.len(),
        spec_cstr_at(b, i) == Ok::<_, ParseError>(f),
{
    assert forall|j: int| i <= j < i + f.len() implies b[j] != 0 by {
        assert(b[j] == b.subrange(i, i + f.len() as int)[j - i]);
    }
    crate::bytes::lemma_find_nul_is(b, i, i + f.len());
}

/// A serialized option list embedded as the tail of `b` parses back to the
/// same pairs.
pub proof fn lemma_parse_opts_of_bytes(b: Seq<u8>, i: int, opts: Seq<(Seq<u8>, Seq<u8>)>)
    requires
        0 <= i <= b.len(),
        b.subrange(i, b.len() as int) == spec_opts_bytes(opts),
        wf_opts(opts),
    ensures
        spec_parse_opts_at(b, i) == Ok::<_, ParseError>(opts),
    decreases opts.len(),
{
    let region = b.subrange(i, b.len() as int);
    if opts.len() == 0 {
        assert(region.len() == 0);
        assert(i == b.len());
        assert(b.subrange(i, find_nul(b, i)) =~= Seq::<u8>::empty());
        assert(opts =~= Seq::<(Seq<u8>, Seq<u8>)>::empty());
    } else {
        let k0 = opts[0].0;
        let v0 = opts[0].1;
        let rest = opts.drop_first();
        assert(wf_key(opts[0].0) && wf_val(opts[0].1));
        assert(spec_opts_bytes(opts) == spec_pair_bytes(opts[0]) + spec_opts_bytes(rest));
        let pb = spec_pair_bytes(opts[0]);
        assert(pb.len() == k0.len() + v0.len() + 2);
        assert(region.len() == pb.len() + spec_opts_bytes(rest).len());
        // key bytes and its terminator
        assert(b.subrange(i, i + k0.len() as int) =~= k0) by {
            assert forall|j: int| 0 <= j < k0.len() implies b[i + j] == k0[j] by {
                assert(b[i + j] == region[j]);
                assert(region[j] == pb[j]);
                assert(pb[j] == spec_cstr(k0)[j]);
            }
        }
        assert(b[i + k0.len()] == 0) by {
            assert(b[i + k0.len()] == region[k0.len() as int]);
            assert(region[k0.len() as int] == pb[k0.len() as int]);
        }
        lemma_cstr_parse(b, i, k0);
        let k = i + k0.len() as int;
        assert(find_nul(b, i) == k);
        assert(b.subrange(i, k) == k0);
        assert(k < b.len());
        // value bytes and its terminator
        assert(b.subrange(k + 1, k + 1 + v0.len() as int) =~= v0) by {
            assert forall|j: int| 0 <= j < v0.len() implies b[k + 1 + j] == v0[j] by {
                assert(b[k + 1 + j] == region[k0.len() + 1 + j]);
                assert(region[k0.len() + 1 + j] == pb[k0.len() + 1 + j]);
                assert(pb[k0.len() + 1 + j] == spec_cstr(v0)[j]);
            }
        }
        assert(b[k + 1 + v0.len()] == 0) by {
            assert(b[k + 1 + v0.len()] == region[k0.len() + 1 + v0.len() + 1 - 1]);
            assert(region[pb.len() - 1] == pb[pb.len() - 1]);
        }
        lemma_cstr_parse(b, k + 1, v0);
        let k2 = k + 1 + v0.len() as int;
        assert(find_nul(b, k + 1) == k2);
        assert(b.subrange(k + 1, k2) == v0);
        assert(k2 < b.len());
        // the rest of the region is the serialized tail
        assert(b.subrange(k2 + 1, b.len() as int) =~= spec_opts_bytes(rest)) by {
            assert forall|j: int| 0 <= j < spec_opts_bytes(rest).len() implies b[k2 + 1 + j]
                == spec_opts_bytes(rest)[j] by {
                assert(b[k2 + 1 + j] == region[pb.len() + j]);
                assert(region[pb.len() + j] == (pb + spec_opts_bytes(rest))[pb.len() + j]);
            }
        }
        lemma_parse_opts_of_bytes(b, k2 + 1, rest);
        assert(spec_parse_opts_at(b, i) == Ok::<_, ParseError>(seq![(k0, v0)] + rest));
        assert(seq![(k0, v0)] + rest =~~= opts);
    }
}

/// Serializing a request and parsing it back yields the same fields
/// (classification, kind, filename, raw mode, and option pairs).
pub proof fn lemma_req_roundtrip(
    kind: RequestKind,
    filename: Seq<u8>,
    mode: Seq<u8>,
    opts: Seq<(Seq<u8>, Seq<u8>)>,
)
    requires
        wf_field(filename),
        wf_field(mode),
        wf_opts(opts),
    ensures
        ({
            let b = spec_req_bytes(kind, filename, mode, opts);
            &&& req_shape_ok(b)
            &&& spec_classify(b) == Ok::<_, ParseError>(PacketKind::Req(kind))
            &&& spec_req_kind(b) == kind
            &&& spec_req_filename(b) == Ok::<_, ParseError>(filename)
            &&& spec_req_mode_raw(b) == Ok::<_, ParseError>(mode)
            &&& spec_req_options(b) == Ok::<_, ParseError>(opts)
        }),
{
    let b = spec_req_bytes(kind, filename, mode, opts);
    let op = kind.spec_opcode();
    let fl = filename.len() as int;
    let ml = mode.len() as int;
    crate::bytes::lemma_u16_be_roundtrip(op);
    assert(b[0] == crate::bytes::spec_u16_be(op)[0]);
    assert(b[1] == crate::bytes::spec_u16_be(op)[1]);
    assert(spec_opcode(b) == op);
    // the filename field sits at offset 2
    assert(b.subrange(2, 2 + fl) =~= filename);
    assert(b[2 + fl] == 0);
    lemma_cstr_parse(b, 2, filename);
    // the mode field sits after the filename's NUL
    assert(b.subrange(3 + fl, 3 + fl + ml) =~= mode);
    assert(b[3 + fl + ml] == 0);
    lemma_cstr_parse(b, 3 + fl, mode);
    // options start after the mode's NUL
    assert(spec_req_opts_start(b) == 4 + fl + ml);
    assert(b.subrange(4 + fl + ml, b.len() as int) =~= spec_opts_bytes(opts));
    lemma_parse_opts_of_bytes(b, 4 + fl + ml, opts);
}

/// Serializing a DATA packet and parsing it back yields the same block
/// number and payload.
pub proof fn lemma_data_roundtrip(block: u16, payload: Seq<u8>)
    ensures
        ({
            let b = spec_data_bytes(block, payload);
            &&& data_shape_ok(b)
            &&& spec_classify(b) == Ok::<_, ParseError>(PacketKind::Data)
            &&& spec_data_block(b) == block
            &&& spec_data_payload(b) == payload
        }),
{
    let b = spec_data_bytes(block, payload);
    crate::bytes::lemma_u16_be_roundtrip(3);
    crate::bytes::lemma_u16_be_roundtrip(block);
    assert(spec_opcode(b) == 3);
    assert(spec_data_block(b) == block);
    assert(spec_data_payload(b) =~= payload);
}

/// Serializing an ACK packet and parsing it back yields the same block
/// number.
pub proof fn lemma_ack_roundtrip(block: u16)
    ensures
        ({
            let b = spec_ack_bytes(block);
            &&& ack_shape_ok(b)
            &&& spec_classify(b) == Ok::<_, ParseError>(PacketKind::Ack)
            &&& spec_ack_block(b) == block
        }),
{
    let b = spec_ack_bytes(block);
    crate::bytes::lemma_u16_be_roundtrip(4);
    crate::bytes::lemma_u16_be_roundtrip(block);
    assert(spec_opcode(b) == 4);
}

/// Serializing an ERROR packet and parsing it back yields the same code and
/// message.
pub proof fn lemma_error_roundtrip(code: ErrorCode, msg: Seq<u8>)
    requires
        no_nul(msg),
        ascii_ok(msg),
    ensures
        ({
            let b = spec_error_bytes(code, msg);
            &&& error_shape_ok(b)
            &&& spec_classify(b) == Ok::<_, ParseError>(PacketKind::Error)
            &&& spec_error_code(b) == code
            &&& spec_error_msg(b) == Ok::<_, ParseError>(msg)
        }),
{
    let b = spec_error_bytes(code, msg);
    crate::bytes::lemma_u16_be_roundtrip(5);
    crate::bytes::lemma_u16_be_roundtrip(code.spec_u16());
    assert(spec_opcode(b) == 5);
    assert(be16(b[2], b[3]) == code.spec_u16());
    crate::error::lemma_error_code_roundtrip(code);
    assert(b.subrange(4, 4 + msg.len() as int) =~= msg);
    assert(b[4 + msg.len() as int] == 0);
    lemma_cstr_parse(b, 4, msg);
}

/// Serializing an OACK packet and parsing it back yields the same option
/// pairs.
pub proof fn lemma_oack_roundtrip(opts: Seq<(Seq<u8>, Seq<u8>)>)
    requires
        wf_opts(opts),
    ensures
        ({
            let b = spec_oack_bytes(opts);
            &&& oack_shape_ok(b)
            &&& spec_classify(b) == Ok::<_, ParseError>(PacketKind::OAck)
            &&& spec_oack_options(b) == Ok::<_, ParseError>(opts)
        }),
{
    let b = spec_oack_bytes(opts);
    crate::bytes::lemma_u16_be_roundtrip(6);
    assert(spec_opcode(b) == 6);
    assert(b.subrange(2, b.len() as int) =~= spec_opts_bytes(opts));
    lemma_parse_opts_of_bytes(b, 2, opts);
}

} // verus!


