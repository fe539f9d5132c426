//! The server side of a request: validation of an inbound RRQ/WRQ and the
//! option-negotiation step that answers it. Sockets and files stay with
//! the caller; these functions turn request bytes into decisions and reply
//! packets.

use vstd::prelude::*;

use crate::bytes::dec_value;
use crate::error::{ConnectionError, ErrorCode, OptionError, RequestError};
use crate::options::{
    lemma_apply_field, lemma_last_kind_concat, spec_field, spec_key_blksize, spec_key_timeout,
    spec_key_tsize, spec_last_kind, spec_lookup, spec_option_pairs, spec_parse_tftp_options,
    TftpOption, TftpOptionKind, TftpOptions,
};
use crate::packet::{
    pairs_view, req_shape_ok, spec_error_bytes, spec_oack_bytes, spec_req_filename, spec_req_kind,
    spec_req_mode, spec_req_options, MutableTftpError, TftpReq,
};
use crate::{Mode, RequestKind};

verus! {

/// Message of the reply to a request whose mode field does not parse.
pub open spec fn spec_msg_invalid_mode() -> Seq<u8> {
    seq![77u8, 97u8, 108u8, 102u8, 111u8, 114u8, 109u8, 101u8, 100u8, 32u8, 114u8, 101u8, 113u8, 117u8, 101u8, 115u8, 116u8, 59u8, 32u8, 105u8, 110u8, 118u8, 97u8, 108u8, 105u8, 100u8, 32u8, 109u8, 111u8, 100u8, 101u8]
}

/// Message of the reply to a request whose filename is missing or invalid.
pub open spec fn spec_msg_missing_filename() -> Seq<u8> {
    seq![77u8, 97u8, 108u8, 102u8, 111u8, 114u8, 109u8, 101u8, 100u8, 32u8, 114u8, 101u8, 113u8, 117u8, 101u8, 115u8, 116u8, 59u8, 32u8, 109u8, 105u8, 115u8, 115u8, 105u8, 110u8, 103u8, 32u8, 102u8, 105u8, 108u8, 101u8, 110u8, 97u8, 109u8, 101u8]
}

/// Message of the reply to a request whose option region does not parse.
pub open spec fn spec_msg_invalid_options() -> Seq<u8> {
    seq![77u8, 97u8, 108u8, 102u8, 111u8, 114u8, 109u8, 101u8, 100u8, 32u8, 114u8, 101u8, 113u8, 117u8, 101u8, 115u8, 116u8, 59u8, 32u8, 105u8, 110u8, 118u8, 97u8, 108u8, 105u8, 100u8, 32u8, 111u8, 112u8, 116u8, 105u8, 111u8, 110u8, 115u8]
}

/// Message of the reply to a netascii request.
pub open spec fn spec_msg_netascii() -> Seq<u8> {
    seq![78u8, 101u8, 116u8, 65u8, 115u8, 99u8, 105u8, 105u8, 32u8, 109u8, 111u8, 100u8, 101u8, 32u8, 110u8, 111u8, 116u8, 32u8, 115u8, 117u8, 112u8, 112u8, 111u8, 114u8, 116u8, 101u8, 100u8]
}

/// A validated request, ready for the file to be opened.
#[derive(Debug)]
pub struct ServerRequest {
    pub kind: RequestKind,
    pub filename: Vec<u8>,
    pub raw_opts: Vec<(Vec<u8>, Vec<u8>)>,
}

/// A refused request: the ERROR packet owed to the client, and the error
/// surfaced to the caller.
#[derive(Debug)]
pub struct ServerReject {
    pub reply: Vec<u8>,
    pub error: RequestError,
}

/// Validates an inbound request: the mode must parse and be octet, the
/// filename must be present, and the option region must parse. On refusal
/// the returned reply is the exact ERROR packet to send back.
pub fn handle_request<'a>(req: &TftpReq<'a>) -> (r: Result<ServerRequest, ServerReject>)
    requires
        req_shape_ok(req@),
    ensures
        match r {
            Ok(sr) => {
                &&& sr.kind == spec_req_kind(req@)
                &&& spec_req_mode(req@) == Ok::<_, crate::error::ParseError>(Mode::Octet)
                &&& spec_req_filename(req@) == Ok::<_, crate::error::ParseError>(sr.filename@)
                &&& spec_req_options(req@) == Ok::<_, crate::error::ParseError>(
                    pairs_view(sr.raw_opts@),
                )
            },
            Err(rej) => {
                &&& (spec_req_mode(req@) is Err ==> rej.reply@ == spec_error_bytes(
                    ErrorCode::IllegalOperation,
                    spec_msg_invalid_mode(),
                ) && rej.error == RequestError::MalformedRequest)
                &&& (spec_req_mode(req@) == Ok::<_, crate::error::ParseError>(Mode::NetAscii)
                    ==> rej.reply@ == spec_error_bytes(
                    ErrorCode::IllegalOperation,
                    spec_msg_netascii(),
                ) && rej.error == RequestError::ConnectionError(ConnectionError::UnsupportedTxMode))
                &&& (spec_req_mode(req@) == Ok::<_, crate::error::ParseError>(Mode::Octet)
                    && spec_req_filename(req@) is Err ==> rej.reply@ == spec_error_bytes(
                    ErrorCode::IllegalOperation,
                    spec_msg_missing_filename(),
                ) && rej.error == RequestError::MalformedRequest)
                &&& (spec_req_mode(req@) == Ok::<_, crate::error::ParseError>(Mode::Octet)
                    && spec_req_filename(req@) is Ok && spec_req_options(req@) is Err
                    ==> rej.reply@ == spec_error_bytes(
                    ErrorCode::IllegalOperation,
                    spec_msg_invalid_options(),
                ) && rej.error == RequestError::MalformedRequest)
                &&& (spec_req_mode(req@) == Ok::<_, crate::error::ParseError>(Mode::Octet)
                    && spec_req_filename(req@) is Ok && spec_req_options(req@) is Ok ==> false)
            },
        },
{
    let mode = match req.mode() {
        Ok(m) => m,
        Err(_) => {
            let msg: &[u8] = &[77u8, 97u8, 108u8, 102u8, 111u8, 114u8, 109u8, 101u8, 100u8, 32u8, 114u8, 101u8, 113u8, 117u8, 101u8, 115u8, 116u8, 59u8, 32u8, 105u8, 110u8, 118u8, 97u8, 108u8, 105u8, 100u8, 32u8, 109u8, 111u8, 100u8, 101u8];
            proof {
                assert(msg@ =~= spec_msg_invalid_mode());
            }
            let pkt = MutableTftpError::with(ErrorCode::IllegalOperation, msg);
            return Err(ServerReject { reply: pkt.buf, error: RequestError::MalformedRequest });
        },
    };
    if let Mode::NetAscii = mode {
        let msg: &[u8] = &[78u8, 101u8, 116u8, 65u8, 115u8, 99u8, 105u8, 105u8, 32u8, 109u8, 111u8, 100u8, 101u8, 32u8, 110u8, 111u8, 116u8, 32u8, 115u8, 117u8, 112u8, 112u8, 111u8, 114u8, 116u8, 101u8, 100u8];
        proof {
            assert(msg@ =~= spec_msg_netascii());
        }
        let pkt = MutableTftpError::with(ErrorCode::IllegalOperation, msg);
        return Err(
            ServerReject {
                reply: pkt.buf,
                error: RequestError::ConnectionError(ConnectionError::UnsupportedTxMode),
            },
        );
    }
    let filename = match req.filename() {
        Ok(f) => f,
        Err(_) => {
            let msg: &[u8] = &[77u8, 97u8, 108u8, 102u8, 111u8, 114u8, 109u8, 101u8, 100u8, 32u8, 114u8, 101u8, 113u8, 117u8, 101u8, 115u8, 116u8, 59u8, 32u8, 109u8, 105u8, 115u8, 115u8, 105u8, 110u8, 103u8, 32u8, 102u8, 105u8, 108u8, 101u8, 110u8, 97u8, 109u8, 101u8];
            proof {
                assert(msg@ =~= spec_msg_missing_filename());
            }
            let pkt = MutableTftpError::with(ErrorCode::IllegalOperation, msg);
            return Err(ServerReject { reply: pkt.buf, error: RequestError::MalformedRequest });
        },
    };
    let raw_opts = match req.options() {
        Ok(o) => o,
        Err(_) => {
            let msg: &[u8] = &[77u8, 97u8, 108u8, 102u8, 111u8, 114u8, 109u8, 101u8, 100u8, 32u8, 114u8, 101u8, 113u8, 117u8, 101u8, 115u8, 116u8, 59u8, 32u8, 105u8, 110u8, 118u8, 97u8, 108u8, 105u8, 100u8, 32u8, 111u8, 112u8, 116u8, 105u8, 111u8, 110u8, 115u8];
            proof {
                assert(msg@ =~= spec_msg_invalid_options());
            }
            let pkt = MutableTftpError::with(ErrorCode::IllegalOperation, msg);
            return Err(ServerReject { reply: pkt.buf, error: RequestError::MalformedRequest });
        },
    };
    Ok(ServerRequest { kind: req.kind(), filename, raw_opts })
}

/// The negotiation go-ahead of a read request: the OACK must be answered
/// by an ACK with block number 0; anything else fails the negotiation
/// with `NoAck`.
pub fn check_negotiation_ack(pkt: &crate::packet::TftpPacket<'_>) -> (r: Result<(), OptionError>)
    requires
        pkt.wf(),
    ensures
        r is Ok <==> (pkt matches crate::packet::TftpPacket::Ack(a)
            && crate::packet::spec_ack_block(a@) == 0),
        r is Err ==> r == Err::<(), _>(OptionError::NoAck),
{
    match pkt {
        crate::packet::TftpPacket::Ack(a) => {
            if a.blocknum() == 0 {
                Ok(())
            } else {
                Err(OptionError::NoAck)
            }
        },
        _ => Err(OptionError::NoAck),
    }
}

/// One option with the transfer size substituted when it announces one.
pub open spec fn spec_subst1(o: TftpOption, transfer_size: u32) -> TftpOption {
    match o {
        TftpOption::TransferSize(_) => TftpOption::TransferSize(transfer_size),
        _ => o,
    }
}

/// A read request answers `tsize` with the file's size; every other
/// accepted option keeps the client's value.
pub open spec fn spec_subst_tsize(s: Seq<TftpOption>, transfer_size: u32) -> Seq<TftpOption> {
    s.map_values(|o: TftpOption| spec_subst1(o, transfer_size))
}

/// The options a server accepts for a request: the recognized, valid
/// options of the request, with the transfer size filled in for a read
/// request.
pub open spec fn spec_negotiate(
    opts: Seq<(Seq<u8>, Seq<u8>)>,
    transfer_size: u32,
    kind: RequestKind,
) -> Result<Seq<TftpOption>, OptionError> {
    match spec_parse_tftp_options(opts) {
        Ok(list) => Ok(
            if kind == RequestKind::Rrq {
                spec_subst_tsize(list, transfer_size)
            } else {
                list
            },
        ),
        Err(e) => Err(e),
    }
}

/// Negotiates the options of a request. A request without options needs no
/// OACK (`None`); otherwise the accepted options come with the exact OACK
/// packet that acknowledges them. A recognized option with a bad value
/// fails with `InvalidOption`.
pub fn negotiate_options(
    raw_opts: &Vec<(Vec<u8>, Vec<u8>)>,
    transfer_size: u32,
    req_kind: RequestKind,
) -> (r: Result<Option<(Vec<TftpOption>, Vec<u8>)>, OptionError>)
    ensures
        match r {
            Ok(None) => raw_opts@.len() == 0,
            Ok(Some((acc, oack))) => raw_opts@.len() > 0 && spec_negotiate(
                pairs_view(raw_opts@),
                transfer_size,
                req_kind,
            ) == Ok::<_, OptionError>(acc@) && oack@ == spec_oack_bytes(spec_option_pairs(acc@)),
            Err(e) => raw_opts@.len() > 0 && spec_negotiate(
                pairs_view(raw_opts@),
                transfer_size,
                req_kind,
            ) == Err::<Seq<TftpOption>, _>(e),
        },
{
    if raw_opts.len() == 0 {
        return Ok(None);
    }
    let mut accepted = match crate::options::parse_tftp_options(raw_opts) {
        Ok(a) => a,
        Err(e) => {
            return Err(e);
        },
    };
    if let RequestKind::Rrq = req_kind {
        let ghost before = accepted@;
        let mut i: usize = 0;
        while i < accepted.len()
            invariant
                i <= accepted@.len(),
                accepted@.len() == before.len(),
                forall|j: int|
                    0 <= j < i ==> #[trigger] accepted@[j] == spec_subst1(
                        before[j],
                        transfer_size,
                    ),
                forall|j: int| i <= j < before.len() ==> #[trigger] accepted@[j] == before[j],
            decreases accepted@.len() - i,
        {
            if let TftpOption::TransferSize(_) = accepted[i] {
                accepted[i] = TftpOption::TransferSize(transfer_size);
            }
            i = i + 1;
        }
        proof {
            assert(accepted@ =~= spec_subst_tsize(before, transfer_size));
        }
    }
    let oack = crate::builder::TftpOAckBuilder::new().options(accepted.as_slice()).build();
    let bytes = vstd::slice::slice_to_vec(crate::packet::Packet::as_bytes(&oack));
    proof {
        crate::bytes::lemma_u16_be_roundtrip(6);
        assert(crate::packet::oack_shape_ok(oack@));
    }
    Ok(Some((accepted, bytes)))
}

/// Option negotiation conservation: whatever the server accepts was asked
/// for, each recognized key at most once, with the client's value (the
/// transfer size substituted for a read request); and applying the
/// accepted options drives each field of the effective option set to the
/// accepted value, leaving the fields of unmentioned keys at their
/// defaults.
pub proof fn lemma_negotiation_conservation(
    opts: Seq<(Seq<u8>, Seq<u8>)>,
    transfer_size: u32,
    kind: RequestKind,
)
    requires
        spec_negotiate(opts, transfer_size, kind) is Ok,
    ensures
        ({
            let acc = spec_negotiate(opts, transfer_size, kind)->Ok_0;
            let eff = TftpOptions::spec_apply(TftpOptions::spec_default(), acc);
            &&& spec_last_kind(acc, TftpOptionKind::Blocksize) == (
            match spec_lookup(opts, spec_key_blksize()) {
                Some(v) => Some(TftpOption::Blocksize(dec_value(v) as u16)),
                None => None::<TftpOption>,
            })
            &&& spec_last_kind(acc, TftpOptionKind::Timeout) == (
            match spec_lookup(opts, spec_key_timeout()) {
                Some(v) => Some(TftpOption::Timeout(dec_value(v) as u8)),
                None => None::<TftpOption>,
            })
            &&& spec_last_kind(acc, TftpOptionKind::TransferSize) == (
            match spec_lookup(opts, spec_key_tsize()) {
                Some(v) => Some(
                    TftpOption::TransferSize(
                        if kind == RequestKind::Rrq {
                            transfer_size
                        } else {
                            dec_value(v) as u32
                        },
                    ),
                ),
                None => None::<TftpOption>,
            })
            &&& spec_field(eff, TftpOptionKind::Blocksize) == (
            match spec_last_kind(acc, TftpOptionKind::Blocksize) {
                Some(o) => o.spec_value(),
                None => 512,
            })
            &&& spec_field(eff, TftpOptionKind::Timeout) == (
            match spec_last_kind(acc, TftpOptionKind::Timeout) {
                Some(o) => o.spec_value(),
                None => 5,
            })
            &&& spec_field(eff, TftpOptionKind::TransferSize) == (
            match spec_last_kind(acc, TftpOptionKind::TransferSize) {
                Some(o) => o.spec_value(),
                None => 0,
            })
            &&& forall|i: int, j: int|
                0 <= i < j < acc.len() ==> (#[trigger] acc[i]).spec_kind() != (
                #[trigger] acc[j]).spec_kind()
        }),
{
    let parsed = spec_parse_tftp_options(opts)->Ok_0;
    let acc = spec_negotiate(opts, transfer_size, kind)->Ok_0;
    let bs = spec_lookup(opts, spec_key_blksize());
    let to = spec_lookup(opts, spec_key_timeout());
    let ts = spec_lookup(opts, spec_key_tsize());
    let p0: Seq<TftpOption> = match bs {
        Some(v) => seq![TftpOption::Blocksize(dec_value(v) as u16)],
        None => Seq::empty(),
    };
    let p1: Seq<TftpOption> = match to {
        Some(v) => seq![TftpOption::Timeout(dec_value(v) as u8)],
        None => Seq::empty(),
    };
    let p2: Seq<TftpOption> = match ts {
        Some(v) => seq![TftpOption::TransferSize(dec_value(v) as u32)],
        None => Seq::empty(),
    };
    assert(parsed == (p0 + p1) + p2) by {
        assert((p0 + p1) + p2 =~= parsed);
    }
    lemma_parts(p0, p1, p2, parsed, acc, transfer_size, kind);
    lemma_apply_field(TftpOptions::spec_default(), acc, TftpOptionKind::Blocksize);
    lemma_apply_field(TftpOptions::spec_default(), acc, TftpOptionKind::Timeout);
    lemma_apply_field(TftpOptions::spec_default(), acc, TftpOptionKind::TransferSize);
}

/// `spec_last_kind` of the three-segment accepted list, with and without
/// the transfer-size substitution.
proof fn lemma_parts(
    p0: Seq<TftpOption>,
    p1: Seq<TftpOption>,
    p2: Seq<TftpOption>,
    parsed: Seq<TftpOption>,
    acc: Seq<TftpOption>,
    transfer_size: u32,
    kind: RequestKind,
)
    requires
        parsed == (p0 + p1) + p2,
        acc == if kind == RequestKind::Rrq {
            spec_subst_tsize(parsed, transfer_size)
        } else {
            parsed
        },
        p0.len() <= 1 && (p0.len() == 1 ==> p0[0] is Blocksize),
        p1.len() <= 1 && (p1.len() == 1 ==> p1[0] is Timeout),
        p2.len() <= 1 && (p2.len() == 1 ==> p2[0] is TransferSize),
    ensures
        spec_last_kind(acc, TftpOptionKind::Blocksize) == (if p0.len() == 1 {
            Some(p0[0])
        } else {
            None::<TftpOption>
        }),
        spec_last_kind(acc, TftpOptionKind::Timeout) == (if p1.len() == 1 {
            Some(p1[0])
        } else {
            None::<TftpOption>
        }),
        spec_last_kind(acc, TftpOptionKind::TransferSize) == (if p2.len() == 1 {
            Some(if kind == RequestKind::Rrq {
                spec_subst1(p2[0], transfer_size)
            } else {
                p2[0]
            })
        } else {
            None::<TftpOption>
        }),
{
    let q0 = if kind == RequestKind::Rrq {
        spec_subst_tsize(p0, transfer_size)
    } else {
        p0
    };
    let q1 = if kind == RequestKind::Rrq {
        spec_subst_tsize(p1, transfer_size)
    } else {
        p1
    };
    let q2 = if kind == RequestKind::Rrq {
        spec_subst_tsize(p2, transfer_size)
    } else {
        p2
    };
    assert(acc =~= (q0 + q1) + q2);
    assert(q0.len() == p0.len() && q1.len() == p1.len() && q2.len() == p2.len());
    assert(q0.len() == 1 ==> q0[0] == (if kind == RequestKind::Rrq {
        spec_subst1(p0[0], transfer_size)
    } else {
        p0[0]
    }));
    assert(q1.len() == 1 ==> q1[0] == (if kind == RequestKind::Rrq {
        spec_subst1(p1[0], transfer_size)
    } else {
        p1[0]
    }));
    assert(q2.len() == 1 ==> q2[0] == (if kind == RequestKind::Rrq {
        spec_subst1(p2[0], transfer_size)
    } else {
        p2[0]
    }));
    assert(q0.len() == 1 ==> q0[0] == p0[0]);
    assert(q1.len() == 1 ==> q1[0] == p1[0]);
    lemma_last_kind_all(q0, q1, q2, acc);
}

/// `spec_last_kind` over three segments of at most one element each.
proof fn lemma_last_kind_all(
    q0: Seq<TftpOption>,
    q1: Seq<TftpOption>,
    q2: Seq<TftpOption>,
    acc: Seq<TftpOption>,
)
    requires
        acc == (q0 + q1) + q2,
        q0.len() <= 1 && (q0.len() == 1 ==> q0[0] is Blocksize),
        q1.len() <= 1 && (q1.len() == 1 ==> q1[0] is Timeout),
        q2.len() <= 1 && (q2.len() == 1 ==> q2[0] is TransferSize),
    ensures
        spec_last_kind(acc, TftpOptionKind::Blocksize) == (if q0.len() == 1 {
            Some(q0[0])
        } else {
            None::<TftpOption>
        }),
        spec_last_kind(acc, TftpOptionKind::Timeout) == (if q1.len() == 1 {
            Some(q1[0])
        } else {
            None::<TftpOption>
        }),
        spec_last_kind(acc, TftpOptionKind::TransferSize) == (if q2.len() == 1 {
            Some(q2[0])
        } else {
            None::<TftpOption>
        }),
{
    lemma_last_single(q0, TftpOptionKind::Blocksize);
    lemma_last_single(q0, TftpOptionKind::Timeout);
    lemma_last_single(q0, TftpOptionKind::TransferSize);
    lemma_last_single(q1, TftpOptionKind::Blocksize);
    lemma_last_single(q1, TftpOptionKind::Timeout);
    lemma_last_single(q1, TftpOptionKind::TransferSize);
    lemma_last_single(q2, TftpOptionKind::Blocksize);
    lemma_last_single(q2, TftpOptionKind::Timeout);
    lemma_last_single(q2, TftpOptionKind::TransferSize);
    lemma_last_kind_concat(q0, q1, TftpOptionKind::Blocksize);
    lemma_last_kind_concat(q0, q1, TftpOptionKind::Timeout);
    lemma_last_kind_concat(q0, q1, TftpOptionKind::TransferSize);
    lemma_last_kind_concat(q0 + q1, q2, TftpOptionKind::Blocksize);
    lemma_last_kind_concat(q0 + q1, q2, TftpOptionKind::Timeout);
    lemma_last_kind_concat(q0 + q1, q2, TftpOptionKind::TransferSize);
}

/// `spec_last_kind` of a segment of at most one element.
proof fn lemma_last_single(q: Seq<TftpOption>, k: TftpOptionKind)
    requires
        q.len() <= 1,
    ensures
        spec_last_kind(q, k) == (if q.len() == 1 && q[0].spec_kind() == k {
            Some(q[0])
        } else {
            None::<TftpOption>
        }),
{
    if q.len() == 1 {
        assert(q.last() == q[0]);
        assert(q.drop_last() =~= Seq::<TftpOption>::empty());
        assert(spec_last_kind(q.drop_last(), k) == None::<TftpOption>);
    }
}

} // verus!
