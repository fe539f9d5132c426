//! Builders for outbound request, option-acknowledgement and error packets.
//! Each `build` is specified against the wire form of the packet it emits.

use vstd::prelude::*;

use crate::bytes::{push_bytes, push_u16_be};
use crate::error::ErrorCode;
use crate::options::{spec_option_pair, spec_option_pairs, TftpOption};
use crate::packet::{
    lemma_opts_bytes_snoc, spec_error_bytes, spec_oack_bytes, spec_req_bytes, TftpError, TftpOAck,
    TftpReq,
};
use crate::{Mode, RequestKind};

verus! {

/// Option pairs named by an optional option list.
pub open spec fn spec_builder_opts(o: Option<Seq<TftpOption>>) -> Seq<(Seq<u8>, Seq<u8>)> {
    match o {
        Some(s) => spec_option_pairs(s),
        None => Seq::empty(),
    }
}

/// Builds an RRQ or WRQ packet.
pub struct TftpReqBuilder<'a> {
    pub kind: RequestKind,
    pub mode: Mode,
    pub filename: &'a [u8],
    pub options: Option<&'a [TftpOption]>,
}

impl<'a> TftpReqBuilder<'a> {
    /// A read request for an empty filename in octet mode, with no options.
    pub fn new() -> (r: Self)
        ensures
            r.kind == RequestKind::Rrq,
            r.mode == Mode::Octet,
            r.filename@ == Seq::<u8>::empty(),
            r.options is None,
    {
        let filename: &'a [u8] = &[];
        TftpReqBuilder { kind: RequestKind::Rrq, mode: Mode::Octet, filename, options: None }
    }

    pub fn kind(self, kind: RequestKind) -> (r: Self)
        ensures
            r == (TftpReqBuilder { kind, ..self }),
    {
        TftpReqBuilder { kind, ..self }
    }

    pub fn mode(self, mode: Mode) -> (r: Self)
        ensures
            r == (TftpReqBuilder { mode, ..self }),
    {
        TftpReqBuilder { mode, ..self }
    }

    pub fn filename(self, filename: &'a [u8]) -> (r: Self)
        ensures
            r == (TftpReqBuilder { filename, ..self }),
    {
        TftpReqBuilder { filename, ..self }
    }

    pub fn options(self, options: &'a [TftpOption]) -> (r: Self)
        ensures
            r == (TftpReqBuilder { options: Some(options), ..self }),
    {
        TftpReqBuilder { options: Some(options), ..self }
    }

    /// Serializes the request into an owned packet.
    pub fn build(self) -> (r: TftpReq<'a>)
        ensures
            r@ == spec_req_bytes(
                self.kind,
                self.filename@,
                self.mode.spec_bytes(),
                spec_builder_opts(
                    match self.options {
                        Some(o) => Some(o@),
                        None => None,
                    },
                ),
            ),
    {
        let mut buf: Vec<u8> = Vec::new();
        push_u16_be(&mut buf, self.kind.opcode());
        push_bytes(&mut buf, self.filename);
        buf.push(0);
        let mode = self.mode.as_bytes();
        push_bytes(&mut buf, mode.as_slice());
        buf.push(0);
        let ghost head = buf@;
        proof {
            assert(head =~= crate::bytes::spec_u16_be(self.kind.spec_opcode())
                + crate::packet::spec_cstr(self.filename@) + crate::packet::spec_cstr(
                self.mode.spec_bytes(),
            ));
        }
        match self.options {
            Some(opts) => {
                push_option_pairs(&mut buf, opts);
                proof {
                    assert(buf@ =~= spec_req_bytes(
                        self.kind,
                        self.filename@,
                        self.mode.spec_bytes(),
                        spec_option_pairs(opts@),
                    ));
                }
            },
            None => {
                proof {
                    assert(buf@ =~= spec_req_bytes(
                        self.kind,
                        self.filename@,
                        self.mode.spec_bytes(),
                        Seq::<(Seq<u8>, Seq<u8>)>::empty(),
                    ));
                }
            },
        }
        TftpReq::from_owned(buf)
    }
}

/// Appends the wire form of each option's key/value pair.
fn push_option_pairs(buf: &mut Vec<u8>, opts: &[TftpOption])
    ensures
        final(buf)@ == old(buf)@ + crate::packet::spec_opts_bytes(spec_option_pairs(opts@)),
{
    let ghost base = buf@;
    let mut i: usize = 0;
    proof {
        assert(spec_option_pairs(opts@.take(0)) =~= Seq::<(Seq<u8>, Seq<u8>)>::empty());
        assert(base + crate::packet::spec_opts_bytes(spec_option_pairs(opts@.take(0))) =~= base);
    }
    while i < opts.len()
        invariant
            i <= opts@.len(),
            buf@ == base + crate::packet::spec_opts_bytes(spec_option_pairs(opts@.take(i as int))),
        decreases opts@.len() - i,
    {
        let o = *vstd::slice::slice_index_get(opts, i);
        let (key, val) = o.as_str_tuple();
        push_bytes(buf, key.as_slice());
        buf.push(0);
        push_bytes(buf, val.as_slice());
        buf.push(0);
        proof {
            let pre = spec_option_pairs(opts@.take(i as int));
            let pair = spec_option_pair(opts@[i as int]);
            assert(spec_option_pairs(opts@.take(i + 1)) =~= pre.push(pair));
            lemma_opts_bytes_snoc(pre, pair);
            assert(buf@ =~= base + crate::packet::spec_opts_bytes(
                spec_option_pairs(opts@.take(i + 1)),
            ));
        }
        i = i + 1;
    }
    proof {
        assert(opts@.take(opts@.len() as int) =~= opts@);
    }
}

/// Builds an OACK packet from accepted options.
pub struct TftpOAckBuilder {
    pub options: Vec<TftpOption>,
}

impl TftpOAckBuilder {
    pub fn new() -> (r: Self)
        ensures
            r.options@ == Seq::<TftpOption>::empty(),
    {
        TftpOAckBuilder { options: Vec::new() }
    }

    pub fn option(self, option: TftpOption) -> (r: Self)
        ensures
            r.options@ == self.options@.push(option),
    {
        let mut options = self.options;
        options.push(option);
        TftpOAckBuilder { options }
    }

    pub fn options(self, options: &[TftpOption]) -> (r: Self)
        ensures
            r.options@ == self.options@ + options@,
    {
        let mut held = self.options;
        let mut i: usize = 0;
        proof {
            assert(held@ + options@.take(0) =~= held@);
        }
        while i < options.len()
            invariant
                i <= options@.len(),
                held@ == self.options@ + options@.take(i as int),
            decreases options@.len() - i,
        {
            held.push(*vstd::slice::slice_index_get(options, i));
            proof {
                assert(self.options@ + options@.take(i as int) + seq![options@[i as int]]
                    =~= self.options@ + options@.take(i + 1));
            }
            i = i + 1;
        }
        proof {
            assert(options@.take(options@.len() as int) =~= options@);
        }
        TftpOAckBuilder { options: held }
    }

    /// Serializes the acknowledged options into an owned packet.
    pub fn build<'a>(self) -> (r: TftpOAck<'a>)
        ensures
            r@ == spec_oack_bytes(spec_option_pairs(self.options@)),
    {
        let mut buf: Vec<u8> = Vec::new();
        push_u16_be(&mut buf, crate::OPCODE_OACK);
        push_option_pairs(&mut buf, self.options.as_slice());
        proof {
            assert(buf@ =~= spec_oack_bytes(spec_option_pairs(self.options@)));
        }
        TftpOAck::from_owned(buf)
    }
}

/// Builds an ERROR packet.
pub struct TftpErrorBuilder<'a> {
    pub code: ErrorCode,
    pub msg: Option<&'a [u8]>,
}

impl<'a> TftpErrorBuilder<'a> {
    pub fn new() -> (r: Self)
        ensures
            r.code == ErrorCode::NotDefined,
            r.msg is None,
    {
        TftpErrorBuilder { code: ErrorCode::NotDefined, msg: None }
    }

    pub fn error_code(self, code: ErrorCode) -> (r: Self)
        ensures
            r == (TftpErrorBuilder { code, ..self }),
    {
        TftpErrorBuilder { code, ..self }
    }

    pub fn error_msg(self, msg: &'a [u8]) -> (r: Self)
        ensures
            r == (TftpErrorBuilder { msg: Some(msg), ..self }),
    {
        TftpErrorBuilder { msg: Some(msg), ..self }
    }

    /// Serializes the error into an owned packet; an absent message writes
    /// as the empty message.
    pub fn build(self) -> (r: TftpError<'a>)
        ensures
            r@ == spec_error_bytes(
                self.code,
                match self.msg {
                    Some(m) => m@,
                    None => Seq::empty(),
                },
            ),
    {
        let mut buf: Vec<u8> = Vec::new();
        push_u16_be(&mut buf, crate::OPCODE_ERROR);
        push_u16_be(&mut buf, self.code.as_u16());
        match self.msg {
            Some(m) => {
                push_bytes(&mut buf, m);
            },
            None => {},
        }
        buf.push(0);
        proof {
            assert(buf@ =~= spec_error_bytes(
                self.code,
                match self.msg {
                    Some(m) => m@,
                    None => Seq::<u8>::empty(),
                },
            ));
        }
        TftpError::from_owned(buf)
    }
}

} // verus!
