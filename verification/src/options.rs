//! Negotiable options (RFC 2347/2348/2349): the canonical representation,
//! parsing of raw key/value pairs with last-value-wins lookup, range
//! validation, and application to the effective option set.

use vstd::prelude::*;

use crate::bytes::{all_digits, dec_value, lower_seq, parse_dec_u32, push_dec, spec_dec};
use crate::error::OptionError;
use crate::packet::pairs_view;

verus! {

/// The recognized option keys.
#[derive(Debug, Clone, Copy, PartialEq, Eq, Structural)]
pub enum TftpOptionKind {
    Blocksize,
    Timeout,
    TransferSize,
}

/// One negotiated option with its value. Blocksize is valid in 8..=65464,
/// timeout in 1..=255 seconds; the transfer size may be any 32-bit value.
#[derive(Debug, Clone, Copy, PartialEq, Eq, Structural)]
pub enum TftpOption {
    Blocksize(u16),
    Timeout(u8),
    TransferSize(u32),
}

/// The bytes of "blksize".
pub open spec fn spec_key_blksize() -> Seq<u8> {
    seq![98u8, 108u8, 107u8, 115u8, 105u8, 122u8, 101u8]
}

/// The bytes of "timeout".
pub open spec fn spec_key_timeout() -> Seq<u8> {
    seq![116u8, 105u8, 109u8, 101u8, 111u8, 117u8, 116u8]
}

/// The bytes of "tsize".
pub open spec fn spec_key_tsize() -> Seq<u8> {
    seq![116u8, 115u8, 105u8, 122u8, 101u8]
}

pub fn key_blksize() -> (r: Vec<u8>)
    ensures
        r@ == spec_key_blksize(),
{
    let mut v: Vec<u8> = Vec::new();
    v.push(98);
    v.push(108);
    v.push(107);
    v.push(115);
    v.push(105);
    v.push(122);
    v.push(101);
    proof {
        assert(v@ =~= spec_key_blksize());
    }
    v
}

pub fn key_timeout() -> (r: Vec<u8>)
    ensures
        r@ == spec_key_timeout(),
{
    let mut v: Vec<u8> = Vec::new();
    v.push(116);
    v.push(105);
    v.push(109);
    v.push(101);
    v.push(111);
    v.push(117);
    v.push(116);
    proof {
        assert(v@ =~= spec_key_timeout());
    }
    v
}

pub fn key_tsize() -> (r: Vec<u8>)
    ensures
        r@ == spec_key_tsize(),
{
    let mut v: Vec<u8> = Vec::new();
    v.push(116);
    v.push(115);
    v.push(105);
    v.push(122);
    v.push(101);
    proof {
        assert(v@ =~= spec_key_tsize());
    }
    v
}

pub open spec fn spec_opt_key(k: TftpOptionKind) -> Seq<u8> {
    match k {
        TftpOptionKind::Blocksize => spec_key_blksize(),
        TftpOptionKind::Timeout => spec_key_timeout(),
        TftpOptionKind::TransferSize => spec_key_tsize(),
    }
}

impl TftpOption {
    pub open spec fn spec_kind(&self) -> TftpOptionKind {
        match self {
            TftpOption::Blocksize(_) => TftpOptionKind::Blocksize,
            TftpOption::Timeout(_) => TftpOptionKind::Timeout,
            TftpOption::TransferSize(_) => TftpOptionKind::TransferSize,
        }
    }

    pub fn kind(&self) -> (r: TftpOptionKind)
        ensures
            r == self.spec_kind(),
    {
        match self {
            TftpOption::Blocksize(_) => TftpOptionKind::Blocksize,
            TftpOption::Timeout(_) => TftpOptionKind::Timeout,
            TftpOption::TransferSize(_) => TftpOptionKind::TransferSize,
        }
    }

    pub open spec fn spec_value(&self) -> int {
        match self {
            TftpOption::Blocksize(b) => *b as int,
            TftpOption::Timeout(t) => *t as int,
            TftpOption::TransferSize(s) => *s as int,
        }
    }

    /// The option as a wire key/value pair, the value in decimal ASCII.
    pub fn as_str_tuple(&self) -> (r: (Vec<u8>, Vec<u8>))
        ensures
            (r.0@, r.1@) == spec_option_pair(*self),
    {
        let key = match self {
            TftpOption::Blocksize(_) => key_blksize(),
            TftpOption::Timeout(_) => key_timeout(),
            TftpOption::TransferSize(_) => key_tsize(),
        };
        let mut val: Vec<u8> = Vec::new();
        match self {
            TftpOption::Blocksize(b) => push_dec(&mut val, *b as u32),
            TftpOption::Timeout(t) => push_dec(&mut val, *t as u32),
            TftpOption::TransferSize(s) => push_dec(&mut val, *s),
        }
        (key, val)
    }
}

/// Wire pair of one option.
pub open spec fn spec_option_pair(o: TftpOption) -> (Seq<u8>, Seq<u8>) {
    (spec_opt_key(o.spec_kind()), spec_dec(o.spec_value()))
}

/// Wire pairs of an option list.
pub open spec fn spec_option_pairs(s: Seq<TftpOption>) -> Seq<(Seq<u8>, Seq<u8>)> {
    s.map_values(|o: TftpOption| spec_option_pair(o))
}

/// Last-value-wins, case-insensitive lookup of `key` (already lower case)
/// among raw pairs.
pub open spec fn spec_lookup(opts: Seq<(Seq<u8>, Seq<u8>)>, key: Seq<u8>) -> Option<Seq<u8>>
    decreases opts.len(),
{
    if opts.len() == 0 {
        None
    } else if lower_seq(opts.last().0) == key {
        Some(opts.last().1)
    } else {
        spec_lookup(opts.drop_last(), key)
    }
}

/// Looks `key` up among the raw pairs, the last occurrence winning and key
/// case ignored.
pub fn lookup_option(raw: &Vec<(Vec<u8>, Vec<u8>)>, key: &[u8]) -> (r: Option<Vec<u8>>)
    ensures
        match r {
            Some(v) => spec_lookup(pairs_view(raw@), lower_seq(key@)) == Some(v@),
            None => spec_lookup(pairs_view(raw@), lower_seq(key@)) is None,
        },
{
    let mut i = raw.len();
    proof {
        assert(pairs_view(raw@).take(raw@.len() as int) =~= pairs_view(raw@));
    }
    while i > 0
        invariant
            i <= raw@.len(),
            spec_lookup(pairs_view(raw@), lower_seq(key@)) == spec_lookup(
                pairs_view(raw@).take(i as int),
                lower_seq(key@),
            ),
        decreases i,
    {
        i = i - 1;
        let pair = &raw[i];
        let ghost pv = pairs_view(raw@);
        proof {
            assert(pv.take(i + 1).last() == pv[i as int]);
            assert(pv.take(i + 1).drop_last() =~= pv.take(i as int));
        }
        if crate::bytes::range_eq_ci(pair.0.as_slice(), 0, pair.0.len(), key) {
            proof {
                assert(pair.0@.subrange(0, pair.0@.len() as int) =~= pair.0@);
                assert(lower_seq(pv[i as int].0) == lower_seq(key@));
            }
            let out = crate::bytes::bytes_range(pair.1.as_slice(), 0, pair.1.len());
            proof {
                assert(pair.1@.subrange(0, pair.1@.len() as int) =~= pair.1@);
            }
            return Some(out);
        }
        proof {
            assert(pair.0@.subrange(0, pair.0@.len() as int) =~= pair.0@);
            assert(lower_seq(pv[i as int].0) != lower_seq(key@));
        }
    }
    proof {
        assert(pairs_view(raw@).take(0) =~= Seq::<(Seq<u8>, Seq<u8>)>::empty());
    }
    None
}

/// A valid blocksize value field: digits with value in 8..=65464.
pub open spec fn valid_blksize_val(v: Seq<u8>) -> bool {
    v.len() > 0 && all_digits(v) && 8 <= dec_value(v) <= 65464
}

/// A valid timeout value field: digits with value in 1..=255 seconds.
pub open spec fn valid_timeout_val(v: Seq<u8>) -> bool {
    v.len() > 0 && all_digits(v) && 1 <= dec_value(v) <= 255
}

/// A valid transfer-size value field: digits with a 32-bit value.
pub open spec fn valid_tsize_val(v: Seq<u8>) -> bool {
    v.len() > 0 && all_digits(v) && 0 <= dec_value(v) <= u32::MAX
}

/// Which options a raw pair list yields: unknown keys are skipped, the
/// recognized keys are taken last-value-wins and validated, and a malformed
/// or out-of-range value fails the negotiation.
pub open spec fn spec_parse_tftp_options(opts: Seq<(Seq<u8>, Seq<u8>)>) -> Result<
    Seq<TftpOption>,
    OptionError,
> {
    let bs = spec_lookup(opts, spec_key_blksize());
    let to = spec_lookup(opts, spec_key_timeout());
    let ts = spec_lookup(opts, spec_key_tsize());
    if (match bs {
        Some(v) => !valid_blksize_val(v),
        None => false,
    }) {
        Err(OptionError::InvalidOption)
    } else if (match to {
        Some(v) => !valid_timeout_val(v),
        None => false,
    }) {
        Err(OptionError::InvalidOption)
    } else if (match ts {
        Some(v) => !valid_tsize_val(v),
        None => false,
    }) {
        Err(OptionError::InvalidOption)
    } else {
        let s0 = match bs {
            Some(v) => seq![TftpOption::Blocksize(dec_value(v) as u16)],
            None => Seq::empty(),
        };
        let s1 = match to {
            Some(v) => s0 + seq![TftpOption::Timeout(dec_value(v) as u8)],
            None => s0,
        };
        let s2 = match ts {
            Some(v) => s1 + seq![TftpOption::TransferSize(dec_value(v) as u32)],
            None => s1,
        };
        Ok(s2)
    }
}

/// Parses the recognized options out of raw pairs. Unknown keys are skipped
/// (RFC 2347); a recognized key with a malformed or out-of-range value is
/// `InvalidOption`.
pub fn parse_tftp_options(raw: &Vec<(Vec<u8>, Vec<u8>)>) -> (r: Result<
    Vec<TftpOption>,
    OptionError,
>)
    ensures
        match r {
            Ok(v) => spec_parse_tftp_options(pairs_view(raw@)) == Ok::<_, OptionError>(v@),
            Err(e) => spec_parse_tftp_options(pairs_view(raw@)) == Err::<Seq<TftpOption>, _>(e),
        },
{
    proof {
        lemma_keys_lower();
    }
    let mut res: Vec<TftpOption> = Vec::new();

    let bk = key_blksize();
    let bs = lookup_option(raw, bk.as_slice());
    match bs {
        Some(v) => {
            match parse_dec_u32(v.as_slice(), 0, v.len()) {
                Some(x) if 8 <= x && x <= 65464 => {
                    res.push(TftpOption::Blocksize(x as u16));
                },
                _ => {
                    proof {
                        assert(v@.subrange(0, v@.len() as int) =~= v@);
                    }
                    return Err(OptionError::InvalidOption);
                },
            }
            proof {
                assert(v@.subrange(0, v@.len() as int) =~= v@);
            }
        },
        None => {},
    }

    let tk = key_timeout();
    let to = lookup_option(raw, tk.as_slice());
    match to {
        Some(v) => {
            match parse_dec_u32(v.as_slice(), 0, v.len()) {
                Some(x) if 1 <= x && x <= 255 => {
                    res.push(TftpOption::Timeout(x as u8));
                },
                _ => {
                    proof {
                        assert(v@.subrange(0, v@.len() as int) =~= v@);
                    }
                    return Err(OptionError::InvalidOption);
                },
            }
            proof {
                assert(v@.subrange(0, v@.len() as int) =~= v@);
            }
        },
        None => {},
    }

    let sk = key_tsize();
    let ts = lookup_option(raw, sk.as_slice());
    match ts {
        Some(v) => {
            match parse_dec_u32(v.as_slice(), 0, v.len()) {
                Some(x) => {
                    res.push(TftpOption::TransferSize(x));
                },
                None => {
                    proof {
                        assert(v@.subrange(0, v@.len() as int) =~= v@);
                    }
                    return Err(OptionError::InvalidOption);
                },
            }
            proof {
                assert(v@.subrange(0, v@.len() as int) =~= v@);
            }
        },
        None => {},
    }

    proof {
        let full = spec_parse_tftp_options(pairs_view(raw@));
        if full is Ok {
            assert(res@ =~= full->Ok_0);
        }
    }
    Ok(res)
}

/// The recognized keys are already lower case.
proof fn lemma_keys_lower()
    ensures
        lower_seq(spec_key_blksize()) == spec_key_blksize(),
        lower_seq(spec_key_timeout()) == spec_key_timeout(),
        lower_seq(spec_key_tsize()) == spec_key_tsize(),
{
    assert(lower_seq(spec_key_blksize()) =~= spec_key_blksize());
    assert(lower_seq(spec_key_timeout()) =~= spec_key_timeout());
    assert(lower_seq(spec_key_tsize()) =~= spec_key_tsize());
}

/// The effective options of a connection.
#[derive(Debug, Clone, Copy, PartialEq, Eq, Structural)]
pub struct TftpOptions {
    pub blocksize: u16,
    pub timeout_secs: u8,
    pub transfer_size: u32,
}

impl TftpOptions {
    /// Protocol defaults: 512-byte blocks, 5-second timeout, no size.
    pub open spec fn spec_default() -> TftpOptions {
        TftpOptions { blocksize: 512, timeout_secs: 5, transfer_size: 0 }
    }

    /// One option applied to an option set.
    pub open spec fn spec_apply1(o: TftpOptions, opt: TftpOption) -> TftpOptions {
        match opt {
            TftpOption::Blocksize(b) => TftpOptions {
                blocksize: b,
                timeout_secs: o.timeout_secs,
                transfer_size: o.transfer_size,
            },
            TftpOption::Timeout(t) => TftpOptions {
                blocksize: o.blocksize,
                timeout_secs: t,
                transfer_size: o.transfer_size,
            },
            TftpOption::TransferSize(s) => TftpOptions {
                blocksize: o.blocksize,
                timeout_secs: o.timeout_secs,
                transfer_size: s,
            },
        }
    }

    /// A list of options applied left to right.
    pub open spec fn spec_apply(o: TftpOptions, opts: Seq<TftpOption>) -> TftpOptions
        decreases opts.len(),
    {
        if opts.len() == 0 {
            o
        } else {
            TftpOptions::spec_apply(TftpOptions::spec_apply1(o, opts[0]), opts.drop_first())
        }
    }

    /// Overrides this set with each option in `opts`, in order.
    pub fn set_options(&mut self, opts: &Vec<TftpOption>)
        ensures
            *final(self) == TftpOptions::spec_apply(*old(self), opts@),
    {
        let mut i: usize = 0;
        proof {
            assert(opts@.skip(0) =~= opts@);
        }
        while i < opts.len()
            invariant
                i <= opts@.len(),
                TftpOptions::spec_apply(*old(self), opts@) == TftpOptions::spec_apply(
                    *self,
                    opts@.skip(i as int),
                ),
            decreases opts@.len() - i,
        {
            let ghost pre = *self;
            let ghost rest = opts@.skip(i as int);
            match opts[i] {
                TftpOption::Blocksize(b) => {
                    self.blocksize = b;
                },
                TftpOption::Timeout(t) => {
                    self.timeout_secs = t;
                },
                TftpOption::TransferSize(s) => {
                    self.transfer_size = s;
                },
            }
            proof {
                assert(rest[0] == opts@[i as int]);
                assert(rest.drop_first() =~= opts@.skip(i + 1));
                assert(*self == TftpOptions::spec_apply1(pre, rest[0]));
            }
            i = i + 1;
        }
        proof {
            assert(opts@.skip(opts@.len() as int) =~= Seq::<TftpOption>::empty());
        }
    }
}

impl Default for TftpOptions {
    /// The protocol defaults.
    fn default() -> (r: Self)
        ensures
            r == TftpOptions::spec_default(),
    {
        TftpOptions { blocksize: 512, timeout_secs: 5, transfer_size: 0 }
    }
}

/// The last option of a given kind, if any (the one whose value wins when
/// the list is applied).
pub open spec fn spec_last_kind(acc: Seq<TftpOption>, k: TftpOptionKind) -> Option<TftpOption>
    decreases acc.len(),
{
    if acc.len() == 0 {
        None
    } else if acc.last().spec_kind() == k {
        Some(acc.last())
    } else {
        spec_last_kind(acc.drop_last(), k)
    }
}

/// The field of an option set selected by an option kind.
pub open spec fn spec_field(o: TftpOptions, k: TftpOptionKind) -> int {
    match k {
        TftpOptionKind::Blocksize => o.blocksize as int,
        TftpOptionKind::Timeout => o.timeout_secs as int,
        TftpOptionKind::TransferSize => o.transfer_size as int,
    }
}

pub proof fn lemma_apply_concat(o: TftpOptions, s1: Seq<TftpOption>, s2: Seq<TftpOption>)
    ensures
        TftpOptions::spec_apply(o, s1 + s2) == TftpOptions::spec_apply(
            TftpOptions::spec_apply(o, s1),
            s2,
        ),
    decreases s1.len(),
{
    if s1.len() == 0 {
        assert(s1 + s2 =~= s2);
    } else {
        assert((s1 + s2).drop_first() =~= s1.drop_first() + s2);
        assert((s1 + s2)[0] == s1[0]);
        lemma_apply_concat(TftpOptions::spec_apply1(o, s1[0]), s1.drop_first(), s2);
    }
}

pub proof fn lemma_apply_snoc(o: TftpOptions, s: Seq<TftpOption>, x: TftpOption)
    ensures
        TftpOptions::spec_apply(o, s.push(x)) == TftpOptions::spec_apply1(
            TftpOptions::spec_apply(o, s),
            x,
        ),
{
    assert(s.push(x) =~= s + seq![x]);
    lemma_apply_concat(o, s, seq![x]);
    let mid = TftpOptions::spec_apply(o, s);
    assert(seq![x].drop_first() =~= Seq::<TftpOption>::empty());
    assert(TftpOptions::spec_apply(mid, seq![x]) == TftpOptions::spec_apply(
        TftpOptions::spec_apply1(mid, x),
        seq![x].drop_first(),
    ));
}

/// Applying a list drives each field to the value of the last option of
/// that kind, and leaves it alone when the kind is absent.
pub proof fn lemma_apply_field(o: TftpOptions, acc: Seq<TftpOption>, k: TftpOptionKind)
    ensures
        spec_field(TftpOptions::spec_apply(o, acc), k) == (match spec_last_kind(acc, k) {
            Some(x) => x.spec_value(),
            None => spec_field(o, k),
        }),
    decreases acc.len(),
{
    if acc.len() > 0 {
        let front = acc.drop_last();
        let x = acc.last();
        assert(front.push(x) =~= acc);
        lemma_apply_snoc(o, front, x);
        lemma_apply_field(o, front, k);
    }
}

/// `spec_last_kind` over a concatenation: the right part wins when it
/// holds the kind.
pub proof fn lemma_last_kind_concat(s1: Seq<TftpOption>, s2: Seq<TftpOption>, k: TftpOptionKind)
    ensures
        spec_last_kind(s1 + s2, k) == (match spec_last_kind(s2, k) {
            Some(x) => Some(x),
            None => spec_last_kind(s1, k),
        }),
    decreases s2.len(),
{
    if s2.len() == 0 {
        assert(s1 + s2 =~= s1);
    } else {
        assert((s1 + s2).drop_last() =~= s1 + s2.drop_last());
        assert((s1 + s2).last() == s2.last());
        lemma_last_kind_concat(s1, s2.drop_last(), k);
    }
}

/// The wire pairs of any option list are well formed option pairs: the
/// keys are the fixed lower-case names and the values are decimal
/// numerals. A request or OACK serialized from them therefore parses back
/// to the same pairs.
pub proof fn lemma_option_pairs_wf(opts: Seq<TftpOption>)
    ensures
        crate::packet::wf_opts(spec_option_pairs(opts)),
{
    let pairs = spec_option_pairs(opts);
    assert forall|i: int|
        0 <= i < pairs.len() implies crate::packet::wf_key(#[trigger] pairs[i].0)
        && crate::packet::wf_val(pairs[i].1) by {
        let o = opts[i];
        assert(pairs[i] == spec_option_pair(o));
        crate::bytes::lemma_dec_roundtrip(o.spec_value());
        match o.spec_kind() {
            TftpOptionKind::Blocksize => {
                assert(crate::packet::wf_key(spec_key_blksize()));
            },
            TftpOptionKind::Timeout => {
                assert(crate::packet::wf_key(spec_key_timeout()));
            },
            TftpOptionKind::TransferSize => {
                assert(crate::packet::wf_key(spec_key_tsize()));
            },
        }
    }
}

/// An OACK built from accepted options parses back to exactly their wire
/// pairs: the serialized reply loses nothing of the negotiation result.
pub proof fn lemma_oack_reply_roundtrip(acc: Seq<TftpOption>)
    ensures
        crate::packet::spec_oack_options(
            crate::packet::spec_oack_bytes(spec_option_pairs(acc)),
        ) == Ok::<_, crate::error::ParseError>(spec_option_pairs(acc)),
{
    lemma_option_pairs_wf(acc);
    crate::packet::lemma_oack_roundtrip(spec_option_pairs(acc));
}

/// Adds one option to a request's option list: the first option of the
/// same kind is replaced in place, otherwise the option is appended. The
/// list keeps at most one entry per kind.
pub fn add_option(opts: &mut Vec<TftpOption>, option: TftpOption)
    ensures
        (forall|j: int|
            0 <= j < old(opts)@.len() ==> (#[trigger] old(opts)@[j]).spec_kind()
                != option.spec_kind()) ==> final(opts)@ == old(opts)@.push(option),
        (exists|j: int|
            0 <= j < old(opts)@.len() && (#[trigger] old(opts)@[j]).spec_kind()
                == option.spec_kind()) ==> (exists|j: int|
            {
                &&& 0 <= j < old(opts)@.len()
                &&& (#[trigger] old(opts)@[j]).spec_kind() == option.spec_kind()
                &&& final(opts)@ == old(opts)@.update(j, option)
                &&& forall|k: int| 0 <= k < j ==> old(opts)@[k].spec_kind() != option.spec_kind()
            }),
{
    let mut i: usize = 0;
    while i < opts.len()
        invariant
            i <= opts@.len(),
            opts@ == old(opts)@,
            forall|k: int| 0 <= k < i ==> (#[trigger] opts@[k]).spec_kind() != option.spec_kind(),
        decreases opts@.len() - i,
    {
        if opts[i].kind() == option.kind() {
            opts[i] = option;
            proof {
                assert(opts@ == old(opts)@.update(i as int, option));
            }
            return ;
        }
        i = i + 1;
    }
    opts.push(option);
}

} // verus!




