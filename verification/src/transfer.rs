//! Stop-and-wait transfer state machines. The send machine tracks the
//! outstanding block and the retransmission budget; the receive machine
//! tracks the last delivered block. Socket I/O stays outside: callers feed
//! in classified packets and timeout events and perform the returned
//! decisions.

use vstd::prelude::*;
use vstd::arithmetic::div_mod::{
    lemma_add_mod_noop, lemma_mod_self_0, lemma_small_mod, lemma_sub_mod_noop,
};

use crate::error::ConnectionError;
use crate::packet::{spec_ack_block, spec_data_block, spec_data_payload, TftpPacket};

verus! {

/// Block number of the `n`-th data block of a transfer (`n` counted from 1):
/// block numbers start at 1 and wrap 65535 to 0.
pub open spec fn spec_nth_block(n: nat) -> u16 {
    (n % 0x10000) as u16
}

/// The successor of a block number, wrapping 65535 to 0.
pub open spec fn spec_next_block(b: u16) -> u16 {
    if b == 0xFFFF {
        0u16
    } else {
        (b + 1) as u16
    }
}

/// The wrap-around successor follows the block numbering.
pub proof fn lemma_next_block(n: nat)
    ensures
        spec_next_block(spec_nth_block(n)) == spec_nth_block(n + 1),
{
    lemma_small_mod(1, 0x10000);
    lemma_add_mod_noop(n as int, 1, 0x10000);
    if n % 0x10000 == 0xFFFF {
        lemma_mod_self_0(0x10000);
    } else {
        lemma_small_mod((n % 0x10000 + 1) as nat, 0x10000);
    }
}

/// Two block positions fewer than 65536 apart carry different block numbers.
pub proof fn lemma_blocks_distinct(a: nat, b: nat)
    requires
        a < b,
        b - a < 0x10000,
    ensures
        spec_nth_block(a) != spec_nth_block(b),
{
    lemma_sub_mod_noop(b as int, a as int, 0x10000);
    lemma_small_mod((b - a) as nat, 0x10000);
    if spec_nth_block(a) == spec_nth_block(b) {
        assert((b - a) % 0x10000 == (b % 0x10000 - a % 0x10000) % 0x10000);
        lemma_mod_self_0(0x10000);
        assert((b % 0x10000 - a % 0x10000) % 0x10000 == 0int % 0x10000) by {
            assert(b % 0x10000 == a % 0x10000);
        }
        lemma_small_mod(0, 0x10000);
    }
}

/// What to do with an ACK fed to the send machine.
#[derive(Debug, Clone, Copy, PartialEq, Eq, Structural)]
pub enum AckOutcome {
    /// The outstanding block is acknowledged; load the next chunk.
    Accepted,
    /// The final short block is acknowledged; the transfer is complete.
    Finished,
    /// A stale or unrelated ACK; keep waiting, the retry budget untouched.
    Ignored,
}

/// What to do after a receive timeout while awaiting an ACK.
#[derive(Debug, Clone, Copy, PartialEq, Eq, Structural)]
pub enum TimeoutOutcome {
    /// Send the outstanding block again.
    Retransmit,
    /// The retransmission budget is exhausted; fail with `Timeout`.
    Failed,
}

/// State of a send-data transfer (read request served, or write request
/// issued): the outstanding block and the retransmission budget.
pub struct SendTransfer {
    /// Block number of the outstanding DATA packet; 0 before the first.
    pub block: u16,
    /// Consecutive timeouts while awaiting the current ACK.
    pub retransmit_count: u8,
    /// Timeouts after which the transfer fails.
    pub max_retries: u8,
    /// Negotiated payload size per block.
    pub blocksize: u16,
    /// The outstanding block is shorter than the blocksize.
    pub end_of_stream: bool,
    /// The final block was acknowledged.
    pub done: bool,
    /// A block has been loaded: the executable witness that an ACK is
    /// awaited.
    pub started: bool,
    /// Block numbers handed to the wire, in first-transmission order.
    pub sent: Ghost<Seq<u16>>,
}

impl SendTransfer {
    /// Block numbers are consecutive from 1 with wrap-around, the counter
    /// matches the history, and the budget is never overdrawn.
    pub open spec fn wf(&self) -> bool {
        &&& forall|i: int|
            0 <= i < self.sent@.len() ==> #[trigger] self.sent@[i] == spec_nth_block((i + 1) as nat)
        &&& self.block == spec_nth_block(self.sent@.len())
        &&& self.started == (self.sent@.len() >= 1)
        &&& self.retransmit_count <= self.max_retries
        &&& (self.done ==> self.end_of_stream)
    }

    pub fn new(blocksize: u16, max_retries: u8) -> (r: SendTransfer)
        ensures
            r.wf(),
            r.block == 0,
            r.retransmit_count == 0,
            r.max_retries == max_retries,
            r.blocksize == blocksize,
            !r.end_of_stream,
            !r.done,
            !r.started,
            r.sent@ == Seq::<u16>::empty(),
    {
        proof {
            lemma_small_mod(0, 0x10000);
        }
        SendTransfer {
            block: 0,
            retransmit_count: 0,
            max_retries,
            blocksize,
            end_of_stream: false,
            done: false,
            started: false,
            sent: Ghost(Seq::empty()),
        }
    }

    /// Whether a block has been handed to the wire and its ACK may be
    /// awaited: the executable form of the ACK handlers' precondition.
    pub fn has_outstanding(&self) -> (r: bool)
        requires
            self.wf(),
        ensures
            r == (self.sent@.len() >= 1),
    {
        self.started
    }

    /// Takes the next chunk read from the stream: advances the block number
    /// with wrap-around, resets the retry budget, and notes the end of the
    /// stream when the chunk is short.
    pub fn next_block(&mut self, chunk_len: usize)
        requires
            old(self).wf(),
            !old(self).done,
            !old(self).end_of_stream,
            chunk_len <= old(self).blocksize,
        ensures
            final(self).wf(),
            final(self).block == spec_next_block(old(self).block),
            final(self).sent@ == old(self).sent@.push(final(self).block),
            final(self).retransmit_count == 0,
            final(self).end_of_stream == (chunk_len < old(self).blocksize),
            !final(self).done,
            final(self).blocksize == old(self).blocksize,
            final(self).max_retries == old(self).max_retries,
    {
        proof {
            lemma_next_block(self.sent@.len());
        }
        let nb: u16 = if self.block == 0xFFFF {
            0
        } else {
            self.block + 1
        };
        self.block = nb;
        self.retransmit_count = 0;
        self.started = true;
        self.end_of_stream = chunk_len < self.blocksize as usize;
        proof {
            self.sent@ = old(self).sent@.push(nb);
        }
    }

    /// Feeds an ACK. Only an ACK for the outstanding block advances the
    /// transfer (and resets the retry budget); every other block number is
    /// dropped without touching the state.
    pub fn on_ack(&mut self, ack_block: u16) -> (r: AckOutcome)
        requires
            old(self).wf(),
            !old(self).done,
            old(self).sent@.len() >= 1,
        ensures
            final(self).wf(),
            ack_block == old(self).block && old(self).end_of_stream ==> r == AckOutcome::Finished
                && *final(self) == (SendTransfer { retransmit_count: 0u8, done: true, ..*old(self) }),
            ack_block == old(self).block && !old(self).end_of_stream ==> r == AckOutcome::Accepted
                && *final(self) == (SendTransfer { retransmit_count: 0u8, ..*old(self) }),
            ack_block != old(self).block ==> r == AckOutcome::Ignored && *final(self) == *old(self),
    {
        if ack_block != self.block {
            return AckOutcome::Ignored;
        }
        self.retransmit_count = 0;
        if self.end_of_stream {
            self.done = true;
            AckOutcome::Finished
        } else {
            AckOutcome::Accepted
        }
    }

    /// Feeds a timeout. The block is retransmitted until `max_retries`
    /// consecutive timeouts have passed; the one that exhausts the budget
    /// fails the transfer.
    pub fn on_timeout(&mut self) -> (r: TimeoutOutcome)
        requires
            old(self).wf(),
        ensures
            final(self).wf(),
            (*final(self), r) == SendTransfer::spec_on_timeout(*old(self)),
            old(self).retransmit_count + 1 < old(self).max_retries ==> r
                == TimeoutOutcome::Retransmit && final(self).retransmit_count == old(
                self,
            ).retransmit_count + 1,
            old(self).retransmit_count + 1 >= old(self).max_retries ==> r
                == TimeoutOutcome::Failed && *final(self) == *old(self),
    {
        if (self.retransmit_count as u16) + 1 < (self.max_retries as u16) {
            self.retransmit_count = self.retransmit_count + 1;
            TimeoutOutcome::Retransmit
        } else {
            TimeoutOutcome::Failed
        }
    }

    /// The timeout transition as a function of the state: the timeout that
    /// would make `max_retries` consecutive ones fails the transfer, every
    /// earlier one retransmits.
    pub open spec fn spec_on_timeout(s: SendTransfer) -> (SendTransfer, TimeoutOutcome) {
        if s.retransmit_count + 1 < s.max_retries {
            (
                SendTransfer { retransmit_count: (s.retransmit_count + 1) as u8, ..s },
                TimeoutOutcome::Retransmit,
            )
        } else {
            (s, TimeoutOutcome::Failed)
        }
    }

    /// The state after `n` consecutive timeouts.
    pub open spec fn spec_timeouts(s: SendTransfer, n: nat) -> SendTransfer
        decreases n,
    {
        if n == 0 {
            s
        } else {
            SendTransfer::spec_on_timeout(SendTransfer::spec_timeouts(s, (n - 1) as nat)).0
        }
    }

    /// Handles one classified reply while awaiting the ACK of the
    /// outstanding block: an ACK is fed to the machine, a peer ERROR ends
    /// the transfer with `PeerError`, and anything else is `UnexpectedPacket`;
    /// the state is untouched on errors.
    pub fn on_wire_reply(&mut self, pkt: &TftpPacket) -> (r: Result<AckOutcome, ConnectionError>)
        requires
            old(self).wf(),
            !old(self).done,
            old(self).sent@.len() >= 1,
            pkt.wf(),
        ensures
            final(self).wf(),
            match r {
                Ok(out) => pkt matches TftpPacket::Ack(a)
                    && (out == AckOutcome::Ignored ==> *final(self) == *old(self))
                    && (spec_ack_block(a@) == old(self).block <==> out != AckOutcome::Ignored)
                    && (out == AckOutcome::Finished <==> spec_ack_block(a@) == old(self).block
                    && old(self).end_of_stream)
                    && (out == AckOutcome::Finished ==> final(self).done)
                    && (out == AckOutcome::Accepted ==> !final(self).done)
                    && (out != AckOutcome::Ignored ==> final(self).retransmit_count == 0
                    && final(self).block == old(self).block && final(self).sent@ == old(self).sent@
                    && final(self).end_of_stream == old(self).end_of_stream
                    && final(self).blocksize == old(self).blocksize
                    && final(self).max_retries == old(self).max_retries),
                Err(e) => *final(self) == *old(self) && match pkt {
                    TftpPacket::Error(p) => e matches ConnectionError::PeerError(t) && t.code
                        == crate::packet::spec_error_code(p@),
                    TftpPacket::Ack(_) => false,
                    _ => e == ConnectionError::UnexpectedPacket,
                },
            },
    {
        match pkt {
            TftpPacket::Ack(a) => {
                let b = a.blocknum();
                let out = self.on_ack(b);
                Ok(out)
            },
            TftpPacket::Error(p) => Err(
                ConnectionError::PeerError(p.to_owned_error()),
            ),
            _ => Err(ConnectionError::UnexpectedPacket),
        }
    }
}

/// No timeout before the budget is exhausted fails the transfer, and the
/// one that exhausts it does: starting from a freshly sent block (no
/// timeouts counted yet), the `n`-th consecutive timeout retransmits for
/// every `n` below `max_retries` and fails exactly at `n == max_retries`.
pub proof fn lemma_retransmission_bound(s: SendTransfer, n: nat)
    requires
        s.retransmit_count == 0,
        1 <= n <= s.max_retries,
    ensures
        SendTransfer::spec_timeouts(s, (n - 1) as nat).retransmit_count == n - 1,
        n < s.max_retries ==> SendTransfer::spec_on_timeout(
            SendTransfer::spec_timeouts(s, (n - 1) as nat),
        ).1 == TimeoutOutcome::Retransmit,
        n == s.max_retries ==> SendTransfer::spec_on_timeout(
            SendTransfer::spec_timeouts(s, (n - 1) as nat),
        ).1 == TimeoutOutcome::Failed,
    decreases n,
{
    if n == 1 {
        assert(SendTransfer::spec_timeouts(s, 0) == s);
    } else {
        lemma_retransmission_bound(s, (n - 1) as nat);
        let prev = SendTransfer::spec_timeouts(s, (n - 2) as nat);
        assert(prev.retransmit_count == n - 2);
        assert(prev.max_retries == s.max_retries) by {
            lemma_timeouts_fixed(s, (n - 2) as nat);
        }
        assert(prev.retransmit_count + 1 < s.max_retries);
        assert(SendTransfer::spec_timeouts(s, (n - 1) as nat) == SendTransfer::spec_on_timeout(
            prev,
        ).0);
        assert(SendTransfer::spec_timeouts(s, (n - 1) as nat).retransmit_count == n - 1);
    }
}

/// What a failed receive during the ACK wait means for the transfer.
#[derive(Debug, Clone, Copy, PartialEq, Eq, Structural)]
pub enum RecvFailure {
    /// A read timeout: it draws on the retransmission budget.
    CountTimeout,
    /// A datagram from a foreign address, already answered by the TID
    /// gate: keep waiting, the budget and every other state untouched.
    KeepWaiting,
    /// Any other failure ends the transfer.
    Fatal,
}

/// Classifies a receive failure during the ACK wait: only a timeout
/// consumes retransmission budget, a datagram the TID gate refused never
/// affects the transfer, and everything else is fatal.
pub fn classify_recv_failure(e: &ConnectionError) -> (r: RecvFailure)
    ensures
        r == RecvFailure::CountTimeout <==> e is Timeout,
        r == RecvFailure::KeepWaiting <==> e is UnknownTid,
        r == RecvFailure::Fatal <==> !(e is Timeout || e is UnknownTid),
{
    match e {
        ConnectionError::Timeout => RecvFailure::CountTimeout,
        ConnectionError::UnknownTid => RecvFailure::KeepWaiting,
        _ => RecvFailure::Fatal,
    }
}

/// What to do with a DATA packet fed to the receive machine.
#[derive(Debug, Clone, Copy, PartialEq, Eq, Structural)]
pub enum DataOutcome {
    /// The expected next block: write its payload once, then acknowledge it.
    AcceptWrite,
    /// A retransmission of the last delivered block: acknowledge it again,
    /// do not rewrite the bytes.
    DuplicateAck,
    /// Any other block number: drop silently.
    Ignore,
}

/// State of a receive-data transfer (read request issued, or write request
/// served): the last delivered block.
pub struct ReceiveTransfer {
    /// Last block written to the stream and acknowledged; 0 before the
    /// first (block 0 acknowledges option negotiation).
    pub last_block: u16,
    /// Negotiated payload size per block.
    pub blocksize: u16,
    /// A short block was delivered; the transfer is over.
    pub done: bool,
    /// Block numbers delivered to the stream, in order.
    pub written: Ghost<Seq<u16>>,
}

impl ReceiveTransfer {
    /// Delivered blocks are consecutive from 1 with wrap-around and the
    /// counter matches the history.
    pub open spec fn wf(&self) -> bool {
        &&& forall|i: int|
            0 <= i < self.written@.len() ==> #[trigger] self.written@[i] == spec_nth_block(
                (i + 1) as nat,
            )
        &&& self.last_block == spec_nth_block(self.written@.len())
    }

    pub fn new(blocksize: u16) -> (r: ReceiveTransfer)
        ensures
            r.wf(),
            r.last_block == 0,
            r.blocksize == blocksize,
            !r.done,
            r.written@ == Seq::<u16>::empty(),
    {
        proof {
            lemma_small_mod(0, 0x10000);
        }
        ReceiveTransfer { last_block: 0, blocksize, done: false, written: Ghost(Seq::empty()) }
    }

    /// Feeds a DATA packet's block number and payload length. The expected
    /// next block is delivered exactly once and acknowledged; the previous
    /// block is re-acknowledged without a write; everything else is
    /// dropped. A short payload ends the transfer.
    pub fn on_data(&mut self, block: u16, payload_len: usize) -> (r: DataOutcome)
        requires
            old(self).wf(),
            !old(self).done,
        ensures
            final(self).wf(),
            block == spec_next_block(old(self).last_block) ==> r == DataOutcome::AcceptWrite
                && final(self).last_block == block && final(self).written@ == old(
                self,
            ).written@.push(block) && final(self).done == (payload_len < old(self).blocksize)
                && final(self).blocksize == old(self).blocksize,
            block == old(self).last_block && block != spec_next_block(old(self).last_block) ==> r
                == DataOutcome::DuplicateAck && *final(self) == *old(self),
            block != old(self).last_block && block != spec_next_block(old(self).last_block) ==> r
                == DataOutcome::Ignore && *final(self) == *old(self),
    {
        let expected: u16 = if self.last_block == 0xFFFF {
            0
        } else {
            self.last_block + 1
        };
        if block == expected {
            proof {
                lemma_next_block(self.written@.len());
            }
            self.last_block = block;
            self.done = payload_len < self.blocksize as usize;
            proof {
                self.written@ = old(self).written@.push(block);
            }
            DataOutcome::AcceptWrite
        } else if block == self.last_block {
            DataOutcome::DuplicateAck
        } else {
            DataOutcome::Ignore
        }
    }

    /// Handles one classified packet of the receive loop: a DATA packet is
    /// fed to the machine, a peer ERROR ends the transfer with `PeerError`,
    /// and anything else is `UnexpectedPacket`; the state is untouched on
    /// errors.
    pub fn on_wire_packet(&mut self, pkt: &TftpPacket) -> (r: Result<
        DataOutcome,
        ConnectionError,
    >)
        requires
            old(self).wf(),
            !old(self).done,
            pkt.wf(),
        ensures
            final(self).wf(),
            match r {
                Ok(out) => pkt matches TftpPacket::Data(d)
                    && (out == DataOutcome::AcceptWrite <==> spec_data_block(d@)
                    == spec_next_block(old(self).last_block))
                    && (out == DataOutcome::DuplicateAck <==> spec_data_block(d@) == old(
                    self,
                ).last_block && spec_data_block(d@) != spec_next_block(old(self).last_block))
                    && (out == DataOutcome::AcceptWrite ==> final(self).last_block
                    == spec_data_block(d@) && final(self).written@ == old(self).written@.push(
                    final(self).last_block,
                ) && final(self).done == (spec_data_payload(d@).len() < old(self).blocksize))
                    && (out != DataOutcome::AcceptWrite ==> *final(self) == *old(self)),
                Err(e) => *final(self) == *old(self) && match pkt {
                    TftpPacket::Error(p) => e matches ConnectionError::PeerError(t) && t.code
                        == crate::packet::spec_error_code(p@),
                    TftpPacket::Data(_) => false,
                    _ => e == ConnectionError::UnexpectedPacket,
                },
            },
    {
        match pkt {
            TftpPacket::Data(d) => {
                let b = d.blocknum();
                let len = d.data_len();
                let out = self.on_data(b, len);
                proof {
                    if b == spec_next_block(old(self).last_block) && b == old(self).last_block {
                        // both cannot hold: the successor differs from its base
                        assert(false) by {
                            lemma_next_block_differs(old(self).last_block);
                        }
                    }
                }
                Ok(out)
            },
            TftpPacket::Error(p) => Err(ConnectionError::PeerError(p.to_owned_error())),
            _ => Err(ConnectionError::UnexpectedPacket),
        }
    }
}

/// A block number never equals its own successor.
pub proof fn lemma_next_block_differs(b: u16)
    ensures
        spec_next_block(b) != b,
{
}

/// Block counter monotonicity: the blocks a send run hands to the wire
/// are exactly 1, 2, 3, … in order, with the 65535 to 0 wrap; the `i`-th
/// transmitted block (counted from 0) carries number `(i+1) mod 65536`.
pub proof fn lemma_block_monotonicity(s: SendTransfer, i: int)
    requires
        s.wf(),
        0 <= i < s.sent@.len(),
    ensures
        s.sent@[i] == spec_nth_block((i + 1) as nat),
        i + 1 < s.sent@.len() ==> s.sent@[i + 1] == spec_next_block(s.sent@[i]),
{
    if i + 1 < s.sent@.len() {
        lemma_next_block((i + 1) as nat);
    }
}

/// Each position of the delivered history carries a distinct block number
/// within any window of 65536 blocks: a receive run writes a block at most
/// once before the counter wraps.
pub proof fn lemma_written_once(r: ReceiveTransfer, i: int, j: int)
    requires
        r.wf(),
        0 <= i < j < r.written@.len(),
        j - i < 0x10000,
    ensures
        r.written@[i] != r.written@[j],
{
    lemma_blocks_distinct((i + 1) as nat, (j + 1) as nat);
}

/// The same holds of the blocks a send run hands to the wire: within any
/// window of 65536 blocks, no block number is sent twice as a fresh block.
pub proof fn lemma_sent_once(s: SendTransfer, i: int, j: int)
    requires
        s.wf(),
        0 <= i < j < s.sent@.len(),
        j - i < 0x10000,
    ensures
        s.sent@[i] != s.sent@[j],
{
    lemma_blocks_distinct((i + 1) as nat, (j + 1) as nat);
}

/// Consecutive timeouts leave everything but the retry counter unchanged.
pub proof fn lemma_timeouts_fixed(s: SendTransfer, n: nat)
    ensures
        SendTransfer::spec_timeouts(s, n) == (SendTransfer {
            retransmit_count: SendTransfer::spec_timeouts(s, n).retransmit_count,
            ..s
        }),
    decreases n,
{
    if n > 0 {
        lemma_timeouts_fixed(s, (n - 1) as nat);
    }
}

} // verus!

