//! Sender engine: the state machine that drives an outbound transfer.
//!
//! The machine consumes one event at a time — a byte or a timeout from
//! the channel, a block or a failure from the source — and answers with
//! the one action the caller must perform next. Every transition is
//! pinned down by [`spec_sender_step`], so the retry, cancellation and
//! mode rules are facts about a mathematical function.
//!
//! The error counter is per phase: the handshake, each data block, and
//! the end-of-transmission negotiation each count against the full retry
//! budget from zero.

use vstd::prelude::*;

use crate::codec::{
    encode, next_seq, pad_block, spec_encode, spec_next_seq, spec_pad, trailer_len, Mode, ACK, CAN,
    CRC_REQUEST, EOT, NAK,
};
use crate::error::XModemError;
use crate::transport::copy_range;

verus! {

/// The sender's control state, over mathematical values.
pub enum SenderPhaseModel {
    /// Waiting for the receiver's sync byte.
    AwaitHandshake,
    /// Ready to read the next block from the source.
    FetchBlock,
    /// A frame is in flight and the receiver's reply is awaited; the
    /// frame is kept so that a resend is the identical packet.
    AwaitReply { frame: Seq<u8> },
    /// The source is exhausted; the end-of-transmission is negotiated.
    AwaitFinalAck,
    /// The transfer succeeded.
    Complete,
    /// The transfer ended with `err`.
    Failed { err: XModemError },
}

/// The whole sender, over mathematical values.
pub struct SenderModel {
    /// Retry limit; every phase counts against it afresh.
    pub retries: u32,
    /// Byte used to fill a short final block.
    pub padbyte: u8,
    /// Error-detection scheme; meaningful once the handshake chose it.
    pub mode: Mode,
    /// Sequence number of the block in flight or prepared next.
    pub seq: u8,
    /// Errors counted in the current phase.
    pub errors: u32,
    /// A CAN was the last byte seen, and a second one cancels.
    pub cancel_seen: bool,
    /// The control state.
    pub phase: SenderPhaseModel,
}

/// What the sender observed, over mathematical values.
pub enum SenderEventModel {
    /// The channel handed back one byte.
    Byte { value: u8 },
    /// A channel read timed out or failed.
    Timeout,
    /// The source handed back a block (empty means exhausted).
    Block { data: Seq<u8> },
    /// The source failed.
    SourceError,
}

/// What the caller must do next, over mathematical values.
pub enum SenderActionModel {
    /// Read one byte from the channel.
    Read,
    /// Read the next block, of at most 128 bytes, from the source.
    Fetch,
    /// Clear stale input, write `frame`, then read one reply byte.
    Transmit { frame: Seq<u8> },
    /// Clear stale input, write the EOT byte, then read one reply byte.
    SendEot,
    /// The transfer is over; report the outcome.
    Stop,
}

/// The sender's control state.
pub enum SenderPhase {
    AwaitHandshake,
    FetchBlock,
    AwaitReply { frame: Vec<u8> },
    AwaitFinalAck,
    Complete,
    Failed { err: XModemError },
}

/// What the sender observed.
pub enum SenderEvent {
    Byte { value: u8 },
    Timeout,
    Block { data: Vec<u8> },
    SourceError,
}

/// What the caller must do next.
pub enum SenderAction {
    Read,
    Fetch,
    Transmit { frame: Vec<u8> },
    SendEot,
    Stop,
}

impl View for SenderPhase {
    type V = SenderPhaseModel;

    open spec fn view(&self) -> SenderPhaseModel {
        match self {
            SenderPhase::AwaitHandshake => SenderPhaseModel::AwaitHandshake,
            SenderPhase::FetchBlock => SenderPhaseModel::FetchBlock,
            SenderPhase::AwaitReply { frame } => SenderPhaseModel::AwaitReply { frame: frame@ },
            SenderPhase::AwaitFinalAck => SenderPhaseModel::AwaitFinalAck,
            SenderPhase::Complete => SenderPhaseModel::Complete,
            SenderPhase::Failed { err } => SenderPhaseModel::Failed { err: *err },
        }
    }
}

impl View for SenderEvent {
    type V = SenderEventModel;

    open spec fn view(&self) -> SenderEventModel {
        match self {
            SenderEvent::Byte { value } => SenderEventModel::Byte { value: *value },
            SenderEvent::Timeout => SenderEventModel::Timeout,
            SenderEvent::Block { data } => SenderEventModel::Block { data: data@ },
            SenderEvent::SourceError => SenderEventModel::SourceError,
        }
    }
}

impl View for SenderAction {
    type V = SenderActionModel;

    open spec fn view(&self) -> SenderActionModel {
        match self {
            SenderAction::Read => SenderActionModel::Read,
            SenderAction::Fetch => SenderActionModel::Fetch,
            SenderAction::Transmit { frame } => SenderActionModel::Transmit { frame: frame@ },
            SenderAction::SendEot => SenderActionModel::SendEot,
            SenderAction::Stop => SenderActionModel::Stop,
        }
    }
}

/// The sender engine.
pub struct Sender {
    retries: u32,
    padbyte: u8,
    mode: Mode,
    seq: u8,
    errors: u32,
    cancel_seen: bool,
    phase: SenderPhase,
}

impl View for Sender {
    type V = SenderModel;

    closed spec fn view(&self) -> SenderModel {
        SenderModel {
            retries: self.retries,
            padbyte: self.padbyte,
            mode: self.mode,
            seq: self.seq,
            errors: self.errors,
            cancel_seen: self.cancel_seen,
            phase: self.phase@,
        }
    }
}

/// A transfer ended by `err`: the machine stops and asks for no more I/O.
pub open spec fn spec_sender_fail(m: SenderModel, err: XModemError) -> (
    SenderModel,
    SenderActionModel,
) {
    (SenderModel { phase: SenderPhaseModel::Failed { err }, ..m }, SenderActionModel::Stop)
}

/// One more error in the current phase: past the retry limit the transfer
/// fails with `err`, otherwise the counter grows and `retry` is performed.
pub open spec fn spec_count_error(
    m: SenderModel,
    err: XModemError,
    retry: SenderActionModel,
) -> (SenderModel, SenderActionModel) {
    if m.errors >= m.retries {
        spec_sender_fail(m, err)
    } else {
        (SenderModel { errors: (m.errors + 1) as u32, ..m }, retry)
    }
}

/// Handshake: NAK selects checksum mode, 'C' selects CRC mode, EOT is a
/// cancel by the peer, a second consecutive CAN cancels, and anything
/// else — a stray byte or a timeout — counts against the retry limit.
pub open spec fn spec_handshake_step(m: SenderModel, ev: SenderEventModel) -> (
    SenderModel,
    SenderActionModel,
) {
    match ev {
        SenderEventModel::Byte { value } => {
            if value == NAK {
                (
                    SenderModel {
                        mode: Mode::Checksum,
                        errors: 0,
                        cancel_seen: false,
                        phase: SenderPhaseModel::FetchBlock,
                        ..m
                    },
                    SenderActionModel::Fetch,
                )
            } else if value == CRC_REQUEST {
                (
                    SenderModel {
                        mode: Mode::Crc16,
                        errors: 0,
                        cancel_seen: false,
                        phase: SenderPhaseModel::FetchBlock,
                        ..m
                    },
                    SenderActionModel::Fetch,
                )
            } else if value == EOT {
                spec_sender_fail(m, XModemError::Cancelled)
            } else if value == CAN {
                if m.cancel_seen {
                    spec_sender_fail(m, XModemError::Cancelled)
                } else {
                    (SenderModel { cancel_seen: true, ..m }, SenderActionModel::Read)
                }
            } else {
                spec_count_error(
                    SenderModel { cancel_seen: false, ..m },
                    XModemError::SynchronizationTimeout,
                    SenderActionModel::Read,
                )
            }
        },
        SenderEventModel::Timeout => spec_count_error(
            m,
            XModemError::SynchronizationTimeout,
            SenderActionModel::Read,
        ),
        _ => (m, SenderActionModel::Stop),
    }
}

/// Reading the source: an empty block means the source is exhausted and
/// the end-of-transmission begins; otherwise the block is padded to 128
/// bytes, framed for the current sequence number and transmitted.
pub open spec fn spec_fetch_step(m: SenderModel, ev: SenderEventModel) -> (
    SenderModel,
    SenderActionModel,
) {
    match ev {
        SenderEventModel::Block { data } => {
            if data.len() == 0 {
                (
                    SenderModel { errors: 0, phase: SenderPhaseModel::AwaitFinalAck, ..m },
                    SenderActionModel::SendEot,
                )
            } else {
                let frame = spec_encode(m.seq, spec_pad(data, m.padbyte, 128), m.mode);
                (
                    SenderModel { phase: SenderPhaseModel::AwaitReply { frame }, ..m },
                    SenderActionModel::Transmit { frame },
                )
            }
        },
        SenderEventModel::SourceError => spec_sender_fail(m, XModemError::IoError),
        _ => (m, SenderActionModel::Stop),
    }
}

/// Awaiting the reply to a frame: ACK advances the sequence number and
/// releases the frame; a second consecutive CAN cancels; NAK, any other
/// byte or a timeout counts an error and orders a resend of the
/// identical frame.
pub open spec fn spec_reply_step(m: SenderModel, frame: Seq<u8>, ev: SenderEventModel) -> (
    SenderModel,
    SenderActionModel,
) {
    match ev {
        SenderEventModel::Byte { value } => {
            if value == ACK {
                (
                    SenderModel {
                        seq: spec_next_seq(m.seq),
                        errors: 0,
                        cancel_seen: false,
                        phase: SenderPhaseModel::FetchBlock,
                        ..m
                    },
                    SenderActionModel::Fetch,
                )
            } else if value == CAN {
                if m.cancel_seen {
                    spec_sender_fail(m, XModemError::Cancelled)
                } else {
                    (SenderModel { cancel_seen: true, ..m }, SenderActionModel::Read)
                }
            } else {
                spec_count_error(
                    SenderModel { cancel_seen: false, ..m },
                    XModemError::TransferAborted,
                    SenderActionModel::Transmit { frame },
                )
            }
        },
        SenderEventModel::Timeout => spec_count_error(
            m,
            XModemError::TransferAborted,
            SenderActionModel::Transmit { frame },
        ),
        _ => (m, SenderActionModel::Stop),
    }
}

/// Negotiating the end of transmission: ACK completes the transfer, a
/// second consecutive CAN cancels, and any other byte or a timeout
/// counts an error and orders the EOT to be sent again.
pub open spec fn spec_final_ack_step(m: SenderModel, ev: SenderEventModel) -> (
    SenderModel,
    SenderActionModel,
) {
    match ev {
        SenderEventModel::Byte { value } => {
            if value == ACK {
                (SenderModel { phase: SenderPhaseModel::Complete, ..m }, SenderActionModel::Stop)
            } else if value == CAN {
                if m.cancel_seen {
                    spec_sender_fail(m, XModemError::Cancelled)
                } else {
                    (SenderModel { cancel_seen: true, ..m }, SenderActionModel::Read)
                }
            } else {
                spec_count_error(
                    SenderModel { cancel_seen: false, ..m },
                    XModemError::EndOfTransmissionTimeout,
                    SenderActionModel::SendEot,
                )
            }
        },
        SenderEventModel::Timeout => spec_count_error(
            m,
            XModemError::EndOfTransmissionTimeout,
            SenderActionModel::SendEot,
        ),
        _ => (m, SenderActionModel::Stop),
    }
}

/// The complete transition function of the sender engine.
pub open spec fn spec_sender_step(m: SenderModel, ev: SenderEventModel) -> (
    SenderModel,
    SenderActionModel,
) {
    match m.phase {
        SenderPhaseModel::AwaitHandshake => spec_handshake_step(m, ev),
        SenderPhaseModel::FetchBlock => spec_fetch_step(m, ev),
        SenderPhaseModel::AwaitReply { frame } => spec_reply_step(m, frame, ev),
        SenderPhaseModel::AwaitFinalAck => spec_final_ack_step(m, ev),
        SenderPhaseModel::Complete => (m, SenderActionModel::Stop),
        SenderPhaseModel::Failed { .. } => (m, SenderActionModel::Stop),
    }
}

/// The transfer is over, well or badly.
pub open spec fn spec_sender_terminal(phase: SenderPhaseModel) -> bool {
    match phase {
        SenderPhaseModel::Complete => true,
        SenderPhaseModel::Failed { .. } => true,
        _ => false,
    }
}

/// Which events each phase can observe: channel phases see bytes and
/// timeouts, the fetch phase sees source blocks of at most 128 bytes and
/// source failures; a terminal phase observes nothing.
pub open spec fn spec_sender_event_fits(phase: SenderPhaseModel, ev: SenderEventModel) -> bool {
    match phase {
        SenderPhaseModel::FetchBlock => match ev {
            SenderEventModel::Block { data } => data.len() <= 128,
            SenderEventModel::SourceError => true,
            _ => false,
        },
        SenderPhaseModel::Complete => false,
        SenderPhaseModel::Failed { .. } => false,
        _ => ev is Byte || ev is Timeout,
    }
}

/// A well-formed sender: the retry limit is at least 1, the error count
/// never exceeds it, and any frame in flight is the encoding, in the
/// session mode, of its own payload bytes under the current sequence
/// number.
pub open spec fn spec_sender_wf(m: SenderModel) -> bool {
    &&& m.retries >= 1
    &&& m.errors <= m.retries
    &&& (match m.phase {
        SenderPhaseModel::AwaitReply { frame } => {
            &&& frame.len() == 131 + trailer_len(m.mode)
            &&& frame == spec_encode(m.seq, frame.subrange(3, 131), m.mode)
        },
        _ => true,
    })
}

/// Which actions fit which state: the machine only ever asks for the I/O
/// of the phase it is in, and asks for none once terminal.
pub open spec fn spec_sender_action_fits(m: SenderModel, a: SenderActionModel) -> bool {
    match a {
        SenderActionModel::Read => m.phase is AwaitHandshake || m.phase is AwaitReply
            || m.phase is AwaitFinalAck,
        SenderActionModel::Fetch => m.phase is FetchBlock,
        SenderActionModel::Transmit { frame } => m.phase == (SenderPhaseModel::AwaitReply {
            frame,
        }),
        SenderActionModel::SendEot => m.phase is AwaitFinalAck,
        SenderActionModel::Stop => spec_sender_terminal(m.phase),
    }
}

/// A variant ordering used to show that runs make progress: every
/// transition either consumes input, lowers this rank, or spends one of
/// the bounded retries.
pub open spec fn spec_sender_rank(phase: SenderPhaseModel) -> int {
    match phase {
        SenderPhaseModel::AwaitHandshake => 4,
        SenderPhaseModel::AwaitReply { .. } => 3,
        SenderPhaseModel::FetchBlock => 2,
        SenderPhaseModel::AwaitFinalAck => 1,
        SenderPhaseModel::Complete => 0,
        SenderPhaseModel::Failed { .. } => 0,
    }
}

/// The model of a fresh sender.
pub open spec fn spec_sender_init(retries: u32, padbyte: u8) -> SenderModel {
    SenderModel {
        retries,
        padbyte,
        mode: Mode::Checksum,
        seq: 1,
        errors: 0,
        cancel_seen: false,
        phase: SenderPhaseModel::AwaitHandshake,
    }
}

/// The terminal outcome of a run.
pub open spec fn spec_sender_outcome(m: SenderModel) -> Result<(), XModemError> {
    match m.phase {
        SenderPhaseModel::Failed { err } => Err(err),
        _ => Ok(()),
    }
}

impl Sender {
    /// A fresh sender: handshake pending, first block numbered 1.
    pub fn new(retries: u32, padbyte: u8) -> (r: Self)
        requires
            retries >= 1,
        ensures
            r@ == spec_sender_init(retries, padbyte),
            spec_sender_wf(r@),
    {
        Sender {
            retries,
            padbyte,
            mode: Mode::Checksum,
            seq: 1,
            errors: 0,
            cancel_seen: false,
            phase: SenderPhase::AwaitHandshake,
        }
    }

    /// The outcome of a finished run.
    pub fn outcome(&self) -> (r: Result<(), XModemError>)
        requires
            spec_sender_terminal(self@.phase),
        ensures
            r == spec_sender_outcome(self@),
    {
        match &self.phase {
            SenderPhase::Failed { err } => Err(*err),
            _ => Ok(()),
        }
    }

    /// Feeds one event to the machine and returns the action the caller
    /// must perform next; the transition is exactly [`spec_sender_step`].
    pub fn step(&mut self, ev: SenderEvent) -> (a: SenderAction)
        requires
            spec_sender_wf(old(self)@),
            spec_sender_event_fits(old(self)@.phase, ev@),
        ensures
            final(self)@ == spec_sender_step(old(self)@, ev@).0,
            a@ == spec_sender_step(old(self)@, ev@).1,
            spec_sender_wf(final(self)@),
            spec_sender_action_fits(final(self)@, a@),
    {
        match &self.phase {
            SenderPhase::AwaitHandshake => {
                match ev {
                    SenderEvent::Byte { value } => {
                        if value == NAK {
                            self.mode = Mode::Checksum;
                            self.errors = 0;
                            self.cancel_seen = false;
                            self.phase = SenderPhase::FetchBlock;
                            SenderAction::Fetch
                        } else if value == CRC_REQUEST {
                            self.mode = Mode::Crc16;
                            self.errors = 0;
                            self.cancel_seen = false;
                            self.phase = SenderPhase::FetchBlock;
                            SenderAction::Fetch
                        } else if value == EOT {
                            self.phase = SenderPhase::Failed { err: XModemError::Cancelled };
                            SenderAction::Stop
                        } else if value == CAN {
                            if self.cancel_seen {
                                self.phase = SenderPhase::Failed { err: XModemError::Cancelled };
                                SenderAction::Stop
                            } else {
                                self.cancel_seen = true;
                                SenderAction::Read
                            }
                        } else {
                            self.cancel_seen = false;
                            if self.errors >= self.retries {
                                self.phase = SenderPhase::Failed {
                                    err: XModemError::SynchronizationTimeout,
                                };
                                SenderAction::Stop
                            } else {
                                self.errors = self.errors + 1;
                                SenderAction::Read
                            }
                        }
                    },
                    SenderEvent::Timeout => {
                        if self.errors >= self.retries {
                            self.phase = SenderPhase::Failed {
                                err: XModemError::SynchronizationTimeout,
                            };
                            SenderAction::Stop
                        } else {
                            self.errors = self.errors + 1;
                            SenderAction::Read
                        }
                    },
                    _ => {
                        proof {
                            assert(false);
                        }
                        SenderAction::Stop
                    },
                }
            },
            SenderPhase::FetchBlock => {
                match ev {
                    SenderEvent::Block { data } => {
                        if data.len() == 0 {
                            self.errors = 0;
                            self.phase = SenderPhase::AwaitFinalAck;
                            SenderAction::SendEot
                        } else {
                            let ghost d = data@;
                            let mut padded = data;
                            pad_block(&mut padded, self.padbyte, 128);
                            let frame = encode(self.seq, padded.as_slice(), self.mode);
                            let frame_copy = copy_range(&frame, 0, frame.len());
                            proof {
                                assert(frame_copy@ =~= frame@);
                                assert(frame@.subrange(3, 131) =~= spec_pad(
                                    d,
                                    self.padbyte,
                                    128,
                                ));
                            }
                            self.phase = SenderPhase::AwaitReply { frame };
                            SenderAction::Transmit { frame: frame_copy }
                        }
                    },
                    SenderEvent::SourceError => {
                        self.phase = SenderPhase::Failed { err: XModemError::IoError };
                        SenderAction::Stop
                    },
                    _ => {
                        proof {
                            assert(false);
                        }
                        SenderAction::Stop
                    },
                }
            },
            SenderPhase::AwaitReply { frame } => {
                match ev {
                    SenderEvent::Byte { value } => {
                        if value == ACK {
                            self.seq = next_seq(self.seq);
                            self.errors = 0;
                            self.cancel_seen = false;
                            self.phase = SenderPhase::FetchBlock;
                            SenderAction::Fetch
                        } else if value == CAN {
                            if self.cancel_seen {
                                self.phase = SenderPhase::Failed { err: XModemError::Cancelled };
                                SenderAction::Stop
                            } else {
                                self.cancel_seen = true;
                                SenderAction::Read
                            }
                        } else {
                            self.cancel_seen = false;
                            if self.errors >= self.retries {
                                self.phase = SenderPhase::Failed {
                                    err: XModemError::TransferAborted,
                                };
                                SenderAction::Stop
                            } else {
                                self.errors = self.errors + 1;
                                let resend = copy_range(frame, 0, frame.len());
                                proof {
                                    assert(resend@ =~= frame@);
                                }
                                SenderAction::Transmit { frame: resend }
                            }
                        }
                    },
                    SenderEvent::Timeout => {
                        if self.errors >= self.retries {
                            self.phase = SenderPhase::Failed { err: XModemError::TransferAborted };
                            SenderAction::Stop
                        } else {
                            self.errors = self.errors + 1;
                            let resend = copy_range(frame, 0, frame.len());
                            proof {
                                assert(resend@ =~= frame@);
                            }
                            SenderAction::Transmit { frame: resend }
                        }
                    },
                    _ => {
                        proof {
                            assert(false);
                        }
                        SenderAction::Stop
                    },
                }
            },
            SenderPhase::AwaitFinalAck => {
                match ev {
                    SenderEvent::Byte { value } => {
                        if value == ACK {
                            self.phase = SenderPhase::Complete;
                            SenderAction::Stop
                        } else if value == CAN {
                            if self.cancel_seen {
                                self.phase = SenderPhase::Failed { err: XModemError::Cancelled };
                                SenderAction::Stop
                            } else {
                                self.cancel_seen = true;
                                SenderAction::Read
                            }
                        } else {
                            self.cancel_seen = false;
                            if self.errors >= self.retries {
                                self.phase = SenderPhase::Failed {
                                    err: XModemError::EndOfTransmissionTimeout,
                                };
                                SenderAction::Stop
                            } else {
                                self.errors = self.errors + 1;
                                SenderAction::SendEot
                            }
                        }
                    },
                    SenderEvent::Timeout => {
                        if self.errors >= self.retries {
                            self.phase = SenderPhase::Failed {
                                err: XModemError::EndOfTransmissionTimeout,
                            };
                            SenderAction::Stop
                        } else {
                            self.errors = self.errors + 1;
                            SenderAction::SendEot
                        }
                    },
                    _ => {
                        proof {
                            assert(false);
                        }
                        SenderAction::Stop
                    },
                }
            },
            SenderPhase::Complete => {
                proof {
                    assert(false);
                }
                SenderAction::Stop
            },
            SenderPhase::Failed { .. } => {
                proof {
                    assert(false);
                }
                SenderAction::Stop
            },
        }
    }
}

/// The sender after `k` consecutive NAK replies to the frame in flight.
pub open spec fn spec_apply_naks(m: SenderModel, k: nat) -> SenderModel
    decreases k,
{
    if k == 0 {
        m
    } else {
        spec_apply_naks(
            spec_sender_step(m, SenderEventModel::Byte { value: NAK }).0,
            (k - 1) as nat,
        )
    }
}

proof fn lemma_naks_below_limit(m: SenderModel, frame: Seq<u8>, k: nat)
    requires
        spec_sender_wf(m),
        m.phase == (SenderPhaseModel::AwaitReply { frame }),
        !m.cancel_seen,
        m.errors + k <= m.retries,
    ensures
        spec_apply_naks(m, k) == (SenderModel { errors: (m.errors + k) as u32, ..m }),
        forall|j: nat|
            j < k ==> #[trigger] spec_sender_step(
                spec_apply_naks(m, j),
                SenderEventModel::Byte { value: NAK },
            ).1 == (SenderActionModel::Transmit { frame }),
    decreases k,
{
    if k > 0 {
        let m1 = spec_sender_step(m, SenderEventModel::Byte { value: NAK }).0;
        assert(m1 == (SenderModel { errors: (m.errors + 1) as u32, ..m }));
        lemma_naks_below_limit(m1, frame, (k - 1) as nat);
        assert forall|j: nat| j < k implies #[trigger] spec_sender_step(
            spec_apply_naks(m, j),
            SenderEventModel::Byte { value: NAK },
        ).1 == (SenderActionModel::Transmit { frame }) by {
            if j > 0 {
                assert(spec_apply_naks(m, j) == spec_apply_naks(m1, (j - 1) as nat));
            }
        }
    }
}

/// Retry exhaustion: against a peer that answers every transmission of a
/// block with NAK, each of the first `retries` NAK replies leaves the
/// machine awaiting a reply to the very same frame and orders a resend of
/// that identical frame, and the NAK after that — the reply to attempt
/// `retries + 1` at the block — ends the transfer as `TransferAborted`
/// with no further I/O asked for.
pub proof fn lemma_retry_exhaustion(m: SenderModel, frame: Seq<u8>)
    requires
        spec_sender_wf(m),
        m.phase == (SenderPhaseModel::AwaitReply { frame }),
        !m.cancel_seen,
        m.errors == 0,
    ensures
        forall|j: nat|
            j < m.retries ==> #[trigger] spec_sender_step(
                spec_apply_naks(m, j),
                SenderEventModel::Byte { value: NAK },
            ).1 == (SenderActionModel::Transmit { frame }),
        spec_apply_naks(m, m.retries as nat).phase == m.phase,
        spec_sender_step(
            spec_apply_naks(m, m.retries as nat),
            SenderEventModel::Byte { value: NAK },
        ).0.phase == (SenderPhaseModel::Failed { err: XModemError::TransferAborted }),
        spec_sender_step(
            spec_apply_naks(m, m.retries as nat),
            SenderEventModel::Byte { value: NAK },
        ).1 == SenderActionModel::Stop,
{
    lemma_naks_below_limit(m, frame, m.retries as nat);
}

/// Double-CAN cancellation (sending side): wherever the sender is
/// waiting on the channel with no CAN pending, a first CAN only asks for
/// another read — nothing is transmitted — and a second consecutive CAN
/// ends the transfer as `Cancelled` with no further I/O asked for.
pub proof fn lemma_sender_double_can(m: SenderModel)
    requires
        spec_sender_wf(m),
        m.phase is AwaitHandshake || m.phase is AwaitReply || m.phase is AwaitFinalAck,
        !m.cancel_seen,
    ensures
        spec_sender_step(m, SenderEventModel::Byte { value: CAN }).0 == (SenderModel {
            cancel_seen: true,
            ..m
        }),
        spec_sender_step(m, SenderEventModel::Byte { value: CAN }).1 == SenderActionModel::Read,
        spec_sender_step(
            spec_sender_step(m, SenderEventModel::Byte { value: CAN }).0,
            SenderEventModel::Byte { value: CAN },
        ).0.phase == (SenderPhaseModel::Failed { err: XModemError::Cancelled }),
        spec_sender_step(
            spec_sender_step(m, SenderEventModel::Byte { value: CAN }).0,
            SenderEventModel::Byte { value: CAN },
        ).1 == SenderActionModel::Stop,
{
}

/// The handshake byte decides the session mode: NAK selects checksum
/// trailers and the CRC-request byte selects CRC trailers, and either
/// starts the transfer proper.
pub proof fn lemma_handshake_selects_mode(m: SenderModel)
    requires
        spec_sender_wf(m),
        m.phase is AwaitHandshake,
    ensures
        spec_sender_step(m, SenderEventModel::Byte { value: NAK }).0.mode == Mode::Checksum,
        spec_sender_step(m, SenderEventModel::Byte { value: NAK }).0.phase is FetchBlock,
        spec_sender_step(m, SenderEventModel::Byte { value: CRC_REQUEST }).0.mode == Mode::Crc16,
        spec_sender_step(
            m,
            SenderEventModel::Byte { value: CRC_REQUEST },
        ).0.phase is FetchBlock,
{
}

/// Mode consistency: once the handshake is over, no event ever changes
/// the session mode, and every frame the machine asks to have
/// transmitted — first send and resend alike — is the encoding of its
/// own payload in that one mode, so its trailer is the 1-byte checksum
/// exactly when NAK opened the session and the 2-byte CRC exactly when
/// the CRC-request byte did.
pub proof fn lemma_mode_consistency(m: SenderModel, ev: SenderEventModel)
    requires
        spec_sender_wf(m),
        spec_sender_event_fits(m.phase, ev),
        !(m.phase is AwaitHandshake),
    ensures
        spec_sender_step(m, ev).0.mode == m.mode,
        (match spec_sender_step(m, ev).1 {
            SenderActionModel::Transmit { frame } => {
                &&& frame.len() == 131 + trailer_len(m.mode)
                &&& frame == spec_encode(m.seq, frame.subrange(3, 131), m.mode)
            },
            _ => true,
        }),
{
    match m.phase {
        SenderPhaseModel::FetchBlock => {
            match ev {
                SenderEventModel::Block { data } => {
                    if data.len() > 0 {
                        let padded = spec_pad(data, m.padbyte, 128);
                        let frame = spec_encode(m.seq, padded, m.mode);
                        assert(frame.subrange(3, 131) =~= padded);
                    }
                },
                _ => {},
            }
        },
        _ => {},
    }
}

} // verus!
