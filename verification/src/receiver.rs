//! Receiver engine: the state machine that drives an inbound transfer.
//!
//! The machine consumes one event at a time — a header byte, a block
//! body, a timeout or a sink failure — and answers with the one action
//! the caller must perform next. Every transition is pinned down by
//! [`spec_receiver_step`].
//!
//! The error counters are per phase: header hunting and block bodies
//! each count against the full retry budget. A receiver that exhausts
//! its retries fails locally without emitting CAN to the peer.

use vstd::prelude::*;

use crate::codec::{
    block_len_of_header, decode_and_validate, spec_decode, spec_next_seq, trailer_len, Mode, CAN,
    CRC_REQUEST, EOT, NAK, SOH, STX,
};
use crate::error::XModemError;

verus! {

/// The receiver's control state, over mathematical values.
pub enum ReceiverPhaseModel {
    /// Waiting for the next header byte (or for the handshake to take).
    AwaitHeader,
    /// A block header was seen; the rest of the frame is being read.
    AwaitBody { header: u8 },
    /// EOT was seen; the transfer succeeded once the final ACK goes out.
    Complete,
    /// The transfer ended with `err`.
    Failed { err: XModemError },
}

/// The whole receiver, over mathematical values.
pub struct ReceiverModel {
    /// Retry limit; every phase counts against it afresh.
    pub retries: u32,
    /// Error-detection scheme this receiver asks for and validates with.
    pub mode: Mode,
    /// Sequence number the next valid block must carry.
    pub expected_seq: u8,
    /// Errors counted while hunting for a header.
    pub sync_errors: u32,
    /// Errors counted against block bodies.
    pub data_errors: u32,
    /// A CAN was the last byte seen, and a second one cancels.
    pub cancel_seen: bool,
    /// Bytes accepted into the sink so far.
    pub count: usize,
    /// The control state.
    pub phase: ReceiverPhaseModel,
}

/// What the receiver observed, over mathematical values.
pub enum ReceiverEventModel {
    /// The channel handed back one byte.
    Byte { value: u8 },
    /// A channel read timed out or failed.
    Timeout,
    /// The channel handed back the body of a frame.
    Body { data: Seq<u8> },
    /// The sink refused a delivered payload.
    SinkError,
}

/// What the caller must do next, over mathematical values.
pub enum ReceiverActionModel {
    /// Write the sync byte, then read one byte.
    SyncRead,
    /// Read one byte.
    ReadByte,
    /// Read exactly `n` bytes.
    ReadBody { n: usize },
    /// Write a NAK, then read one byte.
    NakRead,
    /// Append `payload` to the sink; when that succeeds, write an ACK
    /// and read one byte.
    Deliver { payload: Seq<u8> },
    /// Write the final ACK; the transfer succeeded.
    FinishAck,
    /// The transfer failed; report the outcome.
    Stop,
}

/// The receiver's control state.
pub enum ReceiverPhase {
    AwaitHeader,
    AwaitBody { header: u8 },
    Complete,
    Failed { err: XModemError },
}

/// What the receiver observed.
pub enum ReceiverEvent {
    Byte { value: u8 },
    Timeout,
    Body { data: Vec<u8> },
    SinkError,
}

/// What the caller must do next.
pub enum ReceiverAction {
    SyncRead,
    ReadByte,
    ReadBody { n: usize },
    NakRead,
    Deliver { payload: Vec<u8> },
    FinishAck,
    Stop,
}

impl View for ReceiverPhase {
    type V = ReceiverPhaseModel;

    open spec fn view(&self) -> ReceiverPhaseModel {
        match self {
            ReceiverPhase::AwaitHeader => ReceiverPhaseModel::AwaitHeader,
            ReceiverPhase::AwaitBody { header } => ReceiverPhaseModel::AwaitBody {
                header: *header,
            },
            ReceiverPhase::Complete => ReceiverPhaseModel::Complete,
            ReceiverPhase::Failed { err } => ReceiverPhaseModel::Failed { err: *err },
        }
    }
}

impl View for ReceiverEvent {
    type V = ReceiverEventModel;

    open spec fn view(&self) -> ReceiverEventModel {
        match self {
            ReceiverEvent::Byte { value } => ReceiverEventModel::Byte { value: *value },
            ReceiverEvent::Timeout => ReceiverEventModel::Timeout,
            ReceiverEvent::Body { data } => ReceiverEventModel::Body { data: data@ },
            ReceiverEvent::SinkError => ReceiverEventModel::SinkError,
        }
    }
}

impl View for ReceiverAction {
    type V = ReceiverActionModel;

    open spec fn view(&self) -> ReceiverActionModel {
        match self {
            ReceiverAction::SyncRead => ReceiverActionModel::SyncRead,
            ReceiverAction::ReadByte => ReceiverActionModel::ReadByte,
            ReceiverAction::ReadBody { n } => ReceiverActionModel::ReadBody { n: *n },
            ReceiverAction::NakRead => ReceiverActionModel::NakRead,
            ReceiverAction::Deliver { payload } => ReceiverActionModel::Deliver {
                payload: payload@,
            },
            ReceiverAction::FinishAck => ReceiverActionModel::FinishAck,
            ReceiverAction::Stop => ReceiverActionModel::Stop,
        }
    }
}

/// The receiver engine.
pub struct Receiver {
    retries: u32,
    mode: Mode,
    expected_seq: u8,
    sync_errors: u32,
    data_errors: u32,
    cancel_seen: bool,
    count: usize,
    phase: ReceiverPhase,
}

impl View for Receiver {
    type V = ReceiverModel;

    closed spec fn view(&self) -> ReceiverModel {
        ReceiverModel {
            retries: self.retries,
            mode: self.mode,
            expected_seq: self.expected_seq,
            sync_errors: self.sync_errors,
            data_errors: self.data_errors,
            cancel_seen: self.cancel_seen,
            count: self.count,
            phase: self.phase@,
        }
    }
}

/// The sync byte a receiver in `mode` sends: NAK asks for checksum
/// trailers, 'C' asks for CRC trailers.
pub open spec fn spec_sync_byte(mode: Mode) -> u8 {
    match mode {
        Mode::Checksum => NAK,
        Mode::Crc16 => CRC_REQUEST,
    }
}

/// A transfer ended by `err`: the machine stops and asks for no more I/O.
pub open spec fn spec_receiver_fail(m: ReceiverModel, err: XModemError) -> (
    ReceiverModel,
    ReceiverActionModel,
) {
    (ReceiverModel { phase: ReceiverPhaseModel::Failed { err }, ..m }, ReceiverActionModel::Stop)
}

/// One more error while hunting for a header: past the retry limit the
/// transfer fails with a synchronization timeout, otherwise the sync
/// byte is issued again before the next read.
pub open spec fn spec_count_sync_error(m: ReceiverModel) -> (ReceiverModel, ReceiverActionModel) {
    if m.sync_errors >= m.retries {
        spec_receiver_fail(m, XModemError::SynchronizationTimeout)
    } else {
        (
            ReceiverModel { sync_errors: (m.sync_errors + 1) as u32, ..m },
            ReceiverActionModel::SyncRead,
        )
    }
}

/// One more error against a block body: past the retry limit the
/// transfer is aborted, otherwise a NAK asks for the block again.
pub open spec fn spec_count_data_error(m: ReceiverModel) -> (ReceiverModel, ReceiverActionModel) {
    if m.data_errors >= m.retries {
        spec_receiver_fail(m, XModemError::TransferAborted)
    } else {
        (
            ReceiverModel {
                data_errors: (m.data_errors + 1) as u32,
                phase: ReceiverPhaseModel::AwaitHeader,
                ..m
            },
            ReceiverActionModel::NakRead,
        )
    }
}

/// Hunting for a header: SOH and STX announce a block, EOT ends the
/// transfer successfully, a second consecutive CAN cancels, anything
/// else — a stray byte or a timeout — counts against the retry limit
/// and re-issues the sync byte; a sink failure ends the transfer.
pub open spec fn spec_header_step(m: ReceiverModel, ev: ReceiverEventModel) -> (
    ReceiverModel,
    ReceiverActionModel,
) {
    match ev {
        ReceiverEventModel::Byte { value } => {
            if value == SOH {
                (
                    ReceiverModel {
                        cancel_seen: false,
                        phase: ReceiverPhaseModel::AwaitBody { header: SOH },
                        ..m
                    },
                    ReceiverActionModel::ReadBody { n: (130 + trailer_len(m.mode)) as usize },
                )
            } else if value == STX {
                (
                    ReceiverModel {
                        cancel_seen: false,
                        phase: ReceiverPhaseModel::AwaitBody { header: STX },
                        ..m
                    },
                    ReceiverActionModel::ReadBody { n: (1026 + trailer_len(m.mode)) as usize },
                )
            } else if value == EOT {
                (
                    ReceiverModel { phase: ReceiverPhaseModel::Complete, ..m },
                    ReceiverActionModel::FinishAck,
                )
            } else if value == CAN {
                if m.cancel_seen {
                    spec_receiver_fail(m, XModemError::Cancelled)
                } else {
                    (ReceiverModel { cancel_seen: true, ..m }, ReceiverActionModel::ReadByte)
                }
            } else {
                spec_count_sync_error(ReceiverModel { cancel_seen: false, ..m })
            }
        },
        ReceiverEventModel::Timeout => spec_count_sync_error(m),
        ReceiverEventModel::SinkError => spec_receiver_fail(m, XModemError::IoError),
        _ => (m, ReceiverActionModel::Stop),
    }
}

/// Validating a block body: the full frame is checked against the
/// expected sequence number and the session mode. A valid block is
/// delivered, acknowledged, and advances the expected number (wrapping
/// 255 -> 0); an invalid block or a timeout counts against the retry
/// limit and asks for the block again with a NAK.
pub open spec fn spec_body_step(m: ReceiverModel, header: u8, ev: ReceiverEventModel) -> (
    ReceiverModel,
    ReceiverActionModel,
) {
    match ev {
        ReceiverEventModel::Body { data } => {
            let frame = seq![header] + data;
            let bl = block_len_of_header(header) as usize;
            match spec_decode(frame, m.expected_seq, m.mode) {
                Ok(payload) => {
                    if m.count > usize::MAX - bl {
                        // More bytes than the machine can count cannot be
                        // delivered; report the transfer as failed I/O.
                        spec_receiver_fail(m, XModemError::IoError)
                    } else {
                        (
                            ReceiverModel {
                                expected_seq: spec_next_seq(m.expected_seq),
                                data_errors: 0,
                                cancel_seen: false,
                                count: (m.count + bl) as usize,
                                phase: ReceiverPhaseModel::AwaitHeader,
                                ..m
                            },
                            ReceiverActionModel::Deliver { payload },
                        )
                    }
                },
                Err(_) => spec_count_data_error(m),
            }
        },
        ReceiverEventModel::Timeout => spec_count_data_error(m),
        _ => (m, ReceiverActionModel::Stop),
    }
}

/// The complete transition function of the receiver engine.
pub open spec fn spec_receiver_step(m: ReceiverModel, ev: ReceiverEventModel) -> (
    ReceiverModel,
    ReceiverActionModel,
) {
    match m.phase {
        ReceiverPhaseModel::AwaitHeader => spec_header_step(m, ev),
        ReceiverPhaseModel::AwaitBody { header } => spec_body_step(m, header, ev),
        ReceiverPhaseModel::Complete => (m, ReceiverActionModel::Stop),
        ReceiverPhaseModel::Failed { .. } => (m, ReceiverActionModel::Stop),
    }
}

/// The transfer is over, well or badly.
pub open spec fn spec_receiver_terminal(phase: ReceiverPhaseModel) -> bool {
    match phase {
        ReceiverPhaseModel::Complete => true,
        ReceiverPhaseModel::Failed { .. } => true,
        _ => false,
    }
}

/// Which events each phase can observe.
pub open spec fn spec_receiver_event_fits(m: ReceiverModel, ev: ReceiverEventModel) -> bool {
    match m.phase {
        ReceiverPhaseModel::AwaitHeader => ev is Byte || ev is Timeout || ev is SinkError,
        ReceiverPhaseModel::AwaitBody { header } => match ev {
            ReceiverEventModel::Body { data } => data.len() == 2 + block_len_of_header(header)
                + trailer_len(m.mode),
            ReceiverEventModel::Timeout => true,
            _ => false,
        },
        ReceiverPhaseModel::Complete => false,
        ReceiverPhaseModel::Failed { .. } => false,
    }
}

/// A well-formed receiver: the retry limit is at least 1, neither error
/// count exceeds it, and a pending body belongs to a real header.
pub open spec fn spec_receiver_wf(m: ReceiverModel) -> bool {
    &&& m.retries >= 1
    &&& m.sync_errors <= m.retries
    &&& m.data_errors <= m.retries
    &&& (match m.phase {
        ReceiverPhaseModel::AwaitBody { header } => header == SOH || header == STX,
        _ => true,
    })
}

/// Which actions fit which state.
pub open spec fn spec_receiver_action_fits(m: ReceiverModel, a: ReceiverActionModel) -> bool {
    match a {
        ReceiverActionModel::SyncRead => m.phase is AwaitHeader,
        ReceiverActionModel::ReadByte => m.phase is AwaitHeader,
        ReceiverActionModel::ReadBody { n } => (match m.phase {
            ReceiverPhaseModel::AwaitBody { header } => n == 2 + block_len_of_header(header)
                + trailer_len(m.mode),
            _ => false,
        }),
        ReceiverActionModel::NakRead => m.phase is AwaitHeader,
        ReceiverActionModel::Deliver { .. } => m.phase is AwaitHeader,
        ReceiverActionModel::FinishAck => m.phase is Complete,
        ReceiverActionModel::Stop => m.phase is Failed,
    }
}

/// A variant ordering used to show that runs make progress: every
/// transition either consumes input, lowers this rank, or spends one of
/// the bounded retries.
pub open spec fn spec_receiver_rank(phase: ReceiverPhaseModel) -> int {
    match phase {
        ReceiverPhaseModel::AwaitBody { .. } => 3,
        ReceiverPhaseModel::AwaitHeader => 2,
        ReceiverPhaseModel::Complete => 1,
        ReceiverPhaseModel::Failed { .. } => 0,
    }
}

/// The model of a fresh receiver.
pub open spec fn spec_receiver_init(retries: u32, mode: Mode) -> ReceiverModel {
    ReceiverModel {
        retries,
        mode,
        expected_seq: 1,
        sync_errors: 0,
        data_errors: 0,
        cancel_seen: false,
        count: 0,
        phase: ReceiverPhaseModel::AwaitHeader,
    }
}

impl Receiver {
    /// A fresh receiver asking for `mode`: handshake pending, first
    /// block expected under sequence number 1.
    pub fn new(retries: u32, mode: Mode) -> (r: Self)
        requires
            retries >= 1,
        ensures
            r@ == spec_receiver_init(retries, mode),
            spec_receiver_wf(r@),
    {
        Receiver {
            retries,
            mode,
            expected_seq: 1,
            sync_errors: 0,
            data_errors: 0,
            cancel_seen: false,
            count: 0,
            phase: ReceiverPhase::AwaitHeader,
        }
    }

    /// The sync byte this receiver's handshake sends.
    pub fn sync_byte(&self) -> (r: u8)
        ensures
            r == spec_sync_byte(self@.mode),
    {
        match self.mode {
            Mode::Checksum => NAK,
            Mode::Crc16 => CRC_REQUEST,
        }
    }

    /// Bytes accepted into the sink so far.
    pub fn total(&self) -> (r: usize)
        ensures
            r == self@.count,
    {
        self.count
    }

    /// The error of a failed run.
    pub fn failure(&self) -> (r: XModemError)
        requires
            self@.phase is Failed,
        ensures
            self@.phase == (ReceiverPhaseModel::Failed { err: r }),
    {
        match &self.phase {
            ReceiverPhase::Failed { err } => *err,
            _ => {
                proof {
                    assert(false);
                }
                XModemError::IoError
            },
        }
    }

    /// Feeds one event to the machine and returns the action the caller
    /// must perform next; the transition is exactly [`spec_receiver_step`].
    pub fn step(&mut self, ev: ReceiverEvent) -> (a: ReceiverAction)
        requires
            spec_receiver_wf(old(self)@),
            spec_receiver_event_fits(old(self)@, ev@),
        ensures
            final(self)@ == spec_receiver_step(old(self)@, ev@).0,
            a@ == spec_receiver_step(old(self)@, ev@).1,
            spec_receiver_wf(final(self)@),
            spec_receiver_action_fits(final(self)@, a@),
    {
        match &self.phase {
            ReceiverPhase::AwaitHeader => {
                match ev {
                    ReceiverEvent::Byte { value } => {
                        if value == SOH {
                            self.cancel_seen = false;
                            self.phase = ReceiverPhase::AwaitBody { header: SOH };
                            let tl: usize = match self.mode {
                                Mode::Checksum => 1,
                                Mode::Crc16 => 2,
                            };
                            ReceiverAction::ReadBody { n: 130 + tl }
                        } else if value == STX {
                            self.cancel_seen = false;
                            self.phase = ReceiverPhase::AwaitBody { header: STX };
                            let tl: usize = match self.mode {
                                Mode::Checksum => 1,
                                Mode::Crc16 => 2,
                            };
                            ReceiverAction::ReadBody { n: 1026 + tl }
                        } else if value == EOT {
                            self.phase = ReceiverPhase::Complete;
                            ReceiverAction::FinishAck
                        } else if value == CAN {
                            if self.cancel_seen {
                                self.phase = ReceiverPhase::Failed { err: XModemError::Cancelled };
                                ReceiverAction::Stop
                            } else {
                                self.cancel_seen = true;
                                ReceiverAction::ReadByte
                            }
                        } else {
                            self.cancel_seen = false;
                            if self.sync_errors >= self.retries {
                                self.phase = ReceiverPhase::Failed {
                                    err: XModemError::SynchronizationTimeout,
                                };
                                ReceiverAction::Stop
                            } else {
                                self.sync_errors = self.sync_errors + 1;
                                ReceiverAction::SyncRead
                            }
                        }
                    },
                    ReceiverEvent::Timeout => {
                        if self.sync_errors >= self.retries {
                            self.phase = ReceiverPhase::Failed {
                                err: XModemError::SynchronizationTimeout,
                            };
                            ReceiverAction::Stop
                        } else {
                            self.sync_errors = self.sync_errors + 1;
                            ReceiverAction::SyncRead
                        }
                    },
                    ReceiverEvent::SinkError => {
                        self.phase = ReceiverPhase::Failed { err: XModemError::IoError };
                        ReceiverAction::Stop
                    },
                    _ => {
                        proof {
                            assert(false);
                        }
                        ReceiverAction::Stop
                    },
                }
            },
            ReceiverPhase::AwaitBody { header } => {
                let h = *header;
                match ev {
                    ReceiverEvent::Body { data } => {
                        let bl: usize = if h == SOH {
                            128
                        } else {
                            1024
                        };
                        let mut frame: Vec<u8> = Vec::new();
                        frame.push(h);
                        let mut j: usize = 0;
                        while j < data.len()
                            invariant
                                j <= data@.len(),
                                frame@ == seq![h] + data@.take(j as int),
                            decreases data@.len() - j,
                        {
                            frame.push(data[j]);
                            proof {
                                assert(frame@ =~= seq![h] + data@.take(j as int + 1));
                            }
                            j = j + 1;
                        }
                        proof {
                            assert(frame@ =~= seq![h] + data@);
                        }
                        match decode_and_validate(frame.as_slice(), self.expected_seq, self.mode) {
                            Ok(payload) => {
                                if self.count > usize::MAX - bl {
                                    self.phase = ReceiverPhase::Failed {
                                        err: XModemError::IoError,
                                    };
                                    ReceiverAction::Stop
                                } else {
                                    self.expected_seq = crate::codec::next_seq(self.expected_seq);
                                    self.data_errors = 0;
                                    self.cancel_seen = false;
                                    self.count = self.count + bl;
                                    self.phase = ReceiverPhase::AwaitHeader;
                                    ReceiverAction::Deliver { payload }
                                }
                            },
                            Err(_) => {
                                if self.data_errors >= self.retries {
                                    self.phase = ReceiverPhase::Failed {
                                        err: XModemError::TransferAborted,
                                    };
                                    ReceiverAction::Stop
                                } else {
                                    self.data_errors = self.data_errors + 1;
                                    self.phase = ReceiverPhase::AwaitHeader;
                                    ReceiverAction::NakRead
                                }
                            },
                        }
                    },
                    ReceiverEvent::Timeout => {
                        if self.data_errors >= self.retries {
                            self.phase = ReceiverPhase::Failed {
                                err: XModemError::TransferAborted,
                            };
                            ReceiverAction::Stop
                        } else {
                            self.data_errors = self.data_errors + 1;
                            self.phase = ReceiverPhase::AwaitHeader;
                            ReceiverAction::NakRead
                        }
                    },
                    _ => {
                        proof {
                            assert(false);
                        }
                        ReceiverAction::Stop
                    },
                }
            },
            ReceiverPhase::Complete => {
                proof {
                    assert(false);
                }
                ReceiverAction::Stop
            },
            ReceiverPhase::Failed { .. } => {
                proof {
                    assert(false);
                }
                ReceiverAction::Stop
            },
        }
    }
}

/// Double-CAN cancellation (receiving side): while hunting for a header
/// with no CAN pending, a first CAN only asks for another read — nothing
/// is written — and a second consecutive CAN ends the transfer as
/// `Cancelled` with no further I/O asked for.
pub proof fn lemma_receiver_double_can(m: ReceiverModel)
    requires
        spec_receiver_wf(m),
        m.phase is AwaitHeader,
        !m.cancel_seen,
    ensures
        spec_receiver_step(m, ReceiverEventModel::Byte { value: CAN }).0 == (ReceiverModel {
            cancel_seen: true,
            ..m
        }),
        spec_receiver_step(m, ReceiverEventModel::Byte { value: CAN }).1
            == ReceiverActionModel::ReadByte,
        spec_receiver_step(
            spec_receiver_step(m, ReceiverEventModel::Byte { value: CAN }).0,
            ReceiverEventModel::Byte { value: CAN },
        ).0.phase == (ReceiverPhaseModel::Failed { err: XModemError::Cancelled }),
        spec_receiver_step(
            spec_receiver_step(m, ReceiverEventModel::Byte { value: CAN }).0,
            ReceiverEventModel::Byte { value: CAN },
        ).1 == ReceiverActionModel::Stop,
{
}

/// The receiver's mode is chosen before the handshake and never changes:
/// every block of the session is validated against the one scheme whose
/// request byte the receiver sent.
pub proof fn lemma_receiver_mode_fixed(m: ReceiverModel, ev: ReceiverEventModel)
    requires
        spec_receiver_wf(m),
    ensures
        spec_receiver_step(m, ev).0.mode == m.mode,
{
}

/// A frame encoded for exactly the sequence number the receiver expects
/// validates and is accepted: its payload is delivered to the sink, the
/// block is acknowledged, and the expected number advances by the
/// wrapping successor — in particular a receiver whose expectation
/// wrapped past 255 accepts the block numbered 0.
pub proof fn lemma_receiver_accepts_valid_block(m: ReceiverModel, payload: Seq<u8>)
    requires
        spec_receiver_wf(m),
        payload.len() == 128 || payload.len() == 1024,
        m.phase == (ReceiverPhaseModel::AwaitBody {
            header: if payload.len() == 128 { SOH } else { STX },
        }),
        m.count + payload.len() <= usize::MAX,
    ensures
        ({
            let r = spec_receiver_step(
                m,
                ReceiverEventModel::Body {
                    data: crate::codec::spec_encode(m.expected_seq, payload, m.mode).skip(1),
                },
            );
            &&& r.1 == (ReceiverActionModel::Deliver { payload })
            &&& r.0.expected_seq == spec_next_seq(m.expected_seq)
            &&& r.0.count == m.count + payload.len()
            &&& r.0.phase is AwaitHeader
        }),
{
    let frame = crate::codec::spec_encode(m.expected_seq, payload, m.mode);
    let header: u8 = if payload.len() == 128 {
        SOH
    } else {
        STX
    };
    assert(frame[0] == header);
    assert(seq![header] + frame.skip(1) =~= frame);
    crate::codec::lemma_encode_decode_round_trip(m.expected_seq, payload, m.mode);
}

} // verus!
