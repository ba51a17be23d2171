//! The transfer session: one value per invoked transfer, driving a
//! sender or receiver machine over a channel and a stream to completion.

use vstd::prelude::*;

use crate::codec::{Mode, ACK, EOT, NAK, PAD};
use crate::error::XModemError;
use crate::receiver::{
    spec_receiver_action_fits, spec_receiver_rank, spec_receiver_wf, Receiver, ReceiverAction,
    ReceiverActionModel, ReceiverEvent,
};
use crate::sender::{
    spec_sender_action_fits, spec_sender_rank, spec_sender_wf, Sender, SenderAction, SenderEvent,
};
use crate::transport::{ByteSink, ByteSource, Transport};

verus! {

/// One XMODEM session: the retry limit and the pad byte a transfer uses.
/// A session is created per transfer and owned by the call that runs it.
pub struct XModem {
    retries: u32,
    padbyte: u8,
}

impl XModem {
    /// The retry limit each phase of a transfer counts against.
    pub closed spec fn spec_retries(&self) -> u32 {
        self.retries
    }

    /// The byte used to fill a short final block.
    pub closed spec fn spec_padbyte(&self) -> u8 {
        self.padbyte
    }

    /// A session with the protocol's customary settings: a retry limit
    /// of 16 and SUB as the pad byte.
    pub fn new() -> (r: Self)
        ensures
            r.spec_retries() == 16,
            r.spec_padbyte() == PAD,
    {
        XModem { retries: 16, padbyte: PAD }
    }

    /// Sends the whole of `stream` over `device`, block by block, in the
    /// mode the peer's handshake byte selects. Success means the source
    /// was read to its end and every block, and the end-of-transmission,
    /// was acknowledged; every step of the exchange follows
    /// [`crate::sender::spec_sender_step`].
    pub fn send<T: Transport, S: ByteSource>(
        &mut self,
        device: &mut T,
        stream: &mut S,
    ) -> (r: Result<(), XModemError>)
        requires
            old(self).spec_retries() >= 1,
        ensures
            r is Ok ==> final(stream).remaining().len() == 0,
            r is Ok ==> final(device).outbound().len() > 0 && final(device).outbound().last()
                == EOT,
            *final(self) == *old(self),
    {
        let mut m = Sender::new(self.retries, self.padbyte);
        let mut a = SenderAction::Read;
        loop
            invariant
                spec_sender_wf(m@),
                spec_sender_action_fits(m@, a@),
                (m@.phase is AwaitFinalAck || m@.phase is Complete) ==> stream.remaining().len()
                    == 0,
                (m@.phase is Complete || (m@.phase is AwaitFinalAck && a@ is Read))
                    ==> device.outbound().len() > 0 && device.outbound().last() == EOT,
            decreases
                    device.inbound().len() + stream.remaining().len(),
                    spec_sender_rank(m@.phase),
                    m@.retries - m@.errors,
        {
            match a {
                SenderAction::Read => {
                    let ev = match device.read_byte() {
                        Some(b) => SenderEvent::Byte { value: b },
                        None => SenderEvent::Timeout,
                    };
                    a = m.step(ev);
                },
                SenderAction::Fetch => {
                    let ev = match stream.read_block(128) {
                        Some(data) => SenderEvent::Block { data },
                        None => SenderEvent::SourceError,
                    };
                    a = m.step(ev);
                },
                SenderAction::Transmit { frame } => {
                    device.clear_input();
                    device.write_bytes(frame.as_slice());
                    let ev = match device.read_byte() {
                        Some(b) => SenderEvent::Byte { value: b },
                        None => SenderEvent::Timeout,
                    };
                    a = m.step(ev);
                },
                SenderAction::SendEot => {
                    device.clear_input();
                    let mut eot: Vec<u8> = Vec::new();
                    eot.push(EOT);
                    device.write_bytes(eot.as_slice());
                    proof {
                        assert(device.outbound().last() == EOT);
                    }
                    let ev = match device.read_byte() {
                        Some(b) => SenderEvent::Byte { value: b },
                        None => SenderEvent::Timeout,
                    };
                    a = m.step(ev);
                },
                SenderAction::Stop => {
                    return m.outcome();
                },
            }
        }
    }

    /// Receives a transfer from `device` into `stream`, asking for CRC
    /// trailers when `crc_mode` is set and validating every block before
    /// it reaches the sink. Success reports exactly the number of bytes
    /// appended to the sink; every step of the exchange follows
    /// [`crate::receiver::spec_receiver_step`].
    pub fn receive<T: Transport, W: ByteSink>(
        &mut self,
        device: &mut T,
        stream: &mut W,
        crc_mode: bool,
    ) -> (r: Result<usize, XModemError>)
        requires
            old(self).spec_retries() >= 1,
        ensures
            (r matches Ok(n) ==> final(stream).data().len() == old(stream).data().len() + n),
            r is Ok ==> final(device).outbound().len() > 0 && final(device).outbound().last()
                == ACK,
            *final(self) == *old(self),
    {
        let mode = if crc_mode {
            Mode::Crc16
        } else {
            Mode::Checksum
        };
        let mut m = Receiver::new(self.retries, mode);
        let mut a = ReceiverAction::SyncRead;
        loop
            invariant
                spec_receiver_wf(m@),
                spec_receiver_action_fits(m@, a@),
                (match a@ {
                    ReceiverActionModel::Deliver { payload } => old(stream).data().len()
                        + m@.count == stream.data().len() + payload.len(),
                    _ => m@.phase is Failed || stream.data().len() == old(stream).data().len()
                        + m@.count,
                }),
            decreases
                    device.inbound().len(),
                    spec_receiver_rank(m@.phase),
                    m@.retries - m@.sync_errors,
                    m@.retries - m@.data_errors,
        {
            match a {
                ReceiverAction::SyncRead => {
                    let mut sync: Vec<u8> = Vec::new();
                    sync.push(m.sync_byte());
                    device.write_bytes(sync.as_slice());
                    let ev = match device.read_byte() {
                        Some(b) => ReceiverEvent::Byte { value: b },
                        None => ReceiverEvent::Timeout,
                    };
                    a = m.step(ev);
                },
                ReceiverAction::ReadByte => {
                    let ev = match device.read_byte() {
                        Some(b) => ReceiverEvent::Byte { value: b },
                        None => ReceiverEvent::Timeout,
                    };
                    a = m.step(ev);
                },
                ReceiverAction::ReadBody { n } => {
                    let ev = match device.read_exact(n) {
                        Some(data) => ReceiverEvent::Body { data },
                        None => ReceiverEvent::Timeout,
                    };
                    a = m.step(ev);
                },
                ReceiverAction::NakRead => {
                    let mut nak: Vec<u8> = Vec::new();
                    nak.push(NAK);
                    device.write_bytes(nak.as_slice());
                    let ev = match device.read_byte() {
                        Some(b) => ReceiverEvent::Byte { value: b },
                        None => ReceiverEvent::Timeout,
                    };
                    a = m.step(ev);
                },
                ReceiverAction::Deliver { payload } => {
                    if stream.write_all(payload.as_slice()) {
                        let mut ack: Vec<u8> = Vec::new();
                        ack.push(ACK);
                        device.write_bytes(ack.as_slice());
                        let ev = match device.read_byte() {
                            Some(b) => ReceiverEvent::Byte { value: b },
                            None => ReceiverEvent::Timeout,
                        };
                        a = m.step(ev);
                    } else {
                        a = m.step(ReceiverEvent::SinkError);
                    }
                },
                ReceiverAction::FinishAck => {
                    let mut ack: Vec<u8> = Vec::new();
                    ack.push(ACK);
                    device.write_bytes(ack.as_slice());
                    proof {
                        assert(device.outbound().last() == ACK);
                    }
                    return Ok(m.total());
                },
                ReceiverAction::Stop => {
                    return Err(m.failure());
                },
            }
        }
    }
}

} // verus!

