use vstd::prelude::*;
use crate::types::{InResult, Notice, OutResult, TransferType, CTAP_ENDPOINT, PACKET_SIZE};

verus! {

/// Abstract state of the driver.
pub struct HidState {
    /// Contents of the endpoint buffer shared with the controller.
    pub buffer: Seq<u8>,
    /// Snapshot of the last OUT packet taken from the buffer; the packet
    /// handed to the client, or held for it.
    pub rx_packet: Seq<u8>,
    /// Packet staged for the next IN transfer.
    pub tx_packet: Option<Seq<u8>>,
    /// A transmission was requested and has not completed.
    pub pending_in: bool,
    /// The client asked to receive and no packet has been delivered since.
    pub pending_out: bool,
    /// An arrived packet could not be delivered and is held in `rx_packet`.
    pub delayed_out: bool,
    /// Work queued for the controller and the client, oldest first.
    pub effects: Seq<Notice>,
}

impl HidState {
    /// The buffers have the report size, and a staged packet implies a
    /// pending transmission.
    pub open spec fn wf(self) -> bool {
        &&& self.buffer.len() == PACKET_SIZE
        &&& self.rx_packet.len() == PACKET_SIZE
        &&& (self.tx_packet matches Some(p) ==> p.len() == PACKET_SIZE && self.pending_in)
    }
}

/// State right after construction.
pub open spec fn initial_state(buffer: Seq<u8>) -> HidState {
    HidState {
        buffer,
        rx_packet: buffer,
        tx_packet: None,
        pending_in: false,
        pending_out: false,
        delayed_out: false,
        effects: Seq::empty(),
    }
}

/// Stage `packet` for transmission unless a transmission is pending.
pub open spec fn transmit_step(s: HidState, packet: Seq<u8>) -> (bool, HidState) {
    if s.pending_in {
        (false, s)
    } else {
        (
            true,
            HidState {
                tx_packet: Some(packet),
                pending_in: true,
                effects: s.effects.push(Notice::ResumeIn),
                ..s
            },
        )
    }
}

/// Drop the staged packet and the pending transmission; report whether a
/// transmission was pending (the controller is then told to abort it).
pub open spec fn cancel_in_step(s: HidState) -> (bool, HidState) {
    (
        s.pending_in,
        HidState {
            tx_packet: None,
            pending_in: false,
            effects: if s.pending_in { s.effects.push(Notice::CancelIn) } else { s.effects },
            ..s
        },
    )
}

/// Hand the snapshot of the last OUT packet to the client if it is ready;
/// otherwise hold it.
pub open spec fn deliver_step(s: HidState, client_ready: bool) -> (bool, HidState) {
    if client_ready {
        let c = cancel_in_step(HidState { pending_out: false, ..s }).1;
        (true, HidState { effects: c.effects.push(Notice::PacketReceived(s.rx_packet)), ..c })
    } else {
        (false, HidState { delayed_out: true, ..s })
    }
}

/// The client asks for the next packet.
pub open spec fn receive_step(s: HidState, client_ready: bool) -> (bool, HidState) {
    if s.pending_out {
        (false, s)
    } else {
        let s1 = HidState { pending_out: true, delayed_out: false, ..s };
        if s.delayed_out {
            let d = deliver_step(s1, client_ready);
            if d.0 {
                (true, HidState { effects: d.1.effects.push(Notice::ResumeOut), ..d.1 })
            } else {
                (true, d.1)
            }
        } else {
            (true, s1)
        }
    }
}

/// Cancel both directions; report whether anything was pending.
pub open spec fn cancel_step(s: HidState) -> (bool, HidState) {
    let c = cancel_in_step(s);
    (c.0 || s.pending_out, HidState { pending_out: false, ..c.1 })
}

/// The controller polls for an IN packet.
pub open spec fn packet_in_step(s: HidState, transfer_type: TransferType, endpoint: usize) -> (
    InResult,
    HidState,
) {
    if transfer_type != TransferType::Interrupt || endpoint != CTAP_ENDPOINT {
        (InResult::Error, s)
    } else {
        match s.tx_packet {
            Some(p) => (InResult::Packet(PACKET_SIZE), HidState { buffer: p, tx_packet: None, ..s }),
            None => (InResult::Delay, s),
        }
    }
}

/// An OUT packet of `packet_bytes` bytes has arrived in the buffer; a full
/// report on the interrupt endpoint is snapshotted and delivered or held.
pub open spec fn packet_out_step(
    s: HidState,
    transfer_type: TransferType,
    endpoint: usize,
    packet_bytes: u32,
    client_ready: bool,
) -> (OutResult, HidState) {
    if transfer_type != TransferType::Interrupt || endpoint != CTAP_ENDPOINT || packet_bytes
        != PACKET_SIZE {
        (OutResult::Error, s)
    } else {
        let d = deliver_step(HidState { rx_packet: s.buffer, ..s }, client_ready);
        (if d.0 { OutResult::Accepted } else { OutResult::Delay }, d.1)
    }
}

/// The staged packet has left on the wire: the transmission is complete and
/// the client is told so once.
pub open spec fn packet_transmitted_step(s: HidState) -> HidState {
    HidState { pending_in: false, effects: s.effects.push(Notice::PacketTransmitted), ..s }
}

} // verus!
