use vstd::prelude::*;

verus! {

/// Size in bytes of every HID report exchanged in either direction.
pub const PACKET_SIZE: usize = 64;

/// The one interrupt endpoint (IN and OUT) that carries CTAP reports.
pub const CTAP_ENDPOINT: usize = 1;

/// Kind of a USB transfer, as reported by the controller.
#[derive(Clone, Copy, Debug, PartialEq, Eq, Structural)]
pub enum TransferType {
    Control,
    Bulk,
    Interrupt,
    Isochronous,
}

/// Answer to the controller when it polls for an IN packet.
#[derive(Clone, Copy, Debug, PartialEq, Eq, Structural)]
pub enum InResult {
    /// A packet of the given length is in the endpoint buffer.
    Packet(usize),
    /// Nothing to send now; the controller polls again later.
    Delay,
    /// The transfer is refused.
    Error,
}

/// Answer to the controller when an OUT packet has arrived.
#[derive(Clone, Copy, Debug, PartialEq, Eq, Structural)]
pub enum OutResult {
    /// The packet was handed to the client.
    Accepted,
    /// The packet is held; the controller keeps the channel until the client
    /// asks to receive again.
    Delay,
    /// The transfer is refused.
    Error,
}

/// Work that the driver asks of its surroundings, in the order it is due.
#[derive(Clone, Copy, Debug)]
pub enum Effect {
    /// Controller: resume polling the IN direction of the endpoint.
    ResumeIn,
    /// Controller: resume polling the OUT direction of the endpoint.
    ResumeOut,
    /// Controller: abort the IN transfer in flight on the endpoint.
    CancelIn,
    /// Client: a packet was received.
    PacketReceived([u8; 64]),
    /// Client: the packet passed to `transmit_packet` has been sent.
    PacketTransmitted,
}

/// Mathematical counterpart of an [`Effect`].
pub enum Notice {
    ResumeIn,
    ResumeOut,
    CancelIn,
    PacketReceived(Seq<u8>),
    PacketTransmitted,
}

impl View for Effect {
    type V = Notice;

    open spec fn view(&self) -> Notice {
        match self {
            Effect::ResumeIn => Notice::ResumeIn,
            Effect::ResumeOut => Notice::ResumeOut,
            Effect::CancelIn => Notice::CancelIn,
            Effect::PacketReceived(p) => Notice::PacketReceived(p@),
            Effect::PacketTransmitted => Notice::PacketTransmitted,
        }
    }
}

} // verus!
