use vstd::prelude::*;
use crate::model::{
    cancel_in_step, cancel_step, deliver_step, initial_state, packet_in_step, packet_out_step,
    packet_transmitted_step, receive_step, transmit_step, HidState,
};
use crate::types::{Effect, InResult, Notice, OutResult, TransferType, CTAP_ENDPOINT, PACKET_SIZE};

verus! {

/// The mathematical form of a queue of effects.
pub open spec fn notices(effects: Seq<Effect>) -> Seq<Notice> {
    effects.map_values(|e: Effect| e@)
}

/// CTAP HID transport client: one staged IN packet at most, one OUT packet
/// held at most, and the flags that arbitrate between the client's requests
/// and the controller's callbacks.
pub struct ClientCtapHID {
    buffer: [u8; 64],
    rx_packet: [u8; 64],
    tx_packet: Option<[u8; 64]>,
    pending_in: bool,
    pending_out: bool,
    delayed_out: bool,
    effects: Vec<Effect>,
}

impl View for ClientCtapHID {
    type V = HidState;

    closed spec fn view(&self) -> HidState {
        HidState {
            buffer: self.buffer@,
            rx_packet: self.rx_packet@,
            tx_packet: match self.tx_packet {
                Some(p) => Some(p@),
                None => None,
            },
            pending_in: self.pending_in,
            pending_out: self.pending_out,
            delayed_out: self.delayed_out,
            effects: notices(self.effects@),
        }
    }
}

impl ClientCtapHID {
    /// The driver's state is well formed.
    pub open spec fn wf(&self) -> bool {
        self@.wf()
    }

    /// A driver with a zeroed buffer, nothing staged, nothing pending.
    pub fn new() -> (r: Self)
        ensures
            r.wf(),
            r@ == initial_state(Seq::new(PACKET_SIZE as nat, |i: int| 0u8)),
    {
        let r = ClientCtapHID {
            buffer: [0u8; 64],
            rx_packet: [0u8; 64],
            tx_packet: None,
            pending_in: false,
            pending_out: false,
            delayed_out: false,
            effects: Vec::new(),
        };
        assert(r.buffer@ =~= Seq::new(PACKET_SIZE as nat, |i: int| 0u8));
        assert(r.rx_packet@ =~= Seq::new(PACKET_SIZE as nat, |i: int| 0u8));
        assert(notices(r.effects@) =~= Seq::empty());
        r
    }

    /// Queue one effect after those already queued.
    fn emit(&mut self, e: Effect)
        ensures
            final(self)@ == (HidState { effects: old(self)@.effects.push(e@), ..old(self)@ }),
    {
        self.effects.push(e);
        assert(notices(self.effects@) =~= notices(old(self).effects@).push(e@));
    }

    /// Stage `packet` for the next IN transfer and ask the controller to
    /// poll; refused, with nothing changed, while a transmission is pending.
    pub fn transmit_packet(&mut self, packet: &[u8]) -> (r: bool)
        requires
            old(self).wf(),
            !old(self)@.pending_in ==> packet@.len() == PACKET_SIZE,
        ensures
            final(self).wf(),
            (r, final(self)@) == transmit_step(old(self)@, packet@),
    {
        if self.pending_in {
            false
        } else {
            self.pending_in = true;
            let mut buf: [u8; 64] = [0u8; 64];
            let mut i: usize = 0;
            while i < PACKET_SIZE
                invariant
                    i <= PACKET_SIZE,
                    !old(self)@.pending_in,
                    packet@.len() == PACKET_SIZE,
                    forall|j: int| 0 <= j < i ==> buf@[j] == packet@[j],
                decreases PACKET_SIZE - i,
            {
                buf[i] = packet[i];
                i = i + 1;
            }
            assert(buf@ =~= packet@);
            self.tx_packet = Some(buf);
            self.emit(Effect::ResumeIn);
            true
        }
    }

    /// Drop the staged packet; if a transmission was pending, clear it and
    /// ask the controller to abort the IN transfer.
    fn cancel_in_transaction(&mut self) -> (r: bool)
        requires
            old(self).wf(),
        ensures
            final(self).wf(),
            (r, final(self)@) == cancel_in_step(old(self)@),
    {
        self.tx_packet = None;
        let result = self.pending_in;
        self.pending_in = false;
        if result {
            self.emit(Effect::CancelIn);
        }
        result
    }

    /// Clear a pending receive request; report whether there was one.
    fn cancel_out_transaction(&mut self) -> (r: bool)
        ensures
            r == old(self)@.pending_out,
            final(self)@ == (HidState { pending_out: false, ..old(self)@ }),
    {
        let result = self.pending_out;
        self.pending_out = false;
        result
    }

    /// Hand the snapshot of the last OUT packet to the client if it is ready: the
    /// receive request is satisfied and a staged reply is dropped, since the
    /// client must see the new input first. Otherwise hold the packet.
    fn send_packet_to_client(&mut self, client_ready: bool) -> (r: bool)
        requires
            old(self).wf(),
            !old(self)@.delayed_out,
        ensures
            final(self).wf(),
            (r, final(self)@) == deliver_step(old(self)@, client_ready),
    {
        let buf: [u8; 64] = self.rx_packet;
        if client_ready {
            self.pending_out = false;
            self.cancel_in_transaction();
            self.emit(Effect::PacketReceived(buf));
            true
        } else {
            self.delayed_out = true;
            false
        }
    }

    /// The client asks for the next packet; refused, with nothing changed,
    /// while a receive is pending. A packet held earlier is delivered now if
    /// the client is ready, and the controller then resumes OUT polling.
    pub fn receive_packet(&mut self, client_ready: bool) -> (r: bool)
        requires
            old(self).wf(),
        ensures
            final(self).wf(),
            (r, final(self)@) == receive_step(old(self)@, client_ready),
    {
        if self.pending_out {
            false
        } else {
            self.pending_out = true;
            let delayed = self.delayed_out;
            self.delayed_out = false;
            if delayed {
                if self.send_packet_to_client(client_ready) {
                    self.emit(Effect::ResumeOut);
                }
            }
            true
        }
    }

    /// Cancel both directions; true iff a transmission or a receive was
    /// pending.
    pub fn cancel_transaction(&mut self) -> (r: bool)
        requires
            old(self).wf(),
        ensures
            final(self).wf(),
            (r, final(self)@) == cancel_step(old(self)@),
    {
        let a = self.cancel_in_transaction();
        let b = self.cancel_out_transaction();
        a || b
    }

    /// The controller polls the IN direction: a staged packet moves into the
    /// buffer and is reported whole; with nothing staged the controller is
    /// told to wait. Other transfer types and other endpoints are refused.
    pub fn packet_in(&mut self, transfer_type: TransferType, endpoint: usize) -> (r: InResult)
        requires
            old(self).wf(),
        ensures
            final(self).wf(),
            (r, final(self)@) == packet_in_step(old(self)@, transfer_type, endpoint),
    {
        match transfer_type {
            TransferType::Interrupt => {
                if endpoint != CTAP_ENDPOINT {
                    return InResult::Error;
                }
                match self.tx_packet {
                    Some(packet) => {
                        self.tx_packet = None;
                        self.buffer = packet;
                        InResult::Packet(PACKET_SIZE)
                    },
                    None => InResult::Delay,
                }
            },
            _ => InResult::Error,
        }
    }

    /// A packet of `packet_bytes` bytes has arrived in the buffer. A full
    /// report on the interrupt endpoint is snapshotted, then goes to the
    /// client if it is ready and is held otherwise; anything else is refused
    /// with nothing changed.
    pub fn packet_out(
        &mut self,
        transfer_type: TransferType,
        endpoint: usize,
        packet_bytes: u32,
        client_ready: bool,
    ) -> (r: OutResult)
        requires
            old(self).wf(),
            transfer_type == TransferType::Interrupt && endpoint == CTAP_ENDPOINT && packet_bytes
                == PACKET_SIZE ==> !old(self)@.delayed_out,
        ensures
            final(self).wf(),
            (r, final(self)@) == packet_out_step(
                old(self)@,
                transfer_type,
                endpoint,
                packet_bytes,
                client_ready,
            ),
    {
        match transfer_type {
            TransferType::Interrupt => {
                if endpoint != CTAP_ENDPOINT {
                    return OutResult::Error;
                }
                if packet_bytes as usize != PACKET_SIZE {
                    return OutResult::Error;
                }
                self.rx_packet = self.buffer;
                if self.send_packet_to_client(client_ready) {
                    OutResult::Accepted
                } else {
                    OutResult::Delay
                }
            },
            _ => OutResult::Error,
        }
    }

    /// The staged packet has been sent: the transmission is complete and the
    /// client is notified once.
    pub fn packet_transmitted(&mut self, endpoint: usize)
        requires
            old(self).wf(),
            endpoint == CTAP_ENDPOINT,
            old(self)@.tx_packet is None,
        ensures
            final(self).wf(),
            final(self)@ == packet_transmitted_step(old(self)@),
    {
        self.pending_in = false;
        self.emit(Effect::PacketTransmitted);
    }

    /// The hardware has written `data` into the endpoint buffer.
    pub fn write_buffer(&mut self, data: &[u8])
        requires
            old(self).wf(),
            data@.len() == PACKET_SIZE,
        ensures
            final(self).wf(),
            final(self)@ == (HidState { buffer: data@, ..old(self)@ }),
    {
        let mut i: usize = 0;
        while i < PACKET_SIZE
            invariant
                i <= PACKET_SIZE,
                data@.len() == PACKET_SIZE,
                self@ == (HidState { buffer: self@.buffer, ..old(self)@ }),
                self.buffer@.len() == PACKET_SIZE,
                forall|j: int| 0 <= j < i ==> self.buffer@[j] == data@[j],
            decreases PACKET_SIZE - i,
        {
            self.buffer[i] = data[i];
            i = i + 1;
        }
        assert(self.buffer@ =~= data@);
    }

    /// Contents of the endpoint buffer, for the hardware to send.
    pub fn buffer(&self) -> (r: [u8; 64])
        ensures
            r@ == self@.buffer,
    {
        self.buffer
    }

    /// Hand over the queued effects, oldest first, leaving the queue empty.
    pub fn take_effects(&mut self) -> (r: Vec<Effect>)
        requires
            old(self).wf(),
        ensures
            final(self).wf(),
            notices(r@) == old(self)@.effects,
            final(self)@ == (HidState { effects: Seq::empty(), ..old(self)@ }),
    {
        let mut r: Vec<Effect> = Vec::new();
        core::mem::swap(&mut r, &mut self.effects);
        assert(notices(self.effects@) =~= Seq::empty());
        r
    }

    /// The packet staged for the next IN transfer, if any.
    pub fn staged_packet(&self) -> (r: Option<[u8; 64]>)
        ensures
            r matches Some(p) ==> self@.tx_packet == Some(p@),
            r is None <==> self@.tx_packet is None,
    {
        self.tx_packet
    }

    /// Whether a transmission is pending.
    pub fn pending_in(&self) -> (r: bool)
        ensures
            r == self@.pending_in,
    {
        self.pending_in
    }

    /// Whether a receive request is pending.
    pub fn pending_out(&self) -> (r: bool)
        ensures
            r == self@.pending_out,
    {
        self.pending_out
    }

    /// Whether an arrived packet is held for a later receive request.
    pub fn delayed_out(&self) -> (r: bool)
        ensures
            r == self@.delayed_out,
    {
        self.delayed_out
    }
}

} // verus!
