use vstd::prelude::*;
use crate::model::{
    cancel_step, packet_in_step, packet_out_step, packet_transmitted_step, receive_step,
    transmit_step, HidState,
};
use crate::types::{Notice, OutResult, TransferType, CTAP_ENDPOINT, PACKET_SIZE};

verus! {

/// While a transmission is pending, a transmit request is refused and the
/// state, the staged packet included, is left as it was.
pub proof fn lemma_transmit_refused_while_pending(s: HidState, packet: Seq<u8>)
    requires
        s.pending_in,
    ensures
        !transmit_step(s, packet).0,
        transmit_step(s, packet).1 == s,
{
}

/// While a receive is pending, a receive request is refused and the state is
/// left as it was.
pub proof fn lemma_receive_refused_while_pending(s: HidState, client_ready: bool)
    requires
        s.pending_out,
    ensures
        !receive_step(s, client_ready).0,
        receive_step(s, client_ready).1 == s,
{
}

/// A packet held for want of a ready client is delivered by the next accepted
/// receive request once the client is ready: the client gets the held
/// packet, the controller resumes OUT polling, and both the receive request
/// and the hold are cleared.
pub proof fn lemma_held_packet_delivered_on_receive(s: HidState)
    requires
        s.delayed_out,
        !s.pending_out,
    ensures
        ({
            let (r, t) = receive_step(s, true);
            &&& r
            &&& !t.pending_out
            &&& !t.delayed_out
            &&& t.effects.last() == Notice::ResumeOut
            &&& t.effects.drop_last().last() == Notice::PacketReceived(s.rx_packet)
            &&& t.effects.drop_last().drop_last() == cancel_step(s).1.effects
        }),
{
    let t = receive_step(s, true).1;
    assert(t.effects.drop_last().drop_last() =~= cancel_step(s).1.effects);
}

/// A packet held by an OUT event is the one that a later receive request
/// delivers: staging, sending and completing IN packets in between leave it
/// and its hold untouched.
pub proof fn lemma_in_traffic_keeps_held_packet(
    s: HidState,
    transfer_type: TransferType,
    endpoint: usize,
    buffer_on_arrival: Seq<u8>,
    packet: Seq<u8>,
)
    requires
        s.buffer == buffer_on_arrival,
        !s.delayed_out,
    ensures
        ({
            let (r, t) = packet_out_step(
                s,
                TransferType::Interrupt,
                CTAP_ENDPOINT,
                PACKET_SIZE as u32,
                false,
            );
            &&& r == OutResult::Delay
            &&& t.delayed_out
            &&& t.rx_packet == buffer_on_arrival
            &&& transmit_step(t, packet).1.rx_packet == t.rx_packet
            &&& transmit_step(t, packet).1.delayed_out
            &&& packet_in_step(t, transfer_type, endpoint).1.rx_packet == t.rx_packet
            &&& packet_in_step(t, transfer_type, endpoint).1.delayed_out
            &&& packet_transmitted_step(t).rx_packet == t.rx_packet
            &&& packet_transmitted_step(t).delayed_out
        }),
{
}

/// After a cancellation nothing is staged and no transmission or receive is
/// pending, so a second cancellation right after reports that nothing was
/// cancelled.
pub proof fn lemma_cancel_clears(s: HidState)
    ensures
        !cancel_step(s).1.pending_in,
        !cancel_step(s).1.pending_out,
        cancel_step(s).1.tx_packet is None,
        !cancel_step(cancel_step(s).1).0,
{
}

/// An OUT packet of any length other than the report size is refused and
/// changes nothing; in particular it neither requests a receive nor holds a
/// packet.
pub proof fn lemma_short_or_long_out_refused(
    s: HidState,
    transfer_type: TransferType,
    endpoint: usize,
    packet_bytes: u32,
    client_ready: bool,
)
    requires
        packet_bytes != PACKET_SIZE,
    ensures
        ({
            let (r, t) = packet_out_step(s, transfer_type, endpoint, packet_bytes, client_ready);
            &&& r == OutResult::Error
            &&& t == s
        }),
{
}

/// An OUT packet delivered to the client, whether on arrival or on a later
/// receive request, leaves no staged IN packet and no pending transmission.
pub proof fn lemma_delivery_drops_staged_packet(
    s: HidState,
    transfer_type: TransferType,
    endpoint: usize,
    packet_bytes: u32,
)
    ensures
        packet_out_step(s, transfer_type, endpoint, packet_bytes, true).0 == OutResult::Accepted
            ==> packet_out_step(s, transfer_type, endpoint, packet_bytes, true).1.tx_packet is None
            && !packet_out_step(s, transfer_type, endpoint, packet_bytes, true).1.pending_in,
        s.delayed_out && !s.pending_out ==> receive_step(s, true).1.tx_packet is None
            && !receive_step(s, true).1.pending_in,
{
}

} // verus!
