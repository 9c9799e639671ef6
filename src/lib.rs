//! Packet-level flow control for a CTAP HID transport over one pair of
//! interrupt endpoints.
//!
//! The driver is a sans-I/O state machine: hardware events and client
//! requests are method calls, and the work that the driver asks of the USB
//! controller and of the protocol client is queued as [`Effect`]s, which the
//! surrounding glue drains with [`ClientCtapHID::take_effects`] and performs.

mod hid;
mod lemmas;
mod model;
mod types;

pub use types::{Effect, InResult, Notice, OutResult, TransferType, CTAP_ENDPOINT, PACKET_SIZE};
pub use model::{
    cancel_in_step, cancel_step, deliver_step, initial_state, packet_in_step, packet_out_step,
    packet_transmitted_step, receive_step, transmit_step, HidState,
};
pub use hid::{notices, ClientCtapHID};
pub use lemmas::{
    lemma_cancel_clears, lemma_delivery_drops_staged_packet, lemma_held_packet_delivered_on_receive,
    lemma_in_traffic_keeps_held_packet, lemma_receive_refused_while_pending,
    lemma_short_or_long_out_refused, lemma_transmit_refused_while_pending,
};
