//! The event for a written acknowledgement.

use crate::events::{add_endpoints, to_hex, write_acknowledgement_event, Event, EventView};
use crate::ibc::{Acknowledgement, Packet};
use vstd::prelude::*;

verus! {

/// The event for the acknowledgement `ack`, written for `packet`.
pub fn success(packet: &Packet, ack: &Acknowledgement) -> (event: Event)
    ensures
        event@ == write_acknowledgement_event(packet@, ack@),
{
    let event = Event::new("write_acknowledgement").add_attribute(
        "packet_data_hex",
        to_hex(packet.data.as_slice()),
    ).add_attribute("packet_ack_hex", to_hex(ack.as_slice()));
    let event = add_endpoints(event, packet);
    assert(event@.attributes =~= write_acknowledgement_event(packet@, ack@).attributes);
    event
}

} // verus!
