//! The event for a packet whose acknowledgement reached its sender.

use crate::encoding::decimal_string;
use crate::events::{acknowledge_packet_event, add_endpoints, Event, EventView};
use crate::ibc::Packet;
use vstd::prelude::*;

verus! {

/// The event for the acknowledged packet `packet`.
pub fn success(packet: &Packet) -> (event: Event)
    ensures
        event@ == acknowledge_packet_event(packet@),
{
    let event = add_endpoints(Event::new("acknowledge_packet"), packet).add_attribute(
        "packet_sequence",
        decimal_string(packet.sequence.0),
    );
    assert(event@.attributes =~= acknowledge_packet_event(packet@).attributes);
    event
}

} // verus!
