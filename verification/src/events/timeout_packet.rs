//! The event for a packet that timed out.

use crate::encoding::decimal_string;
use crate::events::{add_endpoints, timeout_packet_event, Event, EventView};
use crate::ibc::Packet;
use vstd::prelude::*;

verus! {

/// The event for the timed-out packet `packet`.
pub fn success(packet: &Packet) -> (event: Event)
    ensures
        event@ == timeout_packet_event(packet@),
{
    let event = add_endpoints(Event::new("timeout_packet"), packet).add_attribute(
        "packet_sequence",
        decimal_string(packet.sequence.0),
    );
    assert(event@.attributes =~= timeout_packet_event(packet@).attributes);
    event
}

} // verus!
