//! The event for a sent packet.

use crate::encoding::decimal_string;
use crate::events::{add_endpoints, send_packet_event, to_hex, Event, EventView};
use crate::ibc::Packet;
use vstd::prelude::*;

verus! {

/// The event for the sent packet `packet`, which carries a timeout timestamp.
pub fn success(packet: &Packet) -> (event: Event)
    requires
        packet.timeout.timestamp is Some,
    ensures
        event@ == send_packet_event(packet@),
{
    let event = Event::new("send_packet").add_attribute(
        "packet_data_hex",
        to_hex(packet.data.as_slice()),
    ).add_attribute(
        "packet_timeout_timestamp",
        decimal_string(packet.timeout.timestamp.unwrap()),
    ).add_attribute("packet_sequence", decimal_string(packet.sequence.0));
    let event = add_endpoints(event, packet);
    assert(event@.attributes =~= send_packet_event(packet@).attributes);
    event
}

} // verus!
