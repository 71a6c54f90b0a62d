//! The event for a received packet.

use crate::events::{add_endpoints, recv_packet_event, to_hex, Event, EventView};
use crate::ibc::Packet;
use vstd::prelude::*;

verus! {

/// The event for the received packet `packet`.
pub fn success(packet: &Packet) -> (event: Event)
    ensures
        event@ == recv_packet_event(packet@),
{
    let event = Event::new("recv_packet").add_attribute(
        "packet_data_hex",
        to_hex(packet.data.as_slice()),
    );
    let event = add_endpoints(event, packet);
    assert(event@.attributes =~= recv_packet_event(packet@).attributes);
    event
}

} // verus!
