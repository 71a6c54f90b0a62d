//! The place of the commitment of a packet.

use crate::paths::{commitment_key, render_packet_path};
use crate::store::PureItem;
use vstd::prelude::*;

verus! {

/// The place of the commitment of the packet numbered `sequence` at `port_id`
/// on `channel_id`.
pub fn new(port_id: &str, channel_id: &str, sequence: u64) -> (item: PureItem)
    ensures
        item@ == commitment_key(port_id@, channel_id@, sequence),
{
    PureItem::new(render_packet_path("commitments", port_id, channel_id, sequence).as_str())
}

} // verus!
