//! The place of the receipt of a packet.

use crate::paths::{receipt_key, render_packet_path};
use crate::store::PureItem;
use vstd::prelude::*;

verus! {

/// The place of the receipt of the packet numbered `sequence` at `port_id`
/// on `channel_id`.
pub fn new(port_id: &str, channel_id: &str, sequence: u64) -> (item: PureItem)
    ensures
        item@ == receipt_key(port_id@, channel_id@, sequence),
{
    PureItem::new(render_packet_path("receipts", port_id, channel_id, sequence).as_str())
}

} // verus!
