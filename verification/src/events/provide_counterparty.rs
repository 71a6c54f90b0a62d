//! The event for a counterparty provided to a client.

use crate::events::{provide_counterparty_event, to_debug_text, Event, EventView};
use crate::registry::CounterpartyInfo;
use vstd::prelude::*;

verus! {

/// The event for the counterparty `counterparty_info`, provided to the client
/// `client_id`.
pub fn success(client_id: &str, counterparty_info: &CounterpartyInfo) -> (event: Event)
    ensures
        event@ == provide_counterparty_event(
            client_id@,
            counterparty_info@.client_id,
            counterparty_info@.merkle_path_prefix,
        ),
{
    let prefix_text = match &counterparty_info.merkle_path_prefix {
        Some(prefix) => to_debug_text(&prefix.key_path),
        None => String::new(),
    };
    let event = Event::new("provide_counterparty").add_attribute(
        "client_id",
        client_id.to_owned(),
    ).add_attribute("counterparty_id", counterparty_info.client_id.clone()).add_attribute(
        "counterparty_merkle_prefix",
        prefix_text,
    );
    assert(event@.attributes =~= provide_counterparty_event(
        client_id@,
        counterparty_info@.client_id,
        counterparty_info@.merkle_path_prefix,
    ).attributes);
    event
}

} // verus!
