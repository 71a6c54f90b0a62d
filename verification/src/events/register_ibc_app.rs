//! The event for a registered application.

use crate::events::{register_ibc_app_event, Event, EventView};
use vstd::prelude::*;

verus! {

/// The event for the application at `contract_address`, registered at
/// `port_id` by `sender`.
pub fn success(port_id: &str, contract_address: &str, sender: &str) -> (event: Event)
    ensures
        event@ == register_ibc_app_event(port_id@, contract_address@, sender@),
{
    let event = Event::new("register_ibc_app").add_attribute(
        "contract_address",
        contract_address.to_owned(),
    ).add_attribute("port_id", port_id.to_owned()).add_attribute("sender", sender.to_owned());
    assert(event@.attributes =~= register_ibc_app_event(
        port_id@,
        contract_address@,
        sender@,
    ).attributes);
    event
}

} // verus!
