//! The event for a migrated client.

use crate::events::{migrate_client_event, Event, EventView};
use vstd::prelude::*;

verus! {

/// The event for the client `subject_client_id`, which now runs on the
/// implementation of `substitute_client_id` at `substitute_client_address`.
pub fn success(
    subject_client_id: &str,
    substitute_client_id: &str,
    substitute_client_address: &str,
) -> (event: Event)
    ensures
        event@ == migrate_client_event(
            subject_client_id@,
            substitute_client_id@,
            substitute_client_address@,
        ),
{
    let event = Event::new("migrate_client").add_attribute(
        "subject_client_id",
        subject_client_id.to_owned(),
    ).add_attribute("substitute_client_id", substitute_client_id.to_owned()).add_attribute(
        "substitute_client_address",
        substitute_client_address.to_owned(),
    );
    assert(event@.attributes =~= migrate_client_event(
        subject_client_id@,
        substitute_client_id@,
        substitute_client_address@,
    ).attributes);
    event
}

} // verus!
