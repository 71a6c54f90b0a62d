//! The event for a created client.

use crate::events::{create_client_event, to_debug_text, Event, EventView};
use crate::registry::CounterpartyInfo;
use vstd::prelude::*;

verus! {

/// The text of the merkle prefix of a counterparty, empty where there is none.
pub(crate) fn merkle_prefix_text(counterparty_info: &Option<CounterpartyInfo>) -> (text: String)
    ensures
        text@ == match counterparty_info {
            Some(info) => match info@.merkle_path_prefix {
                Some(prefix) => crate::events::debug_text(prefix),
                None => Seq::<char>::empty(),
            },
            None => Seq::<char>::empty(),
        },
{
    match counterparty_info {
        Some(info) => match &info.merkle_path_prefix {
            Some(prefix) => to_debug_text(&prefix.key_path),
            None => String::new(),
        },
        None => String::new(),
    }
}

/// The event for the client `client_id`, created by `creator` with its
/// implementation at `contract_address`.
pub fn success(
    client_id: &str,
    counterparty_info: &Option<CounterpartyInfo>,
    creator: &str,
    contract_address: &str,
) -> (event: Event)
    ensures
        event@ == create_client_event(
            client_id@,
            match counterparty_info {
                Some(info) => Some(info@.client_id),
                None => None,
            },
            match counterparty_info {
                Some(info) => info@.merkle_path_prefix,
                None => None,
            },
            creator@,
            contract_address@,
        ),
{
    let counterparty_id = match counterparty_info {
        Some(info) => info.client_id.clone(),
        None => String::new(),
    };
    let event = Event::new("create_client").add_attribute(
        "client_id",
        client_id.to_owned(),
    ).add_attribute("counterparty_id", counterparty_id).add_attribute(
        "counterparty_merkle_prefix",
        merkle_prefix_text(counterparty_info),
    ).add_attribute("creator", creator.to_owned()).add_attribute(
        "contract_address",
        contract_address.to_owned(),
    );
    assert(event@.attributes =~= create_client_event(
        client_id@,
        match counterparty_info {
            Some(info) => Some(info@.client_id),
            None => None,
        },
        match counterparty_info {
            Some(info) => info@.merkle_path_prefix,
            None => None,
        },
        creator@,
        contract_address@,
    ).attributes);
    event
}

} // verus!
