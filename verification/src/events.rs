//! The events that the router and the registry emit for relayers.
//!
//! An event has a type and a list of attributes. What each event holds is
//! defined here as a mathematical value; the functions that build the events
//! stand in one module per event.

use crate::encoding::decimal;
use crate::ibc::PacketView;
use vstd::prelude::*;

pub mod acknowledge_packet;
pub mod create_client;
pub mod migrate_client;
pub mod provide_counterparty;
pub mod recv_packet;
pub mod register_ibc_app;
pub mod send_packet;
pub mod timeout_packet;
pub mod write_acknowledgement;

verus! {

/// The type of the event for a registered application.
pub const EVENT_TYPE_REGISTER_IBC_APP: &'static str = "register_ibc_app";

/// The type of the event for a sent packet.
pub const EVENT_TYPE_SEND_PACKET: &'static str = "send_packet";

/// The type of the event for a received packet.
pub const EVENT_TYPE_RECV_PACKET: &'static str = "recv_packet";

/// The type of the event for a written acknowledgement.
pub const EVENT_TYPE_WRITE_ACKNOWLEDGEMENT: &'static str = "write_acknowledgement";

/// The type of the event for an acknowledged packet.
pub const EVENT_TYPE_ACKNOWLEDGE_PACKET: &'static str = "acknowledge_packet";

/// The type of the event for a packet that timed out.
pub const EVENT_TYPE_TIMEOUT_PACKET: &'static str = "timeout_packet";

/// The type of the event for a created client.
pub const EVENT_TYPE_CREATE_CLIENT: &'static str = "create_client";

/// The type of the event for a counterparty that was provided.
pub const EVENT_TYPE_PROVIDE_COUNTERPARTY: &'static str = "provide_counterparty";

/// The type of the event for a migrated client.
pub const EVENT_TYPE_MIGRATE_CLIENT: &'static str = "migrate_client";

/// The character that stands for the hexadecimal digit `d`.
pub open spec fn hex_digit(d: int) -> char {
    if d == 0 {
        '0'
    } else if d == 1 {
        '1'
    } else if d == 2 {
        '2'
    } else if d == 3 {
        '3'
    } else if d == 4 {
        '4'
    } else if d == 5 {
        '5'
    } else if d == 6 {
        '6'
    } else if d == 7 {
        '7'
    } else if d == 8 {
        '8'
    } else if d == 9 {
        '9'
    } else if d == 10 {
        'a'
    } else if d == 11 {
        'b'
    } else if d == 12 {
        'c'
    } else if d == 13 {
        'd'
    } else if d == 14 {
        'e'
    } else {
        'f'
    }
}

/// The lower-case hexadecimal rendering of `bytes`: two digits for each byte,
/// the high digit first.
pub open spec fn hex_lower(bytes: Seq<u8>) -> Seq<char>
    decreases bytes.len(),
{
    if bytes.len() == 0 {
        Seq::<char>::empty()
    } else {
        hex_lower(bytes.drop_last()).push(hex_digit(bytes.last() as int / 16)).push(
            hex_digit(bytes.last() as int % 16),
        )
    }
}

/// Renders `bytes` in hexadecimal with `HexBinary::to_hex` of `cosmwasm-std`.
///
/// Trusted: the text holds two lower-case hexadecimal digits for each byte, in
/// the order of the bytes, the high digit first.
#[verifier::external_body]
pub(crate) fn to_hex(bytes: &[u8]) -> (text: String)
    ensures
        text@ == hex_lower(bytes@),
{
    cosmwasm_std::HexBinary::from(bytes).to_hex()
}

/// The text that the `Debug` formatting of the standard library gives for a
/// list of strings.
pub uninterp spec fn debug_text(elements: Seq<Seq<char>>) -> Seq<char>;

/// Renders a list of strings with the `Debug` formatting of the standard
/// library.
///
/// Trusted: the text depends on the strings alone. It is named, not restated.
#[verifier::external_body]
pub(crate) fn to_debug_text(elements: &Vec<String>) -> (text: String)
    ensures
        text@ == debug_text(Seq::new(elements@.len(), |i: int| elements@[i]@)),
{
    format!("{:?}", elements)
}

/// One attribute of an event.
#[derive(Debug, Clone, PartialEq, Eq)]
pub struct Attribute {
    /// The name of the attribute.
    pub key: String,
    /// Its value.
    pub value: String,
}

/// Something that happened, for relayers to observe.
#[derive(Debug, Clone, PartialEq, Eq)]
pub struct Event {
    /// The type of the event.
    pub ty: String,
    /// The attributes of the event, in the order in which they were added.
    pub attributes: Vec<Attribute>,
}

/// An event as a mathematical value.
pub struct EventView {
    pub ty: Seq<char>,
    pub attributes: Seq<(Seq<char>, Seq<char>)>,
}

impl View for Event {
    type V = EventView;

    open spec fn view(&self) -> EventView {
        EventView {
            ty: self.ty@,
            attributes: Seq::new(
                self.attributes@.len(),
                |i: int| (self.attributes@[i].key@, self.attributes@[i].value@),
            ),
        }
    }
}

impl Event {
    /// An event of type `ty` without attributes.
    pub fn new(ty: &str) -> (event: Self)
        ensures
            event@ == (EventView { ty: ty@, attributes: Seq::empty() }),
    {
        let event = Event { ty: ty.to_owned(), attributes: Vec::new() };
        assert(event@.attributes =~= Seq::empty());
        event
    }

    /// The event with one more attribute.
    pub fn add_attribute(self, key: &str, value: String) -> (event: Self)
        ensures
            event@ == (EventView {
                ty: self@.ty,
                attributes: self@.attributes.push((key@, value@)),
            }),
    {
        let mut attributes = self.attributes;
        attributes.push(Attribute { key: key.to_owned(), value });
        let event = Event { ty: self.ty, attributes };
        assert(event@.attributes =~= self@.attributes.push((key@, value@)));
        event
    }
}

/// The source and destination attributes that every packet event carries.
pub open spec fn endpoint_attributes(packet: PacketView) -> Seq<(Seq<char>, Seq<char>)> {
    seq![
        ("packet_src_port"@, packet.source_port),
        ("packet_src_channel"@, packet.source_channel),
        ("packet_dst_port"@, packet.destination_port),
        ("packet_dst_channel"@, packet.destination_channel),
    ]
}

/// The event for an application registered at `port_id`.
pub open spec fn register_ibc_app_event(
    port_id: Seq<char>,
    contract_address: Seq<char>,
    sender: Seq<char>,
) -> EventView {
    EventView {
        ty: "register_ibc_app"@,
        attributes: seq![
            ("contract_address"@, contract_address),
            ("port_id"@, port_id),
            ("sender"@, sender),
        ],
    }
}

/// The event for a sent packet.
pub open spec fn send_packet_event(packet: PacketView) -> EventView {
    EventView {
        ty: "send_packet"@,
        attributes: seq![
            ("packet_data_hex"@, hex_lower(packet.data)),
            ("packet_timeout_timestamp"@, decimal(packet.timeout.timestamp->0 as nat)),
            ("packet_sequence"@, decimal(packet.sequence as nat)),
        ] + endpoint_attributes(packet),
    }
}

/// The event for a received packet.
pub open spec fn recv_packet_event(packet: PacketView) -> EventView {
    EventView {
        ty: "recv_packet"@,
        attributes: seq![("packet_data_hex"@, hex_lower(packet.data))] + endpoint_attributes(
            packet,
        ),
    }
}

/// The event for the acknowledgement `ack` written for a received packet.
pub open spec fn write_acknowledgement_event(packet: PacketView, ack: Seq<u8>) -> EventView {
    EventView {
        ty: "write_acknowledgement"@,
        attributes: seq![
            ("packet_data_hex"@, hex_lower(packet.data)),
            ("packet_ack_hex"@, hex_lower(ack)),
        ] + endpoint_attributes(packet),
    }
}

/// The event for a packet whose acknowledgement reached its sender.
pub open spec fn acknowledge_packet_event(packet: PacketView) -> EventView {
    EventView {
        ty: "acknowledge_packet"@,
        attributes: endpoint_attributes(packet).push(
            ("packet_sequence"@, decimal(packet.sequence as nat)),
        ),
    }
}

/// The event for a packet that timed out.
pub open spec fn timeout_packet_event(packet: PacketView) -> EventView {
    EventView {
        ty: "timeout_packet"@,
        attributes: endpoint_attributes(packet).push(
            ("packet_sequence"@, decimal(packet.sequence as nat)),
        ),
    }
}

/// The attributes that describe a counterparty: its client identifier, and
/// its merkle prefix in debug formatting. What is absent is the empty string.
pub open spec fn counterparty_attributes(
    counterparty_id: Option<Seq<char>>,
    merkle_prefix: Option<Seq<Seq<char>>>,
) -> Seq<(Seq<char>, Seq<char>)> {
    seq![
        (
            "counterparty_id"@,
            match counterparty_id {
                Some(id) => id,
                None => Seq::<char>::empty(),
            },
        ),
        (
            "counterparty_merkle_prefix"@,
            match merkle_prefix {
                Some(prefix) => debug_text(prefix),
                None => Seq::<char>::empty(),
            },
        ),
    ]
}

/// The event for a created client.
pub open spec fn create_client_event(
    client_id: Seq<char>,
    counterparty_id: Option<Seq<char>>,
    merkle_prefix: Option<Seq<Seq<char>>>,
    creator: Seq<char>,
    contract_address: Seq<char>,
) -> EventView {
    EventView {
        ty: "create_client"@,
        attributes: seq![("client_id"@, client_id)] + counterparty_attributes(
            counterparty_id,
            merkle_prefix,
        ) + seq![("creator"@, creator), ("contract_address"@, contract_address)],
    }
}

/// The event for a counterparty provided to a client.
pub open spec fn provide_counterparty_event(
    client_id: Seq<char>,
    counterparty_id: Seq<char>,
    merkle_prefix: Option<Seq<Seq<char>>>,
) -> EventView {
    EventView {
        ty: "provide_counterparty"@,
        attributes: seq![("client_id"@, client_id)] + counterparty_attributes(
            Some(counterparty_id),
            merkle_prefix,
        ),
    }
}

/// The event for a client that now runs on the implementation of another.
pub open spec fn migrate_client_event(
    subject_client_id: Seq<char>,
    substitute_client_id: Seq<char>,
    substitute_client_address: Seq<char>,
) -> EventView {
    EventView {
        ty: "migrate_client"@,
        attributes: seq![
            ("subject_client_id"@, subject_client_id),
            ("substitute_client_id"@, substitute_client_id),
            ("substitute_client_address"@, substitute_client_address),
        ],
    }
}

/// Adds the source and destination of `packet` to `event`.
pub(crate) fn add_endpoints(event: Event, packet: &crate::ibc::Packet) -> (extended: Event)
    ensures
        extended@ == (EventView {
            ty: event@.ty,
            attributes: event@.attributes + endpoint_attributes(packet@),
        }),
{
    let extended = event.add_attribute(
        "packet_src_port",
        packet.source_port.as_str().to_owned(),
    ).add_attribute("packet_src_channel", packet.source_channel.as_str().to_owned()).add_attribute(
        "packet_dst_port",
        packet.destination_port.as_str().to_owned(),
    ).add_attribute("packet_dst_channel", packet.destination_channel.as_str().to_owned());
    assert(extended@.attributes =~= event@.attributes + endpoint_attributes(packet@));
    extended
}

} // verus!
