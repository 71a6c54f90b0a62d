//! The router as a state machine over mathematical values.
//!
//! The state is the provable store, the applications by port, and the packet
//! that is in flight between its receipt and the reply of the application.
//! Each transition is a function from the state before and the request to
//! either the state after together with what the router answers, or the
//! error that leaves the state as it was.

use crate::callbacks::CallbackView;
use crate::clients::QueryView;
use crate::encoding::{be64, be_value};
use crate::error::ErrorView;
use crate::events::{
    acknowledge_packet_event, recv_packet_event, register_ibc_app_event, send_packet_event,
    timeout_packet_event, write_acknowledgement_event, EventView,
};
use crate::ibc::{ack_commitment, receipt_value, Height, PacketView, Timeout};
use crate::identifiers::{is_client_id, is_port_id};
use crate::paths::{
    ack_key, ack_path, commitment_key, commitment_path, next_sequence_send_key,
    prefixed_merkle_path, receipt_key, receipt_path,
};
use crate::registry::{CounterpartyView, RegistryView};
use crate::router::msg::SendPacketMsgView;
use crate::timeout::validate_spec;
use vstd::prelude::*;
use vstd::utf8::encode_utf8;

verus! {

/// The identifier under which the router expects the reply to a receive
/// callback.
pub const ON_RECV_PACKET: u64 = 1;

/// The router as a mathematical value.
pub struct RouterView {
    /// The provable store: commitments, acknowledgements, receipts and send
    /// counters under their keys.
    pub store: Map<Seq<u8>, Seq<u8>>,
    /// The address of the application at each port.
    pub apps: Map<Seq<char>, Seq<char>>,
    /// The packet that was received and waits for the reply of its
    /// application, if any.
    pub in_flight: Option<PacketView>,
}

/// A callback to an application as a mathematical value.
pub struct CallView {
    /// The address of the application.
    pub contract_addr: Seq<char>,
    /// The callback.
    pub msg: CallbackView,
    /// The identifier under which the reply is expected, if one is.
    pub reply_id: Option<u64>,
}

/// What the router answers to a request, as a mathematical value.
pub struct ResponseView {
    /// The callbacks to dispatch.
    pub messages: Seq<CallView>,
    /// The events to emit.
    pub events: Seq<EventView>,
}

/// The error for a port without application.
pub open spec fn missing_app(port: Seq<char>) -> ErrorView {
    ErrorView::NotFound { kind: "ibc_app"@, key: encode_utf8(port) }
}

/// The error for a key of the store without value.
pub open spec fn missing_value(key: Seq<u8>) -> ErrorView {
    ErrorView::NotFound { kind: "bytes"@, key }
}

/// The error for a reply that finds no packet in flight.
pub open spec fn missing_packet() -> ErrorView {
    ErrorView::NotFound { kind: "packet"@, key: encode_utf8("packet_temp_store"@) }
}

/// The error for a send counter that is not eight bytes long.
pub open spec fn corrupt_counter() -> ErrorView {
    ErrorView::Std("corrupt sequence counter"@)
}

/// The error for a string that is not an identifier. Its text comes from the
/// validator and is left open.
pub open spec fn identifier_error() -> ErrorView {
    ErrorView::IdentifierError(Seq::<char>::empty())
}

/// Whether the error `actual` is the error `expected`, where the text of an
/// identifier error is left open.
pub open spec fn errors_agree(actual: ErrorView, expected: ErrorView) -> bool {
    if expected is IdentifierError {
        actual is IdentifierError
    } else {
        actual == expected
    }
}

/// The number that the next packet sent from `port` on `channel` gets: 1
/// where no counter is stored, else the counter. A stored counter that is not
/// eight bytes long is no number.
pub open spec fn next_sequence_send(
    store: Map<Seq<u8>, Seq<u8>>,
    port: Seq<char>,
    channel: Seq<char>,
) -> Option<u64> {
    let key = next_sequence_send_key(port, channel);
    if !store.contains_key(key) {
        Some(1)
    } else if store[key].len() == 8 {
        Some(be_value(store[key]) as u64)
    } else {
        None
    }
}

/// The port that an application at `address` gets when it names none.
pub open spec fn contract_port(address: Seq<char>) -> Seq<char> {
    "wasm."@ + address
}

/// The question whether the counterparty stores `value` under `path`.
pub open spec fn membership_query(
    proof: Seq<u8>,
    path: Seq<Seq<char>>,
    value: Seq<u8>,
    height: Height,
) -> QueryView {
    QueryView::VerifyMembership {
        proof,
        path,
        value,
        height,
        delay_block_period: 0,
        delay_time_period: 0,
    }
}

/// The question whether the counterparty stores nothing under `path`.
pub open spec fn non_membership_query(
    proof: Seq<u8>,
    path: Seq<Seq<char>>,
    height: Height,
) -> QueryView {
    QueryView::VerifyNonMembership {
        proof,
        path,
        height,
        delay_block_period: 0,
        delay_time_period: 0,
    }
}

impl RouterView {
    /// The router before anything has happened.
    pub open spec fn initial() -> RouterView {
        RouterView { store: Map::empty(), apps: Map::empty(), in_flight: None }
    }

    /// The counterparty of `channel`, provided that it is `expected`.
    pub open spec fn resolve(
        registry: RegistryView,
        channel: Seq<char>,
        expected: Seq<char>,
    ) -> Result<CounterpartyView, ErrorView> {
        match registry.counterparty(channel) {
            Err(e) => Err(e),
            Ok(counterparty) => {
                if counterparty.client_id != expected {
                    Err(
                        ErrorView::InvalidCounterparty {
                            expected: counterparty.client_id,
                            actual: expected,
                        },
                    )
                } else {
                    Ok(counterparty)
                }
            },
        }
    }

    /// Sends a packet for the application at the source port: the packet is
    /// numbered by the send counter of its channel, the counter moves on, the
    /// commitment of the packet is stored, and the application is called back
    /// with the packet.
    pub open spec fn send_packet(
        self,
        registry: RegistryView,
        now: u64,
        sender: Seq<char>,
        msg: SendPacketMsgView,
    ) -> Result<(RouterView, ResponseView), ErrorView> {
        if !self.apps.contains_key(msg.source_port) {
            Err(missing_app(msg.source_port))
        } else {
            match registry.counterparty(msg.source_channel) {
                Err(e) => Err(e),
                Ok(counterparty) => {
                    let dest_channel = match msg.dest_channel {
                        Some(channel) => channel,
                        None => counterparty.client_id,
                    };
                    if dest_channel != counterparty.client_id {
                        Err(
                            ErrorView::InvalidCounterparty {
                                expected: counterparty.client_id,
                                actual: dest_channel,
                            },
                        )
                    } else if !is_client_id(msg.source_channel) || !is_port_id(msg.source_port)
                        || !is_port_id(msg.dest_port) || !is_client_id(dest_channel) {
                        Err(identifier_error())
                    } else {
                        match validate_spec(now, msg.timeout) {
                            Err(e) => Err(e),
                            Ok(_) => match next_sequence_send(
                                self.store,
                                msg.source_port,
                                msg.source_channel,
                            ) {
                                None => Err(corrupt_counter()),
                                Some(sequence) => {
                                    let packet = PacketView {
                                        sequence,
                                        source_port: msg.source_port,
                                        source_channel: msg.source_channel,
                                        destination_port: msg.dest_port,
                                        destination_channel: dest_channel,
                                        data: msg.data,
                                        timeout: msg.timeout,
                                    };
                                    let key = commitment_key(
                                        msg.source_port,
                                        msg.source_channel,
                                        sequence,
                                    );
                                    if sequence == u64::MAX {
                                        Err(ErrorView::CounterOverflow)
                                    } else if self.store.contains_key(key) {
                                        Err(ErrorView::PacketAlreadyCommited { key })
                                    } else {
                                        Ok(
                                            (
                                                RouterView {
                                                    store: self.store.insert(
                                                        next_sequence_send_key(
                                                            msg.source_port,
                                                            msg.source_channel,
                                                        ),
                                                        be64((sequence + 1) as u64),
                                                    ).insert(key, packet.commitment()),
                                                    apps: self.apps,
                                                    in_flight: self.in_flight,
                                                },
                                                ResponseView {
                                                    messages: seq![
                                                        CallView {
                                                            contract_addr: self.apps[msg.source_port],
                                                            msg: CallbackView::OnSendPacket {
                                                                packet,
                                                                version: msg.version,
                                                                sender,
                                                            },
                                                            reply_id: None,
                                                        },
                                                    ],
                                                    events: seq![send_packet_event(packet)],
                                                },
                                            ),
                                        )
                                    }
                                },
                            },
                        }
                    }
                },
            }
        }
    }

    /// What has to be proved before `packet` is received: that the
    /// counterparty stores the commitment of the packet under the commitment
    /// path, below its merkle prefix. The question goes to the light client
    /// of the destination channel, whose address comes with it.
    pub open spec fn recv_packet_query(
        self,
        registry: RegistryView,
        packet: PacketView,
        proof: Seq<u8>,
        height: Height,
    ) -> Result<(Seq<char>, QueryView), ErrorView> {
        if !self.apps.contains_key(packet.destination_port) {
            Err(missing_app(packet.destination_port))
        } else {
            match Self::resolve(registry, packet.destination_channel, packet.source_channel) {
                Err(e) => Err(e),
                Ok(counterparty) => {
                    if packet.timeout.timestamp is None {
                        Err(ErrorView::EmptyTimestamp)
                    } else {
                        match prefixed_merkle_path(
                            counterparty.merkle_path_prefix,
                            commitment_path(
                                packet.source_port,
                                packet.source_channel,
                                packet.sequence,
                            ),
                        ) {
                            Err(e) => Err(e),
                            Ok(path) => Ok(
                                (
                                    registry.clients[packet.destination_channel].address,
                                    membership_query(proof, path, packet.commitment(), height),
                                ),
                            ),
                        }
                    }
                },
            }
        }
    }

    /// Receives `packet`, where `verified` says whether the light client
    /// accepted the proof of its commitment: a receipt is stored, the packet
    /// is put in flight, and the application at the destination port is
    /// called back, its reply being expected.
    pub open spec fn recv_packet(
        self,
        registry: RegistryView,
        relayer: Seq<char>,
        packet: PacketView,
        verified: bool,
    ) -> Result<(RouterView, ResponseView), ErrorView> {
        let key = receipt_key(packet.destination_port, packet.destination_channel, packet.sequence);
        match self.recv_packet_query(registry, packet, Seq::empty(), Height {
            revision_number: 0,
            revision_height: 0,
        }) {
            Err(e) => Err(e),
            Ok(_) => {
                if !verified {
                    Err(ErrorView::VerificationFailed)
                } else if self.store.contains_key(key) {
                    Err(ErrorView::PacketAlreadyCommited { key })
                } else if self.in_flight is Some {
                    Err(ErrorView::Reentrancy)
                } else {
                    Ok(
                        (
                            RouterView {
                                store: self.store.insert(key, receipt_value()),
                                apps: self.apps,
                                in_flight: Some(packet),
                            },
                            ResponseView {
                                messages: seq![
                                    CallView {
                                        contract_addr: self.apps[packet.destination_port],
                                        msg: CallbackView::OnRecvPacket { packet, relayer },
                                        reply_id: Some(ON_RECV_PACKET),
                                    },
                                ],
                                events: seq![recv_packet_event(packet)],
                            },
                        ),
                    )
                }
            },
        }
    }

    /// Takes the reply of the application to the packet in flight: `data` is
    /// what the application returned. The commitment of the acknowledgement
    /// is stored and the packet is in flight no longer.
    pub open spec fn write_acknowledgement(self, data: Option<Seq<u8>>) -> Result<
        (RouterView, ResponseView),
        ErrorView,
    > {
        if data is None || data->0.len() == 0 {
            Err(ErrorView::RecvPacketCallbackNoResponse)
        } else if self.in_flight is None {
            Err(missing_packet())
        } else {
            let packet = self.in_flight->0;
            let key = ack_key(packet.destination_port, packet.destination_channel, packet.sequence);
            if self.store.contains_key(key) {
                Err(ErrorView::PacketAlreadyCommited { key })
            } else {
                Ok(
                    (
                        RouterView {
                            store: self.store.insert(key, ack_commitment(data->0)),
                            apps: self.apps,
                            in_flight: None,
                        },
                        ResponseView {
                            messages: Seq::empty(),
                            events: seq![write_acknowledgement_event(packet, data->0)],
                        },
                    ),
                )
            }
        }
    }

    /// Receives `packet` as one transition from the arrival of the packet to
    /// the reply of its application. `callback` is what became of the
    /// callback: nothing if the application failed, else what it returned.
    /// Unless every part succeeds, the router is left as it was.
    pub open spec fn receive(
        self,
        registry: RegistryView,
        relayer: Seq<char>,
        packet: PacketView,
        verified: bool,
        callback: Option<Option<Seq<u8>>>,
    ) -> Result<RouterView, ErrorView> {
        match self.recv_packet(registry, relayer, packet, verified) {
            Err(e) => Err(e),
            Ok(received) => match callback {
                None => Err(ErrorView::Std("callback failed"@)),
                Some(data) => match received.0.reply(ON_RECV_PACKET, data) {
                    Err(e) => Err(e),
                    Ok(written) => Ok(written.0),
                },
            },
        }
    }

    /// Takes a reply under the identifier `id`.
    pub open spec fn reply(self, id: u64, data: Option<Seq<u8>>) -> Result<
        (RouterView, ResponseView),
        ErrorView,
    > {
        if id == ON_RECV_PACKET {
            self.write_acknowledgement(data)
        } else {
            Err(ErrorView::UnknownReplyId(id))
        }
    }

    /// The checks on a packet that returns to its sender, with an
    /// acknowledgement or timed out: the application at the source port, the
    /// counterparty of the source channel, and the timeout timestamp.
    pub open spec fn returning(self, registry: RegistryView, packet: PacketView) -> Result<
        CounterpartyView,
        ErrorView,
    > {
        if !self.apps.contains_key(packet.source_port) {
            Err(missing_app(packet.source_port))
        } else {
            match Self::resolve(registry, packet.source_channel, packet.destination_channel) {
                Err(e) => Err(e),
                Ok(counterparty) => {
                    if packet.timeout.timestamp is None {
                        Err(ErrorView::EmptyTimestamp)
                    } else {
                        Ok(counterparty)
                    }
                },
            }
        }
    }

    /// The check that the commitment stored for `packet` is its commitment.
    pub open spec fn committed(self, packet: PacketView) -> Result<(), ErrorView> {
        let key = commitment_key(packet.source_port, packet.source_channel, packet.sequence);
        if !self.store.contains_key(key) {
            Err(missing_value(key))
        } else if self.store[key] != packet.commitment() {
            Err(
                ErrorView::PacketCommitmentMismatch {
                    expected: self.store[key],
                    provided: packet.commitment(),
                },
            )
        } else {
            Ok(())
        }
    }

    /// What has to be proved before the acknowledgement `ack` of `packet` is
    /// taken: that the counterparty stores the commitment of `ack` under the
    /// acknowledgement path, below its merkle prefix.
    pub open spec fn acknowledgement_query(
        self,
        registry: RegistryView,
        packet: PacketView,
        ack: Seq<u8>,
        proof: Seq<u8>,
        height: Height,
    ) -> Result<(Seq<char>, QueryView), ErrorView> {
        match self.returning(registry, packet) {
            Err(e) => Err(e),
            Ok(counterparty) => match self.committed(packet) {
                Err(e) => Err(e),
                Ok(_) => match prefixed_merkle_path(
                    counterparty.merkle_path_prefix,
                    ack_path(packet.destination_port, packet.destination_channel, packet.sequence),
                ) {
                    Err(e) => Err(e),
                    Ok(path) => Ok(
                        (
                            registry.clients[packet.source_channel].address,
                            membership_query(proof, path, ack_commitment(ack), height),
                        ),
                    ),
                },
            },
        }
    }

    /// Takes the acknowledgement `ack` of `packet`, where `verified` says
    /// whether the light client accepted its proof: the commitment of the
    /// packet is deleted and the application at the source port is called
    /// back.
    pub open spec fn acknowledgement(
        self,
        registry: RegistryView,
        relayer: Seq<char>,
        packet: PacketView,
        ack: Seq<u8>,
        verified: bool,
    ) -> Result<(RouterView, ResponseView), ErrorView> {
        match self.acknowledgement_query(registry, packet, ack, Seq::empty(), Height {
            revision_number: 0,
            revision_height: 0,
        }) {
            Err(e) => Err(e),
            Ok(_) => {
                if !verified {
                    Err(ErrorView::VerificationFailed)
                } else {
                    Ok(
                        (
                            RouterView {
                                store: self.store.remove(
                                    commitment_key(
                                        packet.source_port,
                                        packet.source_channel,
                                        packet.sequence,
                                    ),
                                ),
                                apps: self.apps,
                                in_flight: self.in_flight,
                            },
                            ResponseView {
                                messages: seq![
                                    CallView {
                                        contract_addr: self.apps[packet.source_port],
                                        msg: CallbackView::OnAcknowledgementPacket {
                                            packet,
                                            acknowledgement: ack,
                                            relayer,
                                        },
                                        reply_id: None,
                                    },
                                ],
                                events: seq![acknowledge_packet_event(packet)],
                            },
                        ),
                    )
                }
            },
        }
    }

    /// What has to be asked before `packet` is voided: the time of the
    /// counterparty at the proof height, and whether the counterparty stores
    /// nothing under the receipt path, below its merkle prefix.
    pub open spec fn timeout_queries(
        self,
        registry: RegistryView,
        packet: PacketView,
        proof: Seq<u8>,
        height: Height,
    ) -> Result<(Seq<char>, Seq<QueryView>), ErrorView> {
        match self.returning(registry, packet) {
            Err(e) => Err(e),
            Ok(counterparty) => match prefixed_merkle_path(
                counterparty.merkle_path_prefix,
                receipt_path(packet.destination_port, packet.destination_channel, packet.sequence),
            ) {
                Err(e) => Err(e),
                Ok(path) => Ok(
                    (
                        registry.clients[packet.source_channel].address,
                        seq![
                            QueryView::TimestampAtHeight { height },
                            non_membership_query(proof, path, height),
                        ],
                    ),
                ),
            },
        }
    }

    /// Voids `packet`, where `proof_timestamp` is the time of the
    /// counterparty at the proof height, if the light client knows it, and
    /// `verified` says whether the light client accepted the proof that the
    /// counterparty holds no receipt: the timeout must have come at the proof
    /// height; the commitment of the packet is deleted and the application at
    /// the source port is called back.
    pub open spec fn timeout(
        self,
        registry: RegistryView,
        relayer: Seq<char>,
        packet: PacketView,
        proof_timestamp: Option<u64>,
        verified: bool,
    ) -> Result<(RouterView, ResponseView), ErrorView> {
        match self.timeout_queries(registry, packet, Seq::empty(), Height {
            revision_number: 0,
            revision_height: 0,
        }) {
            Err(e) => Err(e),
            Ok(_) => {
                if proof_timestamp is None {
                    Err(ErrorView::ProofHeightNotReached)
                } else if proof_timestamp->0 < packet.timeout.timestamp->0 {
                    Err(
                        ErrorView::TimeoutNotReached {
                            timeout: packet.timeout.timestamp->0,
                            proof_timestamp: proof_timestamp->0,
                        },
                    )
                } else if !verified {
                    Err(ErrorView::VerificationFailed)
                } else {
                    match self.committed(packet) {
                        Err(e) => Err(e),
                        Ok(_) => Ok(
                            (
                                RouterView {
                                    store: self.store.remove(
                                        commitment_key(
                                            packet.source_port,
                                            packet.source_channel,
                                            packet.sequence,
                                        ),
                                    ),
                                    apps: self.apps,
                                    in_flight: self.in_flight,
                                },
                                ResponseView {
                                    messages: seq![
                                        CallView {
                                            contract_addr: self.apps[packet.source_port],
                                            msg: CallbackView::OnTimeoutPacket { packet, relayer },
                                            reply_id: None,
                                        },
                                    ],
                                    events: seq![timeout_packet_event(packet)],
                                },
                            ),
                        ),
                    }
                }
            },
        }
    }

    /// Binds the application at `address` to a port, on the request of
    /// `sender`: to `port_id` if one is named, which only the administrator
    /// `admin` of the router may do, else to the port that follows from the
    /// address. A port that is bound to another address stays bound to it.
    pub open spec fn register_ibc_app(
        self,
        admin: Option<Seq<char>>,
        sender: Seq<char>,
        port_id: Option<Seq<char>>,
        address: Seq<char>,
    ) -> Result<(RouterView, ResponseView), ErrorView> {
        let port = match port_id {
            Some(port) => port,
            None => contract_port(address),
        };
        if port_id is Some && (admin is None || admin->0 != sender) {
            Err(ErrorView::Unauthorized)
        } else if !is_port_id(port) {
            Err(identifier_error())
        } else if self.apps.contains_key(port) && self.apps[port] != address {
            Err(ErrorView::PortAlreadyBound { port_id: port, address: self.apps[port] })
        } else {
            Ok(
                (
                    RouterView {
                        store: self.store,
                        apps: self.apps.insert(port, address),
                        in_flight: self.in_flight,
                    },
                    ResponseView {
                        messages: Seq::empty(),
                        events: seq![register_ibc_app_event(port, address, sender)],
                    },
                ),
            )
        }
    }

    /// The address of the application bound to `port_id`.
    pub open spec fn port_router(self, port_id: Seq<char>) -> Result<Seq<char>, ErrorView> {
        if self.apps.contains_key(port_id) {
            Ok(self.apps[port_id])
        } else {
            Err(missing_app(port_id))
        }
    }
}

} // verus!
