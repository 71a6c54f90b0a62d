//! The router: the packet engine.
//!
//! The router numbers and commits the packets that applications send,
//! receives the packets that relayers deliver, writes and takes
//! acknowledgements, and voids packets that timed out. What it decides is
//! laid down in [`model`]; the functions here carry the decisions out on the
//! store and say, for every request, that they do exactly what the model
//! says.

pub mod model;
pub mod msg;
pub mod state;

use crate::apps::contract_port_id;
use crate::callbacks::IbcAppCallbackMsg;
use crate::clients::{QueryMsg as ClientQueryMsg, VerifyMembershipMsg, VerifyNonMembershipMsg};
use crate::directory::Directory;
use crate::encoding::{copy_bytes, same_bytes, same_text, text_bytes};
use crate::error::{ContractError, ErrorView};
use crate::events::{Event, EventView};
use crate::host::{admin_view, Env, MessageInfo};
use crate::ibc::{Acknowledgement, Packet, PacketView};
use crate::identifiers::{ClientId, PortId, Sequence};
use crate::paths::{
    lemma_keys_of_different_kinds, PacketAcknowledgementPath, PacketCommitmentPath,
    PacketReceiptPath,
};
use crate::registry::{ClientRegistry, CounterpartyInfo, RegistryInstantiateMsg};
use crate::router::model::{
    errors_agree, CallView, ResponseView, RouterView, ON_RECV_PACKET,
};
use crate::router::msg::{
    AcknowledgementMsg, Evidence, ExecuteMsg, QueryMsg, RecvPacketMsg, SendPacketMsg, TimeoutMsg,
};
use crate::store::Store;
use crate::wasm::WasmMsg;
use vstd::prelude::*;

verus! {

/// A callback to dispatch to an application.
#[derive(Debug, PartialEq, Eq)]
pub struct SubMsg {
    /// The address of the application.
    pub contract_addr: String,
    /// The callback.
    pub msg: IbcAppCallbackMsg,
    /// The identifier under which the router expects the reply to a
    /// successful callback, if it expects one.
    pub reply_id: Option<u64>,
}

impl View for SubMsg {
    type V = CallView;

    open spec fn view(&self) -> CallView {
        CallView { contract_addr: self.contract_addr@, msg: self.msg@, reply_id: self.reply_id }
    }
}

/// What the router answers to a request.
#[derive(Debug, PartialEq, Eq)]
pub struct Response {
    /// The callbacks to dispatch, in order.
    pub messages: Vec<SubMsg>,
    /// The events to emit, in order.
    pub events: Vec<Event>,
}

impl View for Response {
    type V = ResponseView;

    open spec fn view(&self) -> ResponseView {
        ResponseView {
            messages: Seq::new(self.messages@.len(), |i: int| self.messages@[i]@),
            events: Seq::new(self.events@.len(), |i: int| self.events@[i]@),
        }
    }
}

impl Response {
    /// The answer with the event `event` and, if there is one, the callback
    /// `message`.
    pub fn new(message: Option<SubMsg>, event: Event) -> (response: Self)
        ensures
            response@ == (ResponseView {
                messages: match message {
                    Some(m) => seq![m@],
                    None => Seq::empty(),
                },
                events: seq![event@],
            }),
    {
        let mut messages: Vec<SubMsg> = Vec::new();
        if let Some(m) = message {
            messages.push(m);
        }
        let mut events: Vec<Event> = Vec::new();
        events.push(event);
        let response = Response { messages, events };
        assert(response@.events =~= seq![event@]);
        assert(response@.messages =~= match message {
            Some(m) => seq![m@],
            None => Seq::empty(),
        });
        response
    }
}

/// The addresses of a directory of applications as sequences of characters.
pub open spec fn addresses(apps: Map<Seq<char>, String>) -> Map<Seq<char>, Seq<char>> {
    Map::new(|port: Seq<char>| apps.contains_key(port), |port: Seq<char>| apps[port]@)
}

/// The view of a packet that may be absent.
pub open spec fn packet_view(packet: Option<Packet>) -> Option<PacketView> {
    match packet {
        Some(packet) => Some(packet@),
        None => None,
    }
}

/// The packet engine of one chain.
pub struct Router {
    store: Store,
    apps: Directory<String>,
    in_flight: Option<Packet>,
    ics02_client_address: String,
}

impl View for Router {
    type V = RouterView;

    closed spec fn view(&self) -> RouterView {
        RouterView {
            store: self.store@,
            apps: addresses(self.apps@),
            in_flight: packet_view(self.in_flight),
        }
    }
}

impl Router {
    /// A router without packets and without applications, whose client
    /// registry lives at `ics02_client_address`.
    pub fn new(ics02_client_address: String) -> (router: Self)
        ensures
            router@ == RouterView::initial(),
            router.registry_address() == ics02_client_address@,
    {
        let router = Router {
            store: Store::new(),
            apps: Directory::new(),
            in_flight: None,
            ics02_client_address,
        };
        assert(router@.apps =~= Map::<Seq<char>, Seq<char>>::empty());
        router
    }

    /// The router that holds `store`, the applications `apps` and the packet
    /// `in_flight`, and whose client registry lives at
    /// `ics02_client_address`.
    pub fn from_parts(
        store: Store,
        apps: Directory<String>,
        in_flight: Option<Packet>,
        ics02_client_address: String,
    ) -> (router: Self)
        ensures
            router@ == (RouterView {
                store: store@,
                apps: addresses(apps@),
                in_flight: packet_view(in_flight),
            }),
            router.registry_address() == ics02_client_address@,
    {
        Router { store, apps, in_flight, ics02_client_address }
    }

    /// The applications of the router, by port.
    pub fn apps(&self) -> (apps: &Directory<String>)
        ensures
            addresses(apps@) == self@.apps,
    {
        &self.apps
    }

    /// The address of the client registry of the router.
    pub closed spec fn registry_address(&self) -> Seq<char> {
        self.ics02_client_address@
    }

    /// The address of the client registry of the router.
    pub fn ics02_client_address(&self) -> (address: &str)
        ensures
            address@ == self.registry_address(),
    {
        self.ics02_client_address.as_str()
    }

    /// The provable store of the router.
    pub fn store(&self) -> (store: &Store)
        ensures
            store@ == self@.store,
    {
        &self.store
    }

    /// The packet in flight, if any.
    pub fn in_flight(&self) -> (packet: &Option<Packet>)
        ensures
            packet_view(*packet) == self@.in_flight,
    {
        &self.in_flight
    }

    /// The address of the application bound to `port_id`.
    pub fn port_router(&self, port_id: &str) -> (r: Result<String, ContractError>)
        ensures
            match self@.port_router(port_id@) {
                Ok(address) => r is Ok && r->Ok_0@ == address,
                Err(e) => r is Err && r->Err_0@ == e,
            },
    {
        match self.apps.get(port_id) {
            Some(address) => Ok(address.clone()),
            None => Err(ContractError::not_found("ibc_app", text_bytes(port_id))),
        }
    }

    /// The counterparty of `channel`, provided that it is `expected`.
    fn resolve(registry: &ClientRegistry, channel: &str, expected: &str) -> (r: Result<
        CounterpartyInfo,
        ContractError,
    >)
        ensures
            match RouterView::resolve(registry@, channel@, expected@) {
                Ok(counterparty) => r is Ok && r->Ok_0@ == counterparty,
                Err(e) => r is Err && r->Err_0@ == e,
            },
    {
        let counterparty = match registry.counterparty(channel) {
            Ok(counterparty) => counterparty,
            Err(e) => {
                return Err(e);
            },
        };
        if !same_text(counterparty.client_id.as_str(), expected) {
            return Err(
                ContractError::invalid_counterparty(counterparty.client_id, expected.to_owned()),
            );
        }
        Ok(counterparty)
    }

    /// Sends a packet for the application at the source port.
    pub fn send_packet(
        &mut self,
        registry: &ClientRegistry,
        env: &Env,
        info: &MessageInfo,
        msg: SendPacketMsg,
    ) -> (r: Result<Response, ContractError>)
        ensures
            match old(self)@.send_packet(registry@, env.block_time_nanos, info.sender@, msg@) {
                Ok(outcome) => r is Ok && final(self)@ == outcome.0 && r->Ok_0@ == outcome.1,
                Err(e) => r is Err && errors_agree(r->Err_0@, e) && final(self)@ == old(self)@,
            },
    {
        let app_address = match self.apps.get(msg.source_port.as_str()) {
            Some(address) => address.clone(),
            None => {
                return Err(
                    ContractError::not_found("ibc_app", text_bytes(msg.source_port.as_str())),
                );
            },
        };
        let counterparty = match registry.counterparty(msg.source_channel.as_str()) {
            Ok(counterparty) => counterparty,
            Err(e) => {
                return Err(e);
            },
        };
        let dest_channel_text = match &msg.dest_channel {
            Some(channel) => channel.clone(),
            None => counterparty.client_id.clone(),
        };
        if !same_text(dest_channel_text.as_str(), counterparty.client_id.as_str()) {
            return Err(
                ContractError::invalid_counterparty(counterparty.client_id, dest_channel_text),
            );
        }
        let source_channel = match ClientId::parse(msg.source_channel.as_str()) {
            Ok(id) => id,
            Err(e) => {
                return Err(e);
            },
        };
        let source_port = match PortId::parse(msg.source_port.as_str()) {
            Ok(id) => id,
            Err(e) => {
                return Err(e);
            },
        };
        let dest_port = match PortId::parse(msg.dest_port.as_str()) {
            Ok(id) => id,
            Err(e) => {
                return Err(e);
            },
        };
        let dest_channel = match ClientId::parse(dest_channel_text.as_str()) {
            Ok(id) => id,
            Err(e) => {
                return Err(e);
            },
        };
        match crate::timeout::validate(env, &msg.timeout) {
            Ok(_) => {},
            Err(e) => {
                return Err(e);
            },
        }
        let sequence = match state::next_sequence_send(
            &self.store,
            msg.source_port.as_str(),
            msg.source_channel.as_str(),
        ) {
            Ok(sequence) => sequence,
            Err(e) => {
                return Err(e);
            },
        };
        if sequence == u64::MAX {
            return Err(ContractError::CounterOverflow);
        }
        let packet = Packet {
            sequence: Sequence(sequence),
            source_port,
            source_channel,
            destination_port: dest_port,
            destination_channel: dest_channel,
            data: msg.data,
            timeout: msg.timeout,
        };
        let item = PacketCommitmentPath {
            port_id: packet.source_port.clone(),
            channel_id: packet.source_channel.clone(),
            sequence: packet.sequence,
        }.item();
        if item.has(&self.store) {
            return Err(ContractError::packet_already_commited(copy_bytes(item.as_slice())));
        }
        proof {
            lemma_keys_of_different_kinds(
                packet@.source_port,
                packet@.source_channel,
                packet@.sequence,
                packet@.source_port,
                packet@.source_channel,
                packet@.sequence,
            );
        }
        let counted = state::new_sequence_send(
            &mut self.store,
            msg.source_port.as_str(),
            msg.source_channel.as_str(),
        );
        let committed = state::commit_packet(&mut self.store, &packet);
        assert(counted is Ok && committed is Ok);
        let event = crate::events::send_packet::success(&packet);
        let callback = SubMsg {
            contract_addr: app_address,
            msg: IbcAppCallbackMsg::OnSendPacket {
                packet,
                version: msg.version,
                sender: info.sender.clone(),
            },
            reply_id: None,
        };
        Ok(Response::new(Some(callback), event))
    }

    /// What the light client has to be asked before the packet of `msg` is
    /// received, and the address of the light client.
    pub fn recv_packet_query(&self, registry: &ClientRegistry, msg: &RecvPacketMsg) -> (r: Result<
        (String, ClientQueryMsg),
        ContractError,
    >)
        ensures
            match self@.recv_packet_query(
                registry@,
                msg.packet@,
                msg.proof_commitment@,
                msg.proof_height,
            ) {
                Ok(question) => r is Ok && r->Ok_0.0@ == question.0 && r->Ok_0.1@ == question.1,
                Err(e) => r is Err && r->Err_0@ == e,
            },
    {
        let packet = &msg.packet;
        if !self.apps.contains(packet.destination_port.as_str()) {
            return Err(
                ContractError::not_found("ibc_app", text_bytes(packet.destination_port.as_str())),
            );
        }
        let counterparty = match Self::resolve(
            registry,
            packet.destination_channel.as_str(),
            packet.source_channel.as_str(),
        ) {
            Ok(counterparty) => counterparty,
            Err(e) => {
                return Err(e);
            },
        };
        if packet.timeout.timestamp.is_none() {
            return Err(ContractError::EmptyTimestamp);
        }
        let path = match (PacketCommitmentPath {
            port_id: packet.source_port.clone(),
            channel_id: packet.source_channel.clone(),
            sequence: packet.sequence,
        }).to_prefixed_merkle_path(counterparty.merkle_path_prefix) {
            Ok(path) => path,
            Err(e) => {
                return Err(e);
            },
        };
        let address = match registry.client_address(packet.destination_channel.as_str()) {
            Ok(address) => address,
            Err(e) => {
                return Err(e);
            },
        };
        Ok(
            (
                address,
                ClientQueryMsg::VerifyMembership(
                    VerifyMembershipMsg {
                        proof: copy_bytes(msg.proof_commitment.as_slice()),
                        path,
                        value: packet.to_commitment_bytes(),
                        height: msg.proof_height,
                        delay_block_period: 0,
                        delay_time_period: 0,
                    },
                ),
            ),
        )
    }

    /// Receives the packet of `msg`, delivered by the caller. `evidence`
    /// holds the answer of the light client to [`Router::recv_packet_query`].
    pub fn recv_packet(
        &mut self,
        registry: &ClientRegistry,
        info: &MessageInfo,
        msg: RecvPacketMsg,
        evidence: &Evidence,
    ) -> (r: Result<Response, ContractError>)
        ensures
            match old(self)@.recv_packet(
                registry@,
                info.sender@,
                msg.packet@,
                evidence.proof_verified,
            ) {
                Ok(outcome) => r is Ok && final(self)@ == outcome.0 && r->Ok_0@ == outcome.1,
                Err(e) => r is Err && r->Err_0@ == e && final(self)@ == old(self)@,
            },
    {
        match self.recv_packet_query(registry, &msg) {
            Ok(_) => {},
            Err(e) => {
                return Err(e);
            },
        }
        if !evidence.proof_verified {
            return Err(ContractError::VerificationFailed);
        }
        let packet = msg.packet;
        let item = PacketReceiptPath {
            port_id: packet.destination_port.clone(),
            channel_id: packet.destination_channel.clone(),
            sequence: packet.sequence,
        }.item();
        if item.has(&self.store) {
            return Err(ContractError::packet_already_commited(copy_bytes(item.as_slice())));
        }
        if self.in_flight.is_some() {
            return Err(ContractError::Reentrancy);
        }
        let app_address = match self.apps.get(packet.destination_port.as_str()) {
            Some(address) => address.clone(),
            None => {
                return Err(
                    ContractError::not_found(
                        "ibc_app",
                        text_bytes(packet.destination_port.as_str()),
                    ),
                );
            },
        };
        let stored = state::set_packet_receipt(&mut self.store, &packet);
        assert(stored is Ok);
        self.in_flight = Some(packet.clone());
        let event = crate::events::recv_packet::success(&packet);
        let callback = SubMsg {
            contract_addr: app_address,
            msg: IbcAppCallbackMsg::OnRecvPacket { packet, relayer: info.sender.clone() },
            reply_id: Some(ON_RECV_PACKET),
        };
        Ok(Response::new(Some(callback), event))
    }

    /// Takes the reply of the application to the packet in flight and writes
    /// the acknowledgement. `data` is what the application returned.
    pub fn write_acknowledgement(&mut self, data: Option<Vec<u8>>) -> (r: Result<
        Response,
        ContractError,
    >)
        ensures
            match old(self)@.write_acknowledgement(
                match data {
                    Some(d) => Some(d@),
                    None => None,
                },
            ) {
                Ok(outcome) => r is Ok && final(self)@ == outcome.0 && r->Ok_0@ == outcome.1,
                Err(e) => r is Err && r->Err_0@ == e && final(self)@ == old(self)@,
            },
    {
        let ack = match data {
            None => {
                return Err(ContractError::RecvPacketCallbackNoResponse);
            },
            Some(bytes) => match Acknowledgement::try_from(bytes) {
                Ok(ack) => ack,
                Err(e) => {
                    return Err(e);
                },
            },
        };
        let packet = match &self.in_flight {
            Some(packet) => packet.clone(),
            None => {
                return Err(ContractError::not_found("packet", text_bytes("packet_temp_store")));
            },
        };
        match state::commit_packet_ack(&mut self.store, &packet, &ack) {
            Ok(_) => {},
            Err(e) => {
                return Err(e);
            },
        }
        self.in_flight = None;
        let event = crate::events::write_acknowledgement::success(&packet, &ack);
        Ok(Response::new(None, event))
    }

    /// Takes a reply under the identifier `id`.
    pub fn reply(&mut self, id: u64, data: Option<Vec<u8>>) -> (r: Result<Response, ContractError>)
        ensures
            match old(self)@.reply(
                id,
                match data {
                    Some(d) => Some(d@),
                    None => None,
                },
            ) {
                Ok(outcome) => r is Ok && final(self)@ == outcome.0 && r->Ok_0@ == outcome.1,
                Err(e) => r is Err && r->Err_0@ == e && final(self)@ == old(self)@,
            },
    {
        if id == ON_RECV_PACKET {
            self.write_acknowledgement(data)
        } else {
            Err(ContractError::UnknownReplyId(id))
        }
    }

    /// The checks on a packet that returns to its sender.
    fn returning(&self, registry: &ClientRegistry, packet: &Packet) -> (r: Result<
        CounterpartyInfo,
        ContractError,
    >)
        ensures
            match self@.returning(registry@, packet@) {
                Ok(counterparty) => r is Ok && r->Ok_0@ == counterparty,
                Err(e) => r is Err && r->Err_0@ == e,
            },
    {
        if !self.apps.contains(packet.source_port.as_str()) {
            return Err(
                ContractError::not_found("ibc_app", text_bytes(packet.source_port.as_str())),
            );
        }
        let counterparty = match Self::resolve(
            registry,
            packet.source_channel.as_str(),
            packet.destination_channel.as_str(),
        ) {
            Ok(counterparty) => counterparty,
            Err(e) => {
                return Err(e);
            },
        };
        if packet.timeout.timestamp.is_none() {
            return Err(ContractError::EmptyTimestamp);
        }
        Ok(counterparty)
    }

    /// The check that the commitment stored for `packet` is its commitment.
    fn committed(&self, packet: &Packet) -> (r: Result<(), ContractError>)
        requires
            packet.timeout.timestamp is Some,
        ensures
            match self@.committed(packet@) {
                Ok(_) => r is Ok,
                Err(e) => r is Err && r->Err_0@ == e,
            },
    {
        let item = PacketCommitmentPath {
            port_id: packet.source_port.clone(),
            channel_id: packet.source_channel.clone(),
            sequence: packet.sequence,
        }.item();
        let stored = match item.load(&self.store) {
            Ok(stored) => stored,
            Err(e) => {
                return Err(e);
            },
        };
        let provided = packet.to_commitment_bytes();
        if !same_bytes(stored.as_slice(), provided.as_slice()) {
            return Err(ContractError::packet_commitment_mismatch(stored, provided));
        }
        Ok(())
    }

    /// What the light client has to be asked before the acknowledgement of
    /// `msg` is taken, and the address of the light client.
    pub fn acknowledgement_query(&self, registry: &ClientRegistry, msg: &AcknowledgementMsg) -> (r:
        Result<(String, ClientQueryMsg), ContractError>)
        ensures
            match self@.acknowledgement_query(
                registry@,
                msg.packet@,
                msg.acknowledgement@,
                msg.proof_acked@,
                msg.proof_height,
            ) {
                Ok(question) => r is Ok && r->Ok_0.0@ == question.0 && r->Ok_0.1@ == question.1,
                Err(e) => r is Err && r->Err_0@ == e,
            },
    {
        let packet = &msg.packet;
        let counterparty = match self.returning(registry, packet) {
            Ok(counterparty) => counterparty,
            Err(e) => {
                return Err(e);
            },
        };
        match self.committed(packet) {
            Ok(_) => {},
            Err(e) => {
                return Err(e);
            },
        }
        let path = match (PacketAcknowledgementPath {
            port_id: packet.destination_port.clone(),
            channel_id: packet.destination_channel.clone(),
            sequence: packet.sequence,
        }).to_prefixed_merkle_path(counterparty.merkle_path_prefix) {
            Ok(path) => path,
            Err(e) => {
                return Err(e);
            },
        };
        let address = match registry.client_address(packet.source_channel.as_str()) {
            Ok(address) => address,
            Err(e) => {
                return Err(e);
            },
        };
        let ack = Acknowledgement::new(copy_bytes(msg.acknowledgement.as_slice()));
        Ok(
            (
                address,
                ClientQueryMsg::VerifyMembership(
                    VerifyMembershipMsg {
                        proof: copy_bytes(msg.proof_acked.as_slice()),
                        path,
                        value: ack.to_commitment_bytes(),
                        height: msg.proof_height,
                        delay_block_period: 0,
                        delay_time_period: 0,
                    },
                ),
            ),
        )
    }

    /// Takes the acknowledgement of `msg`, delivered by the caller.
    /// `evidence` holds the answer of the light client to
    /// [`Router::acknowledgement_query`].
    pub fn acknowledgement(
        &mut self,
        registry: &ClientRegistry,
        info: &MessageInfo,
        msg: AcknowledgementMsg,
        evidence: &Evidence,
    ) -> (r: Result<Response, ContractError>)
        ensures
            match old(self)@.acknowledgement(
                registry@,
                info.sender@,
                msg.packet@,
                msg.acknowledgement@,
                evidence.proof_verified,
            ) {
                Ok(outcome) => r is Ok && final(self)@ == outcome.0 && r->Ok_0@ == outcome.1,
                Err(e) => r is Err && r->Err_0@ == e && final(self)@ == old(self)@,
            },
    {
        match self.acknowledgement_query(registry, &msg) {
            Ok(_) => {},
            Err(e) => {
                return Err(e);
            },
        }
        if !evidence.proof_verified {
            return Err(ContractError::VerificationFailed);
        }
        let packet = msg.packet;
        let app_address = match self.apps.get(packet.source_port.as_str()) {
            Some(address) => address.clone(),
            None => {
                return Err(
                    ContractError::not_found("ibc_app", text_bytes(packet.source_port.as_str())),
                );
            },
        };
        let deleted = state::delete_packet_commitment(&mut self.store, &packet);
        assert(deleted is Ok);
        let event = crate::events::acknowledge_packet::success(&packet);
        let callback = SubMsg {
            contract_addr: app_address,
            msg: IbcAppCallbackMsg::OnAcknowledgementPacket {
                packet,
                acknowledgement: msg.acknowledgement,
                relayer: info.sender.clone(),
            },
            reply_id: None,
        };
        Ok(Response::new(Some(callback), event))
    }

    /// What the light client has to be asked before the packet of `msg` is
    /// voided, and the address of the light client.
    pub fn timeout_queries(&self, registry: &ClientRegistry, msg: &TimeoutMsg) -> (r: Result<
        (String, Vec<ClientQueryMsg>),
        ContractError,
    >)
        ensures
            match self@.timeout_queries(
                registry@,
                msg.packet@,
                msg.proof_unreceived@,
                msg.proof_height,
            ) {
                Ok(questions) => {
                    &&& r is Ok
                    &&& r->Ok_0.0@ == questions.0
                    &&& r->Ok_0.1@.len() == 2
                    &&& r->Ok_0.1@[0]@ == questions.1[0]
                    &&& r->Ok_0.1@[1]@ == questions.1[1]
                },
                Err(e) => r is Err && r->Err_0@ == e,
            },
    {
        let packet = &msg.packet;
        let counterparty = match self.returning(registry, packet) {
            Ok(counterparty) => counterparty,
            Err(e) => {
                return Err(e);
            },
        };
        let path = match (PacketReceiptPath {
            port_id: packet.destination_port.clone(),
            channel_id: packet.destination_channel.clone(),
            sequence: packet.sequence,
        }).to_prefixed_merkle_path(counterparty.merkle_path_prefix) {
            Ok(path) => path,
            Err(e) => {
                return Err(e);
            },
        };
        let address = match registry.client_address(packet.source_channel.as_str()) {
            Ok(address) => address,
            Err(e) => {
                return Err(e);
            },
        };
        let mut questions: Vec<ClientQueryMsg> = Vec::new();
        questions.push(ClientQueryMsg::TimestampAtHeight { height: msg.proof_height });
        questions.push(
            ClientQueryMsg::VerifyNonMembership(
                VerifyNonMembershipMsg {
                    proof: copy_bytes(msg.proof_unreceived.as_slice()),
                    path,
                    height: msg.proof_height,
                    delay_block_period: 0,
                    delay_time_period: 0,
                },
            ),
        );
        Ok((address, questions))
    }

    /// Voids the packet of `msg`, on the request of the caller. `evidence`
    /// holds the answers of the light client to [`Router::timeout_queries`].
    pub fn timeout(
        &mut self,
        registry: &ClientRegistry,
        info: &MessageInfo,
        msg: TimeoutMsg,
        evidence: &Evidence,
    ) -> (r: Result<Response, ContractError>)
        ensures
            match old(self)@.timeout(
                registry@,
                info.sender@,
                msg.packet@,
                evidence.proof_timestamp,
                evidence.proof_verified,
            ) {
                Ok(outcome) => r is Ok && final(self)@ == outcome.0 && r->Ok_0@ == outcome.1,
                Err(e) => r is Err && r->Err_0@ == e && final(self)@ == old(self)@,
            },
    {
        match self.timeout_queries(registry, &msg) {
            Ok(_) => {},
            Err(e) => {
                return Err(e);
            },
        }
        let packet = msg.packet;
        let timeout_timestamp = match packet.timeout.timestamp {
            Some(timestamp) => timestamp,
            None => {
                return Err(ContractError::EmptyTimestamp);
            },
        };
        let proof_timestamp = match evidence.proof_timestamp {
            Some(timestamp) => timestamp,
            None => {
                return Err(ContractError::ProofHeightNotReached);
            },
        };
        if proof_timestamp < timeout_timestamp {
            return Err(
                ContractError::TimeoutNotReached { timeout: timeout_timestamp, proof_timestamp },
            );
        }
        if !evidence.proof_verified {
            return Err(ContractError::VerificationFailed);
        }
        match self.committed(&packet) {
            Ok(_) => {},
            Err(e) => {
                return Err(e);
            },
        }
        let app_address = match self.apps.get(packet.source_port.as_str()) {
            Some(address) => address.clone(),
            None => {
                return Err(
                    ContractError::not_found("ibc_app", text_bytes(packet.source_port.as_str())),
                );
            },
        };
        let deleted = state::delete_packet_commitment(&mut self.store, &packet);
        assert(deleted is Ok);
        let event = crate::events::timeout_packet::success(&packet);
        let callback = SubMsg {
            contract_addr: app_address,
            msg: IbcAppCallbackMsg::OnTimeoutPacket { packet, relayer: info.sender.clone() },
            reply_id: None,
        };
        Ok(Response::new(Some(callback), event))
    }

    /// Binds the application at `contract_address` to a port, on the request
    /// of the caller.
    pub fn register_ibc_app(
        &mut self,
        env: &Env,
        info: &MessageInfo,
        port_id: Option<String>,
        contract_address: String,
    ) -> (r: Result<Response, ContractError>)
        ensures
            match old(self)@.register_ibc_app(
                admin_view(env.contract_admin),
                info.sender@,
                admin_view(port_id),
                contract_address@,
            ) {
                Ok(outcome) => r is Ok && final(self)@ == outcome.0 && r->Ok_0@ == outcome.1,
                Err(e) => r is Err && errors_agree(r->Err_0@, e) && final(self)@ == old(self)@,
            },
    {
        let port = match port_id {
            Some(port) => {
                match assert_admin(env, info.sender.as_str()) {
                    Ok(_) => {},
                    Err(e) => {
                        return Err(e);
                    },
                }
                match PortId::parse(port.as_str()) {
                    Ok(_) => {},
                    Err(e) => {
                        return Err(e);
                    },
                }
                port
            },
            None => match contract_port_id(contract_address.as_str()) {
                Ok(port) => port.as_str().to_owned(),
                Err(e) => {
                    return Err(e);
                },
            },
        };
        match self.apps.get(port.as_str()) {
            Some(bound) => {
                if !same_text(bound.as_str(), contract_address.as_str()) {
                    return Err(
                        ContractError::PortAlreadyBound { port_id: port, address: bound.clone() },
                    );
                }
            },
            None => {},
        }
        let event = crate::events::register_ibc_app::success(
            port.as_str(),
            contract_address.as_str(),
            info.sender.as_str(),
        );
        let ghost before = self.apps@;
        self.apps.insert(port, contract_address);
        assert(addresses(self.apps@) =~= addresses(before).insert(port@, contract_address@));
        Ok(Response::new(None, event))
    }
}

/// Checks that `sender` is the administrator of the contract.
pub fn assert_admin(env: &Env, sender: &str) -> (r: Result<(), ContractError>)
    ensures
        env.contract_admin is Some && env.contract_admin->0@ == sender@ ==> r is Ok,
        !(env.contract_admin is Some && env.contract_admin->0@ == sender@) ==> r is Err
            && r->Err_0@ == ErrorView::Unauthorized,
{
    match &env.contract_admin {
        None => Err(ContractError::Unauthorized),
        Some(admin) => {
            if same_text(admin.as_str(), sender) {
                Ok(())
            } else {
                Err(ContractError::Unauthorized)
            }
        },
    }
}

/// What the router does on the request `msg` of `sender`: the router after
/// it and its answer, or the error that leaves the router as it was.
/// `evidence` is what the light client answered to the questions that the
/// request raises.
pub open spec fn execute_spec(
    pre: RouterView,
    registry: crate::registry::RegistryView,
    env: Env,
    sender: Seq<char>,
    msg: ExecuteMsg,
    evidence: Evidence,
) -> Result<(RouterView, ResponseView), ErrorView> {
    match msg {
        ExecuteMsg::SendPacket(send) => pre.send_packet(
            registry,
            env.block_time_nanos,
            sender,
            send@,
        ),
        ExecuteMsg::RecvPacket(recv) => pre.recv_packet(
            registry,
            sender,
            recv.packet@,
            evidence.proof_verified,
        ),
        ExecuteMsg::Acknowledgement(ack) => pre.acknowledgement(
            registry,
            sender,
            ack.packet@,
            ack.acknowledgement@,
            evidence.proof_verified,
        ),
        ExecuteMsg::Timeout(timeout) => pre.timeout(
            registry,
            sender,
            timeout.packet@,
            evidence.proof_timestamp,
            evidence.proof_verified,
        ),
        ExecuteMsg::RegisterIbcApp { port_id, address } => pre.register_ibc_app(
            admin_view(env.contract_admin),
            sender,
            admin_view(port_id),
            address@,
        ),
    }
}

/// Carries out a request to the router.
pub fn execute(
    router: &mut Router,
    registry: &ClientRegistry,
    env: &Env,
    info: &MessageInfo,
    msg: ExecuteMsg,
    evidence: &Evidence,
) -> (r: Result<Response, ContractError>)
    ensures
        match execute_spec(old(router)@, registry@, *env, info.sender@, msg, *evidence) {
            Ok(outcome) => r is Ok && final(router)@ == outcome.0 && r->Ok_0@ == outcome.1,
            Err(e) => r is Err && errors_agree(r->Err_0@, e) && final(router)@ == old(router)@,
        },
{
    match msg {
        ExecuteMsg::SendPacket(send) => router.send_packet(registry, env, info, send),
        ExecuteMsg::RecvPacket(recv) => router.recv_packet(registry, info, recv, evidence),
        ExecuteMsg::Acknowledgement(ack) => router.acknowledgement(registry, info, ack, evidence),
        ExecuteMsg::Timeout(timeout) => router.timeout(registry, info, timeout, evidence),
        ExecuteMsg::RegisterIbcApp { port_id, address } => router.register_ibc_app(
            env,
            info,
            port_id,
            address,
        ),
    }
}

/// The questions that the request `msg` raises, and the address of the light
/// client that they go to: none for a request to send or to register, one
/// for a packet or an acknowledgement that is delivered, two for a packet
/// that is voided. The error is the one that the request would end in.
pub fn light_client_queries(router: &Router, registry: &ClientRegistry, msg: &ExecuteMsg) -> (r:
    Result<Option<(String, Vec<ClientQueryMsg>)>, ContractError>)
    ensures
        match msg {
            ExecuteMsg::SendPacket(_) => r is Ok && r->Ok_0 is None,
            ExecuteMsg::RegisterIbcApp { port_id, address } => r is Ok && r->Ok_0 is None,
            ExecuteMsg::RecvPacket(recv) => match router@.recv_packet_query(
                registry@,
                recv.packet@,
                recv.proof_commitment@,
                recv.proof_height,
            ) {
                Ok(question) => {
                    &&& r matches Ok(Some(asked))
                    &&& asked.0@ == question.0
                    &&& asked.1@.len() == 1
                    &&& asked.1@[0]@ == question.1
                },
                Err(e) => r is Err && r->Err_0@ == e,
            },
            ExecuteMsg::Acknowledgement(ack) => match router@.acknowledgement_query(
                registry@,
                ack.packet@,
                ack.acknowledgement@,
                ack.proof_acked@,
                ack.proof_height,
            ) {
                Ok(question) => {
                    &&& r matches Ok(Some(asked))
                    &&& asked.0@ == question.0
                    &&& asked.1@.len() == 1
                    &&& asked.1@[0]@ == question.1
                },
                Err(e) => r is Err && r->Err_0@ == e,
            },
            ExecuteMsg::Timeout(timeout) => match router@.timeout_queries(
                registry@,
                timeout.packet@,
                timeout.proof_unreceived@,
                timeout.proof_height,
            ) {
                Ok(questions) => {
                    &&& r matches Ok(Some(asked))
                    &&& asked.0@ == questions.0
                    &&& asked.1@.len() == 2
                    &&& asked.1@[0]@ == questions.1[0]
                    &&& asked.1@[1]@ == questions.1[1]
                },
                Err(e) => r is Err && r->Err_0@ == e,
            },
        },
{
    match msg {
        ExecuteMsg::SendPacket(_) => Ok(None),
        ExecuteMsg::RegisterIbcApp { port_id: _, address: _ } => Ok(None),
        ExecuteMsg::RecvPacket(recv) => match router.recv_packet_query(registry, recv) {
            Ok(question) => {
                let mut questions: Vec<ClientQueryMsg> = Vec::new();
                questions.push(question.1);
                Ok(Some((question.0, questions)))
            },
            Err(e) => Err(e),
        },
        ExecuteMsg::Acknowledgement(ack) => match router.acknowledgement_query(registry, ack) {
            Ok(question) => {
                let mut questions: Vec<ClientQueryMsg> = Vec::new();
                questions.push(question.1);
                Ok(Some((question.0, questions)))
            },
            Err(e) => Err(e),
        },
        ExecuteMsg::Timeout(timeout) => match router.timeout_queries(registry, timeout) {
            Ok(questions) => Ok(Some(questions)),
            Err(e) => Err(e),
        },
    }
}

/// Takes the reply to a callback that the router dispatched.
pub fn reply(router: &mut Router, id: u64, data: Option<Vec<u8>>) -> (r: Result<
    Response,
    ContractError,
>)
    ensures
        match old(router)@.reply(
            id,
            match data {
                Some(d) => Some(d@),
                None => None,
            },
        ) {
            Ok(outcome) => r is Ok && final(router)@ == outcome.0 && r->Ok_0@ == outcome.1,
            Err(e) => r is Err && r->Err_0@ == e && final(router)@ == old(router)@,
        },
{
    router.reply(id, data)
}

/// Answers a question to the router.
pub fn query(router: &Router, msg: QueryMsg) -> (r: Result<String, ContractError>)
    ensures
        match msg {
            QueryMsg::PortRouter { port_id } => match router@.port_router(port_id@) {
                Ok(address) => r is Ok && r->Ok_0@ == address,
                Err(e) => r is Err && r->Err_0@ == e,
            },
        },
{
    match msg {
        QueryMsg::PortRouter { port_id } => router.port_router(port_id.as_str()),
    }
}

/// What the client registry of a router is salted and labelled with.
pub const ICS02_CLIENT_SALT: &'static str = "ics02_client";

/// The label of the client registry of the router at `address`.
pub open spec fn registry_label(address: Seq<char>) -> Seq<char> {
    "ics02_client"@ + "."@ + address
}

/// Starts a router: an empty router, and the request to the host to create
/// its client registry from the code named in `msg`, salted with
/// `ics02_client`. `checksum` is the checksum of that code, `creator` the
/// canonical address of the router, and `ics02_client_address` the address
/// that the host gives to the registry.
pub fn instantiate(
    env: &Env,
    msg: crate::router::msg::InstantiateMsg,
    checksum: &[u8],
    creator: &[u8],
    ics02_client_address: String,
) -> (r: Result<(Router, WasmMsg<RegistryInstantiateMsg>), ContractError>)
    ensures
        r is Ok <==> checksum@.len() == 32,
        r matches Ok(started) ==> {
            &&& started.0@ == RouterView::initial()
            &&& started.0.registry_address() == ics02_client_address@
            &&& started.1 matches WasmMsg::Instantiate2 {
                admin,
                code_id,
                label,
                msg: _,
                salt,
            }
            &&& admin is None
            &&& code_id == msg.ics02_client_code_id
            &&& label@ == registry_label(env.contract_address@)
            &&& salt@ == vstd::utf8::encode_utf8("ics02_client"@)
        },
        r matches Err(e) ==> e@ is Std,
{
    let mut label = "ics02_client".to_owned();
    label.append(".");
    label.append(env.contract_address.as_str());
    proof {
        reveal_strlit("ics02_client");
        vstd::utf8::is_ascii_chars_encode_utf8("ics02_client"@);
    }
    let code = crate::helpers::Ics02ClientCode::new(msg.ics02_client_code_id);
    match code.instantiate2(
        checksum,
        creator,
        RegistryInstantiateMsg {  },
        label,
        None,
        "ics02_client",
    ) {
        Ok(pair) => Ok((Router::new(ics02_client_address), pair.0)),
        Err(e) => Err(e),
    }
}

} // verus!
