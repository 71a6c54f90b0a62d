//! The requests that the router accepts.

use crate::ibc::{Height, Packet, PacketView, Timeout};
use vstd::prelude::*;

verus! {

/// What a router is created with.
#[derive(Debug, Clone, Copy, PartialEq, Eq, Structural)]
pub struct InstantiateMsg {
    /// The code from which the router creates its client registry.
    pub ics02_client_code_id: u64,
}

/// The request of an application to send a packet.
#[derive(Debug, Clone, PartialEq, Eq)]
pub struct SendPacketMsg {
    /// The client on this chain over which the packet leaves.
    pub source_channel: String,
    /// The port of the sending application.
    pub source_port: String,
    /// The client on the other chain; when given, it must be the
    /// counterparty of `source_channel`.
    pub dest_channel: Option<String>,
    /// The port of the receiving application.
    pub dest_port: String,
    /// The data for the receiving application.
    pub data: Vec<u8>,
    /// When the packet becomes void.
    pub timeout: Timeout,
    /// The version of the application protocol.
    pub version: String,
}

/// A request to send a packet as a mathematical value.
pub struct SendPacketMsgView {
    pub source_channel: Seq<char>,
    pub source_port: Seq<char>,
    pub dest_channel: Option<Seq<char>>,
    pub dest_port: Seq<char>,
    pub data: Seq<u8>,
    pub timeout: Timeout,
    pub version: Seq<char>,
}

impl View for SendPacketMsg {
    type V = SendPacketMsgView;

    open spec fn view(&self) -> SendPacketMsgView {
        SendPacketMsgView {
            source_channel: self.source_channel@,
            source_port: self.source_port@,
            dest_channel: match self.dest_channel {
                Some(channel) => Some(channel@),
                None => None,
            },
            dest_port: self.dest_port@,
            data: self.data@,
            timeout: self.timeout,
            version: self.version@,
        }
    }
}

/// The request of a relayer to deliver a packet that the other chain sent.
#[derive(Debug, PartialEq, Eq)]
pub struct RecvPacketMsg {
    /// The packet.
    pub packet: Packet,
    /// The proof that the other chain committed to the packet.
    pub proof_commitment: Vec<u8>,
    /// The height of the other chain at which the proof was taken.
    pub proof_height: Height,
}

/// The request of a relayer to deliver the acknowledgement of a packet that
/// this chain sent.
#[derive(Debug, PartialEq, Eq)]
pub struct AcknowledgementMsg {
    /// The packet.
    pub packet: Packet,
    /// The acknowledgement that the receiving application wrote.
    pub acknowledgement: Vec<u8>,
    /// The proof that the other chain committed to the acknowledgement.
    pub proof_acked: Vec<u8>,
    /// The height of the other chain at which the proof was taken.
    pub proof_height: Height,
}

/// The request of a relayer to void a packet that this chain sent and the
/// other chain did not receive in time.
#[derive(Debug, PartialEq, Eq)]
pub struct TimeoutMsg {
    /// The packet.
    pub packet: Packet,
    /// The proof that the other chain holds no receipt of the packet.
    pub proof_unreceived: Vec<u8>,
    /// The height of the other chain at which the proof was taken.
    pub proof_height: Height,
    /// The next sequence that the other chain expects on an ordered channel.
    /// Channels are unordered here, and the field is not looked at.
    pub next_sequence_recv: u64,
}

/// A request that changes the router.
#[derive(Debug, PartialEq, Eq)]
pub enum ExecuteMsg {
    /// Sends a packet.
    SendPacket(SendPacketMsg),
    /// Receives a packet.
    RecvPacket(RecvPacketMsg),
    /// Takes the acknowledgement of a packet.
    Acknowledgement(AcknowledgementMsg),
    /// Voids a packet that timed out.
    Timeout(TimeoutMsg),
    /// Binds the application at `address` to a port: to `port_id` if the
    /// administrator of the router asks, else to the port that follows from
    /// the address.
    RegisterIbcApp { port_id: Option<String>, address: String },
}

/// A question to the router.
#[derive(Debug, Clone, PartialEq, Eq)]
pub enum QueryMsg {
    /// The address of the application bound to `port_id`.
    PortRouter { port_id: String },
}

/// What the light client of the counterparty answered to the questions that
/// a request raises. A request that raises no question ignores the answers.
#[derive(Debug, Clone, Copy, PartialEq, Eq)]
pub struct Evidence {
    /// Whether the light client accepted the proof of the request.
    pub proof_verified: bool,
    /// The time of the counterparty at the proof height, if the light client
    /// knows that height.
    pub proof_timestamp: Option<u64>,
}

impl SendPacketMsg {
    /// Wraps the request for the router.
    pub fn into_execute(self) -> (msg: ExecuteMsg)
        ensures
            msg == ExecuteMsg::SendPacket(self),
    {
        ExecuteMsg::SendPacket(self)
    }
}

impl RecvPacketMsg {
    /// Wraps the request for the router.
    pub fn into_execute(self) -> (msg: ExecuteMsg)
        ensures
            msg == ExecuteMsg::RecvPacket(self),
    {
        ExecuteMsg::RecvPacket(self)
    }
}

impl AcknowledgementMsg {
    /// Wraps the request for the router.
    pub fn into_execute(self) -> (msg: ExecuteMsg)
        ensures
            msg == ExecuteMsg::Acknowledgement(self),
    {
        ExecuteMsg::Acknowledgement(self)
    }
}

impl TimeoutMsg {
    /// Wraps the request for the router.
    pub fn into_execute(self) -> (msg: ExecuteMsg)
        ensures
            msg == ExecuteMsg::Timeout(self),
    {
        ExecuteMsg::Timeout(self)
    }
}

/// What a light client made of one question.
#[derive(Debug, Clone, Copy, PartialEq, Eq)]
pub enum Answer {
    /// The client refused the question or could not be asked.
    Failed,
    /// The client answered. For a question about a time, `timestamp` is the
    /// time it named.
    Succeeded { timestamp: Option<u64> },
}

impl Evidence {
    /// No answers: no proof is verified, no time is known.
    pub fn none() -> (evidence: Self)
        ensures
            evidence == (Evidence { proof_verified: false, proof_timestamp: None }),
    {
        Evidence { proof_verified: false, proof_timestamp: None }
    }

    /// The evidence with the answer `answer` to the question `question`
    /// taken in: an answer to a question about membership says whether the
    /// proof is verified, an answer to a question about a time names the time
    /// at the proof height, and the answer to any other question changes
    /// nothing.
    pub fn record(self, question: &crate::clients::QueryMsg, answer: Answer) -> (evidence: Self)
        ensures
            evidence == match question {
                crate::clients::QueryMsg::VerifyMembership(_) => Evidence {
                    proof_verified: answer is Succeeded,
                    proof_timestamp: self.proof_timestamp,
                },
                crate::clients::QueryMsg::VerifyNonMembership(_) => Evidence {
                    proof_verified: answer is Succeeded,
                    proof_timestamp: self.proof_timestamp,
                },
                crate::clients::QueryMsg::TimestampAtHeight { height } => Evidence {
                    proof_verified: self.proof_verified,
                    proof_timestamp: match answer {
                        Answer::Succeeded { timestamp } => timestamp,
                        Answer::Failed => None,
                    },
                },
                _ => self,
            },
    {
        let succeeded = match answer {
            Answer::Succeeded { timestamp: _ } => true,
            Answer::Failed => false,
        };
        match question {
            crate::clients::QueryMsg::VerifyMembership(_) => Evidence {
                proof_verified: succeeded,
                proof_timestamp: self.proof_timestamp,
            },
            crate::clients::QueryMsg::VerifyNonMembership(_) => Evidence {
                proof_verified: succeeded,
                proof_timestamp: self.proof_timestamp,
            },
            crate::clients::QueryMsg::TimestampAtHeight { height: _ } => Evidence {
                proof_verified: self.proof_verified,
                proof_timestamp: match answer {
                    Answer::Succeeded { timestamp } => timestamp,
                    Answer::Failed => None,
                },
            },
            _ => self,
        }
    }
}

impl ExecuteMsg {
    /// The client on this chain whose counterparty the request depends on:
    /// the source channel of a packet that leaves or returns, the
    /// destination channel of a packet that arrives, and none for a request
    /// to register an application.
    pub fn client_id(&self) -> (id: Option<String>)
        ensures
            match self {
                ExecuteMsg::SendPacket(send) => id is Some && id->0@ == send.source_channel@,
                ExecuteMsg::RecvPacket(recv) => id is Some && id->0@
                    == recv.packet@.destination_channel,
                ExecuteMsg::Acknowledgement(ack) => id is Some && id->0@
                    == ack.packet@.source_channel,
                ExecuteMsg::Timeout(timeout) => id is Some && id->0@
                    == timeout.packet@.source_channel,
                ExecuteMsg::RegisterIbcApp { port_id, address } => id is None,
            },
    {
        match self {
            ExecuteMsg::SendPacket(send) => Some(send.source_channel.clone()),
            ExecuteMsg::RecvPacket(recv) => Some(
                recv.packet.destination_channel.as_str().to_owned(),
            ),
            ExecuteMsg::Acknowledgement(ack) => Some(
                ack.packet.source_channel.as_str().to_owned(),
            ),
            ExecuteMsg::Timeout(timeout) => Some(
                timeout.packet.source_channel.as_str().to_owned(),
            ),
            ExecuteMsg::RegisterIbcApp { port_id: _, address: _ } => None,
        }
    }
}

} // verus!
