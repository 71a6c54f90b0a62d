//! Packets, acknowledgements, heights and timeouts, and the commitments that
//! make packets and acknowledgements provable.

use crate::encoding::{append_bytes, be64, be64_bytes, copy_bytes};
use crate::error::{ContractError, ErrorView};
use crate::hash::{sha256, sha256_digest};
use crate::identifiers::{
    identifier_shape, is_client_id, is_port_id, ChannelId, PortId, Sequence,
};
use vstd::prelude::*;
use vstd::utf8::encode_utf8;

verus! {

/// A block height on a chain that counts heights within revisions.
#[derive(Debug, Clone, Copy, PartialEq, Eq, Structural)]
pub struct Height {
    /// The revision that the chain is on.
    pub revision_number: u64,
    /// The height within that revision.
    pub revision_height: u64,
}

/// The block at which a packet would time out, for chains that time packets
/// out by height. This profile rejects such timeouts.
#[derive(Debug, Clone, Copy, PartialEq, Eq, Structural)]
pub struct TimeoutBlock {
    /// The revision of the destination chain.
    pub revision: u64,
    /// The height within that revision.
    pub height: u64,
}

/// When a packet times out: at a block, at a time, or at whichever comes
/// first. The router accepts timestamps only.
#[derive(Debug, Clone, Copy, PartialEq, Eq)]
pub struct Timeout {
    /// The block after which the packet is void, if the sender set one.
    pub block: Option<TimeoutBlock>,
    /// The time, in nanoseconds since the epoch, after which the packet is
    /// void, if the sender set one.
    pub timestamp: Option<u64>,
}

impl Timeout {
    /// A timeout at `nanos` nanoseconds since the epoch.
    pub fn with_timestamp(nanos: u64) -> (t: Self)
        ensures
            t == (Timeout { block: None, timestamp: Some(nanos) }),
    {
        Timeout { block: None, timestamp: Some(nanos) }
    }

    /// A timeout at a block.
    pub fn with_block(block: TimeoutBlock) -> (t: Self)
        ensures
            t == (Timeout { block: Some(block), timestamp: None }),
    {
        Timeout { block: Some(block), timestamp: None }
    }

    /// A timeout at a block or a time, whichever comes first.
    pub fn with_both(block: TimeoutBlock, nanos: u64) -> (t: Self)
        ensures
            t == (Timeout { block: Some(block), timestamp: Some(nanos) }),
    {
        Timeout { block: Some(block), timestamp: Some(nanos) }
    }

    /// The block of the timeout, if any.
    pub fn block(&self) -> (b: Option<TimeoutBlock>)
        ensures
            b == self.block,
    {
        self.block
    }

    /// The time of the timeout in nanoseconds, if any.
    pub fn timestamp(&self) -> (t: Option<u64>)
        ensures
            t == self.timestamp,
    {
        self.timestamp
    }
}

/// The commitment of a packet that times out at `timeout_nanos`, carries
/// `data` and goes to `dst_port` on `dst_channel`: the hash of the timeout as
/// eight big-endian bytes, two reserved zero words of eight bytes each, the
/// hash of the data, and the destination port and channel in UTF-8.
pub open spec fn packet_commitment(
    timeout_nanos: u64,
    data: Seq<u8>,
    dst_port: Seq<char>,
    dst_channel: Seq<char>,
) -> Seq<u8> {
    sha256(
        be64(timeout_nanos) + be64(0) + be64(0) + sha256(data) + encode_utf8(dst_port)
            + encode_utf8(dst_channel),
    )
}

/// The commitment of an acknowledgement: the hash of its bytes.
pub open spec fn ack_commitment(ack: Seq<u8>) -> Seq<u8> {
    sha256(ack)
}

/// The value stored under a receipt path: the single byte one.
pub open spec fn receipt_value() -> Seq<u8> {
    seq![1u8]
}

/// A packet as a mathematical value.
pub struct PacketView {
    pub sequence: u64,
    pub source_port: Seq<char>,
    pub source_channel: Seq<char>,
    pub destination_port: Seq<char>,
    pub destination_channel: Seq<char>,
    pub data: Seq<u8>,
    pub timeout: Timeout,
}

impl PacketView {
    /// The four identifiers have the shape of identifiers.
    pub open spec fn well_shaped(self) -> bool {
        &&& identifier_shape(self.source_port, 2, 128)
        &&& identifier_shape(self.source_channel, 9, 64)
        &&& identifier_shape(self.destination_port, 2, 128)
        &&& identifier_shape(self.destination_channel, 9, 64)
    }

    /// The commitment of the packet. It is meaningful for a packet that
    /// carries a timeout timestamp.
    pub open spec fn commitment(self) -> Seq<u8> {
        packet_commitment(
            self.timeout.timestamp->0,
            self.data,
            self.destination_port,
            self.destination_channel,
        )
    }
}

/// The unit of data that travels from an application on one chain to an
/// application on another.
#[derive(Debug, PartialEq, Eq)]
pub struct Packet {
    /// The number of the packet on its source channel.
    pub sequence: Sequence,
    /// The port of the sending application.
    pub source_port: PortId,
    /// The channel end on the sending chain.
    pub source_channel: ChannelId,
    /// The port of the receiving application.
    pub destination_port: PortId,
    /// The channel end on the receiving chain.
    pub destination_channel: ChannelId,
    /// Opaque bytes for the receiving application.
    pub data: Vec<u8>,
    /// When the packet becomes void.
    pub timeout: Timeout,
}

impl View for Packet {
    type V = PacketView;

    open spec fn view(&self) -> PacketView {
        PacketView {
            sequence: self.sequence.0,
            source_port: self.source_port@,
            source_channel: self.source_channel@,
            destination_port: self.destination_port@,
            destination_channel: self.destination_channel@,
            data: self.data@,
            timeout: self.timeout,
        }
    }
}

impl Clone for Packet {
    fn clone(&self) -> (copy: Self)
        ensures
            copy@ == self@,
    {
        Packet {
            sequence: self.sequence,
            source_port: self.source_port.clone(),
            source_channel: self.source_channel.clone(),
            destination_port: self.destination_port.clone(),
            destination_channel: self.destination_channel.clone(),
            data: copy_bytes(self.data.as_slice()),
            timeout: self.timeout,
        }
    }
}

impl Packet {
    /// The commitment of the packet, as stored on the sending chain and proved
    /// to the receiving one.
    pub fn to_commitment_bytes(&self) -> (commitment: Vec<u8>)
        requires
            self.timeout.timestamp is Some,
        ensures
            commitment@ == self@.commitment(),
            commitment@.len() == 32,
    {
        let timeout_nanos = self.timeout.timestamp.unwrap();
        let data_hash = sha256_digest(self.data.as_slice());
        let mut buf: Vec<u8> = be64_bytes(timeout_nanos);
        append_bytes(&mut buf, be64_bytes(0).as_slice());
        append_bytes(&mut buf, be64_bytes(0).as_slice());
        append_bytes(&mut buf, data_hash.as_slice());
        append_bytes(&mut buf, self.destination_port.as_bytes());
        append_bytes(&mut buf, self.destination_channel.as_bytes());
        sha256_digest(buf.as_slice())
    }
}

/// The bytes that a receiving application returns for a packet. They are
/// opaque to the router and to relayers.
#[derive(Debug, Clone, PartialEq, Eq)]
pub struct Acknowledgement(Vec<u8>);

impl View for Acknowledgement {
    type V = Seq<u8>;

    closed spec fn view(&self) -> Seq<u8> {
        self.0@
    }
}

impl Acknowledgement {
    /// Wraps `data` as an acknowledgement.
    pub fn new(data: Vec<u8>) -> (ack: Self)
        ensures
            ack@ == data@,
    {
        Acknowledgement(data)
    }

    /// Wraps `data` as an acknowledgement, unless it is empty: an application
    /// that returns no bytes has not acknowledged.
    pub fn try_from(data: Vec<u8>) -> (r: Result<Self, ContractError>)
        ensures
            data@.len() > 0 ==> r is Ok && r->Ok_0@ == data@,
            data@.len() == 0 ==> r is Err && r->Err_0@ == ErrorView::RecvPacketCallbackNoResponse,
    {
        if data.len() == 0 {
            return Err(ContractError::RecvPacketCallbackNoResponse);
        }
        Ok(Acknowledgement(data))
    }

    /// The bytes of the acknowledgement.
    pub fn as_slice(&self) -> (bytes: &[u8])
        ensures
            bytes@ == self@,
    {
        self.0.as_slice()
    }

    /// The bytes of the acknowledgement, given up by it.
    pub fn into_vec(self) -> (bytes: Vec<u8>)
        ensures
            bytes@ == self@,
    {
        self.0
    }

    /// The commitment of the acknowledgement, as stored on the receiving chain
    /// and proved to the sending one.
    pub fn to_commitment_bytes(&self) -> (commitment: Vec<u8>)
        ensures
            commitment@ == ack_commitment(self@),
            commitment@.len() == 32,
    {
        sha256_digest(self.0.as_slice())
    }
}

/// The commitment of a packet depends on its timeout, its data and its
/// destination only: two packets that agree on these have the same
/// commitment, whatever their source and their sequence number. So the
/// commitment computed on the sending chain is the one computed on the
/// receiving chain.
pub proof fn law_commitment_ignores_source(p: PacketView, q: PacketView)
    requires
        p.timeout.timestamp == q.timeout.timestamp,
        p.data == q.data,
        p.destination_port == q.destination_port,
        p.destination_channel == q.destination_channel,
    ensures
        p.commitment() == q.commitment(),
{
}

} // verus!
