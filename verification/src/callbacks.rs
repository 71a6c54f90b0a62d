//! The messages with which the router calls an application back, and the
//! answer that a receiving application gives.

use crate::ibc::{Packet, PacketView};
use vstd::prelude::*;

verus! {

/// A call from the router to the application that a packet concerns.
#[derive(Debug, PartialEq, Eq)]
pub enum IbcAppCallbackMsg {
    /// The application's packet was sent, under the number it now bears.
    OnSendPacket { packet: Packet, version: String, sender: String },
    /// A packet arrived for the application, which answers with an
    /// acknowledgement.
    OnRecvPacket { packet: Packet, relayer: String },
    /// The application's packet was acknowledged by its receiver.
    OnAcknowledgementPacket { packet: Packet, acknowledgement: Vec<u8>, relayer: String },
    /// The application's packet timed out before it was received.
    OnTimeoutPacket { packet: Packet, relayer: String },
}

/// A callback as a mathematical value.
pub enum CallbackView {
    OnSendPacket { packet: PacketView, version: Seq<char>, sender: Seq<char> },
    OnRecvPacket { packet: PacketView, relayer: Seq<char> },
    OnAcknowledgementPacket { packet: PacketView, acknowledgement: Seq<u8>, relayer: Seq<char> },
    OnTimeoutPacket { packet: PacketView, relayer: Seq<char> },
}

impl View for IbcAppCallbackMsg {
    type V = CallbackView;

    open spec fn view(&self) -> CallbackView {
        match self {
            IbcAppCallbackMsg::OnSendPacket { packet, version, sender } => {
                CallbackView::OnSendPacket { packet: packet@, version: version@, sender: sender@ }
            },
            IbcAppCallbackMsg::OnRecvPacket { packet, relayer } => {
                CallbackView::OnRecvPacket { packet: packet@, relayer: relayer@ }
            },
            IbcAppCallbackMsg::OnAcknowledgementPacket { packet, acknowledgement, relayer } => {
                CallbackView::OnAcknowledgementPacket {
                    packet: packet@,
                    acknowledgement: acknowledgement@,
                    relayer: relayer@,
                }
            },
            IbcAppCallbackMsg::OnTimeoutPacket { packet, relayer } => {
                CallbackView::OnTimeoutPacket { packet: packet@, relayer: relayer@ }
            },
        }
    }
}

impl IbcAppCallbackMsg {
    /// The message that hands the callback to the application at
    /// `contract_addr`.
    pub fn into_cosmos_msg(self, contract_addr: String) -> (call: crate::wasm::WasmMsg<Self>)
        ensures
            call == (crate::wasm::WasmMsg::Execute { contract_addr, msg: self }),
    {
        crate::wasm::WasmMsg::Execute { contract_addr, msg: self }
    }
}

/// What a receiving application answers: the result of handling the packet,
/// or the reason why it could not.
#[derive(Debug, Clone, PartialEq, Eq)]
pub enum AcknowledgementData {
    /// The packet was handled; the bytes are the application's result.
    Result(Vec<u8>),
    /// The packet could not be handled, for the reason given.
    Error(String),
}

} // verus!
