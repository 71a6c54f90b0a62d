//! The token-transfer application that rides on the router: the packet it
//! sends, its acknowledgement, and what it decides when the router calls it
//! back.
//!
//! The application escrows the tokens of a packet when the packet is sent,
//! releases them to the receiver when a packet arrives, and refunds them to
//! the sender when a packet fails or times out.

pub mod escrow;

use crate::callbacks::AcknowledgementData;
use crate::error::{ContractError, ErrorView, TransferError, TransferErrorView};
use crate::encoding::{copy_bytes, decimal, same_bytes, same_text};
use crate::events::{hex_lower, to_hex};
use crate::ibc::{Packet, PacketView};
use crate::transfer::escrow::{AccountKey, Escrow};
use vstd::prelude::*;
use vstd::string::StrSliceExecFns;

verus! {

/// The version of the transfer protocol.
pub const ICS20_VERSION: &'static str = "ics20-1";

/// The port of the transfer application on the counterparty.
pub const DEFAULT_PORT_ID: &'static str = "transfer";

/// The life of a packet in seconds where the sender names none.
pub const DEFAULT_TIMEOUT_SECONDS: u64 = 600;

/// The identifier under which the application expects the reply to the
/// transfer of tokens to a receiver.
pub const ON_RECV_PACKET_CW20_TRANSFER: u64 = 1;

/// What a transfer packet carries.
#[derive(Debug, Clone, PartialEq, Eq)]
pub struct Ics20Packet {
    /// The amount of tokens, at most the largest 64-bit number.
    pub amount: u128,
    /// The token.
    pub denom: String,
    /// The receiver on the destination chain.
    pub receiver: String,
    /// The sender on the source chain.
    pub sender: String,
    /// A note that travels with the tokens.
    pub memo: Option<String>,
}

/// The acknowledgement of a transfer packet.
pub type Ics20Ack = AcknowledgementData;

impl AcknowledgementData {
    /// The acknowledgement of a transfer that succeeded: the result `1`.
    pub fn success() -> (ack: Self)
        ensures
            ack matches AcknowledgementData::Result(bytes) && bytes@ == seq![0x31u8],
    {
        let mut bytes: Vec<u8> = Vec::new();
        bytes.push(0x31u8);
        assert(bytes@ =~= seq![0x31u8]);
        AcknowledgementData::Result(bytes)
    }

    /// The acknowledgement of a transfer that failed for the reason `err`.
    pub fn error(err: String) -> (ack: Self)
        ensures
            ack == AcknowledgementData::Error(err),
    {
        AcknowledgementData::Error(err)
    }
}

/// Whether `packet` may be sent, or the first reason why not: the amount is
/// not zero and fits in 64 bits, and token, receiver and sender are named.
pub open spec fn validate_spec(
    amount: u128,
    denom: Seq<char>,
    receiver: Seq<char>,
    sender: Seq<char>,
) -> Result<(), TransferErrorView> {
    if amount == 0 {
        Err(TransferErrorView::ZeroAmount)
    } else if amount > u64::MAX {
        Err(TransferErrorView::AmountOverflow)
    } else if denom.len() == 0 {
        Err(TransferErrorView::EmptyDenom)
    } else if receiver.len() == 0 {
        Err(TransferErrorView::EmptyReceiver)
    } else if sender.len() == 0 {
        Err(TransferErrorView::EmptySender)
    } else {
        Ok(())
    }
}

impl Ics20Packet {
    /// A transfer packet, provided that it may be sent.
    pub fn try_new(
        amount: u128,
        denom: String,
        receiver: String,
        sender: String,
        memo: Option<String>,
    ) -> (r: Result<Self, TransferError>)
        ensures
            match validate_spec(amount, denom@, receiver@, sender@) {
                Ok(_) => r is Ok && r->Ok_0 == (Ics20Packet {
                    amount,
                    denom,
                    receiver,
                    sender,
                    memo,
                }),
                Err(e) => r is Err && r->Err_0@ == e,
            },
    {
        let packet = Ics20Packet { amount, denom, receiver, sender, memo };
        match packet.validate() {
            Ok(_) => Ok(packet),
            Err(e) => Err(e),
        }
    }

    /// Checks that the packet may be sent.
    pub fn validate(&self) -> (r: Result<(), TransferError>)
        ensures
            match validate_spec(self.amount, self.denom@, self.receiver@, self.sender@) {
                Ok(_) => r is Ok,
                Err(e) => r is Err && r->Err_0@ == e,
            },
    {
        if self.amount == 0 {
            return Err(TransferError::ZeroAmount);
        }
        if self.amount > 0xffff_ffff_ffff_ffffu128 {
            return Err(TransferError::AmountOverflow);
        }
        if self.denom.as_str().is_empty() {
            return Err(TransferError::EmptyDenom);
        }
        if self.receiver.as_str().is_empty() {
            return Err(TransferError::EmptyReceiver);
        }
        if self.sender.as_str().is_empty() {
            return Err(TransferError::EmptySender);
        }
        Ok(())
    }
}

/// The request of a token holder to transfer tokens.
#[derive(Debug, Clone, PartialEq, Eq)]
pub struct TransferMsg {
    /// The channel over which the tokens leave.
    pub source_channel: String,
    /// The receiver on the destination chain.
    pub receiver: String,
    /// The life of the packet in seconds, if not the default.
    pub timeout: Option<u64>,
    /// A note that travels with the tokens.
    pub memo: Option<String>,
}

/// The position of the first `/` in `text` at or after `from`, or the length
/// of `text` if there is none.
pub open spec fn next_slash(text: Seq<char>, from: int) -> int
    decreases text.len() - from,
{
    if from < 0 || from >= text.len() {
        text.len() as int
    } else if text[from] == '/' {
        from
    } else {
        next_slash(text, from + 1)
    }
}

/// The token that a voucher stands for: a voucher reads
/// `<port>/<channel>/<token>`, where the token may hold further `/`. The
/// voucher must name `port` and `channel`.
pub open spec fn parse_voucher_denom_spec(
    voucher: Seq<char>,
    port: Seq<char>,
    channel: Seq<char>,
) -> Result<Seq<char>, TransferErrorView> {
    let first = next_slash(voucher, 0);
    let second = next_slash(voucher, first + 1);
    if first >= voucher.len() || second >= voucher.len() {
        Err(TransferErrorView::NoForeignTokens)
    } else if voucher.subrange(0, first) != port {
        Err(
            TransferErrorView::UnexpectedPortId {
                expected: port,
                actual: voucher.subrange(0, first),
            },
        )
    } else if voucher.subrange(first + 1, second) != channel {
        Err(
            TransferErrorView::UnexpectedChannelId {
                expected: channel,
                actual: voucher.subrange(first + 1, second),
            },
        )
    } else {
        Ok(voucher.subrange(second + 1, voucher.len() as int))
    }
}

/// Finds the first `/` in `text` at or after `from`.
fn find_slash(text: &str, from: usize, len: usize) -> (at: usize)
    requires
        len == text@.len(),
        from <= len,
    ensures
        at == next_slash(text@, from as int),
        from <= at <= len,
{
    let mut i = from;
    while i < len
        invariant
            from <= i <= len,
            len == text@.len(),
            next_slash(text@, from as int) == next_slash(text@, i as int),
        decreases len - i,
    {
        if text.get_char(i) == '/' {
            return i;
        }
        i = i + 1;
    }
    i
}

/// The token that the voucher `voucher_denom` stands for, provided that the
/// voucher was issued for `port_id` and `channel_id`.
pub fn parse_voucher_denom<'a>(voucher_denom: &'a str, port_id: &str, channel_id: &str) -> (r:
    Result<&'a str, TransferError>)
    ensures
        match parse_voucher_denom_spec(voucher_denom@, port_id@, channel_id@) {
            Ok(token) => r is Ok && r->Ok_0@ == token,
            Err(e) => r is Err && r->Err_0@ == e,
        },
{
    let len = voucher_denom.unicode_len();
    let first = find_slash(voucher_denom, 0, len);
    if first >= len {
        return Err(TransferError::NoForeignTokens);
    }
    let second = find_slash(voucher_denom, first + 1, len);
    if second >= len {
        return Err(TransferError::NoForeignTokens);
    }
    let port = voucher_denom.substring_char(0, first);
    if !same_text(port, port_id) {
        return Err(TransferError::unexpected_port_id(port_id, port));
    }
    let channel = voucher_denom.substring_char(first + 1, second);
    if !same_text(channel, channel_id) {
        return Err(TransferError::unexpected_channel_id(channel_id, channel));
    }
    Ok(voucher_denom.substring_char(second + 1, len))
}

/// A transfer of tokens that the application asks a token contract for.
#[derive(Debug, Clone, PartialEq, Eq)]
pub struct Cw20Transfer {
    /// The token contract.
    pub contract_addr: String,
    /// Who gets the tokens.
    pub recipient: String,
    /// How many tokens.
    pub amount: u128,
}

/// What the application remembers of a released escrow until the transfer to
/// the receiver has succeeded.
#[derive(Debug, Clone, PartialEq, Eq)]
pub struct RecvPacketReplyPayload {
    /// The channel on which the packet arrived.
    pub channel_id: String,
    /// The token.
    pub denom: String,
    /// The amount that was released.
    pub amount: u128,
}

/// What the application answers to a callback.
#[derive(Debug, Clone, PartialEq, Eq)]
pub struct Response {
    /// The transfer to ask a token contract for, if any.
    pub transfer: Option<Cw20Transfer>,
    /// What to remember until the transfer has succeeded; when present, a
    /// failure of the transfer is reported back under
    /// [`ON_RECV_PACKET_CW20_TRANSFER`].
    pub reply_on_error: Option<RecvPacketReplyPayload>,
    /// The acknowledgement that the application returns, if any.
    pub acknowledgement: Option<AcknowledgementData>,
}

/// The amount that `escrow` holds for `key`; nothing is held where no
/// account exists.
pub open spec fn held(escrow: Map<AccountKey, u128>, key: AccountKey) -> u128 {
    if escrow.contains_key(key) {
        escrow[key]
    } else {
        0
    }
}

/// The error for an escrow that holds `escrowed` where `requested` is asked.
pub open spec fn insufficient_funds(escrowed: u128, requested: u128) -> ErrorView {
    ErrorView::TransferError(
        TransferErrorView::InsufficientFundsInEscrow {
            escrowed: decimal(escrowed as nat),
            requested: decimal(requested as nat),
        },
    )
}

/// The escrow after a packet of the application was sent: the tokens of the
/// packet are added to what is held for their token on the source channel.
/// The callback must come for a packet that the application itself sent,
/// under the transfer protocol, from the port of the application.
pub open spec fn on_send_packet_spec(
    escrow: Map<AccountKey, u128>,
    contract_address: Seq<char>,
    packet: PacketView,
    version: Seq<char>,
    sender: Seq<char>,
    data: Ics20Packet,
) -> Result<Map<AccountKey, u128>, ErrorView> {
    let key = (packet.source_channel, data.denom@);
    if sender != contract_address {
        Err(ErrorView::Unauthorized)
    } else if version != "ics20-1"@ {
        Err(ErrorView::TransferError(TransferErrorView::InvalidVersion))
    } else if packet.source_port != "wasm."@ + contract_address {
        Err(
            ErrorView::TransferError(
                TransferErrorView::UnexpectedPortId {
                    expected: "wasm."@ + contract_address,
                    actual: packet.source_port,
                },
            ),
        )
    } else {
        match validate_spec(data.amount, data.denom@, data.receiver@, data.sender@) {
            Err(e) => Err(ErrorView::TransferError(e)),
            Ok(_) => {
                if held(escrow, key) + data.amount > u128::MAX {
                    Err(ErrorView::TransferError(TransferErrorView::AmountOverflow))
                } else {
                    Ok(escrow.insert(key, (held(escrow, key) + data.amount) as u128))
                }
            },
        }
    }
}

/// The escrow after `amount` was taken out of what is held for `key`, or the
/// error for an escrow that holds less.
pub open spec fn release_spec(escrow: Map<AccountKey, u128>, key: AccountKey, amount: u128) -> Result<
    Map<AccountKey, u128>,
    ErrorView,
> {
    if held(escrow, key) < amount {
        Err(insufficient_funds(held(escrow, key), amount))
    } else {
        Ok(escrow.insert(key, (held(escrow, key) - amount) as u128))
    }
}

/// Takes `amount` out of what `escrow` holds for `denom` on `channel`.
fn release(escrow: &mut Escrow, channel: &str, denom: &str, amount: u128) -> (r: Result<
    (),
    ContractError,
>)
    ensures
        match release_spec(old(escrow)@, (channel@, denom@), amount) {
            Ok(post) => r is Ok && final(escrow)@ == post,
            Err(e) => r is Err && r->Err_0@ == e && final(escrow)@ == old(escrow)@,
        },
{
    let escrowed = match escrow.get(channel, denom) {
        Some(amount) => amount,
        None => 0,
    };
    if escrowed < amount {
        return Err(
            ContractError::TransferError(
                TransferError::insufficient_funds_in_escrow(
                    decimal_text(escrowed).as_str(),
                    decimal_text(amount).as_str(),
                ),
            ),
        );
    }
    escrow.set(channel, denom, escrowed - amount);
    Ok(())
}

/// Renders `n` in decimal.
pub fn decimal_text(n: u128) -> (text: String)
    ensures
        text@ == decimal(n as nat),
    decreases n,
{
    if n < 10 {
        crate::encoding::decimal_string(n as u64)
    } else {
        let mut text = decimal_text(n / 10);
        let digit = crate::encoding::decimal_string((n % 10) as u64);
        text.append(digit.as_str());
        assert(text@ =~= decimal(n as nat));
        text
    }
}

/// Handles the callback for a packet of the application that was sent.
/// `data` is the transfer that the packet carries.
pub fn on_send_packet(
    escrow: &mut Escrow,
    contract_address: &str,
    packet: &Packet,
    version: &str,
    sender: &str,
    data: &Ics20Packet,
) -> (r: Result<Response, ContractError>)
    ensures
        match on_send_packet_spec(
            old(escrow)@,
            contract_address@,
            packet@,
            version@,
            sender@,
            *data,
        ) {
            Ok(post) => r is Ok && final(escrow)@ == post && r->Ok_0 == (Response {
                transfer: None,
                reply_on_error: None,
                acknowledgement: None,
            }),
            Err(e) => r is Err && r->Err_0@ == e && final(escrow)@ == old(escrow)@,
        },
{
    if !same_text(sender, contract_address) {
        return Err(ContractError::Unauthorized);
    }
    if !same_text(version, "ics20-1") {
        return Err(ContractError::TransferError(TransferError::InvalidVersion));
    }
    let mut port = "wasm.".to_owned();
    port.append(contract_address);
    if !same_text(packet.source_port.as_str(), port.as_str()) {
        return Err(
            ContractError::TransferError(
                TransferError::unexpected_port_id(port.as_str(), packet.source_port.as_str()),
            ),
        );
    }
    match data.validate() {
        Ok(_) => {},
        Err(e) => {
            return Err(ContractError::TransferError(e));
        },
    }
    let escrowed = match escrow.get(packet.source_channel.as_str(), data.denom.as_str()) {
        Some(amount) => amount,
        None => 0,
    };
    if escrowed > u128::MAX - data.amount {
        return Err(ContractError::TransferError(TransferError::AmountOverflow));
    }
    escrow.set(packet.source_channel.as_str(), data.denom.as_str(), escrowed + data.amount);
    Ok(Response { transfer: None, reply_on_error: None, acknowledgement: None })
}

/// The escrow after a packet arrived for the application, and the token that
/// is released: the voucher of the packet must stand for a token that left
/// over the destination channel, and its amount is taken out of what is
/// held for that token there.
pub open spec fn on_recv_packet_spec(
    escrow: Map<AccountKey, u128>,
    contract_address: Seq<char>,
    packet: PacketView,
    data: Ics20Packet,
) -> Result<(Map<AccountKey, u128>, Seq<char>), ErrorView> {
    if packet.destination_port != "wasm."@ + contract_address {
        Err(
            ErrorView::TransferError(
                TransferErrorView::UnexpectedPortId {
                    expected: "wasm."@ + contract_address,
                    actual: packet.destination_port,
                },
            ),
        )
    } else {
        match parse_voucher_denom_spec(data.denom@, packet.source_port, packet.source_channel) {
            Err(e) => Err(ErrorView::TransferError(e)),
            Ok(token) => match release_spec(
                escrow,
                (packet.destination_channel, token),
                data.amount,
            ) {
                Err(e) => Err(e),
                Ok(post) => Ok((post, token)),
            },
        }
    }
}

/// Handles the callback for a packet that arrived for the application:
/// releases the tokens from escrow, asks the token contract to hand them to
/// the receiver, and acknowledges success. Should the transfer fail, the
/// application is told and takes the acknowledgement back.
pub fn on_recv_packet(
    escrow: &mut Escrow,
    contract_address: &str,
    packet: &Packet,
    data: &Ics20Packet,
) -> (r: Result<Response, ContractError>)
    ensures
        match on_recv_packet_spec(old(escrow)@, contract_address@, packet@, *data) {
            Ok(outcome) => {
                &&& r is Ok
                &&& final(escrow)@ == outcome.0
                &&& r->Ok_0.transfer matches Some(transfer)
                &&& transfer.contract_addr@ == outcome.1
                &&& transfer.recipient@ == data.receiver@
                &&& transfer.amount == data.amount
                &&& r->Ok_0.reply_on_error matches Some(payload)
                &&& payload.channel_id@ == packet@.destination_channel
                &&& payload.denom@ == outcome.1
                &&& payload.amount == data.amount
                &&& r->Ok_0.acknowledgement matches Some(AcknowledgementData::Result(bytes))
                &&& bytes@ == seq![0x31u8]
            },
            Err(e) => r is Err && r->Err_0@ == e && final(escrow)@ == old(escrow)@,
        },
{
    let mut port = "wasm.".to_owned();
    port.append(contract_address);
    if !same_text(packet.destination_port.as_str(), port.as_str()) {
        return Err(
            ContractError::TransferError(
                TransferError::unexpected_port_id(port.as_str(), packet.destination_port.as_str()),
            ),
        );
    }
    let base_denom = match parse_voucher_denom(
        data.denom.as_str(),
        packet.source_port.as_str(),
        packet.source_channel.as_str(),
    ) {
        Ok(token) => token,
        Err(e) => {
            return Err(ContractError::TransferError(e));
        },
    };
    match release(escrow, packet.destination_channel.as_str(), base_denom, data.amount) {
        Ok(_) => {},
        Err(e) => {
            return Err(e);
        },
    }
    Ok(
        Response {
            transfer: Some(
                Cw20Transfer {
                    contract_addr: base_denom.to_owned(),
                    recipient: data.receiver.clone(),
                    amount: data.amount,
                },
            ),
            reply_on_error: Some(
                RecvPacketReplyPayload {
                    channel_id: packet.destination_channel.as_str().to_owned(),
                    denom: base_denom.to_owned(),
                    amount: data.amount,
                },
            ),
            acknowledgement: Some(AcknowledgementData::success()),
        },
    )
}

/// Handles the report that the transfer of released tokens to their receiver
/// failed for the reason `err`: the tokens go back into escrow, and the
/// application acknowledges the failure.
pub fn on_recv_packet_cw20_transfer(
    escrow: &mut Escrow,
    err: String,
    payload: &RecvPacketReplyPayload,
) -> (r: Result<Response, ContractError>)
    ensures
        ({
            let key = (payload.channel_id@, payload.denom@);
            if held(old(escrow)@, key) + payload.amount > u128::MAX {
                r is Err && r->Err_0@ == ErrorView::TransferError(
                    TransferErrorView::AmountOverflow,
                ) && final(escrow)@ == old(escrow)@
            } else {
                &&& r is Ok
                &&& final(escrow)@ == old(escrow)@.insert(
                    key,
                    (held(old(escrow)@, key) + payload.amount) as u128,
                )
                &&& r->Ok_0 == (Response {
                    transfer: None,
                    reply_on_error: None,
                    acknowledgement: Some(AcknowledgementData::Error(err)),
                })
            }
        }),
{
    let escrowed = match escrow.get(payload.channel_id.as_str(), payload.denom.as_str()) {
        Some(amount) => amount,
        None => 0,
    };
    if escrowed > u128::MAX - payload.amount {
        return Err(ContractError::TransferError(TransferError::AmountOverflow));
    }
    escrow.set(payload.channel_id.as_str(), payload.denom.as_str(), escrowed + payload.amount);
    Ok(
        Response {
            transfer: None,
            reply_on_error: None,
            acknowledgement: Some(AcknowledgementData::error(err)),
        },
    )
}

/// The escrow after a packet of the application failed or timed out: the
/// tokens of the packet are taken out of what is held for their token on the
/// source channel, to be refunded to their sender.
pub open spec fn refund_spec(
    escrow: Map<AccountKey, u128>,
    contract_address: Seq<char>,
    packet: PacketView,
    data: Ics20Packet,
) -> Result<Map<AccountKey, u128>, ErrorView> {
    if packet.source_port != "wasm."@ + contract_address {
        Err(
            ErrorView::TransferError(
                TransferErrorView::UnexpectedPortId {
                    expected: "wasm."@ + contract_address,
                    actual: packet.source_port,
                },
            ),
        )
    } else {
        release_spec(escrow, (packet.source_channel, data.denom@), data.amount)
    }
}

/// Handles a packet of the application that failed on the other chain:
/// takes its tokens out of escrow and asks the token contract to refund them
/// to their sender.
pub fn error(escrow: &mut Escrow, contract_address: &str, packet: &Packet, data: &Ics20Packet) -> (r:
    Result<Response, ContractError>)
    ensures
        match refund_spec(old(escrow)@, contract_address@, packet@, *data) {
            Ok(post) => {
                &&& r is Ok
                &&& final(escrow)@ == post
                &&& r->Ok_0.transfer matches Some(transfer)
                &&& transfer.contract_addr@ == data.denom@
                &&& transfer.recipient@ == data.sender@
                &&& transfer.amount == data.amount
                &&& r->Ok_0.reply_on_error is None
                &&& r->Ok_0.acknowledgement is None
            },
            Err(e) => r is Err && r->Err_0@ == e && final(escrow)@ == old(escrow)@,
        },
{
    let mut port = "wasm.".to_owned();
    port.append(contract_address);
    if !same_text(packet.source_port.as_str(), port.as_str()) {
        return Err(
            ContractError::TransferError(
                TransferError::unexpected_port_id(port.as_str(), packet.source_port.as_str()),
            ),
        );
    }
    match release(escrow, packet.source_channel.as_str(), data.denom.as_str(), data.amount) {
        Ok(_) => {},
        Err(e) => {
            return Err(e);
        },
    }
    Ok(
        Response {
            transfer: Some(
                Cw20Transfer {
                    contract_addr: data.denom.clone(),
                    recipient: data.sender.clone(),
                    amount: data.amount,
                },
            ),
            reply_on_error: None,
            acknowledgement: None,
        },
    )
}

/// Handles a packet of the application that succeeded on the other chain
/// with the result `result`: the result must be the one that the transfer
/// protocol knows, and nothing else happens.
pub fn success(result: &[u8]) -> (r: Result<Response, ContractError>)
    ensures
        result@ == seq![0x31u8] ==> r is Ok && r->Ok_0 == (Response {
            transfer: None,
            reply_on_error: None,
            acknowledgement: None,
        }),
        result@ != seq![0x31u8] ==> r is Err && r->Err_0@ == ErrorView::TransferError(
            TransferErrorView::UnknownAcknowledgement(hex_lower(result@)),
        ),
{
    let mut expected: Vec<u8> = Vec::new();
    expected.push(0x31u8);
    assert(expected@ =~= seq![0x31u8]);
    if !same_bytes(result, expected.as_slice()) {
        return Err(
            ContractError::TransferError(TransferError::UnknownAcknowledgement(to_hex(result))),
        );
    }
    Ok(Response { transfer: None, reply_on_error: None, acknowledgement: None })
}

/// Handles the callback for the acknowledgement `ack` of a packet of the
/// application: nothing is left to do for a success, a failure is refunded.
pub fn on_acknowledgement_packet(
    escrow: &mut Escrow,
    contract_address: &str,
    packet: &Packet,
    data: &Ics20Packet,
    ack: &AcknowledgementData,
) -> (r: Result<Response, ContractError>)
    ensures
        match ack {
            AcknowledgementData::Result(result) => {
                &&& final(escrow)@ == old(escrow)@
                &&& result@ == seq![0x31u8] ==> r is Ok && r->Ok_0 == (Response {
                    transfer: None,
                    reply_on_error: None,
                    acknowledgement: None,
                })
                &&& result@ != seq![0x31u8] ==> r is Err && r->Err_0@ == ErrorView::TransferError(
                    TransferErrorView::UnknownAcknowledgement(hex_lower(result@)),
                )
            },
            AcknowledgementData::Error(_) => match refund_spec(
                old(escrow)@,
                contract_address@,
                packet@,
                *data,
            ) {
                Ok(post) => {
                    &&& r is Ok
                    &&& final(escrow)@ == post
                    &&& r->Ok_0.transfer matches Some(transfer)
                    &&& transfer.contract_addr@ == data.denom@
                    &&& transfer.recipient@ == data.sender@
                    &&& transfer.amount == data.amount
                    &&& r->Ok_0.reply_on_error is None
                    &&& r->Ok_0.acknowledgement is None
                },
                Err(e) => r is Err && r->Err_0@ == e && final(escrow)@ == old(escrow)@,
            },
        },
{
    match ack {
        AcknowledgementData::Result(result) => success(result.as_slice()),
        AcknowledgementData::Error(_) => error(escrow, contract_address, packet, data),
    }
}

/// Handles the callback for a packet of the application that timed out: the
/// tokens are refunded as for a packet that failed.
pub fn on_timeout_packet(
    escrow: &mut Escrow,
    contract_address: &str,
    packet: &Packet,
    data: &Ics20Packet,
) -> (r: Result<Response, ContractError>)
    ensures
        match refund_spec(old(escrow)@, contract_address@, packet@, *data) {
            Ok(post) => {
                &&& r is Ok
                &&& final(escrow)@ == post
                &&& r->Ok_0.transfer matches Some(transfer)
                &&& transfer.contract_addr@ == data.denom@
                &&& transfer.recipient@ == data.sender@
                &&& transfer.amount == data.amount
                &&& r->Ok_0.reply_on_error is None
                &&& r->Ok_0.acknowledgement is None
            },
            Err(e) => r is Err && r->Err_0@ == e && final(escrow)@ == old(escrow)@,
        },
{
    error(escrow, contract_address, packet, data)
}

/// The number of accounts listed where the caller names no limit.
pub const DEFAULT_LIMIT: u32 = 10;

/// The accounts of the escrow on `channel` in the order of their tokens, from
/// the first token after `start_after` on, at most `limit` of them, or ten
/// where no limit is named.
pub fn list_escrow(
    escrow: &Escrow,
    channel: &str,
    start_after: Option<&str>,
    limit: Option<u32>,
) -> (found: Vec<crate::transfer::escrow::Account>)
    ensures
        ({
            let most = match limit {
                Some(l) => l as int,
                None => 10,
            };
            &&& found@.len() <= most
            &&& forall|i: int|
                0 <= i < found@.len() ==> {
                    &&& (#[trigger] found@[i]).channel@ == channel@
                    &&& escrow@.contains_key(crate::transfer::escrow::key_of(found@[i]))
                    &&& escrow@[crate::transfer::escrow::key_of(found@[i])] == found@[i].amount
                    &&& crate::transfer::escrow::beyond(
                        crate::transfer::escrow::text_view(start_after),
                        found@[i].denom@,
                    )
                }
            &&& forall|i: int, j: int|
                0 <= i < j < found@.len() ==> crate::store::precedes(
                    vstd::utf8::encode_utf8((#[trigger] found@[i]).denom@),
                    vstd::utf8::encode_utf8((#[trigger] found@[j]).denom@),
                )
            &&& forall|denom: Seq<char>| #[trigger]
                escrow@.contains_key((channel@, denom)) && crate::transfer::escrow::beyond(
                    crate::transfer::escrow::text_view(start_after),
                    denom,
                ) ==> crate::transfer::escrow::lists_denom(found@, denom) || (found@.len() == most
                    && crate::transfer::escrow::follows_all(found@, denom))
        }),
{
    let most: usize = match limit {
        Some(l) => l as usize,
        None => DEFAULT_LIMIT as usize,
    };
    escrow.list(channel, start_after, most)
}

/// The amount that the escrow holds for the token `cw20_address` on
/// `channel`.
pub fn escrow_amount(escrow: &Escrow, channel: &str, cw20_address: &str) -> (r: Result<
    u128,
    ContractError,
>)
    ensures
        escrow@.contains_key((channel@, cw20_address@)) ==> r is Ok && r->Ok_0 == escrow@[(
            channel@,
            cw20_address@,
        )],
        !escrow@.contains_key((channel@, cw20_address@)) ==> r is Err && r->Err_0@ == (
        ErrorView::NotFound { kind: "escrow"@, key: vstd::utf8::encode_utf8(cw20_address@) }),
{
    match escrow.get(channel, cw20_address) {
        Some(amount) => Ok(amount),
        None => Err(
            ContractError::not_found("escrow", crate::encoding::text_bytes(cw20_address)),
        ),
    }
}

/// A callback of the router to the application, with the transfer that its
/// packet carries read out of the packet.
#[derive(Debug, PartialEq, Eq)]
pub enum TransferCallback {
    /// A packet of the application was sent.
    Send { packet: Packet, version: String, sender: String, data: Ics20Packet },
    /// A packet arrived for the application.
    Recv { packet: Packet, data: Ics20Packet },
    /// A packet of the application was acknowledged with `ack`.
    Acknowledgement { packet: Packet, data: Ics20Packet, ack: AcknowledgementData },
    /// A packet of the application timed out.
    Timeout { packet: Packet, data: Ics20Packet },
}

/// Handles a callback of the router. Only the router, which owns the
/// application, may call back; each callback is handled as its kind demands.
pub fn receive_ibc_callback(
    escrow: &mut Escrow,
    owner: &Option<String>,
    caller: &str,
    contract_address: &str,
    callback: &TransferCallback,
) -> (r: Result<Response, ContractError>)
    ensures
        match owner {
            None => r is Err && r->Err_0@ == ErrorView::OwnershipError(
                crate::error::OwnershipError::NoOwner,
            ) && final(escrow)@ == old(escrow)@,
            Some(o) => if o@ != caller@ {
                r is Err && r->Err_0@ == ErrorView::OwnershipError(
                    crate::error::OwnershipError::NotOwner,
                ) && final(escrow)@ == old(escrow)@
            } else {
                match callback {
                    TransferCallback::Send { packet, version, sender, data } => {
                        match on_send_packet_spec(
                            old(escrow)@,
                            contract_address@,
                            packet@,
                            version@,
                            sender@,
                            *data,
                        ) {
                            Ok(post) => r is Ok && final(escrow)@ == post && r->Ok_0 == (Response {
                                transfer: None,
                                reply_on_error: None,
                                acknowledgement: None,
                            }),
                            Err(e) => r is Err && r->Err_0@ == e && final(escrow)@ == old(escrow)@,
                        }
                    },
                    TransferCallback::Recv { packet, data } => match on_recv_packet_spec(
                        old(escrow)@,
                        contract_address@,
                        packet@,
                        *data,
                    ) {
                        Ok(outcome) => {
                            &&& r is Ok
                            &&& final(escrow)@ == outcome.0
                            &&& r->Ok_0.transfer matches Some(transfer)
                            &&& transfer.contract_addr@ == outcome.1
                            &&& transfer.recipient@ == data.receiver@
                            &&& transfer.amount == data.amount
                            &&& r->Ok_0.reply_on_error matches Some(payload)
                            &&& payload.channel_id@ == packet@.destination_channel
                            &&& payload.denom@ == outcome.1
                            &&& payload.amount == data.amount
                            &&& r->Ok_0.acknowledgement matches Some(
                                AcknowledgementData::Result(bytes),
                            )
                            &&& bytes@ == seq![0x31u8]
                        },
                        Err(e) => r is Err && r->Err_0@ == e && final(escrow)@ == old(escrow)@,
                    },
                    TransferCallback::Acknowledgement {
                        packet,
                        data,
                        ack: AcknowledgementData::Result(result),
                    } => {
                        &&& final(escrow)@ == old(escrow)@
                        &&& result@ == seq![0x31u8] ==> r is Ok && r->Ok_0 == (Response {
                            transfer: None,
                            reply_on_error: None,
                            acknowledgement: None,
                        })
                        &&& result@ != seq![0x31u8] ==> r is Err && r->Err_0@
                            == ErrorView::TransferError(
                            TransferErrorView::UnknownAcknowledgement(hex_lower(result@)),
                        )
                    },
                    TransferCallback::Acknowledgement {
                        packet,
                        data,
                        ack: AcknowledgementData::Error(_),
                    } => refunded(old(escrow)@, final(escrow)@, contract_address@, packet@, *data, r),
                    TransferCallback::Timeout { packet, data } => refunded(
                        old(escrow)@,
                        final(escrow)@,
                        contract_address@,
                        packet@,
                        *data,
                        r,
                    ),
                }
            },
        },
{
    match crate::host::assert_owner(owner, caller) {
        Ok(_) => {},
        Err(e) => {
            return Err(e);
        },
    }
    match callback {
        TransferCallback::Send { packet, version, sender, data } => on_send_packet(
            escrow,
            contract_address,
            packet,
            version.as_str(),
            sender.as_str(),
            data,
        ),
        TransferCallback::Recv { packet, data } => on_recv_packet(
            escrow,
            contract_address,
            packet,
            data,
        ),
        TransferCallback::Acknowledgement { packet, data, ack } => on_acknowledgement_packet(
            escrow,
            contract_address,
            packet,
            data,
            ack,
        ),
        TransferCallback::Timeout { packet, data } => on_timeout_packet(
            escrow,
            contract_address,
            packet,
            data,
        ),
    }
}

/// Whether `r` and the escrow `post` are what a refund of the tokens of
/// `packet` brings about in the escrow `pre`.
pub open spec fn refunded(
    pre: Map<AccountKey, u128>,
    post: Map<AccountKey, u128>,
    contract_address: Seq<char>,
    packet: PacketView,
    data: Ics20Packet,
    r: Result<Response, ContractError>,
) -> bool {
    match refund_spec(pre, contract_address, packet, data) {
        Ok(expected) => {
            &&& r is Ok
            &&& post == expected
            &&& r->Ok_0.transfer matches Some(transfer)
            &&& transfer.contract_addr@ == data.denom@
            &&& transfer.recipient@ == data.sender@
            &&& transfer.amount == data.amount
            &&& r->Ok_0.reply_on_error is None
            &&& r->Ok_0.acknowledgement is None
        },
        Err(e) => r is Err && r->Err_0@ == e && post == pre,
    }
}

/// What the application asks the router to send for a holder of tokens.
#[derive(Debug, PartialEq, Eq)]
pub struct TransferRequest {
    /// The address of the router.
    pub router: String,
    /// The transfer that the packet carries.
    pub packet: Ics20Packet,
    /// The port of the application.
    pub source_port: String,
    /// The channel over which the tokens leave.
    pub source_channel: String,
    /// The port of the transfer application on the other chain.
    pub dest_port: String,
    /// When the packet becomes void.
    pub timeout: crate::ibc::Timeout,
    /// The version of the transfer protocol.
    pub version: String,
}

/// The error for a timeout that lies beyond the largest time.
pub open spec fn timeout_out_of_range() -> ErrorView {
    ErrorView::Std("timeout out of range"@)
}

/// What the application asks the router for when the token contract `token`
/// hands over `amount` tokens of `sender` with the request `msg`: a packet
/// from the port of the application, to the transfer port of the other
/// chain, that times out after the seconds that the request names, or after
/// ten minutes where it names none. Native funds must not come with the
/// tokens, and the application must know its router.
pub open spec fn receive_spec(
    has_funds: bool,
    owner: Option<Seq<char>>,
    env: crate::host::Env,
    token: Seq<char>,
    amount: u128,
    sender: Seq<char>,
    msg: TransferMsg,
) -> Result<(), ErrorView> {
    let seconds = match msg.timeout {
        Some(seconds) => seconds,
        None => 600,
    };
    if has_funds {
        Err(ErrorView::TransferError(TransferErrorView::UnexpectedNativeToken))
    } else if owner is None {
        Err(ErrorView::Unauthorized)
    } else if !crate::identifiers::is_port_id("wasm."@ + env.contract_address@) {
        Err(crate::router::model::identifier_error())
    } else if env.block_time_nanos + seconds * 1_000_000_000 > u64::MAX {
        Err(timeout_out_of_range())
    } else {
        match validate_spec(amount, token, msg.receiver@, sender) {
            Err(e) => Err(ErrorView::TransferError(e)),
            Ok(_) => Ok(()),
        }
    }
}

/// Turns tokens that a token contract hands over into the request to the
/// router to send them. `owner` is the router, `token` the token contract.
pub fn receive(
    has_funds: bool,
    owner: &Option<String>,
    env: &crate::host::Env,
    token: &str,
    amount: u128,
    sender: String,
    msg: TransferMsg,
) -> (r: Result<TransferRequest, ContractError>)
    ensures
        match receive_spec(
            has_funds,
            crate::host::admin_view(*owner),
            *env,
            token@,
            amount,
            sender@,
            msg,
        ) {
            Ok(_) => {
                &&& r is Ok
                &&& r->Ok_0.router@ == owner->0@
                &&& r->Ok_0.packet.amount == amount
                &&& r->Ok_0.packet.denom@ == token@
                &&& r->Ok_0.packet.receiver == msg.receiver
                &&& r->Ok_0.packet.sender == sender
                &&& r->Ok_0.packet.memo == msg.memo
                &&& r->Ok_0.source_port@ == "wasm."@ + env.contract_address@
                &&& r->Ok_0.source_channel == msg.source_channel
                &&& r->Ok_0.dest_port@ == "transfer"@
                &&& r->Ok_0.version@ == "ics20-1"@
                &&& r->Ok_0.timeout == (crate::ibc::Timeout {
                    block: None,
                    timestamp: Some(
                        (env.block_time_nanos + match msg.timeout {
                            Some(seconds) => seconds,
                            None => 600,
                        } * 1_000_000_000) as u64,
                    ),
                })
            },
            Err(e) => r is Err && crate::router::model::errors_agree(r->Err_0@, e),
        },
{
    if has_funds {
        return Err(ContractError::TransferError(TransferError::UnexpectedNativeToken));
    }
    let router = match owner {
        Some(router) => router.clone(),
        None => {
            return Err(ContractError::Unauthorized);
        },
    };
    let source_port = match crate::apps::contract_port_id(env.contract_address.as_str()) {
        Ok(port) => port.as_str().to_owned(),
        Err(e) => {
            return Err(e);
        },
    };
    let seconds = match msg.timeout {
        Some(seconds) => seconds,
        None => DEFAULT_TIMEOUT_SECONDS,
    };
    let nanos = match seconds.checked_mul(1_000_000_000) {
        Some(nanos) => nanos,
        None => {
            return Err(ContractError::Std("timeout out of range".to_owned()));
        },
    };
    let timestamp = match env.block_time_nanos.checked_add(nanos) {
        Some(timestamp) => timestamp,
        None => {
            return Err(ContractError::Std("timeout out of range".to_owned()));
        },
    };
    let packet = match Ics20Packet::try_new(
        amount,
        token.to_owned(),
        msg.receiver,
        sender,
        msg.memo,
    ) {
        Ok(packet) => packet,
        Err(e) => {
            return Err(ContractError::TransferError(e));
        },
    };
    Ok(
        TransferRequest {
            router,
            packet,
            source_port,
            source_channel: msg.source_channel,
            dest_port: "transfer".to_owned(),
            timeout: crate::ibc::Timeout::with_timestamp(timestamp),
            version: "ics20-1".to_owned(),
        },
    )
}

} // verus!
