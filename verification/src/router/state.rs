//! The operations of the router on its provable store.

use crate::encoding::{be64, be64_bytes, be64_decode, copy_bytes};
use crate::error::{ContractError, ErrorView};
use crate::ibc::{ack_commitment, receipt_value, Acknowledgement, Packet};
use crate::paths::{
    ack_key, commitment_key, next_sequence_send_key, receipt_key, render_next_sequence_send_path,
    PacketAcknowledgementPath, PacketCommitmentPath, PacketReceiptPath,
};
use crate::router::model::{corrupt_counter, next_sequence_send as next_sequence_send_spec};
use crate::store::{PureItem, Store};
use vstd::prelude::*;

verus! {

/// The number that the next packet sent from `port_id` on `channel_id` gets.
pub fn next_sequence_send(store: &Store, port_id: &str, channel_id: &str) -> (r: Result<
    u64,
    ContractError,
>)
    ensures
        match next_sequence_send_spec(store@, port_id@, channel_id@) {
            Some(sequence) => r is Ok && r->Ok_0 == sequence,
            None => r is Err && r->Err_0@ == corrupt_counter(),
        },
{
    let item = PureItem::new(render_next_sequence_send_path(port_id, channel_id).as_str());
    match item.may_load(store) {
        None => Ok(1),
        Some(bytes) => match be64_decode(bytes.as_slice()) {
            Some(sequence) => Ok(sequence),
            None => Err(ContractError::Std("corrupt sequence counter".to_owned())),
        },
    }
}

/// Takes the number for the next packet sent from `port_id` on `channel_id`
/// and moves the counter on.
pub fn new_sequence_send(store: &mut Store, port_id: &str, channel_id: &str) -> (r: Result<
    u64,
    ContractError,
>)
    ensures
        match next_sequence_send_spec(old(store)@, port_id@, channel_id@) {
            Some(sequence) => {
                if sequence == u64::MAX {
                    &&& r is Err
                    &&& r->Err_0@ == ErrorView::CounterOverflow
                    &&& final(store)@ == old(store)@
                } else {
                    r is Ok && r->Ok_0 == sequence && final(store)@ == old(store)@.insert(
                        next_sequence_send_key(port_id@, channel_id@),
                        be64((sequence + 1) as u64),
                    )
                }
            },
            None => r is Err && r->Err_0@ == corrupt_counter() && final(store)@ == old(store)@,
        },
{
    let sequence = match next_sequence_send(store, port_id, channel_id) {
        Ok(sequence) => sequence,
        Err(e) => {
            return Err(e);
        },
    };
    if sequence == u64::MAX {
        return Err(ContractError::CounterOverflow);
    }
    let item = PureItem::new(render_next_sequence_send_path(port_id, channel_id).as_str());
    item.save(store, be64_bytes(sequence + 1).as_slice());
    Ok(sequence)
}

/// Stores the commitment of a sent packet. A commitment is never
/// overwritten: where one is stored already, nothing changes.
pub fn commit_packet(store: &mut Store, packet: &Packet) -> (r: Result<(), ContractError>)
    requires
        packet.timeout.timestamp is Some,
    ensures
        ({
            let key = commitment_key(
                packet@.source_port,
                packet@.source_channel,
                packet@.sequence,
            );
            if old(store)@.contains_key(key) {
                &&& r is Err
                &&& r->Err_0@ == (ErrorView::PacketAlreadyCommited { key })
                &&& final(store)@ == old(store)@
            } else {
                r is Ok && final(store)@ == old(store)@.insert(key, packet@.commitment())
            }
        }),
{
    let item = PacketCommitmentPath {
        port_id: packet.source_port.clone(),
        channel_id: packet.source_channel.clone(),
        sequence: packet.sequence,
    }.item();
    if item.has(store) {
        return Err(ContractError::packet_already_commited(copy_bytes(item.as_slice())));
    }
    item.save(store, packet.to_commitment_bytes().as_slice());
    Ok(())
}

/// Deletes the commitment of a sent packet. Where none is stored, nothing
/// changes.
pub fn delete_packet_commitment(store: &mut Store, packet: &Packet) -> (r: Result<
    (),
    ContractError,
>)
    ensures
        ({
            let key = commitment_key(
                packet@.source_port,
                packet@.source_channel,
                packet@.sequence,
            );
            if old(store)@.contains_key(key) {
                r is Ok && final(store)@ == old(store)@.remove(key)
            } else {
                &&& r is Err
                &&& r->Err_0@ == (ErrorView::PacketCommitmentNotFound { key })
                &&& final(store)@ == old(store)@
            }
        }),
{
    let item = PacketCommitmentPath {
        port_id: packet.source_port.clone(),
        channel_id: packet.source_channel.clone(),
        sequence: packet.sequence,
    }.item();
    if !item.has(store) {
        return Err(ContractError::packet_commitment_not_found(copy_bytes(item.as_slice())));
    }
    item.remove(store);
    Ok(())
}

/// Stores the receipt of a received packet. A receipt is never overwritten:
/// where one is stored already, nothing changes.
pub fn set_packet_receipt(store: &mut Store, packet: &Packet) -> (r: Result<(), ContractError>)
    ensures
        ({
            let key = receipt_key(
                packet@.destination_port,
                packet@.destination_channel,
                packet@.sequence,
            );
            if old(store)@.contains_key(key) {
                &&& r is Err
                &&& r->Err_0@ == (ErrorView::PacketAlreadyCommited { key })
                &&& final(store)@ == old(store)@
            } else {
                r is Ok && final(store)@ == old(store)@.insert(key, receipt_value())
            }
        }),
{
    let item = PacketReceiptPath {
        port_id: packet.destination_port.clone(),
        channel_id: packet.destination_channel.clone(),
        sequence: packet.sequence,
    }.item();
    if item.has(store) {
        return Err(ContractError::packet_already_commited(copy_bytes(item.as_slice())));
    }
    let mut receipt: Vec<u8> = Vec::new();
    receipt.push(1u8);
    assert(receipt@ =~= receipt_value());
    item.save(store, receipt.as_slice());
    Ok(())
}

/// Stores the commitment of the acknowledgement of a received packet. An
/// acknowledgement is never overwritten: where one is stored already, nothing
/// changes.
pub fn commit_packet_ack(store: &mut Store, packet: &Packet, ack: &Acknowledgement) -> (r: Result<
    (),
    ContractError,
>)
    ensures
        ({
            let key = ack_key(
                packet@.destination_port,
                packet@.destination_channel,
                packet@.sequence,
            );
            if old(store)@.contains_key(key) {
                &&& r is Err
                &&& r->Err_0@ == (ErrorView::PacketAlreadyCommited { key })
                &&& final(store)@ == old(store)@
            } else {
                r is Ok && final(store)@ == old(store)@.insert(key, ack_commitment(ack@))
            }
        }),
{
    let item = PacketAcknowledgementPath {
        port_id: packet.destination_port.clone(),
        channel_id: packet.destination_channel.clone(),
        sequence: packet.sequence,
    }.item();
    if item.has(store) {
        return Err(ContractError::packet_already_commited(copy_bytes(item.as_slice())));
    }
    item.save(store, ack.to_commitment_bytes().as_slice());
    Ok(())
}

} // verus!
