//! What holds of the router in every state and across every transition.
//!
//! The laws are stated over the model of the router and proved from its
//! definition. Since every function of the router is proved to do what the
//! model says, the laws hold of the router that runs.

use crate::error::ErrorView;
use crate::ibc::{ack_commitment, receipt_value, PacketView};
use crate::encoding::{be64, lemma_be64_roundtrip};
use crate::paths::{
    ack_key, commitment_key, lemma_commitment_key_injective, lemma_identifier_no_slash,
    lemma_keys_of_different_kinds, lemma_next_sequence_send_key_injective, next_sequence_send_key,
    no_slash, receipt_key,
};
use crate::registry::RegistryView;
use crate::router::model::{
    missing_value, next_sequence_send, ResponseView, RouterView, ON_RECV_PACKET,
};
use crate::router::msg::SendPacketMsgView;
use vstd::prelude::*;
use vstd::set_lib::{lemma_int_range, set_int_range};

verus! {

/// One transition of the router, as the host sees it: a request with all
/// that the outside world contributes to it.
pub enum Step {
    /// An application sends a packet.
    SendPacket { registry: RegistryView, now: u64, sender: Seq<char>, msg: SendPacketMsgView },
    /// A relayer delivers a packet. `callback` is what became of the
    /// callback to the application: nothing if it failed, else what it
    /// returned.
    Receive {
        registry: RegistryView,
        relayer: Seq<char>,
        packet: PacketView,
        verified: bool,
        callback: Option<Option<Seq<u8>>>,
    },
    /// A relayer delivers an acknowledgement.
    Acknowledgement {
        registry: RegistryView,
        relayer: Seq<char>,
        packet: PacketView,
        ack: Seq<u8>,
        verified: bool,
    },
    /// A relayer voids a packet.
    Timeout {
        registry: RegistryView,
        relayer: Seq<char>,
        packet: PacketView,
        proof_timestamp: Option<u64>,
        verified: bool,
    },
    /// An application is bound to a port.
    RegisterIbcApp {
        admin: Option<Seq<char>>,
        sender: Seq<char>,
        port_id: Option<Seq<char>>,
        address: Seq<char>,
    },
}

/// The router after the transition `step`, or the error that the transition
/// ends in.
pub open spec fn attempt(pre: RouterView, step: Step) -> Result<RouterView, ErrorView> {
    match step {
        Step::SendPacket { registry, now, sender, msg } => match pre.send_packet(
            registry,
            now,
            sender,
            msg,
        ) {
            Ok(outcome) => Ok(outcome.0),
            Err(e) => Err(e),
        },
        Step::Receive { registry, relayer, packet, verified, callback } => pre.receive(
            registry,
            relayer,
            packet,
            verified,
            callback,
        ),
        Step::Acknowledgement { registry, relayer, packet, ack, verified } => {
            match pre.acknowledgement(registry, relayer, packet, ack, verified) {
                Ok(outcome) => Ok(outcome.0),
                Err(e) => Err(e),
            }
        },
        Step::Timeout { registry, relayer, packet, proof_timestamp, verified } => {
            match pre.timeout(registry, relayer, packet, proof_timestamp, verified) {
                Ok(outcome) => Ok(outcome.0),
                Err(e) => Err(e),
            }
        },
        Step::RegisterIbcApp { admin, sender, port_id, address } => {
            match pre.register_ibc_app(admin, sender, port_id, address) {
                Ok(outcome) => Ok(outcome.0),
                Err(e) => Err(e),
            }
        },
    }
}

/// The router after the transition `step`: a transition that fails leaves
/// the router as it was.
pub open spec fn after(pre: RouterView, step: Step) -> RouterView {
    match attempt(pre, step) {
        Ok(post) => post,
        Err(_) => pre,
    }
}

/// The router after the transitions `steps`, taken in order.
pub open spec fn run(pre: RouterView, steps: Seq<Step>) -> RouterView
    decreases steps.len(),
{
    if steps.len() == 0 {
        pre
    } else {
        after(run(pre, steps.drop_last()), steps.last())
    }
}

/// Whether `post` holds under `key` what `pre` holds there.
pub open spec fn kept(pre: Map<Seq<u8>, Seq<u8>>, post: Map<Seq<u8>, Seq<u8>>, key: Seq<u8>) -> bool {
    post.contains_key(key) && post[key] == pre[key]
}

/// Whether from `pre` to `post` every receipt and every acknowledgement
/// stays as it is, and every commitment either stays as it is or goes.
pub open spec fn never_overwritten(
    pre: Map<Seq<u8>, Seq<u8>>,
    post: Map<Seq<u8>, Seq<u8>>,
) -> bool {
    &&& forall|port: Seq<char>, channel: Seq<char>, sequence: u64|
        pre.contains_key(#[trigger] receipt_key(port, channel, sequence)) ==> kept(
            pre,
            post,
            receipt_key(port, channel, sequence),
        )
    &&& forall|port: Seq<char>, channel: Seq<char>, sequence: u64|
        pre.contains_key(#[trigger] ack_key(port, channel, sequence)) ==> kept(
            pre,
            post,
            ack_key(port, channel, sequence),
        )
    &&& forall|port: Seq<char>, channel: Seq<char>, sequence: u64|
        pre.contains_key(#[trigger] commitment_key(port, channel, sequence))
            && post.contains_key(commitment_key(port, channel, sequence)) ==> post[commitment_key(
            port,
            channel,
            sequence,
        )] == pre[commitment_key(port, channel, sequence)]
}

/// Sending a packet overwrites no receipt, no acknowledgement and no
/// commitment.
pub proof fn law_send_never_overwrites(
    pre: RouterView,
    registry: RegistryView,
    now: u64,
    sender: Seq<char>,
    msg: SendPacketMsgView,
)
    ensures
        never_overwritten(
            pre.store,
            after(pre, Step::SendPacket { registry, now, sender, msg }).store,
        ),
{
    let post = after(pre, Step::SendPacket { registry, now, sender, msg }).store;
    if pre.send_packet(registry, now, sender, msg) is Ok {
        let n = crate::router::model::next_sequence_send(
            pre.store,
            msg.source_port,
            msg.source_channel,
        )->0;
        assert forall|port: Seq<char>, channel: Seq<char>, sequence: u64|
            pre.store.contains_key(#[trigger] receipt_key(port, channel, sequence)) implies kept(
            pre.store,
            post,
            receipt_key(port, channel, sequence),
        ) by {
            lemma_keys_of_different_kinds(
                msg.source_port,
                msg.source_channel,
                n,
                port,
                channel,
                sequence,
            );
            lemma_keys_of_different_kinds(
                port,
                channel,
                sequence,
                msg.source_port,
                msg.source_channel,
                n,
            );
        }
        assert forall|port: Seq<char>, channel: Seq<char>, sequence: u64|
            pre.store.contains_key(#[trigger] ack_key(port, channel, sequence)) implies kept(
            pre.store,
            post,
            ack_key(port, channel, sequence),
        ) by {
            lemma_keys_of_different_kinds(
                msg.source_port,
                msg.source_channel,
                n,
                port,
                channel,
                sequence,
            );
            lemma_keys_of_different_kinds(
                port,
                channel,
                sequence,
                msg.source_port,
                msg.source_channel,
                n,
            );
        }
        assert forall|port: Seq<char>, channel: Seq<char>, sequence: u64|
            pre.store.contains_key(#[trigger] commitment_key(port, channel, sequence))
                && post.contains_key(commitment_key(port, channel, sequence)) implies post[commitment_key(
            port,
            channel,
            sequence,
        )] == pre.store[commitment_key(port, channel, sequence)] by {
            lemma_keys_of_different_kinds(
                port,
                channel,
                sequence,
                msg.source_port,
                msg.source_channel,
                n,
            );
        }
    }
}

/// Receiving a packet, up to the callback to its application, overwrites no
/// receipt, no acknowledgement and no commitment.
pub proof fn law_recv_never_overwrites(
    pre: RouterView,
    registry: RegistryView,
    relayer: Seq<char>,
    packet: PacketView,
    verified: bool,
)
    ensures
        pre.recv_packet(registry, relayer, packet, verified) matches Ok(outcome)
            ==> never_overwritten(pre.store, outcome.0.store),
{
    if let Ok(outcome) = pre.recv_packet(registry, relayer, packet, verified) {
        let post = outcome.0.store;
        let key = receipt_key(packet.destination_port, packet.destination_channel, packet.sequence);
        assert(post == pre.store.insert(key, receipt_value()));
        assert(!pre.store.contains_key(key));
    }
}

/// Writing an acknowledgement overwrites no receipt, no acknowledgement and
/// no commitment.
pub proof fn law_write_acknowledgement_never_overwrites(pre: RouterView, data: Option<Seq<u8>>)
    ensures
        pre.write_acknowledgement(data) matches Ok(outcome) ==> never_overwritten(
            pre.store,
            outcome.0.store,
        ),
{
    if let Ok(outcome) = pre.write_acknowledgement(data) {
        let packet = pre.in_flight->0;
        let key = ack_key(packet.destination_port, packet.destination_channel, packet.sequence);
        assert(outcome.0.store == pre.store.insert(key, ack_commitment(data->0)));
        assert(!pre.store.contains_key(key));
    }
}

/// Deleting the commitment of `packet` overwrites no receipt, no
/// acknowledgement and no commitment.
proof fn lemma_delete_never_overwrites(pre: Map<Seq<u8>, Seq<u8>>, packet: PacketView)
    ensures
        never_overwritten(
            pre,
            pre.remove(commitment_key(packet.source_port, packet.source_channel, packet.sequence)),
        ),
{
    let post = pre.remove(
        commitment_key(packet.source_port, packet.source_channel, packet.sequence),
    );
    assert forall|port: Seq<char>, channel: Seq<char>, sequence: u64|
        pre.contains_key(#[trigger] receipt_key(port, channel, sequence)) implies kept(
        pre,
        post,
        receipt_key(port, channel, sequence),
    ) by {
        lemma_keys_of_different_kinds(
            packet.source_port,
            packet.source_channel,
            packet.sequence,
            port,
            channel,
            sequence,
        );
    }
    assert forall|port: Seq<char>, channel: Seq<char>, sequence: u64|
        pre.contains_key(#[trigger] ack_key(port, channel, sequence)) implies kept(
        pre,
        post,
        ack_key(port, channel, sequence),
    ) by {
        lemma_keys_of_different_kinds(
            packet.source_port,
            packet.source_channel,
            packet.sequence,
            port,
            channel,
            sequence,
        );
    }
}

/// No transition overwrites a receipt, an acknowledgement or a commitment:
/// across every transition, whether it succeeds or fails, each receipt and
/// each acknowledgement stays as it is, and each commitment stays as it is or
/// is deleted.
pub proof fn law_never_overwritten(pre: RouterView, step: Step)
    ensures
        never_overwritten(pre.store, after(pre, step).store),
{
    match step {
        Step::SendPacket { registry, now, sender, msg } => {
            law_send_never_overwrites(pre, registry, now, sender, msg);
        },
        Step::Receive { registry, relayer, packet, verified, callback } => {
            if let Ok(post) = pre.receive(registry, relayer, packet, verified, callback) {
                let received = pre.recv_packet(registry, relayer, packet, verified)->Ok_0.0;
                let written = received.reply(ON_RECV_PACKET, callback->0)->Ok_0.0;
                law_recv_never_overwrites(pre, registry, relayer, packet, verified);
                law_write_acknowledgement_never_overwrites(received, callback->0);
                let receipt = receipt_key(
                    packet.destination_port,
                    packet.destination_channel,
                    packet.sequence,
                );
                let ack = ack_key(
                    packet.destination_port,
                    packet.destination_channel,
                    packet.sequence,
                );
                assert(post.store == pre.store.insert(receipt, receipt_value()).insert(
                    ack,
                    ack_commitment(callback->0->0),
                ));
                assert(!pre.store.contains_key(receipt));
                assert(!pre.store.contains_key(ack)) by {
                    lemma_keys_of_different_kinds(
                        packet.destination_port,
                        packet.destination_channel,
                        packet.sequence,
                        packet.destination_port,
                        packet.destination_channel,
                        packet.sequence,
                    );
                }
            }
        },
        Step::Acknowledgement { registry, relayer, packet, ack, verified } => {
            lemma_delete_never_overwrites(pre.store, packet);
        },
        Step::Timeout { registry, relayer, packet, proof_timestamp, verified } => {
            lemma_delete_never_overwrites(pre.store, packet);
        },
        Step::RegisterIbcApp { admin, sender, port_id, address } => {},
    }
}

/// A packet is received once: while the receipt of a packet is stored, every
/// packet with the same destination port, destination channel and sequence is
/// refused, whatever it carries and whatever the light client says. Where
/// the packet passes the checks that come before the receipt is looked at,
/// the error names the receipt.
pub proof fn law_duplicate_receive_fails(
    state: RouterView,
    registry: RegistryView,
    relayer: Seq<char>,
    packet: PacketView,
    verified: bool,
)
    requires
        state.store.contains_key(
            receipt_key(packet.destination_port, packet.destination_channel, packet.sequence),
        ),
    ensures
        state.recv_packet(registry, relayer, packet, verified) is Err,
        state.recv_packet_query(
            registry,
            packet,
            Seq::empty(),
            crate::ibc::Height { revision_number: 0, revision_height: 0 },
        ) is Ok && verified ==> state.recv_packet(registry, relayer, packet, verified) == Err::<
            (RouterView, ResponseView),
            ErrorView,
        >(
            ErrorView::PacketAlreadyCommited {
                key: receipt_key(
                    packet.destination_port,
                    packet.destination_channel,
                    packet.sequence,
                ),
            },
        ),
{
}

/// A packet that was received is refused when it is delivered again: after
/// `first` was received, a packet `second` with its destination port,
/// destination channel and sequence is refused, whatever it carries, and the
/// receipt is as it was.
pub proof fn law_receive_then_duplicate(
    pre: RouterView,
    registry: RegistryView,
    relayer: Seq<char>,
    first: PacketView,
    second: PacketView,
    verified: bool,
)
    requires
        pre.recv_packet(registry, relayer, first, true) is Ok,
        second.destination_port == first.destination_port,
        second.destination_channel == first.destination_channel,
        second.sequence == first.sequence,
    ensures
        ({
            let post = pre.recv_packet(registry, relayer, first, true)->Ok_0.0;
            let key = receipt_key(
                first.destination_port,
                first.destination_channel,
                first.sequence,
            );
            &&& post.store.contains_key(key)
            &&& post.store[key] == receipt_value()
            &&& post.recv_packet(registry, relayer, second, verified) is Err
        }),
{
    let post = pre.recv_packet(registry, relayer, first, true)->Ok_0.0;
    law_duplicate_receive_fails(post, registry, relayer, second, verified);
}

/// An acknowledgement for a packet other than the one committed is refused:
/// where the checks on application, counterparty and timeout pass and the
/// commitment stored for the packet is not the commitment of the packet, the
/// acknowledgement fails with the mismatch of the two, and nothing changes.
pub proof fn law_acknowledgement_commitment_mismatch(
    state: RouterView,
    registry: RegistryView,
    relayer: Seq<char>,
    packet: PacketView,
    ack: Seq<u8>,
    verified: bool,
)
    requires
        state.returning(registry, packet) is Ok,
        state.store.contains_key(
            commitment_key(packet.source_port, packet.source_channel, packet.sequence),
        ),
        state.store[commitment_key(packet.source_port, packet.source_channel, packet.sequence)]
            != packet.commitment(),
    ensures
        state.acknowledgement(registry, relayer, packet, ack, verified) == Err::<
            (RouterView, ResponseView),
            ErrorView,
        >(
            ErrorView::PacketCommitmentMismatch {
                expected: state.store[commitment_key(
                    packet.source_port,
                    packet.source_channel,
                    packet.sequence,
                )],
                provided: packet.commitment(),
            },
        ),
        after(state, Step::Acknowledgement { registry, relayer, packet, ack, verified }) == state,
{
}

/// No packet is in flight between transitions: a transition that starts
/// without a packet in flight ends without one, whether it succeeds or fails.
pub proof fn law_nothing_in_flight(pre: RouterView, step: Step)
    requires
        pre.in_flight is None,
    ensures
        after(pre, step).in_flight is None,
{
}

/// No packet is in flight after any number of transitions from the start.
pub proof fn law_nothing_in_flight_ever(steps: Seq<Step>)
    ensures
        run(RouterView::initial(), steps).in_flight is None,
    decreases steps.len(),
{
    if steps.len() > 0 {
        law_nothing_in_flight_ever(steps.drop_last());
        law_nothing_in_flight(run(RouterView::initial(), steps.drop_last()), steps.last());
    }
}

/// While a packet is in flight no other packet is received.
pub proof fn law_receive_not_reentrant(
    state: RouterView,
    registry: RegistryView,
    relayer: Seq<char>,
    packet: PacketView,
    verified: bool,
)
    requires
        state.in_flight is Some,
    ensures
        state.recv_packet(registry, relayer, packet, verified) is Err,
{
}

/// A packet by where it was sent from and the number it bears.
pub type Sent = (Seq<char>, Seq<char>, u64);

/// What has happened to the packets that a router sent.
pub struct History {
    /// The packets that were sent: each was committed under its commitment
    /// key when it was sent.
    pub sent: Set<Sent>,
    /// The packets whose acknowledgement was taken.
    pub acknowledged: Set<Sent>,
    /// The packets that were voided after their timeout.
    pub timed_out: Set<Sent>,
}

impl History {
    /// The history in which nothing has happened.
    pub open spec fn empty() -> History {
        History { sent: Set::empty(), acknowledged: Set::empty(), timed_out: Set::empty() }
    }
}

/// The history after the transition `step` was taken in the state `pre`: a
/// packet that was sent, acknowledged or voided is recorded; a transition
/// that fails leaves no trace.
pub open spec fn record(history: History, pre: RouterView, step: Step) -> History {
    if attempt(pre, step) is Err {
        history
    } else {
        match step {
            Step::SendPacket { registry, now, sender, msg } => History {
                sent: history.sent.insert(
                    (
                        msg.source_port,
                        msg.source_channel,
                        next_sequence_send(pre.store, msg.source_port, msg.source_channel)->0,
                    ),
                ),
                acknowledged: history.acknowledged,
                timed_out: history.timed_out,
            },
            Step::Acknowledgement { registry, relayer, packet, ack, verified } => History {
                sent: history.sent,
                acknowledged: history.acknowledged.insert(
                    (packet.source_port, packet.source_channel, packet.sequence),
                ),
                timed_out: history.timed_out,
            },
            Step::Timeout { registry, relayer, packet, proof_timestamp, verified } => History {
                sent: history.sent,
                acknowledged: history.acknowledged,
                timed_out: history.timed_out.insert(
                    (packet.source_port, packet.source_channel, packet.sequence),
                ),
            },
            _ => history,
        }
    }
}

/// The history of a router that started from nothing and took `steps`.
pub open spec fn history_of(steps: Seq<Step>) -> History
    decreases steps.len(),
{
    if steps.len() == 0 {
        History::empty()
    } else {
        record(
            history_of(steps.drop_last()),
            run(RouterView::initial(), steps.drop_last()),
            steps.last(),
        )
    }
}

/// Whether the packet of a transition bears identifiers without `/`, as
/// every packet does whose identifiers were validated.
pub open spec fn shaped(step: Step) -> bool {
    match step {
        Step::Receive { registry, relayer, packet, verified, callback } => packet.well_shaped(),
        Step::Acknowledgement { registry, relayer, packet, ack, verified } => packet.well_shaped(),
        Step::Timeout { registry, relayer, packet, proof_timestamp, verified } => {
            packet.well_shaped()
        },
        _ => true,
    }
}

/// Whether the state of a router agrees with its history.
///
/// For every port and channel the send counter is a number of at least 1,
/// and the packets sent from there are those numbered from 1 up to, but not
/// including, the counter. A commitment is stored for a packet exactly when
/// the packet was sent and has been neither acknowledged nor voided; and no
/// packet is both.
pub open spec fn sound(state: RouterView, history: History) -> bool {
    &&& forall|port: Seq<char>, channel: Seq<char>|
        no_slash(port) && no_slash(channel) ==> (#[trigger] next_sequence_send(
            state.store,
            port,
            channel,
        )) is Some && next_sequence_send(state.store, port, channel)->0 >= 1
    &&& forall|port: Seq<char>, channel: Seq<char>, sequence: u64|
        no_slash(port) && no_slash(channel) ==> (#[trigger] history.sent.contains(
            (port, channel, sequence),
        ) <==> 1 <= sequence < next_sequence_send(state.store, port, channel)->0)
    &&& forall|packet: Sent| #[trigger]
        history.sent.contains(packet) ==> no_slash(packet.0) && no_slash(packet.1)
    &&& forall|packet: Sent| #[trigger]
        history.acknowledged.contains(packet) ==> history.sent.contains(packet)
    &&& forall|packet: Sent| #[trigger]
        history.timed_out.contains(packet) ==> history.sent.contains(packet)
    &&& forall|packet: Sent| #[trigger]
        history.sent.contains(packet) ==> fate(state, history, packet)
    &&& forall|port: Seq<char>, channel: Seq<char>, sequence: u64|
        no_slash(port) && no_slash(channel) && state.store.contains_key(
            #[trigger] commitment_key(port, channel, sequence),
        ) ==> history.sent.contains((port, channel, sequence))
}

/// What holds of a packet that was sent: either its commitment is stored and
/// it was neither acknowledged nor voided, or its commitment is gone and it
/// was either acknowledged or voided, not both.
pub open spec fn fate(state: RouterView, history: History, packet: Sent) -> bool {
    let present = state.store.contains_key(commitment_key(packet.0, packet.1, packet.2));
    let acknowledged = history.acknowledged.contains(packet);
    let timed_out = history.timed_out.contains(packet);
    (present && !acknowledged && !timed_out) || (!present && (acknowledged != timed_out))
}

/// A key other than that of a counter leaves the counter as it is.
proof fn lemma_counter_untouched(
    store: Map<Seq<u8>, Seq<u8>>,
    changed: Map<Seq<u8>, Seq<u8>>,
    port: Seq<char>,
    channel: Seq<char>,
)
    requires
        store.contains_key(next_sequence_send_key(port, channel)) == changed.contains_key(
            next_sequence_send_key(port, channel),
        ),
        store.contains_key(next_sequence_send_key(port, channel)) ==> store[next_sequence_send_key(
            port,
            channel,
        )] == changed[next_sequence_send_key(port, channel)],
    ensures
        next_sequence_send(store, port, channel) == next_sequence_send(changed, port, channel),
{
}

/// The router that has done nothing agrees with the empty history.
pub proof fn law_sound_at_start()
    ensures
        sound(RouterView::initial(), History::empty()),
{
}

/// Sending keeps state and history in agreement.
proof fn lemma_send_sound(
    pre: RouterView,
    history: History,
    registry: RegistryView,
    now: u64,
    sender: Seq<char>,
    msg: SendPacketMsgView,
)
    requires
        sound(pre, history),
        pre.send_packet(registry, now, sender, msg) is Ok,
    ensures
        sound(
            after(pre, Step::SendPacket { registry, now, sender, msg }),
            record(history, pre, Step::SendPacket { registry, now, sender, msg }),
        ),
{
    let step = Step::SendPacket { registry, now, sender, msg };
    let post = after(pre, step);
    let later = record(history, pre, step);
    let p = msg.source_port;
    let c = msg.source_channel;
    lemma_identifier_no_slash(p, 2, 128);
    lemma_identifier_no_slash(c, 9, 64);
    let n = next_sequence_send(pre.store, p, c)->0;
    let counter = next_sequence_send_key(p, c);
    let key = commitment_key(p, c, n);
    assert(next_sequence_send(pre.store, p, c) is Some);
    assert(post.store == pre.store.insert(counter, be64((n + 1) as u64)).insert(key, post.store[key]));
    assert(later.sent == history.sent.insert((p, c, n)));
    lemma_keys_of_different_kinds(p, c, n, p, c, n);
    lemma_be64_roundtrip((n + 1) as u64);
    assert(next_sequence_send(post.store, p, c) == Some((n + 1) as u64));
    assert forall|port: Seq<char>, channel: Seq<char>| no_slash(port) && no_slash(channel)
        && !(port == p && channel == c) implies #[trigger] next_sequence_send(
        post.store,
        port,
        channel,
    ) == next_sequence_send(pre.store, port, channel) by {
        if next_sequence_send_key(port, channel) == counter {
            lemma_next_sequence_send_key_injective(port, channel, p, c);
        }
        lemma_keys_of_different_kinds(p, c, n, port, channel, n);
        lemma_counter_untouched(pre.store, post.store, port, channel);
    }
    assert forall|port: Seq<char>, channel: Seq<char>|
        no_slash(port) && no_slash(channel) implies (#[trigger] next_sequence_send(
        post.store,
        port,
        channel,
    )) is Some && next_sequence_send(post.store, port, channel)->0 >= 1 by {
        if !(port == p && channel == c) {
            assert(next_sequence_send(pre.store, port, channel) is Some);
        }
    }
    assert forall|port: Seq<char>, channel: Seq<char>, sequence: u64|
        no_slash(port) && no_slash(channel) implies (#[trigger] later.sent.contains(
        (port, channel, sequence),
    ) <==> 1 <= sequence < next_sequence_send(post.store, port, channel)->0) by {
        assert(history.sent.contains((port, channel, sequence)) <==> 1 <= sequence
            < next_sequence_send(pre.store, port, channel)->0);
        if !(port == p && channel == c) {
            assert(next_sequence_send(post.store, port, channel) == next_sequence_send(
                pre.store,
                port,
                channel,
            ));
        }
    }
    assert(!history.sent.contains((p, c, n)));
    assert forall|packet: Sent| #[trigger] later.sent.contains(packet) implies fate(
        post,
        later,
        packet,
    ) by {
        let k = commitment_key(packet.0, packet.1, packet.2);
        if packet == (p, c, n) {
            assert(!history.acknowledged.contains(packet));
            assert(!history.timed_out.contains(packet));
        } else {
            assert(history.sent.contains(packet));
            assert(fate(pre, history, packet));
            lemma_keys_of_different_kinds(packet.0, packet.1, packet.2, p, c, n);
            if k == key {
                lemma_commitment_key_injective(packet.0, packet.1, packet.2, p, c, n);
            }
        }
    }
    assert forall|port: Seq<char>, channel: Seq<char>, sequence: u64|
        no_slash(port) && no_slash(channel) && post.store.contains_key(
            #[trigger] commitment_key(port, channel, sequence),
        ) implies later.sent.contains((port, channel, sequence)) by {
        lemma_keys_of_different_kinds(port, channel, sequence, p, c, n);
        if commitment_key(port, channel, sequence) == key {
            lemma_commitment_key_injective(port, channel, sequence, p, c, n);
        }
    }
}

/// Storing a receipt or an acknowledgement keeps state and history in
/// agreement.
proof fn lemma_insert_sound(
    pre: RouterView,
    post: RouterView,
    history: History,
    port: Seq<char>,
    channel: Seq<char>,
    sequence: u64,
    receipt: bool,
    value: Seq<u8>,
)
    requires
        sound(pre, history),
        post.store == pre.store.insert(
            if receipt {
                receipt_key(port, channel, sequence)
            } else {
                ack_key(port, channel, sequence)
            },
            value,
        ),
    ensures
        sound(post, history),
{
    assert forall|p: Seq<char>, c: Seq<char>| #[trigger]
        next_sequence_send(post.store, p, c) == next_sequence_send(pre.store, p, c) by {
        lemma_keys_of_different_kinds(port, channel, sequence, p, c, sequence);
        lemma_counter_untouched(pre.store, post.store, p, c);
    }
    assert forall|p: Seq<char>, c: Seq<char>, s: u64|
        post.store.contains_key(#[trigger] commitment_key(p, c, s)) == pre.store.contains_key(
            commitment_key(p, c, s),
        ) by {
        lemma_keys_of_different_kinds(p, c, s, port, channel, sequence);
    }
    assert forall|p: Seq<char>, c: Seq<char>| no_slash(p) && no_slash(c) implies (
    #[trigger] next_sequence_send(post.store, p, c)) is Some && next_sequence_send(
        post.store,
        p,
        c,
    )->0 >= 1 by {
        assert(next_sequence_send(pre.store, p, c) is Some);
    }
    assert forall|p: Seq<char>, c: Seq<char>, s: u64|
        no_slash(p) && no_slash(c) implies (#[trigger] history.sent.contains((p, c, s)) <==> 1 <= s
        < next_sequence_send(post.store, p, c)->0) by {
        assert(next_sequence_send(post.store, p, c) == next_sequence_send(pre.store, p, c));
    }
    assert forall|packet: Sent| #[trigger] history.sent.contains(packet) implies fate(
        post,
        history,
        packet,
    ) by {
        assert(fate(pre, history, packet));
        assert(post.store.contains_key(commitment_key(packet.0, packet.1, packet.2))
            == pre.store.contains_key(commitment_key(packet.0, packet.1, packet.2)));
    }
}

/// Deleting the commitment of a packet that was sent, and recording the
/// packet as acknowledged or as voided, keeps state and history in agreement.
proof fn lemma_delete_sound(
    pre: RouterView,
    post: RouterView,
    history: History,
    later: History,
    packet: PacketView,
    acknowledged: bool,
)
    requires
        sound(pre, history),
        packet.well_shaped(),
        pre.store.contains_key(
            commitment_key(packet.source_port, packet.source_channel, packet.sequence),
        ),
        post.store == pre.store.remove(
            commitment_key(packet.source_port, packet.source_channel, packet.sequence),
        ),
        later.sent == history.sent,
        acknowledged ==> later.acknowledged == history.acknowledged.insert(
            (packet.source_port, packet.source_channel, packet.sequence),
        ) && later.timed_out == history.timed_out,
        !acknowledged ==> later.timed_out == history.timed_out.insert(
            (packet.source_port, packet.source_channel, packet.sequence),
        ) && later.acknowledged == history.acknowledged,
    ensures
        sound(post, later),
{
    let p = packet.source_port;
    let c = packet.source_channel;
    let n = packet.sequence;
    let key = commitment_key(p, c, n);
    lemma_identifier_no_slash(p, 2, 128);
    lemma_identifier_no_slash(c, 9, 64);
    assert(history.sent.contains((p, c, n)));
    assert(fate(pre, history, (p, c, n)));
    assert forall|port: Seq<char>, channel: Seq<char>| #[trigger]
        next_sequence_send(post.store, port, channel) == next_sequence_send(
            pre.store,
            port,
            channel,
        ) by {
        lemma_keys_of_different_kinds(p, c, n, port, channel, n);
        lemma_counter_untouched(pre.store, post.store, port, channel);
    }
    assert forall|port: Seq<char>, channel: Seq<char>|
        no_slash(port) && no_slash(channel) implies (#[trigger] next_sequence_send(
        post.store,
        port,
        channel,
    )) is Some && next_sequence_send(post.store, port, channel)->0 >= 1 by {
        assert(next_sequence_send(pre.store, port, channel) is Some);
    }
    assert forall|port: Seq<char>, channel: Seq<char>, sequence: u64|
        no_slash(port) && no_slash(channel) implies (#[trigger] later.sent.contains(
        (port, channel, sequence),
    ) <==> 1 <= sequence < next_sequence_send(post.store, port, channel)->0) by {
        assert(next_sequence_send(post.store, port, channel) == next_sequence_send(
            pre.store,
            port,
            channel,
        ));
        assert(history.sent.contains((port, channel, sequence)) <==> 1 <= sequence
            < next_sequence_send(pre.store, port, channel)->0);
    }
    assert forall|sent: Sent| #[trigger] later.sent.contains(sent) implies fate(
        post,
        later,
        sent,
    ) by {
        assert(fate(pre, history, sent));
        if sent != (p, c, n) {
            if commitment_key(sent.0, sent.1, sent.2) == key {
                lemma_commitment_key_injective(sent.0, sent.1, sent.2, p, c, n);
            }
        }
    }
    assert forall|port: Seq<char>, channel: Seq<char>, sequence: u64|
        no_slash(port) && no_slash(channel) && post.store.contains_key(
            #[trigger] commitment_key(port, channel, sequence),
        ) implies later.sent.contains((port, channel, sequence)) by {
        assert(pre.store.contains_key(commitment_key(port, channel, sequence)));
    }
}

/// Every transition keeps state and history in agreement.
pub proof fn law_sound_step(pre: RouterView, history: History, step: Step)
    requires
        sound(pre, history),
        shaped(step),
    ensures
        sound(after(pre, step), record(history, pre, step)),
{
    if attempt(pre, step) is Ok {
        match step {
            Step::SendPacket { registry, now, sender, msg } => {
                lemma_send_sound(pre, history, registry, now, sender, msg);
            },
            Step::Receive { registry, relayer, packet, verified, callback } => {
                let received = pre.recv_packet(registry, relayer, packet, verified)->Ok_0.0;
                let written = received.reply(ON_RECV_PACKET, callback->0)->Ok_0.0;
                lemma_insert_sound(
                    pre,
                    received,
                    history,
                    packet.destination_port,
                    packet.destination_channel,
                    packet.sequence,
                    true,
                    receipt_value(),
                );
                lemma_insert_sound(
                    received,
                    written,
                    history,
                    packet.destination_port,
                    packet.destination_channel,
                    packet.sequence,
                    false,
                    ack_commitment(callback->0->0),
                );
            },
            Step::Acknowledgement { registry, relayer, packet, ack, verified } => {
                lemma_delete_sound(
                    pre,
                    after(pre, step),
                    history,
                    record(history, pre, step),
                    packet,
                    true,
                );
            },
            Step::Timeout { registry, relayer, packet, proof_timestamp, verified } => {
                lemma_delete_sound(
                    pre,
                    after(pre, step),
                    history,
                    record(history, pre, step),
                    packet,
                    false,
                );
            },
            Step::RegisterIbcApp { admin, sender, port_id, address } => {},
        }
    }
}

/// Whether every transition of `steps` is shaped.
pub open spec fn all_shaped(steps: Seq<Step>) -> bool {
    forall|i: int| 0 <= i < steps.len() ==> shaped(#[trigger] steps[i])
}

/// A router that started from nothing agrees with its history, whatever it
/// has done.
pub proof fn law_sound_always(steps: Seq<Step>)
    requires
        all_shaped(steps),
    ensures
        sound(run(RouterView::initial(), steps), history_of(steps)),
    decreases steps.len(),
{
    if steps.len() == 0 {
        law_sound_at_start();
    } else {
        let init = steps.drop_last();
        assert forall|i: int| 0 <= i < init.len() implies shaped(#[trigger] init[i]) by {
            assert(init[i] == steps[i]);
        }
        law_sound_always(init);
        assert(shaped(steps[steps.len() - 1]));
        law_sound_step(run(RouterView::initial(), init), history_of(init), steps.last());
    }
}

/// The numbers of the packets that were sent from `port` on `channel`.
pub open spec fn sequences_sent(history: History, port: Seq<char>, channel: Seq<char>) -> Set<int> {
    Set::new(
        |sequence: int|
            0 <= sequence <= u64::MAX && history.sent.contains((port, channel, sequence as u64)),
    )
}

/// The send counter of a channel is one more than the number of packets that
/// were sent on it: after any transitions from the start, for every port and
/// channel, the counter is a number, the packets sent from there are those
/// numbered from 1 up to the counter, and the counter is 1 plus their number.
pub proof fn law_send_counter_counts(steps: Seq<Step>, port: Seq<char>, channel: Seq<char>)
    requires
        all_shaped(steps),
        no_slash(port),
        no_slash(channel),
    ensures
        ({
            let state = run(RouterView::initial(), steps);
            let history = history_of(steps);
            let next = next_sequence_send(state.store, port, channel);
            &&& next is Some
            &&& sequences_sent(history, port, channel) == set_int_range(1, next->0 as int)
            &&& sequences_sent(history, port, channel).finite()
            &&& next->0 == 1 + sequences_sent(history, port, channel).len()
        }),
{
    law_sound_always(steps);
    let state = run(RouterView::initial(), steps);
    let history = history_of(steps);
    let next = next_sequence_send(state.store, port, channel);
    assert(next is Some && next->0 >= 1);
    assert forall|sequence: int|
        sequences_sent(history, port, channel).contains(sequence) == set_int_range(
            1,
            next->0 as int,
        ).contains(sequence) by {
        if 0 <= sequence <= u64::MAX {
            let number = sequence as u64;
            assert(history.sent.contains((port, channel, number)) <==> 1 <= number < next->0);
        }
    }
    assert(sequences_sent(history, port, channel) =~= set_int_range(1, next->0 as int));
    lemma_int_range(1, next->0 as int);
}

/// Whether the transition `step`, taken in the state `pre`, sends a packet
/// from `port` on `channel`.
pub open spec fn sends_on(pre: RouterView, step: Step, port: Seq<char>, channel: Seq<char>) -> bool {
    match step {
        Step::SendPacket { registry, now, sender, msg } => {
            attempt(pre, step) is Ok && msg.source_port == port && msg.source_channel == channel
        },
        _ => false,
    }
}

/// The send counter of a channel never goes back, and it goes on by one
/// exactly when a packet is sent on the channel: across every transition the
/// counter stays, unless the transition sends a packet from `port` on
/// `channel`, in which case the packet gets the number of the counter and the
/// counter grows by one.
pub proof fn law_send_counter_monotonic(
    pre: RouterView,
    history: History,
    step: Step,
    port: Seq<char>,
    channel: Seq<char>,
)
    requires
        sound(pre, history),
        shaped(step),
        no_slash(port),
        no_slash(channel),
    ensures
        ({
            let before = next_sequence_send(pre.store, port, channel);
            let after = next_sequence_send(after(pre, step).store, port, channel);
            let sends_here = sends_on(pre, step, port, channel);
            &&& before is Some
            &&& after is Some
            &&& sends_here ==> after->0 == before->0 + 1
            &&& !sends_here ==> after->0 == before->0
        }),
{
    law_sound_step(pre, history, step);
    let post = after(pre, step);
    assert(next_sequence_send(pre.store, port, channel) is Some);
    assert(next_sequence_send(post.store, port, channel) is Some);
    if attempt(pre, step) is Ok {
        match step {
            Step::SendPacket { registry, now, sender, msg } => {
                let p = msg.source_port;
                let c = msg.source_channel;
                let n = next_sequence_send(pre.store, p, c)->0;
                lemma_identifier_no_slash(p, 2, 128);
                lemma_keys_of_different_kinds(p, c, n, port, channel, n);
                lemma_keys_of_different_kinds(p, c, n, p, c, n);
                if port == p && channel == c {
                    lemma_be64_roundtrip((n + 1) as u64);
                } else {
                    if next_sequence_send_key(port, channel) == next_sequence_send_key(p, c) {
                        lemma_next_sequence_send_key_injective(port, channel, p, c);
                    }
                    lemma_counter_untouched(pre.store, post.store, port, channel);
                }
            },
            Step::Receive { registry, relayer, packet, verified, callback } => {
                lemma_keys_of_different_kinds(
                    packet.destination_port,
                    packet.destination_channel,
                    packet.sequence,
                    port,
                    channel,
                    packet.sequence,
                );
                lemma_counter_untouched(pre.store, post.store, port, channel);
            },
            Step::Acknowledgement { registry, relayer, packet, ack, verified } => {
                lemma_keys_of_different_kinds(
                    packet.source_port,
                    packet.source_channel,
                    packet.sequence,
                    port,
                    channel,
                    packet.sequence,
                );
                lemma_counter_untouched(pre.store, post.store, port, channel);
            },
            Step::Timeout { registry, relayer, packet, proof_timestamp, verified } => {
                lemma_keys_of_different_kinds(
                    packet.source_port,
                    packet.source_channel,
                    packet.sequence,
                    port,
                    channel,
                    packet.sequence,
                );
                lemma_counter_untouched(pre.store, post.store, port, channel);
            },
            Step::RegisterIbcApp { admin, sender, port_id, address } => {},
        }
    }
}

/// A packet that was sent is in exactly one of two conditions at every
/// moment: its commitment is stored, and then it was neither acknowledged nor
/// voided; or its commitment is gone, and then it was either acknowledged or
/// voided, and not both.
pub proof fn law_fate_of_sent_packet(steps: Seq<Step>, packet: Sent)
    requires
        all_shaped(steps),
        history_of(steps).sent.contains(packet),
    ensures
        fate(run(RouterView::initial(), steps), history_of(steps), packet),
{
    law_sound_always(steps);
}

/// The packet that the router builds for the request `msg` to send.
pub open spec fn packet_to_send(
    pre: RouterView,
    registry: RegistryView,
    msg: SendPacketMsgView,
) -> PacketView {
    PacketView {
        sequence: next_sequence_send(pre.store, msg.source_port, msg.source_channel)->0,
        source_port: msg.source_port,
        source_channel: msg.source_channel,
        destination_port: msg.dest_port,
        destination_channel: match msg.dest_channel {
            Some(channel) => channel,
            None => registry.counterparty(msg.source_channel)->Ok_0.client_id,
        },
        data: msg.data,
        timeout: msg.timeout,
    }
}

/// Whether the counterparty of `channel` has a merkle prefix under which a
/// path can be put: none, or one with an element.
pub open spec fn prefix_usable(registry: RegistryView, channel: Seq<char>) -> bool {
    registry.counterparty(channel) matches Ok(counterparty) && (
    counterparty.merkle_path_prefix matches Some(prefix) ==> prefix.len() > 0)
}

/// What sending a packet brings about: the packet is committed under its
/// commitment key, with its commitment, and the application is called back
/// with the packet that was committed.
pub proof fn law_send_commits(
    pre: RouterView,
    registry: RegistryView,
    now: u64,
    sender: Seq<char>,
    msg: SendPacketMsgView,
)
    requires
        pre.send_packet(registry, now, sender, msg) is Ok,
    ensures
        ({
            let outcome = pre.send_packet(registry, now, sender, msg)->Ok_0;
            let packet = packet_to_send(pre, registry, msg);
            let key = commitment_key(packet.source_port, packet.source_channel, packet.sequence);
            &&& packet.well_shaped()
            &&& packet.timeout.timestamp is Some
            &&& !pre.store.contains_key(key)
            &&& outcome.0.store.contains_key(key)
            &&& outcome.0.store[key] == packet.commitment()
            &&& outcome.0.apps == pre.apps
            &&& outcome.0.in_flight == pre.in_flight
            &&& outcome.1.messages.len() == 1
            &&& outcome.1.messages[0].msg == (crate::callbacks::CallbackView::OnSendPacket {
                packet,
                version: msg.version,
                sender,
            })
        }),
{
}

/// A packet that is sent, received and acknowledged leaves no commitment on
/// the chain that sent it, and a receipt and an acknowledgement on the chain
/// that received it; and it is not acknowledged twice.
///
/// The router `source` sends the packet. The router `destination` receives
/// it and its application answers `ack`. Then `source` takes the
/// acknowledgement, provided that the light client accepts its proof: the
/// commitment is deleted. On the destination the receipt and the commitment
/// of the acknowledgement are stored. A further acknowledgement of the packet
/// on the source fails, whatever it carries and whatever the light client
/// says.
pub proof fn law_send_receive_acknowledge(
    source: RouterView,
    source_registry: RegistryView,
    now: u64,
    sender: Seq<char>,
    msg: SendPacketMsgView,
    destination: RouterView,
    destination_registry: RegistryView,
    relayer: Seq<char>,
    ack: Seq<u8>,
    again: Seq<u8>,
    verified_again: bool,
)
    requires
        source.send_packet(source_registry, now, sender, msg) is Ok,
        prefix_usable(source_registry, msg.source_channel),
        destination.receive(
            destination_registry,
            relayer,
            packet_to_send(source, source_registry, msg),
            true,
            Some(Some(ack)),
        ) is Ok,
    ensures
        ({
            let packet = packet_to_send(source, source_registry, msg);
            let sent = source.send_packet(source_registry, now, sender, msg)->Ok_0.0;
            let received = destination.receive(
                destination_registry,
                relayer,
                packet,
                true,
                Some(Some(ack)),
            )->Ok_0;
            let commitment = commitment_key(
                packet.source_port,
                packet.source_channel,
                packet.sequence,
            );
            let receipt = receipt_key(
                packet.destination_port,
                packet.destination_channel,
                packet.sequence,
            );
            let acknowledgement = ack_key(
                packet.destination_port,
                packet.destination_channel,
                packet.sequence,
            );
            &&& sent.store.contains_key(commitment)
            &&& received.store.contains_key(receipt)
            &&& received.store[receipt] == receipt_value()
            &&& received.store.contains_key(acknowledgement)
            &&& received.store[acknowledgement] == ack_commitment(ack)
            &&& received.in_flight == destination.in_flight
            &&& sent.acknowledgement(source_registry, relayer, packet, ack, true) is Ok
            &&& !sent.acknowledgement(
                source_registry,
                relayer,
                packet,
                ack,
                true,
            )->Ok_0.0.store.contains_key(commitment)
            &&& sent.acknowledgement(
                source_registry,
                relayer,
                packet,
                ack,
                true,
            )->Ok_0.0.acknowledgement(source_registry, relayer, packet, again, verified_again)
                is Err
        }),
{
    let packet = packet_to_send(source, source_registry, msg);
    law_send_commits(source, source_registry, now, sender, msg);
    lemma_keys_of_different_kinds(
        packet.destination_port,
        packet.destination_channel,
        packet.sequence,
        packet.destination_port,
        packet.destination_channel,
        packet.sequence,
    );
    let sent = source.send_packet(source_registry, now, sender, msg)->Ok_0.0;
    assert(sent.returning(source_registry, packet) is Ok);
    assert(sent.committed(packet) is Ok);
}

/// A packet that is sent and not received in time is voided, which leaves no
/// commitment on the chain that sent it; and it is voided only on a proof
/// that the receiving chain holds no receipt of it.
///
/// The router `source` sends the packet. To void it, the router asks the
/// light client for the time of the counterparty at the proof height and for
/// a proof that nothing is stored there under the receipt path of the packet.
/// Where that time is at or after the timeout of the packet and the light
/// client accepts the proof, the commitment is deleted. Where the time is
/// before the timeout, or the light client rejects the proof, the packet is
/// not voided.
pub proof fn law_send_timeout(
    source: RouterView,
    source_registry: RegistryView,
    now: u64,
    sender: Seq<char>,
    msg: SendPacketMsgView,
    relayer: Seq<char>,
    proof_timestamp: u64,
    proof: Seq<u8>,
    height: crate::ibc::Height,
)
    requires
        source.send_packet(source_registry, now, sender, msg) is Ok,
        prefix_usable(source_registry, msg.source_channel),
    ensures
        ({
            let packet = packet_to_send(source, source_registry, msg);
            let sent = source.send_packet(source_registry, now, sender, msg)->Ok_0.0;
            let commitment = commitment_key(
                packet.source_port,
                packet.source_channel,
                packet.sequence,
            );
            let receipt_path = crate::paths::prefixed_merkle_path(
                source_registry.counterparty(msg.source_channel)->Ok_0.merkle_path_prefix,
                crate::paths::receipt_path(
                    packet.destination_port,
                    packet.destination_channel,
                    packet.sequence,
                ),
            );
            &&& receipt_path is Ok
            &&& sent.timeout_queries(source_registry, packet, proof, height) matches Ok(questions)
            &&& questions.1 == seq![
                crate::clients::QueryView::TimestampAtHeight { height },
                crate::router::model::non_membership_query(proof, receipt_path->Ok_0, height),
            ]
            &&& proof_timestamp >= packet.timeout.timestamp->0 ==> {
                &&& sent.timeout(source_registry, relayer, packet, Some(proof_timestamp), true)
                    is Ok
                &&& !sent.timeout(
                    source_registry,
                    relayer,
                    packet,
                    Some(proof_timestamp),
                    true,
                )->Ok_0.0.store.contains_key(commitment)
                &&& sent.timeout(source_registry, relayer, packet, Some(proof_timestamp), false)
                    == Err::<(RouterView, ResponseView), ErrorView>(ErrorView::VerificationFailed)
            }
            &&& proof_timestamp < packet.timeout.timestamp->0 ==> sent.timeout(
                source_registry,
                relayer,
                packet,
                Some(proof_timestamp),
                true,
            ) is Err
            &&& sent.timeout(source_registry, relayer, packet, None, true) is Err
        }),
{
    let packet = packet_to_send(source, source_registry, msg);
    law_send_commits(source, source_registry, now, sender, msg);
    let sent = source.send_packet(source_registry, now, sender, msg)->Ok_0.0;
    assert(sent.returning(source_registry, packet) is Ok);
    assert(sent.committed(packet) is Ok);
}

} // verus!
