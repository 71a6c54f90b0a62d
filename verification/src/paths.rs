//! The standardised paths under which provable state is stored, and the
//! merkle paths under which a counterparty proves it.
//!
//! A path is a string of the form
//! `<kind>/ports/<port>/channels/<channel>/sequences/<sequence>`; the key of
//! the stored value is the path in UTF-8. Since identifiers never hold `/`,
//! two paths are equal only if they agree on port, channel and sequence, and
//! paths of different kinds are never equal. The module proves both.

use crate::encoding::{decimal, decimal_string, lemma_decimal_digits, lemma_decimal_injective};
use crate::error::{ContractError, ErrorView};
use crate::identifiers::{identifier_shape, is_client_id, is_port_id, ChannelId, PortId, Sequence};
use vstd::prelude::*;
use vstd::utf8::{encode_utf8, encode_utf8_decode_utf8};

verus! {

/// The path of kind `kind` for `port`, `channel` and `sequence`.
pub open spec fn packet_path(
    kind: Seq<char>,
    port: Seq<char>,
    channel: Seq<char>,
    sequence: u64,
) -> Seq<char> {
    kind + "/ports/"@ + port + "/channels/"@ + channel + "/sequences/"@ + decimal(sequence as nat)
}

/// The path of the commitment of a packet sent from `port` on `channel`.
pub open spec fn commitment_path(port: Seq<char>, channel: Seq<char>, sequence: u64) -> Seq<char> {
    packet_path("commitments"@, port, channel, sequence)
}

/// The path of the acknowledgement of a packet received at `port` on `channel`.
pub open spec fn ack_path(port: Seq<char>, channel: Seq<char>, sequence: u64) -> Seq<char> {
    packet_path("acks"@, port, channel, sequence)
}

/// The path of the receipt of a packet received at `port` on `channel`.
pub open spec fn receipt_path(port: Seq<char>, channel: Seq<char>, sequence: u64) -> Seq<char> {
    packet_path("receipts"@, port, channel, sequence)
}

/// The path of the counter that numbers the packets sent from `port` on
/// `channel`.
pub open spec fn next_sequence_send_path(port: Seq<char>, channel: Seq<char>) -> Seq<char> {
    "nextSequenceSend"@ + "/ports/"@ + port + "/channels/"@ + channel
}

/// The key under which the commitment of a packet is stored.
pub open spec fn commitment_key(port: Seq<char>, channel: Seq<char>, sequence: u64) -> Seq<u8> {
    encode_utf8(commitment_path(port, channel, sequence))
}

/// The key under which the acknowledgement of a packet is stored.
pub open spec fn ack_key(port: Seq<char>, channel: Seq<char>, sequence: u64) -> Seq<u8> {
    encode_utf8(ack_path(port, channel, sequence))
}

/// The key under which the receipt of a packet is stored.
pub open spec fn receipt_key(port: Seq<char>, channel: Seq<char>, sequence: u64) -> Seq<u8> {
    encode_utf8(receipt_path(port, channel, sequence))
}

/// The key under which the send counter of a channel is stored.
pub open spec fn next_sequence_send_key(port: Seq<char>, channel: Seq<char>) -> Seq<u8> {
    encode_utf8(next_sequence_send_path(port, channel))
}

/// Whether `s` holds no `/`.
pub open spec fn no_slash(s: Seq<char>) -> bool {
    forall|i: int| 0 <= i < s.len() ==> #[trigger] s[i] != '/'
}

/// A string of the shape of an identifier holds no `/`.
pub proof fn lemma_identifier_no_slash(id: Seq<char>, min: nat, max: nat)
    requires
        identifier_shape(id, min, max),
    ensures
        no_slash(id),
{
    assert forall|i: int| 0 <= i < id.len() implies #[trigger] id[i] != '/' by {
        if id[i] == '/' {
            assert(is_identifier_ascii_at(id, i));
        }
    }
}

/// Whether the character of `id` at `i` may stand in an identifier.
spec fn is_identifier_ascii_at(id: Seq<char>, i: int) -> bool {
    crate::identifiers::is_identifier_ascii(id[i])
}

/// What follows a common beginning is the same in two equal strings.
pub proof fn lemma_cancel_prefix(a: Seq<char>, x: Seq<char>, y: Seq<char>)
    requires
        a + x == a + y,
    ensures
        x == y,
{
    assert((a + x).len() == a.len() + x.len());
    assert((a + y).len() == a.len() + y.len());
    assert(x.len() == y.len());
    assert forall|i: int| 0 <= i < x.len() implies x[i] == y[i] by {
        assert((a + x)[a.len() + i] == x[i]);
        assert((a + y)[a.len() + i] == y[i]);
    }
    assert(x =~= y);
}

/// A string splits at its first `/` in one way only: if `a1` and `a2` hold no
/// `/` and `b1` and `b2` begin with one, then `a1 + b1 == a2 + b2` forces
/// `a1 == a2` and `b1 == b2`.
pub proof fn lemma_split_at_slash(a1: Seq<char>, b1: Seq<char>, a2: Seq<char>, b2: Seq<char>)
    requires
        a1 + b1 == a2 + b2,
        no_slash(a1),
        no_slash(a2),
        b1.len() > 0 && b1[0] == '/',
        b2.len() > 0 && b2[0] == '/',
    ensures
        a1 == a2,
        b1 == b2,
{
    let s = a1 + b1;
    let t = a2 + b2;
    if a1.len() < a2.len() {
        assert(s[a1.len() as int] == b1[0]);
        assert(t[a1.len() as int] == a2[a1.len() as int]);
        assert(false);
    }
    if a2.len() < a1.len() {
        assert(t[a2.len() as int] == b2[0]);
        assert(s[a2.len() as int] == a1[a2.len() as int]);
        assert(false);
    }
    assert forall|i: int| 0 <= i < a1.len() implies a1[i] == a2[i] by {
        assert(s[i] == a1[i]);
        assert(t[i] == a2[i]);
    }
    assert(a1 =~= a2);
    lemma_cancel_prefix(a1, b1, b2);
}

/// Two paths of one kind are equal only if they name the same port, the same
/// channel and the same sequence.
pub proof fn lemma_packet_path_injective(
    kind: Seq<char>,
    port1: Seq<char>,
    channel1: Seq<char>,
    sequence1: u64,
    port2: Seq<char>,
    channel2: Seq<char>,
    sequence2: u64,
)
    requires
        no_slash(port1),
        no_slash(channel1),
        no_slash(port2),
        no_slash(channel2),
        packet_path(kind, port1, channel1, sequence1) == packet_path(
            kind,
            port2,
            channel2,
            sequence2,
        ),
    ensures
        port1 == port2,
        channel1 == channel2,
        sequence1 == sequence2,
{
    reveal_strlit("/ports/");
    reveal_strlit("/channels/");
    reveal_strlit("/sequences/");
    let head = kind + "/ports/"@;
    let d1 = decimal(sequence1 as nat);
    let d2 = decimal(sequence2 as nat);
    let tail1 = "/sequences/"@ + d1;
    let tail2 = "/sequences/"@ + d2;
    let mid1 = "/channels/"@ + (channel1 + tail1);
    let mid2 = "/channels/"@ + (channel2 + tail2);
    assert(packet_path(kind, port1, channel1, sequence1) =~= head + (port1 + mid1));
    assert(packet_path(kind, port2, channel2, sequence2) =~= head + (port2 + mid2));
    lemma_cancel_prefix(head, port1 + mid1, port2 + mid2);
    lemma_split_at_slash(port1, mid1, port2, mid2);
    lemma_cancel_prefix("/channels/"@, channel1 + tail1, channel2 + tail2);
    lemma_split_at_slash(channel1, tail1, channel2, tail2);
    lemma_cancel_prefix("/sequences/"@, d1, d2);
    lemma_decimal_injective(sequence1 as nat, sequence2 as nat);
}

/// Two counter paths are equal only if they name the same port and the same
/// channel.
pub proof fn lemma_next_sequence_send_path_injective(
    port1: Seq<char>,
    channel1: Seq<char>,
    port2: Seq<char>,
    channel2: Seq<char>,
)
    requires
        no_slash(port1),
        no_slash(port2),
        next_sequence_send_path(port1, channel1) == next_sequence_send_path(port2, channel2),
    ensures
        port1 == port2,
        channel1 == channel2,
{
    reveal_strlit("/ports/");
    reveal_strlit("/channels/");
    let head = "nextSequenceSend"@ + "/ports/"@;
    let mid1 = "/channels/"@ + channel1;
    let mid2 = "/channels/"@ + channel2;
    assert(next_sequence_send_path(port1, channel1) =~= head + (port1 + mid1));
    assert(next_sequence_send_path(port2, channel2) =~= head + (port2 + mid2));
    lemma_cancel_prefix(head, port1 + mid1, port2 + mid2);
    lemma_split_at_slash(port1, mid1, port2, mid2);
    lemma_cancel_prefix("/channels/"@, channel1, channel2);
}

/// Two strings with the same UTF-8 encoding are the same string.
pub proof fn lemma_utf8_injective(a: Seq<char>, b: Seq<char>)
    requires
        encode_utf8(a) == encode_utf8(b),
    ensures
        a == b,
{
    encode_utf8_decode_utf8(a);
    encode_utf8_decode_utf8(b);
}

/// The first character of each kind of path: `c`, `a`, `r` and `n`.
pub proof fn lemma_path_first_char(port: Seq<char>, channel: Seq<char>, sequence: u64)
    ensures
        commitment_path(port, channel, sequence).len() > 0,
        commitment_path(port, channel, sequence)[0] == 'c',
        ack_path(port, channel, sequence).len() > 0,
        ack_path(port, channel, sequence)[0] == 'a',
        receipt_path(port, channel, sequence).len() > 0,
        receipt_path(port, channel, sequence)[0] == 'r',
        next_sequence_send_path(port, channel).len() > 0,
        next_sequence_send_path(port, channel)[0] == 'n',
{
    reveal_strlit("commitments");
    reveal_strlit("acks");
    reveal_strlit("receipts");
    reveal_strlit("nextSequenceSend");
}

/// Keys of different kinds are different keys, whatever they name.
pub proof fn lemma_keys_of_different_kinds(
    port1: Seq<char>,
    channel1: Seq<char>,
    sequence1: u64,
    port2: Seq<char>,
    channel2: Seq<char>,
    sequence2: u64,
)
    ensures
        commitment_key(port1, channel1, sequence1) != ack_key(port2, channel2, sequence2),
        commitment_key(port1, channel1, sequence1) != receipt_key(port2, channel2, sequence2),
        commitment_key(port1, channel1, sequence1) != next_sequence_send_key(port2, channel2),
        ack_key(port1, channel1, sequence1) != receipt_key(port2, channel2, sequence2),
        ack_key(port1, channel1, sequence1) != next_sequence_send_key(port2, channel2),
        receipt_key(port1, channel1, sequence1) != next_sequence_send_key(port2, channel2),
{
    lemma_path_first_char(port1, channel1, sequence1);
    lemma_path_first_char(port2, channel2, sequence2);
    let c = commitment_path(port1, channel1, sequence1);
    let a1 = ack_path(port1, channel1, sequence1);
    let a2 = ack_path(port2, channel2, sequence2);
    let r1 = receipt_path(port1, channel1, sequence1);
    let r2 = receipt_path(port2, channel2, sequence2);
    let n = next_sequence_send_path(port2, channel2);
    if encode_utf8(c) == encode_utf8(a2) {
        lemma_utf8_injective(c, a2);
    }
    if encode_utf8(c) == encode_utf8(r2) {
        lemma_utf8_injective(c, r2);
    }
    if encode_utf8(c) == encode_utf8(n) {
        lemma_utf8_injective(c, n);
    }
    if encode_utf8(a1) == encode_utf8(r2) {
        lemma_utf8_injective(a1, r2);
    }
    if encode_utf8(a1) == encode_utf8(n) {
        lemma_utf8_injective(a1, n);
    }
    if encode_utf8(r1) == encode_utf8(n) {
        lemma_utf8_injective(r1, n);
    }
}

/// Two commitment keys are equal only if they name the same port, the same
/// channel and the same sequence.
pub proof fn lemma_commitment_key_injective(
    port1: Seq<char>,
    channel1: Seq<char>,
    sequence1: u64,
    port2: Seq<char>,
    channel2: Seq<char>,
    sequence2: u64,
)
    requires
        no_slash(port1),
        no_slash(channel1),
        no_slash(port2),
        no_slash(channel2),
        commitment_key(port1, channel1, sequence1) == commitment_key(port2, channel2, sequence2),
    ensures
        port1 == port2,
        channel1 == channel2,
        sequence1 == sequence2,
{
    lemma_utf8_injective(
        commitment_path(port1, channel1, sequence1),
        commitment_path(port2, channel2, sequence2),
    );
    lemma_packet_path_injective(
        "commitments"@,
        port1,
        channel1,
        sequence1,
        port2,
        channel2,
        sequence2,
    );
}

/// Two counter keys are equal only if they name the same port and the same
/// channel.
pub proof fn lemma_next_sequence_send_key_injective(
    port1: Seq<char>,
    channel1: Seq<char>,
    port2: Seq<char>,
    channel2: Seq<char>,
)
    requires
        no_slash(port1),
        no_slash(port2),
        next_sequence_send_key(port1, channel1) == next_sequence_send_key(port2, channel2),
    ensures
        port1 == port2,
        channel1 == channel2,
{
    lemma_utf8_injective(
        next_sequence_send_path(port1, channel1),
        next_sequence_send_path(port2, channel2),
    );
    lemma_next_sequence_send_path_injective(port1, channel1, port2, channel2);
}

/// Renders the path of kind `kind` for `port`, `channel` and `sequence`.
pub fn render_packet_path(kind: &str, port: &str, channel: &str, sequence: u64) -> (path: String)
    ensures
        path@ == packet_path(kind@, port@, channel@, sequence),
{
    let mut path = kind.to_owned();
    path.append("/ports/");
    path.append(port);
    path.append("/channels/");
    path.append(channel);
    path.append("/sequences/");
    let digits = decimal_string(sequence);
    path.append(digits.as_str());
    path
}

/// Renders the path of the send counter of `channel` at `port`.
pub fn render_next_sequence_send_path(port: &str, channel: &str) -> (path: String)
    ensures
        path@ == next_sequence_send_path(port@, channel@),
{
    let mut path = "nextSequenceSend".to_owned();
    path.append("/ports/");
    path.append(port);
    path.append("/channels/");
    path.append(channel);
    path
}

/// The path under which the commitment of a sent packet is stored.
#[derive(Debug, PartialEq, Eq)]
pub struct PacketCommitmentPath {
    /// The port that the packet was sent from.
    pub port_id: PortId,
    /// The channel that the packet was sent on.
    pub channel_id: ChannelId,
    /// The number of the packet.
    pub sequence: Sequence,
}

/// The path under which the acknowledgement of a received packet is stored.
#[derive(Debug, PartialEq, Eq)]
pub struct PacketAcknowledgementPath {
    /// The port that the packet was received at.
    pub port_id: PortId,
    /// The channel that the packet was received on.
    pub channel_id: ChannelId,
    /// The number of the packet.
    pub sequence: Sequence,
}

/// The path under which the receipt of a received packet is stored.
#[derive(Debug, PartialEq, Eq)]
pub struct PacketReceiptPath {
    /// The port that the packet was received at.
    pub port_id: PortId,
    /// The channel that the packet was received on.
    pub channel_id: ChannelId,
    /// The number of the packet.
    pub sequence: Sequence,
}

/// A path into the provable store of a chain, from the root of the store to
/// the leaf.
#[derive(Debug, PartialEq, Eq)]
pub struct MerklePath {
    /// The elements of the path, root first.
    pub key_path: Vec<String>,
}

impl View for MerklePath {
    type V = Seq<Seq<char>>;

    open spec fn view(&self) -> Seq<Seq<char>> {
        Seq::new(self.key_path@.len(), |i: int| self.key_path@[i]@)
    }
}

impl Clone for MerklePath {
    fn clone(&self) -> (copy: Self)
        ensures
            copy@ == self@,
    {
        let mut key_path: Vec<String> = Vec::with_capacity(self.key_path.len());
        let mut i: usize = 0;
        while i < self.key_path.len()
            invariant
                i <= self.key_path@.len(),
                key_path@.len() == i,
                forall|j: int| 0 <= j < i ==> key_path@[j]@ == self.key_path@[j]@,
            decreases self.key_path@.len() - i,
        {
            key_path.push(self.key_path[i].clone());
            i = i + 1;
        }
        let copy = MerklePath { key_path };
        assert(copy@ =~= self@);
        copy
    }
}

/// The merkle path of `path` below `prefix`: the prefix with `path` appended
/// to its last element. Without a prefix the path stands alone; a prefix
/// without elements is an error.
pub open spec fn prefixed_merkle_path(prefix: Option<Seq<Seq<char>>>, path: Seq<char>) -> Result<
    Seq<Seq<char>>,
    ErrorView,
> {
    let elements = match prefix {
        Some(elements) => elements,
        None => seq![Seq::<char>::empty()],
    };
    if elements.len() == 0 {
        Err(ErrorView::EmptyMerklePrefix)
    } else {
        Ok(elements.update(elements.len() - 1, elements.last() + path))
    }
}

/// Appends `path` to the last element of `prefix`.
fn prefix_path(prefix: Option<MerklePath>, path: String) -> (r: Result<MerklePath, ContractError>)
    ensures
        match prefixed_merkle_path(
            match prefix {
                Some(p) => Some(p@),
                None => None,
            },
            path@,
        ) {
            Ok(elements) => r is Ok && r->Ok_0@ == elements,
            Err(e) => r is Err && r->Err_0@ == e,
        },
{
    let mut key_path = match prefix {
        Some(p) => p.key_path,
        None => {
            let mut single: Vec<String> = Vec::new();
            single.push(String::new());
            single
        },
    };
    let ghost elements = Seq::new(key_path@.len(), |i: int| key_path@[i]@);
    proof {
        if prefix is None {
            assert(elements =~= seq![Seq::<char>::empty()]);
        }
    }
    match key_path.pop() {
        None => Err(ContractError::EmptyMerklePrefix),
        Some(last) => {
            let joined = last.concat(path.as_str());
            key_path.push(joined);
            let merkle_path = MerklePath { key_path };
            assert(merkle_path@ =~= elements.update(elements.len() - 1, elements.last() + path@));
            Ok(merkle_path)
        },
    }
}

impl PacketCommitmentPath {
    /// The place in a store that the path names.
    pub fn item(&self) -> (item: crate::store::PureItem)
        ensures
            item@ == commitment_key(self.port_id@, self.channel_id@, self.sequence.0),
    {
        crate::store::PureItem::new(self.to_string().as_str())
    }

    /// The path as a string.
    pub fn to_string(&self) -> (path: String)
        ensures
            path@ == commitment_path(self.port_id@, self.channel_id@, self.sequence.0),
    {
        render_packet_path(
            "commitments",
            self.port_id.as_str(),
            self.channel_id.as_str(),
            self.sequence.0,
        )
    }

    /// The merkle path of this path below `prefix`. Without a prefix the path
    /// stands alone; a prefix without elements is refused.
    pub fn to_prefixed_merkle_path(&self, prefix: Option<MerklePath>) -> (r: Result<
        MerklePath,
        ContractError,
    >)
        ensures
            match prefixed_merkle_path(
                match prefix {
                    Some(p) => Some(p@),
                    None => None,
                },
                commitment_path(self.port_id@, self.channel_id@, self.sequence.0),
            ) {
                Ok(elements) => r is Ok && r->Ok_0@ == elements,
                Err(e) => r is Err && r->Err_0@ == e,
            },
    {
        prefix_path(prefix, self.to_string())
    }
}

impl PacketAcknowledgementPath {
    /// The place in a store that the path names.
    pub fn item(&self) -> (item: crate::store::PureItem)
        ensures
            item@ == ack_key(self.port_id@, self.channel_id@, self.sequence.0),
    {
        crate::store::PureItem::new(self.to_string().as_str())
    }

    /// The path as a string.
    pub fn to_string(&self) -> (path: String)
        ensures
            path@ == ack_path(self.port_id@, self.channel_id@, self.sequence.0),
    {
        render_packet_path(
            "acks",
            self.port_id.as_str(),
            self.channel_id.as_str(),
            self.sequence.0,
        )
    }

    /// The merkle path of this path below `prefix`. Without a prefix the path
    /// stands alone; a prefix without elements is refused.
    pub fn to_prefixed_merkle_path(&self, prefix: Option<MerklePath>) -> (r: Result<
        MerklePath,
        ContractError,
    >)
        ensures
            match prefixed_merkle_path(
                match prefix {
                    Some(p) => Some(p@),
                    None => None,
                },
                ack_path(self.port_id@, self.channel_id@, self.sequence.0),
            ) {
                Ok(elements) => r is Ok && r->Ok_0@ == elements,
                Err(e) => r is Err && r->Err_0@ == e,
            },
    {
        prefix_path(prefix, self.to_string())
    }
}

impl PacketReceiptPath {
    /// The place in a store that the path names.
    pub fn item(&self) -> (item: crate::store::PureItem)
        ensures
            item@ == receipt_key(self.port_id@, self.channel_id@, self.sequence.0),
    {
        crate::store::PureItem::new(self.to_string().as_str())
    }

    /// The path as a string.
    pub fn to_string(&self) -> (path: String)
        ensures
            path@ == receipt_path(self.port_id@, self.channel_id@, self.sequence.0),
    {
        render_packet_path(
            "receipts",
            self.port_id.as_str(),
            self.channel_id.as_str(),
            self.sequence.0,
        )
    }

    /// The merkle path of this path below `prefix`. Without a prefix the path
    /// stands alone; a prefix without elements is refused.
    pub fn to_prefixed_merkle_path(&self, prefix: Option<MerklePath>) -> (r: Result<
        MerklePath,
        ContractError,
    >)
        ensures
            match prefixed_merkle_path(
                match prefix {
                    Some(p) => Some(p@),
                    None => None,
                },
                receipt_path(self.port_id@, self.channel_id@, self.sequence.0),
            ) {
                Ok(elements) => r is Ok && r->Ok_0@ == elements,
                Err(e) => r is Err && r->Err_0@ == e,
            },
    {
        prefix_path(prefix, self.to_string())
    }
}

/// The kinds of provable state, in the order of their keys.
pub const PROVABLE_KINDS: [&'static str; 4] = ["acks", "commitments", "nextSequenceSend", "receipts"];

/// The range of keys that holds the provable state of kind `kind`: from the
/// kind followed by `/`, up to but not including the kind followed by `0`,
/// the character after `/`. Every path of the kind lies in the range, and so
/// does only what begins with the kind and `/`.
pub fn provable_range(kind: &str) -> (range: (Vec<u8>, Vec<u8>))
    ensures
        range.0@ == encode_utf8(kind@ + "/"@),
        range.1@ == encode_utf8(kind@ + "0"@),
{
    let mut start = kind.to_owned();
    start.append("/");
    let mut end = kind.to_owned();
    end.append("0");
    (crate::encoding::text_bytes(start.as_str()), crate::encoding::text_bytes(end.as_str()))
}

} // verus!
