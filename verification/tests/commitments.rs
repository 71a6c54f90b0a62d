use ibc_lite::error::ContractError;
use ibc_lite::ibc::{Acknowledgement, Packet, Timeout, TimeoutBlock};
use ibc_lite::identifiers::Sequence;
use sha2::{Digest, Sha256};

fn packet(sequence: u64, source_port: &str, source_channel: &str, data: &[u8], nanos: u64) -> Packet {
    Packet {
        sequence: Sequence(sequence),
        source_port: source_port.parse().unwrap(),
        source_channel: source_channel.parse().unwrap(),
        destination_port: "wasm.appB".parse().unwrap(),
        destination_channel: "08-wasm-7".parse().unwrap(),
        data: data.to_vec(),
        timeout: Timeout::with_timestamp(nanos),
    }
}

fn expected_commitment(nanos: u64, data: &[u8], dst_port: &str, dst_channel: &str) -> Vec<u8> {
    let mut buf = Vec::new();
    buf.extend_from_slice(&nanos.to_be_bytes());
    buf.extend_from_slice(&0u64.to_be_bytes());
    buf.extend_from_slice(&0u64.to_be_bytes());
    buf.extend_from_slice(&Sha256::digest(data));
    buf.extend_from_slice(dst_port.as_bytes());
    buf.extend_from_slice(dst_channel.as_bytes());
    Sha256::digest(&buf).to_vec()
}

fn hex(bytes: &[u8]) -> String {
    bytes.iter().map(|b| format!("{b:02x}")).collect()
}

#[test]
fn ack_commitment_is_sha256_of_the_bytes() {
    let ack = Acknowledgement::new(b"abc".to_vec());
    assert_eq!(
        hex(&ack.to_commitment_bytes()),
        "ba7816bf8f01cfea414140de5dae2223b00361a396177a9cb410ff61f20015ad"
    );
    let ack = Acknowledgement::new(vec![0x01]);
    assert_eq!(
        hex(&ack.to_commitment_bytes()),
        "4bf5122f344554c53bde2ebb8cd2b7e3d1600ad631c385a5d7cce23c7785459a"
    );
    assert_eq!(ack.to_commitment_bytes().len(), 32);
    assert_ne!(ack.to_commitment_bytes(), vec![0x01]);
}

#[test]
fn packet_commitment_follows_the_binary_format() {
    let nanos = 1_700_000_060_000_000_000;
    let p = packet(1, "wasm.appA", "08-wasm-0", &[0xde, 0xad, 0xbe, 0xef], nanos);
    let commitment = p.to_commitment_bytes();
    assert_eq!(commitment.len(), 32);
    assert_eq!(
        commitment,
        expected_commitment(nanos, &[0xde, 0xad, 0xbe, 0xef], "wasm.appB", "08-wasm-7")
    );
}

#[test]
fn packet_commitment_of_empty_data() {
    let p = packet(1, "wasm.appA", "08-wasm-0", &[], 1);
    assert_eq!(p.to_commitment_bytes(), expected_commitment(1, &[], "wasm.appB", "08-wasm-7"));
}

#[test]
fn packet_commitment_ignores_source_and_sequence() {
    let a = packet(1, "wasm.appA", "08-wasm-0", b"payload", 99);
    let b = packet(42, "transfer", "08-wasm-55", b"payload", 99);
    assert_eq!(a.to_commitment_bytes(), b.to_commitment_bytes());
}

#[test]
fn packet_commitment_depends_on_timeout_data_and_destination() {
    let base = packet(1, "wasm.appA", "08-wasm-0", &[0x01], 99);
    let other_data = packet(1, "wasm.appA", "08-wasm-0", &[0x02], 99);
    let other_timeout = packet(1, "wasm.appA", "08-wasm-0", &[0x01], 100);
    let mut other_port = base.clone();
    other_port.destination_port = "wasm.appC".parse().unwrap();
    let mut other_channel = base.clone();
    other_channel.destination_channel = "08-wasm-8".parse().unwrap();
    assert_ne!(base.to_commitment_bytes(), other_data.to_commitment_bytes());
    assert_ne!(base.to_commitment_bytes(), other_timeout.to_commitment_bytes());
    assert_ne!(base.to_commitment_bytes(), other_port.to_commitment_bytes());
    assert_ne!(base.to_commitment_bytes(), other_channel.to_commitment_bytes());
}

#[test]
fn acknowledgement_must_not_be_empty() {
    assert_eq!(
        Acknowledgement::try_from(vec![]),
        Err(ContractError::RecvPacketCallbackNoResponse)
    );
    let ack = Acknowledgement::try_from(vec![1, 2]).unwrap();
    assert_eq!(ack.as_slice(), &[1, 2]);
    assert_eq!(ack.into_vec(), vec![1, 2]);
    assert_eq!(Acknowledgement::new(vec![]).as_slice(), &[] as &[u8]);
}

#[test]
fn timeout_constructors() {
    let block = TimeoutBlock { revision: 1, height: 10 };
    assert_eq!(Timeout::with_timestamp(5).timestamp(), Some(5));
    assert_eq!(Timeout::with_timestamp(5).block(), None);
    assert_eq!(Timeout::with_block(block).block(), Some(block));
    assert_eq!(Timeout::with_block(block).timestamp(), None);
    assert_eq!(Timeout::with_both(block, 5).timestamp(), Some(5));
    assert_eq!(Timeout::with_both(block, 5).block(), Some(block));
}

#[test]
fn packet_clone_is_equal() {
    let p = packet(3, "wasm.appA", "08-wasm-0", b"x", 9);
    assert_eq!(p.clone(), p);
}
