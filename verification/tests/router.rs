use ibc_lite::callbacks::IbcAppCallbackMsg;
use ibc_lite::clients::{InstantiateMsg, QueryMsg as ClientQueryMsg};
use ibc_lite::error::ContractError;
use ibc_lite::events::Event;
use ibc_lite::host::{Env, MessageInfo};
use ibc_lite::ibc::{Height, Packet, Timeout, TimeoutBlock};
use ibc_lite::paths::MerklePath;
use ibc_lite::registry::{ClientRegistry, CounterpartyInfo};
use ibc_lite::router::msg::{
    AcknowledgementMsg, Answer, Evidence, ExecuteMsg, InstantiateMsg as RouterInstantiateMsg,
    QueryMsg, RecvPacketMsg, SendPacketMsg, TimeoutMsg,
};
use ibc_lite::router::state::{
    commit_packet, commit_packet_ack, delete_packet_commitment, new_sequence_send,
    next_sequence_send, set_packet_receipt,
};
use ibc_lite::router::{
    assert_admin, execute, instantiate, light_client_queries, query, reply, Router,
};
use ibc_lite::store::Store;
use ibc_lite::timeout::validate;
use ibc_lite::wasm::WasmMsg;
use sha2::{Digest, Sha256};

const NOW: u64 = 1_700_000_000_000_000_000;
const SIXTY_SECONDS: u64 = 60_000_000_000;

fn env() -> Env {
    Env {
        block_time_nanos: NOW,
        block_height: 10,
        contract_address: "router".to_string(),
        contract_admin: Some("admin".to_string()),
    }
}

fn info(sender: &str) -> MessageInfo {
    MessageInfo { sender: sender.to_string() }
}

fn height() -> Height {
    Height { revision_number: 1, revision_height: 100 }
}

fn accepted() -> Evidence {
    Evidence { proof_verified: true, proof_timestamp: None }
}

fn rejected() -> Evidence {
    Evidence { proof_verified: false, proof_timestamp: None }
}

/// A registry whose client number `own` has the counterparty `other`.
fn registry(own: u64, other: &str, prefix: Option<MerklePath>) -> ClientRegistry {
    let mut registry = ClientRegistry::new(Some("router".to_string()));
    let env = env();
    for n in 0..=own {
        let counterparty = if n == own {
            Some(CounterpartyInfo {
                client_id: other.to_string(),
                merkle_path_prefix: prefix.clone(),
            })
        } else {
            None
        };
        registry
            .create_client(
                &env,
                &info("creator"),
                1,
                InstantiateMsg { client_state: vec![], consensus_state: vec![] },
                counterparty,
                format!("client-address-{n}"),
            )
            .unwrap();
    }
    registry
}

/// Chain A: the application `appA`, and the client `08-wasm-0` opposite `08-wasm-7`.
fn chain_a() -> (Router, ClientRegistry) {
    let mut router = Router::new("registry-a".to_string());
    router.register_ibc_app(&env(), &info("appA"), None, "appA".to_string()).unwrap();
    (router, registry(0, "08-wasm-7", None))
}

/// Chain B: the application `appB`, and the client `08-wasm-7` opposite `08-wasm-0`.
fn chain_b() -> (Router, ClientRegistry) {
    let mut router = Router::new("registry-b".to_string());
    router.register_ibc_app(&env(), &info("appB"), None, "appB".to_string()).unwrap();
    (router, registry(7, "08-wasm-0", None))
}

fn send_msg(data: &[u8]) -> SendPacketMsg {
    SendPacketMsg {
        source_channel: "08-wasm-0".to_string(),
        source_port: "wasm.appA".to_string(),
        dest_channel: Some("08-wasm-7".to_string()),
        dest_port: "wasm.appB".to_string(),
        data: data.to_vec(),
        timeout: Timeout::with_timestamp(NOW + SIXTY_SECONDS),
        version: "v1".to_string(),
    }
}

fn sent_packet(response: &ibc_lite::router::Response) -> Packet {
    match &response.messages[0].msg {
        IbcAppCallbackMsg::OnSendPacket { packet, .. } => packet.clone(),
        other => panic!("unexpected callback {other:?}"),
    }
}

fn expected_commitment(nanos: u64, data: &[u8], dst_port: &str, dst_channel: &str) -> Vec<u8> {
    let mut buf = Vec::new();
    buf.extend_from_slice(&nanos.to_be_bytes());
    buf.extend_from_slice(&[0u8; 16]);
    buf.extend_from_slice(&Sha256::digest(data));
    buf.extend_from_slice(dst_port.as_bytes());
    buf.extend_from_slice(dst_channel.as_bytes());
    Sha256::digest(&buf).to_vec()
}

fn attribute<'a>(event: &'a Event, key: &str) -> &'a str {
    event
        .attributes
        .iter()
        .find(|a| a.key == key)
        .map(|a| a.value.as_str())
        .unwrap_or_else(|| panic!("no attribute {key}"))
}

const COMMITMENT_1: &[u8] = b"commitments/ports/wasm.appA/channels/08-wasm-0/sequences/1";
const RECEIPT_1: &[u8] = b"receipts/ports/wasm.appB/channels/08-wasm-7/sequences/1";
const ACK_1: &[u8] = b"acks/ports/wasm.appB/channels/08-wasm-7/sequences/1";
const COUNTER: &[u8] = b"nextSequenceSend/ports/wasm.appA/channels/08-wasm-0";

#[test]
fn send_then_ack() {
    let (mut router, registry) = chain_a();
    let response = router
        .send_packet(&registry, &env(), &info("appA"), send_msg(&[0xde, 0xad, 0xbe, 0xef]))
        .unwrap();

    let packet = sent_packet(&response);
    assert_eq!(packet.sequence.value(), 1);
    assert_eq!(
        router.store().get(COMMITMENT_1),
        Some(expected_commitment(
            NOW + SIXTY_SECONDS,
            &[0xde, 0xad, 0xbe, 0xef],
            "wasm.appB",
            "08-wasm-7"
        ))
    );
    assert_eq!(response.events.len(), 1);
    let event = &response.events[0];
    assert_eq!(event.ty, "send_packet");
    assert_eq!(attribute(event, "packet_data_hex"), "deadbeef");
    assert_eq!(attribute(event, "packet_sequence"), "1");
    assert_eq!(attribute(event, "packet_timeout_timestamp"), "1700000060000000000");
    assert_eq!(attribute(event, "packet_src_port"), "wasm.appA");
    assert_eq!(attribute(event, "packet_src_channel"), "08-wasm-0");
    assert_eq!(attribute(event, "packet_dst_port"), "wasm.appB");
    assert_eq!(attribute(event, "packet_dst_channel"), "08-wasm-7");
    assert_eq!(event.attributes.len(), 7);

    assert_eq!(response.messages.len(), 1);
    assert_eq!(response.messages[0].contract_addr, "appA");
    assert_eq!(response.messages[0].reply_id, None);
    assert_eq!(
        response.messages[0].msg,
        IbcAppCallbackMsg::OnSendPacket {
            packet: packet.clone(),
            version: "v1".to_string(),
            sender: "appA".to_string()
        }
    );

    let ack = AcknowledgementMsg {
        packet: packet.clone(),
        acknowledgement: vec![0x01],
        proof_acked: vec![7, 7],
        proof_height: height(),
    };
    let response = router.acknowledgement(&registry, &info("relayer"), ack, &accepted()).unwrap();
    assert_eq!(router.store().get(COMMITMENT_1), None);
    assert_eq!(response.events.len(), 1);
    assert_eq!(response.events[0].ty, "acknowledge_packet");
    assert_eq!(attribute(&response.events[0], "packet_sequence"), "1");
    assert_eq!(response.messages.len(), 1);
    assert_eq!(response.messages[0].contract_addr, "appA");
    assert_eq!(
        response.messages[0].msg,
        IbcAppCallbackMsg::OnAcknowledgementPacket {
            packet,
            acknowledgement: vec![0x01],
            relayer: "relayer".to_string()
        }
    );
}

#[test]
fn sequences_start_at_one_and_grow_by_one() {
    let (mut router, registry) = chain_a();
    assert_eq!(next_sequence_send(router.store(), "wasm.appA", "08-wasm-0"), Ok(1));
    for expected in 1..=5u64 {
        let response =
            router.send_packet(&registry, &env(), &info("appA"), send_msg(&[1])).unwrap();
        assert_eq!(sent_packet(&response).sequence.value(), expected);
        assert_eq!(
            next_sequence_send(router.store(), "wasm.appA", "08-wasm-0"),
            Ok(expected + 1)
        );
        assert_eq!(router.store().get(COUNTER), Some((expected + 1).to_be_bytes().to_vec()));
        let key = format!("commitments/ports/wasm.appA/channels/08-wasm-0/sequences/{expected}");
        assert!(router.store().has(key.as_bytes()));
    }
    // Five commitments were written, and the counter is one more.
    let written = router
        .store()
        .range(Some(b"commitments/"), Some(b"commitments0"))
        .len() as u64;
    assert_eq!(written, 5);
    assert_eq!(next_sequence_send(router.store(), "wasm.appA", "08-wasm-0"), Ok(1 + written));
    // Other channels are not touched.
    assert_eq!(next_sequence_send(router.store(), "wasm.appA", "08-wasm-1"), Ok(1));
}

#[test]
fn send_uses_the_counterparty_when_no_destination_is_named() {
    let (mut router, registry) = chain_a();
    let mut msg = send_msg(&[1]);
    msg.dest_channel = None;
    let response = router.send_packet(&registry, &env(), &info("appA"), msg).unwrap();
    assert_eq!(sent_packet(&response).destination_channel.as_str(), "08-wasm-7");
}

#[test]
fn send_rejects_a_destination_that_is_not_the_counterparty() {
    let (mut router, registry) = chain_a();
    let mut msg = send_msg(&[1]);
    msg.dest_channel = Some("08-wasm-8".to_string());
    assert_eq!(
        router.send_packet(&registry, &env(), &info("appA"), msg),
        Err(ContractError::InvalidCounterparty {
            expected: "08-wasm-7".to_string(),
            actual: "08-wasm-8".to_string()
        })
    );
    assert!(router.store().is_empty());
}

#[test]
fn send_needs_a_registered_app_and_a_counterparty() {
    let (mut router, registry) = chain_a();
    let mut msg = send_msg(&[1]);
    msg.source_port = "wasm.nobody".to_string();
    assert_eq!(
        router.send_packet(&registry, &env(), &info("appA"), msg),
        Err(ContractError::NotFound { kind: "ibc_app".to_string(), key: b"wasm.nobody".to_vec() })
    );
    let mut msg = send_msg(&[1]);
    msg.source_channel = "08-wasm-3".to_string();
    assert_eq!(
        router.send_packet(&registry, &env(), &info("appA"), msg),
        Err(ContractError::NotFound {
            kind: "counterparty".to_string(),
            key: b"08-wasm-3".to_vec()
        })
    );
    let mut msg = send_msg(&[1]);
    msg.dest_port = "bad/port".to_string();
    assert!(matches!(
        router.send_packet(&registry, &env(), &info("appA"), msg),
        Err(ContractError::IdentifierError(_))
    ));
    assert!(router.store().is_empty());
}

#[test]
fn height_timeout_rejected() {
    let (mut router, registry) = chain_a();
    let mut msg = send_msg(&[1]);
    msg.timeout = Timeout::with_block(TimeoutBlock { revision: 1, height: 1000 });
    assert_eq!(
        router.send_packet(&registry, &env(), &info("appA"), msg),
        Err(ContractError::InvalidTimeoutHeight)
    );
    let mut msg = send_msg(&[1]);
    msg.timeout =
        Timeout::with_both(TimeoutBlock { revision: 1, height: 1000 }, NOW + SIXTY_SECONDS);
    assert_eq!(
        router.send_packet(&registry, &env(), &info("appA"), msg),
        Err(ContractError::InvalidTimeoutHeight)
    );
    assert!(router.store().is_empty());
    assert_eq!(next_sequence_send(router.store(), "wasm.appA", "08-wasm-0"), Ok(1));
}

#[test]
fn past_and_empty_timestamps_rejected() {
    let (mut router, registry) = chain_a();
    let mut msg = send_msg(&[1]);
    msg.timeout = Timeout::with_timestamp(NOW);
    assert_eq!(
        router.send_packet(&registry, &env(), &info("appA"), msg),
        Err(ContractError::InvalidTimeoutTimestamp {
            current: 1_700_000_000,
            timestamp: 1_700_000_000
        })
    );
    let mut msg = send_msg(&[1]);
    msg.timeout = Timeout::with_timestamp(NOW - 5_500_000_000);
    assert_eq!(
        router.send_packet(&registry, &env(), &info("appA"), msg),
        Err(ContractError::InvalidTimeoutTimestamp {
            current: 1_700_000_000,
            timestamp: 1_699_999_994
        })
    );
    let mut msg = send_msg(&[1]);
    msg.timeout = Timeout { block: None, timestamp: None };
    assert_eq!(
        router.send_packet(&registry, &env(), &info("appA"), msg),
        Err(ContractError::EmptyTimestamp)
    );
    let mut msg = send_msg(&[1]);
    msg.timeout = Timeout::with_timestamp(NOW + 1);
    assert!(router.send_packet(&registry, &env(), &info("appA"), msg).is_ok());
}

#[test]
fn timeout_validate_alone() {
    assert_eq!(validate(&env(), &Timeout::with_timestamp(NOW + 1)), Ok(()));
    assert_eq!(
        validate(&env(), &Timeout::with_timestamp(NOW - 1)),
        Err(ContractError::InvalidTimeoutTimestamp {
            current: 1_700_000_000,
            timestamp: 1_699_999_999
        })
    );
    assert_eq!(
        validate(&env(), &Timeout::with_block(TimeoutBlock { revision: 0, height: 1 })),
        Err(ContractError::InvalidTimeoutHeight)
    );
    assert_eq!(
        validate(&env(), &Timeout { block: None, timestamp: None }),
        Err(ContractError::EmptyTimestamp)
    );
}

fn send_one(data: &[u8]) -> (Router, ClientRegistry, Packet) {
    let (mut router, registry) = chain_a();
    let response = router.send_packet(&registry, &env(), &info("appA"), send_msg(data)).unwrap();
    let packet = sent_packet(&response);
    (router, registry, packet)
}

fn recv_msg(packet: &Packet) -> RecvPacketMsg {
    RecvPacketMsg { packet: packet.clone(), proof_commitment: vec![5, 5], proof_height: height() }
}

#[test]
fn receive_writes_receipt_then_acknowledgement() {
    let (_, _, packet) = send_one(&[0xaa]);
    let (mut router, registry) = chain_b();

    let response =
        router.recv_packet(&registry, &info("relayer"), recv_msg(&packet), &accepted()).unwrap();
    assert_eq!(router.store().get(RECEIPT_1), Some(vec![0x01]));
    assert_eq!(router.store().get(ACK_1), None);
    assert_eq!(router.in_flight(), &Some(packet.clone()));
    assert_eq!(response.messages.len(), 1);
    assert_eq!(response.messages[0].contract_addr, "appB");
    assert_eq!(response.messages[0].reply_id, Some(1));
    assert_eq!(
        response.messages[0].msg,
        IbcAppCallbackMsg::OnRecvPacket { packet: packet.clone(), relayer: "relayer".to_string() }
    );
    assert_eq!(response.events[0].ty, "recv_packet");
    assert_eq!(attribute(&response.events[0], "packet_data_hex"), "aa");
    assert_eq!(response.events[0].attributes.len(), 5);

    let response = router.reply(1, Some(vec![0x01])).unwrap();
    assert_eq!(router.store().get(ACK_1), Some(Sha256::digest([0x01]).to_vec()));
    assert_eq!(router.store().get(RECEIPT_1), Some(vec![0x01]));
    assert_eq!(router.in_flight(), &None);
    assert!(response.messages.is_empty());
    assert_eq!(response.events[0].ty, "write_acknowledgement");
    assert_eq!(attribute(&response.events[0], "packet_data_hex"), "aa");
    assert_eq!(attribute(&response.events[0], "packet_ack_hex"), "01");
}

#[test]
fn duplicate_recv_rejected() {
    let (_, _, packet) = send_one(&[0xaa]);
    let (mut router, registry) = chain_b();
    router.recv_packet(&registry, &info("relayer"), recv_msg(&packet), &accepted()).unwrap();
    router.reply(1, Some(vec![0x01])).unwrap();
    let ack_before = router.store().get(ACK_1);

    assert_eq!(
        router.recv_packet(&registry, &info("relayer"), recv_msg(&packet), &accepted()),
        Err(ContractError::PacketAlreadyCommited { key: RECEIPT_1.to_vec() })
    );
    assert_eq!(router.store().get(RECEIPT_1), Some(vec![0x01]));
    assert_eq!(router.store().get(ACK_1), ack_before);
    assert_eq!(router.in_flight(), &None);

    // The same destination and sequence with another payload is refused as well.
    let mut other = packet.clone();
    other.data = vec![0xbb, 0xcc];
    assert_eq!(
        router.recv_packet(&registry, &info("relayer"), recv_msg(&other), &accepted()),
        Err(ContractError::PacketAlreadyCommited { key: RECEIPT_1.to_vec() })
    );
    assert!(router
        .recv_packet(&registry, &info("relayer"), recv_msg(&other), &rejected())
        .is_err());
    assert_eq!(router.store().get(RECEIPT_1), Some(vec![0x01]));
    assert_eq!(router.store().get(ACK_1), ack_before);
}

#[test]
fn recv_callback_returns_empty() {
    let (_, _, packet) = send_one(&[0xaa]);
    let (mut router, registry) = chain_b();
    let before = router.store().clone();

    router.recv_packet(&registry, &info("relayer"), recv_msg(&packet), &accepted()).unwrap();
    let after_recv = router.store().clone();
    assert_eq!(
        router.reply(1, None),
        Err(ContractError::RecvPacketCallbackNoResponse)
    );
    assert_eq!(
        router.reply(1, Some(vec![])),
        Err(ContractError::RecvPacketCallbackNoResponse)
    );
    // The failed reply changes nothing; the host then drops the whole transition,
    // and with it the receipt.
    assert_eq!(router.store().range(None, None), after_recv.range(None, None));
    assert_eq!(router.store().get(ACK_1), None);
    assert!(!before.has(RECEIPT_1));
}

#[test]
fn recv_needs_a_verified_proof() {
    let (_, _, packet) = send_one(&[0xaa]);
    let (mut router, registry) = chain_b();
    assert_eq!(
        router.recv_packet(&registry, &info("relayer"), recv_msg(&packet), &rejected()),
        Err(ContractError::VerificationFailed)
    );
    assert!(router.store().is_empty());
    assert_eq!(router.in_flight(), &None);
}

#[test]
fn recv_asks_for_membership_of_the_commitment() {
    let (_, _, packet) = send_one(&[0xaa]);
    let (router, registry) = chain_b();
    let (address, question) = router.recv_packet_query(&registry, &recv_msg(&packet)).unwrap();
    assert_eq!(address, "client-address-7");
    match question {
        ClientQueryMsg::VerifyMembership(msg) => {
            assert_eq!(msg.proof, vec![5, 5]);
            assert_eq!(
                msg.path.key_path,
                vec!["commitments/ports/wasm.appA/channels/08-wasm-0/sequences/1".to_string()]
            );
            assert_eq!(
                msg.value,
                expected_commitment(NOW + SIXTY_SECONDS, &[0xaa], "wasm.appB", "08-wasm-7")
            );
            assert_eq!(msg.height, height());
            assert_eq!(msg.delay_block_period, 0);
            assert_eq!(msg.delay_time_period, 0);
        }
        other => panic!("unexpected {other:?}"),
    }
}

#[test]
fn recv_composes_the_merkle_prefix_of_the_counterparty() {
    let (_, _, packet) = send_one(&[0xaa]);
    let (router, _) = chain_b();
    let prefix = MerklePath { key_path: vec!["ibc".to_string(), "".to_string()] };
    let registry = registry(7, "08-wasm-0", Some(prefix));
    let (_, question) = router.recv_packet_query(&registry, &recv_msg(&packet)).unwrap();
    match question {
        ClientQueryMsg::VerifyMembership(msg) => assert_eq!(
            msg.path.key_path,
            vec![
                "ibc".to_string(),
                "commitments/ports/wasm.appA/channels/08-wasm-0/sequences/1".to_string()
            ]
        ),
        other => panic!("unexpected {other:?}"),
    }
    let empty = registry_with_empty_prefix();
    assert_eq!(
        router.recv_packet_query(&empty, &recv_msg(&packet)),
        Err(ContractError::EmptyMerklePrefix)
    );
}

fn registry_with_empty_prefix() -> ClientRegistry {
    registry(7, "08-wasm-0", Some(MerklePath { key_path: vec![] }))
}

#[test]
fn recv_checks_app_counterparty_and_timestamp() {
    let (_, _, packet) = send_one(&[0xaa]);
    let (mut router, registry) = chain_b();

    let mut unknown_port = packet.clone();
    unknown_port.destination_port = "wasm.nobody".parse().unwrap();
    assert_eq!(
        router.recv_packet(&registry, &info("relayer"), recv_msg(&unknown_port), &accepted()),
        Err(ContractError::NotFound { kind: "ibc_app".to_string(), key: b"wasm.nobody".to_vec() })
    );

    let mut wrong_source = packet.clone();
    wrong_source.source_channel = "08-wasm-1".parse().unwrap();
    assert_eq!(
        router.recv_packet(&registry, &info("relayer"), recv_msg(&wrong_source), &accepted()),
        Err(ContractError::InvalidCounterparty {
            expected: "08-wasm-0".to_string(),
            actual: "08-wasm-1".to_string()
        })
    );

    let mut no_timestamp = packet.clone();
    no_timestamp.timeout = Timeout { block: None, timestamp: None };
    assert_eq!(
        router.recv_packet(&registry, &info("relayer"), recv_msg(&no_timestamp), &accepted()),
        Err(ContractError::EmptyTimestamp)
    );
    assert!(router.store().is_empty());
}

#[test]
fn recv_is_not_reentrant() {
    let (mut source, source_registry, first) = send_one(&[0xaa]);
    let second = sent_packet(
        &source.send_packet(&source_registry, &env(), &info("appA"), send_msg(&[0xbb])).unwrap(),
    );
    let (mut router, registry) = chain_b();
    router.recv_packet(&registry, &info("relayer"), recv_msg(&first), &accepted()).unwrap();
    let snapshot = router.store().range(None, None);
    assert_eq!(
        router.recv_packet(&registry, &info("relayer"), recv_msg(&second), &accepted()),
        Err(ContractError::Reentrancy)
    );
    assert_eq!(router.store().range(None, None), snapshot);
    assert_eq!(router.in_flight(), &Some(first));
}

#[test]
fn reply_without_packet_in_flight() {
    let (mut router, _) = chain_b();
    assert_eq!(
        router.reply(1, Some(vec![1])),
        Err(ContractError::NotFound {
            kind: "packet".to_string(),
            key: b"packet_temp_store".to_vec()
        })
    );
    assert_eq!(router.write_acknowledgement(None), Err(ContractError::RecvPacketCallbackNoResponse));
}

#[test]
fn unknown_reply_id() {
    let (mut router, _) = chain_b();
    assert_eq!(router.reply(2, Some(vec![1])), Err(ContractError::UnknownReplyId(2)));
    assert_eq!(reply(&mut router, 0, None), Err(ContractError::UnknownReplyId(0)));
}

#[test]
fn commitment_mismatch() {
    let (mut router, registry, packet) = send_one(&[0x01]);
    let mut forged = packet.clone();
    forged.data = vec![0x02];
    let stored = expected_commitment(NOW + SIXTY_SECONDS, &[0x01], "wasm.appB", "08-wasm-7");
    let provided = expected_commitment(NOW + SIXTY_SECONDS, &[0x02], "wasm.appB", "08-wasm-7");
    assert_ne!(stored, provided);
    let ack = AcknowledgementMsg {
        packet: forged,
        acknowledgement: vec![0x01],
        proof_acked: vec![],
        proof_height: height(),
    };
    assert_eq!(
        router.acknowledgement(&registry, &info("relayer"), ack, &accepted()),
        Err(ContractError::PacketCommitmentMismatch { expected: stored.clone(), provided })
    );
    assert_eq!(router.store().get(COMMITMENT_1), Some(stored));
}

#[test]
fn send_recv_ack_round_trip() {
    let (mut a, registry_a, packet) = send_one(&[0xde, 0xad]);
    let (mut b, registry_b) = chain_b();

    b.recv_packet(&registry_b, &info("relayer"), recv_msg(&packet), &accepted()).unwrap();
    b.reply(1, Some(b"ok".to_vec())).unwrap();

    let ack = |bytes: &[u8]| AcknowledgementMsg {
        packet: packet.clone(),
        acknowledgement: bytes.to_vec(),
        proof_acked: vec![1],
        proof_height: height(),
    };
    let (address, question) = a.acknowledgement_query(&registry_a, &ack(b"ok")).unwrap();
    assert_eq!(address, "client-address-0");
    match question {
        ClientQueryMsg::VerifyMembership(msg) => {
            assert_eq!(
                msg.path.key_path,
                vec!["acks/ports/wasm.appB/channels/08-wasm-7/sequences/1".to_string()]
            );
            assert_eq!(msg.value, Sha256::digest(b"ok").to_vec());
            // What the source asks to be proved is what the destination stored.
            assert_eq!(b.store().get(msg.path.key_path[0].as_bytes()), Some(msg.value));
        }
        other => panic!("unexpected {other:?}"),
    }

    a.acknowledgement(&registry_a, &info("relayer"), ack(b"ok"), &accepted()).unwrap();
    assert_eq!(a.store().get(COMMITMENT_1), None);
    assert_eq!(b.store().get(RECEIPT_1), Some(vec![0x01]));
    assert_eq!(b.store().get(ACK_1), Some(Sha256::digest(b"ok").to_vec()));

    // Acknowledging again fails: the commitment is gone.
    assert_eq!(
        a.acknowledgement(&registry_a, &info("relayer"), ack(b"ok"), &accepted()),
        Err(ContractError::NotFound { kind: "bytes".to_string(), key: COMMITMENT_1.to_vec() })
    );
    assert!(a
        .acknowledgement(&registry_a, &info("relayer"), ack(b"other"), &rejected())
        .is_err());
    // The counter does not go back.
    assert_eq!(next_sequence_send(a.store(), "wasm.appA", "08-wasm-0"), Ok(2));
}

#[test]
fn acknowledgement_needs_a_verified_proof() {
    let (mut router, registry, packet) = send_one(&[0x01]);
    let ack = AcknowledgementMsg {
        packet,
        acknowledgement: vec![0x01],
        proof_acked: vec![],
        proof_height: height(),
    };
    assert_eq!(
        router.acknowledgement(&registry, &info("relayer"), ack, &rejected()),
        Err(ContractError::VerificationFailed)
    );
    assert!(router.store().has(COMMITMENT_1));
}

#[test]
fn acknowledgement_checks_the_counterparty() {
    let (mut router, registry, packet) = send_one(&[0x01]);
    let mut wrong = packet.clone();
    wrong.destination_channel = "08-wasm-9".parse().unwrap();
    let ack = AcknowledgementMsg {
        packet: wrong,
        acknowledgement: vec![0x01],
        proof_acked: vec![],
        proof_height: height(),
    };
    assert_eq!(
        router.acknowledgement(&registry, &info("relayer"), ack, &accepted()),
        Err(ContractError::InvalidCounterparty {
            expected: "08-wasm-7".to_string(),
            actual: "08-wasm-9".to_string()
        })
    );
    assert!(router.store().has(COMMITMENT_1));
}

fn timeout_msg(packet: &Packet) -> TimeoutMsg {
    TimeoutMsg {
        packet: packet.clone(),
        proof_unreceived: vec![3],
        proof_height: height(),
        next_sequence_recv: 0,
    }
}

#[test]
fn send_then_timeout() {
    let (mut router, registry, packet) = send_one(&[0x01]);
    let (destination, _) = chain_b();

    let (address, questions) = router.timeout_queries(&registry, &timeout_msg(&packet)).unwrap();
    assert_eq!(address, "client-address-0");
    assert_eq!(questions.len(), 2);
    assert_eq!(questions[0], ClientQueryMsg::TimestampAtHeight { height: height() });
    match &questions[1] {
        ClientQueryMsg::VerifyNonMembership(msg) => {
            assert_eq!(msg.proof, vec![3]);
            assert_eq!(
                msg.path.key_path,
                vec!["receipts/ports/wasm.appB/channels/08-wasm-7/sequences/1".to_string()]
            );
            assert_eq!(msg.height, height());
            // The destination indeed holds no receipt under that path.
            assert!(!destination.store().has(msg.path.key_path[0].as_bytes()));
        }
        other => panic!("unexpected {other:?}"),
    }

    let at_timeout =
        Evidence { proof_verified: true, proof_timestamp: Some(NOW + SIXTY_SECONDS) };
    let response =
        router.timeout(&registry, &info("relayer"), timeout_msg(&packet), &at_timeout).unwrap();
    assert_eq!(router.store().get(COMMITMENT_1), None);
    assert_eq!(response.events[0].ty, "timeout_packet");
    assert_eq!(attribute(&response.events[0], "packet_sequence"), "1");
    assert_eq!(response.messages[0].contract_addr, "appA");
    assert_eq!(
        response.messages[0].msg,
        IbcAppCallbackMsg::OnTimeoutPacket {
            packet: packet.clone(),
            relayer: "relayer".to_string()
        }
    );
    // A packet is voided once.
    assert_eq!(
        router.timeout(&registry, &info("relayer"), timeout_msg(&packet), &at_timeout),
        Err(ContractError::NotFound { kind: "bytes".to_string(), key: COMMITMENT_1.to_vec() })
    );
}

#[test]
fn timeout_needs_time_and_proof() {
    let (mut router, registry, packet) = send_one(&[0x01]);
    let too_early =
        Evidence { proof_verified: true, proof_timestamp: Some(NOW + SIXTY_SECONDS - 1) };
    assert_eq!(
        router.timeout(&registry, &info("relayer"), timeout_msg(&packet), &too_early),
        Err(ContractError::TimeoutNotReached {
            timeout: NOW + SIXTY_SECONDS,
            proof_timestamp: NOW + SIXTY_SECONDS - 1
        })
    );
    let unknown_height = Evidence { proof_verified: true, proof_timestamp: None };
    assert_eq!(
        router.timeout(&registry, &info("relayer"), timeout_msg(&packet), &unknown_height),
        Err(ContractError::ProofHeightNotReached)
    );
    let unproved =
        Evidence { proof_verified: false, proof_timestamp: Some(NOW + 2 * SIXTY_SECONDS) };
    assert_eq!(
        router.timeout(&registry, &info("relayer"), timeout_msg(&packet), &unproved),
        Err(ContractError::VerificationFailed)
    );
    let mut forged = packet.clone();
    forged.data = vec![0x02];
    let late = Evidence { proof_verified: true, proof_timestamp: Some(NOW + 2 * SIXTY_SECONDS) };
    assert!(matches!(
        router.timeout(&registry, &info("relayer"), timeout_msg(&forged), &late),
        Err(ContractError::PacketCommitmentMismatch { .. })
    ));
    assert!(router.store().has(COMMITMENT_1));
}

#[test]
fn acknowledged_packet_cannot_time_out() {
    let (mut router, registry, packet) = send_one(&[0x01]);
    let ack = AcknowledgementMsg {
        packet: packet.clone(),
        acknowledgement: vec![0x01],
        proof_acked: vec![],
        proof_height: height(),
    };
    router.acknowledgement(&registry, &info("relayer"), ack, &accepted()).unwrap();
    let late = Evidence { proof_verified: true, proof_timestamp: Some(NOW + 2 * SIXTY_SECONDS) };
    assert!(router.timeout(&registry, &info("relayer"), timeout_msg(&packet), &late).is_err());
}

#[test]
fn temp_store_is_empty_between_transitions() {
    let (mut a, registry_a) = chain_a();
    assert_eq!(a.in_flight(), &None);
    let packet =
        sent_packet(&a.send_packet(&registry_a, &env(), &info("appA"), send_msg(&[1])).unwrap());
    assert_eq!(a.in_flight(), &None);

    let (mut b, registry_b) = chain_b();
    assert_eq!(b.in_flight(), &None);
    b.recv_packet(&registry_b, &info("relayer"), recv_msg(&packet), &accepted()).unwrap();
    assert!(b.in_flight().is_some());
    b.reply(1, Some(vec![1])).unwrap();
    assert_eq!(b.in_flight(), &None);

    let ack = AcknowledgementMsg {
        packet,
        acknowledgement: vec![1],
        proof_acked: vec![],
        proof_height: height(),
    };
    a.acknowledgement(&registry_a, &info("relayer"), ack, &accepted()).unwrap();
    assert_eq!(a.in_flight(), &None);
}

#[test]
fn nothing_is_overwritten() {
    let (mut a, registry_a) = chain_a();
    let first =
        sent_packet(&a.send_packet(&registry_a, &env(), &info("appA"), send_msg(&[1])).unwrap());
    let commitment = a.store().get(COMMITMENT_1).unwrap();
    a.send_packet(&registry_a, &env(), &info("appA"), send_msg(&[2])).unwrap();
    a.send_packet(&registry_a, &env(), &info("appA"), send_msg(&[3])).unwrap();
    assert_eq!(a.store().get(COMMITMENT_1), Some(commitment));

    let mut store = Store::new();
    assert_eq!(commit_packet(&mut store, &first), Ok(()));
    let stored = store.get(COMMITMENT_1);
    let mut other = first.clone();
    other.data = vec![9];
    assert_eq!(
        commit_packet(&mut store, &other),
        Err(ContractError::PacketAlreadyCommited { key: COMMITMENT_1.to_vec() })
    );
    assert_eq!(store.get(COMMITMENT_1), stored);

    assert_eq!(set_packet_receipt(&mut store, &first), Ok(()));
    assert_eq!(
        set_packet_receipt(&mut store, &first),
        Err(ContractError::PacketAlreadyCommited { key: RECEIPT_1.to_vec() })
    );
    assert_eq!(store.get(RECEIPT_1), Some(vec![1]));

    let ack = ibc_lite::ibc::Acknowledgement::new(vec![1]);
    let other_ack = ibc_lite::ibc::Acknowledgement::new(vec![2]);
    assert_eq!(commit_packet_ack(&mut store, &first, &ack), Ok(()));
    assert_eq!(
        commit_packet_ack(&mut store, &first, &other_ack),
        Err(ContractError::PacketAlreadyCommited { key: ACK_1.to_vec() })
    );
    assert_eq!(store.get(ACK_1), Some(Sha256::digest([1]).to_vec()));

    assert_eq!(delete_packet_commitment(&mut store, &first), Ok(()));
    assert_eq!(
        delete_packet_commitment(&mut store, &first),
        Err(ContractError::PacketCommitmentNotFound { key: COMMITMENT_1.to_vec() })
    );
    assert_eq!(store.get(RECEIPT_1), Some(vec![1]));
    assert!(store.has(ACK_1));
}

#[test]
fn sequence_counter_in_the_store() {
    let mut store = Store::new();
    assert_eq!(new_sequence_send(&mut store, "transfer", "08-wasm-0"), Ok(1));
    assert_eq!(new_sequence_send(&mut store, "transfer", "08-wasm-0"), Ok(2));
    assert_eq!(new_sequence_send(&mut store, "transfer", "08-wasm-1"), Ok(1));
    assert_eq!(
        store.get(b"nextSequenceSend/ports/transfer/channels/08-wasm-0"),
        Some(vec![0, 0, 0, 0, 0, 0, 0, 3])
    );

    store.set(b"nextSequenceSend/ports/transfer/channels/08-wasm-2", &[255; 8]);
    assert_eq!(
        new_sequence_send(&mut store, "transfer", "08-wasm-2"),
        Err(ContractError::CounterOverflow)
    );
    assert_eq!(
        store.get(b"nextSequenceSend/ports/transfer/channels/08-wasm-2"),
        Some(vec![255; 8])
    );

    store.set(b"nextSequenceSend/ports/transfer/channels/08-wasm-3", &[1, 2, 3]);
    assert_eq!(
        new_sequence_send(&mut store, "transfer", "08-wasm-3"),
        Err(ContractError::Std("corrupt sequence counter".to_string()))
    );
}

#[test]
fn register_app_derives_the_port_from_the_address() {
    let mut router = Router::new("registry".to_string());
    let response =
        router.register_ibc_app(&env(), &info("anyone"), None, "appA".to_string()).unwrap();
    assert_eq!(router.port_router("wasm.appA"), Ok("appA".to_string()));
    let event = &response.events[0];
    assert_eq!(event.ty, "register_ibc_app");
    assert_eq!(attribute(event, "contract_address"), "appA");
    assert_eq!(attribute(event, "port_id"), "wasm.appA");
    assert_eq!(attribute(event, "sender"), "anyone");
    assert!(response.messages.is_empty());
    assert_eq!(
        router.port_router("wasm.appB"),
        Err(ContractError::NotFound { kind: "ibc_app".to_string(), key: b"wasm.appB".to_vec() })
    );
}

#[test]
fn register_app_with_custom_port_is_for_the_admin() {
    let mut router = Router::new("registry".to_string());
    assert_eq!(
        router.register_ibc_app(
            &env(),
            &info("mallory"),
            Some("transfer".to_string()),
            "appA".to_string()
        ),
        Err(ContractError::Unauthorized)
    );
    let mut no_admin = env();
    no_admin.contract_admin = None;
    assert_eq!(
        router.register_ibc_app(
            &no_admin,
            &info("admin"),
            Some("transfer".to_string()),
            "appA".to_string()
        ),
        Err(ContractError::Unauthorized)
    );
    assert!(matches!(
        router.register_ibc_app(
            &env(),
            &info("admin"),
            Some("bad/port".to_string()),
            "appA".to_string()
        ),
        Err(ContractError::IdentifierError(_))
    ));
    router
        .register_ibc_app(&env(), &info("admin"), Some("transfer".to_string()), "appA".to_string())
        .unwrap();
    assert_eq!(router.port_router("transfer"), Ok("appA".to_string()));
    assert_eq!(assert_admin(&env(), "admin"), Ok(()));
    assert_eq!(assert_admin(&env(), "mallory"), Err(ContractError::Unauthorized));
}

#[test]
fn occupied_port_keeps_its_app() {
    let mut router = Router::new("registry".to_string());
    router
        .register_ibc_app(&env(), &info("admin"), Some("transfer".to_string()), "appA".to_string())
        .unwrap();
    assert_eq!(
        router.register_ibc_app(
            &env(),
            &info("admin"),
            Some("transfer".to_string()),
            "appB".to_string()
        ),
        Err(ContractError::PortAlreadyBound {
            port_id: "transfer".to_string(),
            address: "appA".to_string()
        })
    );
    assert_eq!(router.port_router("transfer"), Ok("appA".to_string()));
    // Registering the same application again changes nothing.
    router
        .register_ibc_app(&env(), &info("admin"), Some("transfer".to_string()), "appA".to_string())
        .unwrap();
    assert_eq!(router.port_router("transfer"), Ok("appA".to_string()));
}

#[test]
fn execute_dispatches_every_request() {
    let (mut a, registry_a) = chain_a();
    let (mut b, registry_b) = chain_b();

    let sent = execute(
        &mut a,
        &registry_a,
        &env(),
        &info("appA"),
        send_msg(&[1]).into_execute(),
        &rejected(),
    )
    .unwrap();
    let packet = sent_packet(&sent);

    let recv = recv_msg(&packet).into_execute();
    let asked = light_client_queries(&b, &registry_b, &recv).unwrap().unwrap();
    assert_eq!(asked.0, "client-address-7");
    assert_eq!(asked.1.len(), 1);
    execute(&mut b, &registry_b, &env(), &info("relayer"), recv, &accepted()).unwrap();
    reply(&mut b, 1, Some(vec![1])).unwrap();

    let ack = AcknowledgementMsg {
        packet: packet.clone(),
        acknowledgement: vec![1],
        proof_acked: vec![],
        proof_height: height(),
    }
    .into_execute();
    assert_eq!(light_client_queries(&a, &registry_a, &ack).unwrap().unwrap().1.len(), 1);
    execute(&mut a, &registry_a, &env(), &info("relayer"), ack, &accepted()).unwrap();
    assert!(!a.store().has(COMMITMENT_1));

    let second = sent_packet(
        &execute(
            &mut a,
            &registry_a,
            &env(),
            &info("appA"),
            ExecuteMsg::SendPacket(send_msg(&[2])),
            &rejected(),
        )
        .unwrap(),
    );
    assert_eq!(second.sequence.value(), 2);
    let timeout = timeout_msg(&second).into_execute();
    assert_eq!(light_client_queries(&a, &registry_a, &timeout).unwrap().unwrap().1.len(), 2);
    let late = Evidence { proof_verified: true, proof_timestamp: Some(NOW + 2 * SIXTY_SECONDS) };
    execute(&mut a, &registry_a, &env(), &info("relayer"), timeout, &late).unwrap();
    assert!(a.store().range(Some(b"commitments/"), Some(b"commitments0")).is_empty());

    let register =
        ExecuteMsg::RegisterIbcApp { port_id: None, address: "appC".to_string() };
    assert_eq!(light_client_queries(&a, &registry_a, &register), Ok(None));
    execute(&mut a, &registry_a, &env(), &info("appC"), register, &rejected()).unwrap();
    assert_eq!(
        query(&a, QueryMsg::PortRouter { port_id: "wasm.appC".to_string() }),
        Ok("appC".to_string())
    );
}

#[test]
fn evidence_is_gathered_from_answers() {
    let membership = ClientQueryMsg::VerifyMembership(ibc_lite::clients::VerifyMembershipMsg {
        proof: vec![],
        path: MerklePath { key_path: vec![] },
        value: vec![],
        height: height(),
        delay_block_period: 0,
        delay_time_period: 0,
    });
    let time = ClientQueryMsg::TimestampAtHeight { height: height() };
    let none = Evidence::none();
    assert_eq!(none, Evidence { proof_verified: false, proof_timestamp: None });
    assert_eq!(
        none.record(&membership, Answer::Succeeded { timestamp: None }),
        Evidence { proof_verified: true, proof_timestamp: None }
    );
    assert_eq!(none.record(&membership, Answer::Failed), none);
    assert_eq!(
        none.record(&time, Answer::Succeeded { timestamp: Some(9) }),
        Evidence { proof_verified: false, proof_timestamp: Some(9) }
    );
    assert_eq!(
        none.record(&time, Answer::Succeeded { timestamp: Some(9) })
            .record(&membership, Answer::Succeeded { timestamp: None }),
        Evidence { proof_verified: true, proof_timestamp: Some(9) }
    );
    assert_eq!(none.record(&time, Answer::Failed), none);
    assert_eq!(none.record(&ClientQueryMsg::Status, Answer::Succeeded { timestamp: Some(1) }), none);
}

#[test]
fn requests_name_the_client_they_depend_on() {
    let (_, _, packet) = send_one(&[1]);
    assert_eq!(send_msg(&[1]).into_execute().client_id(), Some("08-wasm-0".to_string()));
    assert_eq!(recv_msg(&packet).into_execute().client_id(), Some("08-wasm-7".to_string()));
    assert_eq!(timeout_msg(&packet).into_execute().client_id(), Some("08-wasm-0".to_string()));
    let ack = AcknowledgementMsg {
        packet,
        acknowledgement: vec![],
        proof_acked: vec![],
        proof_height: height(),
    };
    assert_eq!(ack.into_execute().client_id(), Some("08-wasm-0".to_string()));
    let register = ExecuteMsg::RegisterIbcApp { port_id: None, address: "a".to_string() };
    assert_eq!(register.client_id(), None);
}

#[test]
fn instantiate_creates_the_registry() {
    let checksum = [7u8; 32];
    let creator = [1u8, 2, 3, 4];
    let (router, message) = instantiate(
        &env(),
        RouterInstantiateMsg { ics02_client_code_id: 11 },
        &checksum,
        &creator,
        "registry-address".to_string(),
    )
    .unwrap();
    assert!(router.store().is_empty());
    assert_eq!(router.ics02_client_address(), "registry-address");
    match message {
        WasmMsg::Instantiate2 { admin, code_id, label, salt, .. } => {
            assert_eq!(admin, None);
            assert_eq!(code_id, 11);
            assert_eq!(label, "ics02_client.router");
            assert_eq!(salt, b"ics02_client".to_vec());
        }
        other => panic!("unexpected {other:?}"),
    }
    assert!(matches!(
        instantiate(
            &env(),
            RouterInstantiateMsg { ics02_client_code_id: 11 },
            &[7u8; 31],
            &creator,
            "registry-address".to_string(),
        ),
        Err(ContractError::Std(_))
    ));
}
