use ibc_lite::callbacks::AcknowledgementData;
use ibc_lite::error::{ContractError, OwnershipError, TransferError};
use ibc_lite::ibc::{Packet, Timeout};
use ibc_lite::identifiers::Sequence;
use ibc_lite::transfer::escrow::Escrow;
use ibc_lite::transfer::{
    decimal_text, error, escrow_amount, list_escrow, on_acknowledgement_packet, on_recv_packet,
    on_recv_packet_cw20_transfer, on_send_packet, on_timeout_packet, parse_voucher_denom,
    receive, receive_ibc_callback, success, Cw20Transfer, Ics20Ack, Ics20Packet, RecvPacketReplyPayload,
    Response, TransferCallback, TransferMsg,
    DEFAULT_PORT_ID, DEFAULT_TIMEOUT_SECONDS, ICS20_VERSION,
};

fn ics20(amount: u128, denom: &str) -> Ics20Packet {
    Ics20Packet {
        amount,
        denom: denom.to_string(),
        receiver: "receiver".to_string(),
        sender: "sender".to_string(),
        memo: None,
    }
}

fn outgoing() -> Packet {
    Packet {
        sequence: Sequence(1),
        source_port: "wasm.transferA".parse().unwrap(),
        source_channel: "08-wasm-0".parse().unwrap(),
        destination_port: "transfer".parse().unwrap(),
        destination_channel: "08-wasm-7".parse().unwrap(),
        data: vec![],
        timeout: Timeout::with_timestamp(1),
    }
}

fn incoming() -> Packet {
    Packet {
        sequence: Sequence(1),
        source_port: "transfer".parse().unwrap(),
        source_channel: "08-wasm-7".parse().unwrap(),
        destination_port: "wasm.transferA".parse().unwrap(),
        destination_channel: "08-wasm-0".parse().unwrap(),
        data: vec![],
        timeout: Timeout::with_timestamp(1),
    }
}

const NOTHING: Response = Response { transfer: None, reply_on_error: None, acknowledgement: None };

#[test]
fn transfer_constants() {
    assert_eq!(ICS20_VERSION, "ics20-1");
    assert_eq!(DEFAULT_PORT_ID, "transfer");
    assert_eq!(DEFAULT_TIMEOUT_SECONDS, 600);
    let msg = TransferMsg {
        source_channel: "08-wasm-0".to_string(),
        receiver: "r".to_string(),
        timeout: None,
        memo: None,
    };
    assert_eq!(msg.timeout.unwrap_or(DEFAULT_TIMEOUT_SECONDS), 600);
}

#[test]
fn ics20_packet_validation() {
    assert_eq!(ics20(1, "token").validate(), Ok(()));
    assert_eq!(ics20(u64::MAX as u128, "token").validate(), Ok(()));
    assert_eq!(ics20(0, "token").validate(), Err(TransferError::ZeroAmount));
    assert_eq!(ics20(u64::MAX as u128 + 1, "token").validate(), Err(TransferError::AmountOverflow));
    assert_eq!(ics20(1, "").validate(), Err(TransferError::EmptyDenom));
    let mut packet = ics20(1, "token");
    packet.receiver = String::new();
    assert_eq!(packet.validate(), Err(TransferError::EmptyReceiver));
    let mut packet = ics20(1, "token");
    packet.sender = String::new();
    assert_eq!(packet.validate(), Err(TransferError::EmptySender));
    // The first failing check decides.
    let packet = Ics20Packet {
        amount: 0,
        denom: String::new(),
        receiver: String::new(),
        sender: String::new(),
        memo: None,
    };
    assert_eq!(packet.validate(), Err(TransferError::ZeroAmount));
}

#[test]
fn ics20_packet_try_new() {
    let packet = Ics20Packet::try_new(
        5,
        "token".to_string(),
        "receiver".to_string(),
        "sender".to_string(),
        Some("memo".to_string()),
    )
    .unwrap();
    assert_eq!(packet.amount, 5);
    assert_eq!(packet.memo, Some("memo".to_string()));
    assert_eq!(
        Ics20Packet::try_new(0, "token".to_string(), "r".to_string(), "s".to_string(), None),
        Err(TransferError::ZeroAmount)
    );
}

#[test]
fn ics20_ack() {
    assert_eq!(Ics20Ack::success(), AcknowledgementData::Result(b"1".to_vec()));
    assert_eq!(Ics20Ack::error("boom".to_string()), AcknowledgementData::Error("boom".to_string()));
}

#[test]
fn transfer_error_constructors() {
    assert_eq!(
        TransferError::unexpected_port_id("a", "b"),
        TransferError::UnexpectedPortId { expected: "a".to_string(), actual: "b".to_string() }
    );
    assert_eq!(
        TransferError::unexpected_channel_id("a", "b"),
        TransferError::UnexpectedChannelId { expected: "a".to_string(), actual: "b".to_string() }
    );
    assert_eq!(
        TransferError::insufficient_funds_in_escrow("1", "2"),
        TransferError::InsufficientFundsInEscrow {
            escrowed: "1".to_string(),
            requested: "2".to_string()
        }
    );
}

#[test]
fn voucher_denom_parsing() {
    assert_eq!(parse_voucher_denom("transfer/08-wasm-7/token", "transfer", "08-wasm-7"), Ok("token"));
    assert_eq!(
        parse_voucher_denom("transfer/08-wasm-7/a/b/c", "transfer", "08-wasm-7"),
        Ok("a/b/c")
    );
    assert_eq!(parse_voucher_denom("transfer/08-wasm-7/", "transfer", "08-wasm-7"), Ok(""));
    assert_eq!(
        parse_voucher_denom("token", "transfer", "08-wasm-7"),
        Err(TransferError::NoForeignTokens)
    );
    assert_eq!(
        parse_voucher_denom("transfer/token", "transfer", "08-wasm-7"),
        Err(TransferError::NoForeignTokens)
    );
    assert_eq!(parse_voucher_denom("", "transfer", "08-wasm-7"), Err(TransferError::NoForeignTokens));
    assert_eq!(
        parse_voucher_denom("other/08-wasm-7/token", "transfer", "08-wasm-7"),
        Err(TransferError::UnexpectedPortId {
            expected: "transfer".to_string(),
            actual: "other".to_string()
        })
    );
    assert_eq!(
        parse_voucher_denom("transfer/08-wasm-8/token", "transfer", "08-wasm-7"),
        Err(TransferError::UnexpectedChannelId {
            expected: "08-wasm-7".to_string(),
            actual: "08-wasm-8".to_string()
        })
    );
    assert_eq!(
        parse_voucher_denom("tränsfer/08-wasm-7/tökén", "tränsfer", "08-wasm-7"),
        Ok("tökén")
    );
}

#[test]
fn escrow_reads_and_writes() {
    let mut escrow = Escrow::new();
    assert_eq!(escrow.get("08-wasm-0", "token"), None);
    escrow.set("08-wasm-0", "token", 5);
    escrow.set("08-wasm-0", "other", 7);
    escrow.set("08-wasm-1", "token", 9);
    escrow.set("08-wasm-0", "token", 6);
    assert_eq!(escrow.get("08-wasm-0", "token"), Some(6));
    assert_eq!(escrow.get("08-wasm-0", "other"), Some(7));
    assert_eq!(escrow.get("08-wasm-1", "token"), Some(9));
    assert_eq!(escrow_amount(&escrow, "08-wasm-1", "token"), Ok(9));
    assert_eq!(
        escrow_amount(&escrow, "08-wasm-1", "other"),
        Err(ContractError::NotFound { kind: "escrow".to_string(), key: b"other".to_vec() })
    );
    let listed = escrow.list("08-wasm-0", None, 10);
    assert_eq!(listed.len(), 2);
    assert!(listed.iter().all(|account| account.channel == "08-wasm-0"));
    assert_eq!(escrow.list("08-wasm-0", None, 1).len(), 1);
    assert!(escrow.list("08-wasm-9", None, 10).is_empty());
    assert_eq!(escrow.len(), 3);
    assert_eq!(escrow.account(0).denom, "token");
}

#[test]
fn escrows_are_listed_in_the_order_of_their_tokens() {
    let mut escrow = Escrow::new();
    for (denom, amount) in [("d", 4), ("a", 1), ("c", 3), ("ab", 2), ("e", 5)] {
        escrow.set("08-wasm-0", denom, amount);
    }
    escrow.set("08-wasm-1", "b", 9);
    let denoms = |found: Vec<ibc_lite::transfer::escrow::Account>| -> Vec<(String, u128)> {
        found.into_iter().map(|account| (account.denom, account.amount)).collect()
    };
    let all = vec![
        ("a".to_string(), 1),
        ("ab".to_string(), 2),
        ("c".to_string(), 3),
        ("d".to_string(), 4),
        ("e".to_string(), 5),
    ];
    assert_eq!(denoms(list_escrow(&escrow, "08-wasm-0", None, None)), all);
    assert_eq!(denoms(list_escrow(&escrow, "08-wasm-0", None, Some(2))), all[..2].to_vec());
    assert_eq!(denoms(list_escrow(&escrow, "08-wasm-0", Some("ab"), Some(2))), all[2..4].to_vec());
    assert_eq!(denoms(list_escrow(&escrow, "08-wasm-0", Some("b"), None)), all[2..].to_vec());
    assert_eq!(denoms(list_escrow(&escrow, "08-wasm-0", Some("e"), None)), vec![]);
    assert_eq!(denoms(list_escrow(&escrow, "08-wasm-0", None, Some(0))), vec![]);
    assert_eq!(
        denoms(list_escrow(&escrow, "08-wasm-1", None, None)),
        vec![("b".to_string(), 9)]
    );
    let mut many = Escrow::new();
    for n in 0..15u128 {
        many.set("08-wasm-0", &format!("token{n:02}"), n);
    }
    assert_eq!(list_escrow(&many, "08-wasm-0", None, None).len(), 10);
}

#[test]
fn send_escrows_the_tokens() {
    let mut escrow = Escrow::new();
    let data = ics20(100, "token");
    assert_eq!(
        on_send_packet(&mut escrow, "transferA", &outgoing(), "ics20-1", "transferA", &data),
        Ok(NOTHING)
    );
    assert_eq!(escrow.get("08-wasm-0", "token"), Some(100));
    on_send_packet(&mut escrow, "transferA", &outgoing(), "ics20-1", "transferA", &ics20(5, "token"))
        .unwrap();
    assert_eq!(escrow.get("08-wasm-0", "token"), Some(105));
}

#[test]
fn send_checks_sender_version_port_and_packet() {
    let mut escrow = Escrow::new();
    let data = ics20(100, "token");
    assert_eq!(
        on_send_packet(&mut escrow, "transferA", &outgoing(), "ics20-1", "someone", &data),
        Err(ContractError::Unauthorized)
    );
    assert_eq!(
        on_send_packet(&mut escrow, "transferA", &outgoing(), "ics20-2", "transferA", &data),
        Err(ContractError::TransferError(TransferError::InvalidVersion))
    );
    assert_eq!(
        on_send_packet(&mut escrow, "transferB", &outgoing(), "ics20-1", "transferB", &data),
        Err(ContractError::TransferError(TransferError::UnexpectedPortId {
            expected: "wasm.transferB".to_string(),
            actual: "wasm.transferA".to_string()
        }))
    );
    assert_eq!(
        on_send_packet(&mut escrow, "transferA", &outgoing(), "ics20-1", "transferA", &ics20(0, "token")),
        Err(ContractError::TransferError(TransferError::ZeroAmount))
    );
    escrow.set("08-wasm-0", "token", u128::MAX);
    assert_eq!(
        on_send_packet(&mut escrow, "transferA", &outgoing(), "ics20-1", "transferA", &data),
        Err(ContractError::TransferError(TransferError::AmountOverflow))
    );
    assert_eq!(escrow.get("08-wasm-0", "token"), Some(u128::MAX));
}

#[test]
fn receive_releases_the_tokens() {
    let mut escrow = Escrow::new();
    escrow.set("08-wasm-0", "token", 100);
    let data = ics20(30, "transfer/08-wasm-7/token");
    let response = on_recv_packet(&mut escrow, "transferA", &incoming(), &data).unwrap();
    assert_eq!(escrow.get("08-wasm-0", "token"), Some(70));
    assert_eq!(
        response,
        Response {
            transfer: Some(Cw20Transfer {
                contract_addr: "token".to_string(),
                recipient: "receiver".to_string(),
                amount: 30
            }),
            reply_on_error: Some(RecvPacketReplyPayload {
                channel_id: "08-wasm-0".to_string(),
                denom: "token".to_string(),
                amount: 30
            }),
            acknowledgement: Some(AcknowledgementData::Result(b"1".to_vec())),
        }
    );
}

#[test]
fn receive_needs_enough_in_escrow() {
    let mut escrow = Escrow::new();
    escrow.set("08-wasm-0", "token", 10);
    assert_eq!(
        on_recv_packet(&mut escrow, "transferA", &incoming(), &ics20(30, "transfer/08-wasm-7/token")),
        Err(ContractError::TransferError(TransferError::InsufficientFundsInEscrow {
            escrowed: "10".to_string(),
            requested: "30".to_string()
        }))
    );
    assert_eq!(
        on_recv_packet(&mut escrow, "transferA", &incoming(), &ics20(30, "transfer/08-wasm-7/other")),
        Err(ContractError::TransferError(TransferError::InsufficientFundsInEscrow {
            escrowed: "0".to_string(),
            requested: "30".to_string()
        }))
    );
    assert_eq!(
        on_recv_packet(&mut escrow, "transferA", &incoming(), &ics20(30, "token")),
        Err(ContractError::TransferError(TransferError::NoForeignTokens))
    );
    assert_eq!(
        on_recv_packet(&mut escrow, "transferB", &incoming(), &ics20(30, "transfer/08-wasm-7/token")),
        Err(ContractError::TransferError(TransferError::UnexpectedPortId {
            expected: "wasm.transferB".to_string(),
            actual: "wasm.transferA".to_string()
        }))
    );
    assert_eq!(escrow.get("08-wasm-0", "token"), Some(10));
}

#[test]
fn failed_transfer_restores_the_escrow() {
    let mut escrow = Escrow::new();
    escrow.set("08-wasm-0", "token", 70);
    let payload = RecvPacketReplyPayload {
        channel_id: "08-wasm-0".to_string(),
        denom: "token".to_string(),
        amount: 30,
    };
    let response = on_recv_packet_cw20_transfer(&mut escrow, "no such account".to_string(), &payload)
        .unwrap();
    assert_eq!(escrow.get("08-wasm-0", "token"), Some(100));
    assert_eq!(
        response.acknowledgement,
        Some(AcknowledgementData::Error("no such account".to_string()))
    );
    assert_eq!(response.transfer, None);
}

#[test]
fn acknowledged_success_leaves_escrow() {
    let mut escrow = Escrow::new();
    escrow.set("08-wasm-0", "token", 100);
    let data = ics20(30, "token");
    assert_eq!(
        on_acknowledgement_packet(
            &mut escrow,
            "transferA",
            &outgoing(),
            &data,
            &Ics20Ack::success()
        ),
        Ok(NOTHING)
    );
    assert_eq!(escrow.get("08-wasm-0", "token"), Some(100));
    assert_eq!(success(b"1"), Ok(NOTHING));
    assert_eq!(
        success(&[0xde, 0xad]),
        Err(ContractError::TransferError(TransferError::UnknownAcknowledgement(
            "dead".to_string()
        )))
    );
}

#[test]
fn acknowledged_failure_and_timeout_refund() {
    let mut escrow = Escrow::new();
    escrow.set("08-wasm-0", "token", 100);
    let data = ics20(30, "token");
    let refund = Response {
        transfer: Some(Cw20Transfer {
            contract_addr: "token".to_string(),
            recipient: "sender".to_string(),
            amount: 30,
        }),
        reply_on_error: None,
        acknowledgement: None,
    };
    assert_eq!(
        on_acknowledgement_packet(
            &mut escrow,
            "transferA",
            &outgoing(),
            &data,
            &Ics20Ack::error("failed".to_string())
        ),
        Ok(refund.clone())
    );
    assert_eq!(escrow.get("08-wasm-0", "token"), Some(70));
    assert_eq!(on_timeout_packet(&mut escrow, "transferA", &outgoing(), &data), Ok(refund.clone()));
    assert_eq!(escrow.get("08-wasm-0", "token"), Some(40));
    assert_eq!(error(&mut escrow, "transferA", &outgoing(), &data), Ok(refund));
    assert_eq!(escrow.get("08-wasm-0", "token"), Some(10));
    assert_eq!(
        error(&mut escrow, "transferA", &outgoing(), &data),
        Err(ContractError::TransferError(TransferError::InsufficientFundsInEscrow {
            escrowed: "10".to_string(),
            requested: "30".to_string()
        }))
    );
    assert_eq!(
        error(&mut escrow, "transferB", &outgoing(), &data),
        Err(ContractError::TransferError(TransferError::UnexpectedPortId {
            expected: "wasm.transferB".to_string(),
            actual: "wasm.transferA".to_string()
        }))
    );
    assert_eq!(escrow.get("08-wasm-0", "token"), Some(10));
}

#[test]
fn callbacks_are_for_the_router() {
    let mut escrow = Escrow::new();
    let router = Some("router".to_string());
    let send = TransferCallback::Send {
        packet: outgoing(),
        version: "ics20-1".to_string(),
        sender: "transferA".to_string(),
        data: ics20(100, "token"),
    };
    assert_eq!(
        receive_ibc_callback(&mut escrow, &router, "mallory", "transferA", &send),
        Err(ContractError::OwnershipError(OwnershipError::NotOwner))
    );
    assert_eq!(
        receive_ibc_callback(&mut escrow, &None, "router", "transferA", &send),
        Err(ContractError::OwnershipError(OwnershipError::NoOwner))
    );
    assert_eq!(escrow.get("08-wasm-0", "token"), None);

    assert_eq!(receive_ibc_callback(&mut escrow, &router, "router", "transferA", &send), Ok(NOTHING));
    assert_eq!(escrow.get("08-wasm-0", "token"), Some(100));

    let recv = TransferCallback::Recv {
        packet: incoming(),
        data: ics20(30, "transfer/08-wasm-7/token"),
    };
    let response =
        receive_ibc_callback(&mut escrow, &router, "router", "transferA", &recv).unwrap();
    assert_eq!(response.acknowledgement, Some(Ics20Ack::success()));
    assert_eq!(escrow.get("08-wasm-0", "token"), Some(70));

    let acked = TransferCallback::Acknowledgement {
        packet: outgoing(),
        data: ics20(30, "token"),
        ack: Ics20Ack::success(),
    };
    assert_eq!(receive_ibc_callback(&mut escrow, &router, "router", "transferA", &acked), Ok(NOTHING));
    assert_eq!(escrow.get("08-wasm-0", "token"), Some(70));

    let failed = TransferCallback::Acknowledgement {
        packet: outgoing(),
        data: ics20(30, "token"),
        ack: Ics20Ack::error("failed".to_string()),
    };
    let response =
        receive_ibc_callback(&mut escrow, &router, "router", "transferA", &failed).unwrap();
    assert_eq!(response.transfer.unwrap().recipient, "sender");
    assert_eq!(escrow.get("08-wasm-0", "token"), Some(40));

    let timed_out = TransferCallback::Timeout { packet: outgoing(), data: ics20(40, "token") };
    receive_ibc_callback(&mut escrow, &router, "router", "transferA", &timed_out).unwrap();
    assert_eq!(escrow.get("08-wasm-0", "token"), Some(0));
}

fn host_env(now: u64) -> ibc_lite::host::Env {
    ibc_lite::host::Env {
        block_time_nanos: now,
        block_height: 1,
        contract_address: "transferA".to_string(),
        contract_admin: None,
    }
}

fn transfer_msg(timeout: Option<u64>) -> TransferMsg {
    TransferMsg {
        source_channel: "08-wasm-0".to_string(),
        receiver: "receiver".to_string(),
        timeout,
        memo: Some("memo".to_string()),
    }
}

#[test]
fn received_tokens_become_a_send_request() {
    let router = Some("router".to_string());
    let request = receive(
        false,
        &router,
        &host_env(1_000),
        "token",
        25,
        "holder".to_string(),
        transfer_msg(None),
    )
    .unwrap();
    assert_eq!(request.router, "router");
    assert_eq!(request.source_port, "wasm.transferA");
    assert_eq!(request.source_channel, "08-wasm-0");
    assert_eq!(request.dest_port, "transfer");
    assert_eq!(request.version, "ics20-1");
    assert_eq!(request.timeout, Timeout::with_timestamp(600_000_001_000));
    assert_eq!(
        request.packet,
        Ics20Packet {
            amount: 25,
            denom: "token".to_string(),
            receiver: "receiver".to_string(),
            sender: "holder".to_string(),
            memo: Some("memo".to_string()),
        }
    );
    let request = receive(
        false,
        &router,
        &host_env(1_000),
        "token",
        25,
        "holder".to_string(),
        transfer_msg(Some(2)),
    )
    .unwrap();
    assert_eq!(request.timeout, Timeout::with_timestamp(2_000_001_000));
}

#[test]
fn received_tokens_are_checked() {
    let router = Some("router".to_string());
    let env = host_env(1_000);
    let holder = || "holder".to_string();
    assert_eq!(
        receive(true, &router, &env, "token", 25, holder(), transfer_msg(None)),
        Err(ContractError::TransferError(TransferError::UnexpectedNativeToken))
    );
    assert_eq!(
        receive(false, &None, &env, "token", 25, holder(), transfer_msg(None)),
        Err(ContractError::Unauthorized)
    );
    assert_eq!(
        receive(false, &router, &env, "token", 0, holder(), transfer_msg(None)),
        Err(ContractError::TransferError(TransferError::ZeroAmount))
    );
    assert_eq!(
        receive(false, &router, &env, "token", 25, String::new(), transfer_msg(None)),
        Err(ContractError::TransferError(TransferError::EmptySender))
    );
    assert_eq!(
        receive(false, &router, &env, "token", 25, holder(), transfer_msg(Some(u64::MAX))),
        Err(ContractError::Std("timeout out of range".to_string()))
    );
    assert_eq!(
        receive(false, &router, &host_env(u64::MAX), "token", 25, holder(), transfer_msg(Some(1))),
        Err(ContractError::Std("timeout out of range".to_string()))
    );
    let mut odd = host_env(1_000);
    odd.contract_address = "bad address".to_string();
    assert!(matches!(
        receive(false, &router, &odd, "token", 25, holder(), transfer_msg(None)),
        Err(ContractError::IdentifierError(_))
    ));
}

#[test]
fn decimal_text_of_large_amounts() {
    assert_eq!(decimal_text(0), "0");
    assert_eq!(decimal_text(12345), "12345");
    assert_eq!(decimal_text(u128::MAX), "340282366920938463463374607431768211455");
}
