use ibc_lite::apps::contract_port_id;
use ibc_lite::encoding::parse_decimal;
use ibc_lite::error::ContractError;
use ibc_lite::identifiers::{ChannelId, ClientId, PortId, Sequence};
use ibc_lite::registry::{client_number, ClientRecord, ClientRegistry, CounterpartyInfo};
use std::str::FromStr;

#[test]
fn port_ids_accept_canonical_forms() {
    assert_eq!(PortId::parse("transfer").unwrap().as_str(), "transfer");
    assert_eq!(PortId::parse("wasm.appA").unwrap().as_str(), "wasm.appA");
    assert_eq!(PortId::new("a.b_c+d-e#f[g]<h>".to_string()).unwrap().as_str(), "a.b_c+d-e#f[g]<h>");
    assert_eq!(PortId::parse("ab").unwrap().as_bytes(), b"ab");
}

#[test]
fn port_ids_reject_empty_whitespace_and_slash() {
    for bad in ["", " ", "a b", "tran sfer", "transfer/", "a/b", "\ttransfer", "transfer\n"] {
        assert!(
            matches!(PortId::parse(bad), Err(ContractError::IdentifierError(_))),
            "accepted {bad:?}"
        );
    }
}

#[test]
fn port_ids_are_between_2_and_128_bytes() {
    assert!(PortId::parse("p").is_err());
    assert!(PortId::parse("pp").is_ok());
    assert!(PortId::parse(&"p".repeat(128)).is_ok());
    assert!(PortId::parse(&"p".repeat(129)).is_err());
}

#[test]
fn client_ids_accept_canonical_forms() {
    assert_eq!(ClientId::parse("08-wasm-0").unwrap().as_str(), "08-wasm-0");
    assert_eq!(ClientId::parse("07-tendermint-12").unwrap().as_str(), "07-tendermint-12");
    let channel: ChannelId = "08-wasm-7".parse().unwrap();
    assert_eq!(channel.as_bytes(), b"08-wasm-7");
}

#[test]
fn client_ids_reject_empty_whitespace_and_slash() {
    for bad in ["", "         ", "08-wasm- 0", "08-wasm/0", "08-wasm-0/", "08 wasm 00"] {
        assert!(
            matches!(ClientId::parse(bad), Err(ContractError::IdentifierError(_))),
            "accepted {bad:?}"
        );
    }
}

#[test]
fn client_ids_are_between_9_and_64_bytes() {
    assert!(ClientId::parse("08-wasm-").is_err());
    assert!(ClientId::parse("08-wasm-0").is_ok());
    assert!(ClientId::parse(&"c".repeat(64)).is_ok());
    assert!(ClientId::parse(&"c".repeat(65)).is_err());
}

#[test]
fn identifiers_agree_with_the_host_validators() {
    for candidate in
        ["transfer", "p", "", "a/b", "wasm.cosmos1abc", "ünïcode", "08-wasm-0", "x y", "a#b"]
    {
        assert_eq!(
            PortId::parse(candidate).is_ok(),
            ibc_core_host::types::identifiers::PortId::from_str(candidate).is_ok(),
            "port {candidate:?}"
        );
        assert_eq!(
            ClientId::parse(candidate).is_ok(),
            ibc_core_host::types::identifiers::ClientId::from_str(candidate).is_ok(),
            "client {candidate:?}"
        );
    }
}

#[test]
fn identifiers_clone_and_compare() {
    let port = PortId::parse("transfer").unwrap();
    assert_eq!(port.clone(), port);
    let client = ClientId::parse("08-wasm-0").unwrap();
    assert_eq!(client.clone(), client);
    assert_ne!(client, ClientId::parse("08-wasm-1").unwrap());
}

#[test]
fn sequence_wraps_a_number() {
    let sequence: Sequence = 7.into();
    assert_eq!(sequence.value(), 7);
    assert!(!sequence.is_zero());
    assert!(Sequence(0).is_zero());
    assert_eq!(Sequence::from(3), Sequence(3));
}

#[test]
fn sequences_parse_in_canonical_form_only() {
    assert_eq!(Sequence::parse("0"), Ok(Sequence(0)));
    assert_eq!(Sequence::parse("1"), Ok(Sequence(1)));
    assert_eq!(Sequence::parse("18446744073709551615"), Ok(Sequence(u64::MAX)));
    assert_eq!("42".parse::<Sequence>(), Ok(Sequence(42)));
    for bad in ["", " ", "01", "+1", "-1", "1 ", " 1", "1/2", "0x10", "18446744073709551616", "१"] {
        assert_eq!(
            Sequence::parse(bad),
            Err(ContractError::IdentifierError("invalid sequence".to_string())),
            "accepted {bad:?}"
        );
    }
}

#[test]
fn client_numbers_are_read_back() {
    assert_eq!(client_number("08-wasm-0"), Some(0));
    assert_eq!(client_number("08-wasm-17"), Some(17));
    assert_eq!(client_number("08-wasm-18446744073709551615"), Some(u64::MAX));
    for bad in ["", "08-wasm-", "08-wasm-01", "08-wasm-x", "07-wasm-1", "08-wasm-1 ", "wasm"] {
        assert_eq!(client_number(bad), None, "read {bad:?}");
    }
    assert_eq!(decimal_string_of(parse_decimal("77")), "77");
    assert_eq!(parse_decimal("077"), None);
}

fn decimal_string_of(number: Option<u64>) -> String {
    ibc_lite::encoding::decimal_string(number.unwrap())
}

#[test]
fn registry_snapshot_holds_one_client() {
    let record = || ClientRecord {
        address: "addr".to_string(),
        creator: "alice".to_string(),
        counterparty: Some(CounterpartyInfo {
            client_id: "08-wasm-7".to_string(),
            merkle_path_prefix: None,
        }),
    };
    let registry = ClientRegistry::with_client(None, "08-wasm-3", record()).unwrap();
    assert_eq!(registry.client_address("08-wasm-3"), Ok("addr".to_string()));
    assert_eq!(registry.counterparty("08-wasm-3").unwrap().client_id, "08-wasm-7");
    assert!(registry.client_address("08-wasm-2").is_err());
    assert_eq!(registry.next_client_number(), 4);
    assert!(ClientRegistry::with_client(None, "not-a-client", record()).is_none());
    assert!(ClientRegistry::with_client(None, "08-wasm-18446744073709551615", record()).is_none());

    let restored = ClientRegistry::restore(Some("owner".to_string()), vec![record(), record()]);
    assert_eq!(restored.next_client_number(), 2);
    assert_eq!(restored.owner(), Some("owner".to_string()));
    assert_eq!(restored.client_info("08-wasm-1").unwrap().creator, "alice");
    assert!(restored.client_info("08-wasm-2").is_err());
    assert_eq!(restored.next_client_id(), "08-wasm-2");
}

#[test]
fn contract_port_is_wasm_dot_address() {
    assert_eq!(contract_port_id("appA").unwrap().as_str(), "wasm.appA");
    assert_eq!(contract_port_id("cosmos1xyz").unwrap().as_str(), "wasm.cosmos1xyz");
    assert!(matches!(contract_port_id("bad/address"), Err(ContractError::IdentifierError(_))));
    assert!(matches!(contract_port_id("bad address"), Err(ContractError::IdentifierError(_))));
}
