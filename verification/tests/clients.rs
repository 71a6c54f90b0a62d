use ibc_lite::apps::IbcApplicationContract;
use ibc_lite::callbacks::IbcAppCallbackMsg;
use ibc_lite::clients::{
    CheckForMisbehaviour, ExecuteMsg, ExportMetadata, GenesisMetadata, InstantiateMsg,
    LightClientCode, LightClientContract, QueryClient, QueryMsg, QueryResponse, Status,
    TimestampAtHeight,
    VerifyClientMessage, VerifyMembershipMsg, VerifyNonMembershipMsg,
};
use ibc_lite::error::{ContractError, OwnershipError};
use ibc_lite::helpers::{
    CwTemplateContract, Ics02ClientCode, Ics02ClientContract, Ics02ClientContractQuerier,
    Ics07TendermintCode, Ics07TendermintContract, LightClientContractQuerier,
};
use ibc_lite::ibc::{Height, Packet, Timeout};
use ibc_lite::identifiers::Sequence;
use ibc_lite::paths::MerklePath;
use ibc_lite::registry::{
    ExecuteMsg as RegistryExecuteMsg, QueryMsg as RegistryQueryMsg, RegistryInstantiateMsg,
};
use ibc_lite::host::assert_owner;
use ibc_lite::tendermint::{
    execute, query, Routed, SudoMsg, TendermintClient, TendermintInstantiateMsg,
    TendermintQueryMsg,
};
use ibc_lite::wasm::{predict_address, smart_raw, RawQueryOutcome, WasmMsg, WasmQuery};

fn answer() -> QueryResponse {
    QueryResponse {
        is_valid: true,
        status: None,
        genesis_metadata: None,
        found_misbehaviour: None,
        timestamp: None,
    }
}

fn unreadable(target: &str) -> ContractError {
    ContractError::TryFrom { source_type: "QueryResponse".to_string(), target_type: target.to_string() }
}

fn height() -> Height {
    Height { revision_number: 1, revision_height: 9 }
}

fn membership() -> VerifyMembershipMsg {
    VerifyMembershipMsg {
        proof: vec![1],
        path: MerklePath { key_path: vec!["a".to_string()] },
        value: vec![2],
        height: height(),
        delay_block_period: 0,
        delay_time_period: 0,
    }
}

fn non_membership() -> VerifyNonMembershipMsg {
    VerifyNonMembershipMsg {
        proof: vec![1],
        path: MerklePath { key_path: vec!["a".to_string()] },
        height: height(),
        delay_block_period: 0,
        delay_time_period: 0,
    }
}

#[test]
fn status_from_answer() {
    let mut response = answer();
    response.status = Some("Active".to_string());
    assert_eq!(Status::try_from(response.clone()), Ok(Status { status: "Active".to_string() }));
    response.is_valid = false;
    assert_eq!(Status::try_from(response), Err(unreadable("Status")));
    assert_eq!(Status::try_from(answer()), Err(unreadable("Status")));
}

#[test]
fn export_metadata_from_answer() {
    let metadata = vec![GenesisMetadata { key: vec![1], value: vec![2] }];
    let mut response = answer();
    response.genesis_metadata = Some(metadata.clone());
    assert_eq!(ExportMetadata::try_from(response.clone()), Ok(ExportMetadata { metadata }));
    response.is_valid = false;
    assert_eq!(ExportMetadata::try_from(response), Err(unreadable("ExportMetadata")));
    assert_eq!(ExportMetadata::try_from(answer()), Err(unreadable("ExportMetadata")));
}

#[test]
fn timestamp_at_height_from_answer() {
    let mut response = answer();
    response.timestamp = Some(77);
    assert_eq!(TimestampAtHeight::try_from(response.clone()), Ok(TimestampAtHeight { timestamp: 77 }));
    response.is_valid = false;
    assert_eq!(TimestampAtHeight::try_from(response), Err(unreadable("TimestampAtHeight")));
    assert_eq!(TimestampAtHeight::try_from(answer()), Err(unreadable("TimestampAtHeight")));
}

#[test]
fn verify_client_message_from_answer() {
    assert_eq!(VerifyClientMessage::try_from(answer()), Ok(VerifyClientMessage { is_valid: true }));
    let mut response = answer();
    response.is_valid = false;
    assert_eq!(VerifyClientMessage::try_from(response), Err(unreadable("VerifyClientMessage")));
}

#[test]
fn check_for_misbehaviour_from_answer() {
    let mut response = answer();
    response.found_misbehaviour = Some(false);
    assert_eq!(
        CheckForMisbehaviour::try_from(response.clone()),
        Ok(CheckForMisbehaviour { found_misbehaviour: false })
    );
    response.found_misbehaviour = Some(true);
    assert_eq!(
        CheckForMisbehaviour::try_from(response.clone()),
        Ok(CheckForMisbehaviour { found_misbehaviour: true })
    );
    response.is_valid = false;
    assert_eq!(CheckForMisbehaviour::try_from(response), Err(unreadable("CheckForMisbehaviour")));
    assert_eq!(CheckForMisbehaviour::try_from(answer()), Err(unreadable("CheckForMisbehaviour")));
}

#[test]
fn query_client_reads_the_answer_by_kind() {
    let mut response = answer();
    response.status = Some("Frozen".to_string());
    response.timestamp = Some(5);
    assert_eq!(
        QueryClient::try_from(&QueryMsg::Status, response.clone()),
        Ok(QueryClient::Status(Status { status: "Frozen".to_string() }))
    );
    assert_eq!(
        QueryClient::try_from(&QueryMsg::TimestampAtHeight { height: height() }, response.clone()),
        Ok(QueryClient::TimestampAtHeight(TimestampAtHeight { timestamp: 5 }))
    );
    assert_eq!(
        QueryClient::try_from(
            &QueryMsg::VerifyClientMessage { client_message: vec![] },
            response.clone()
        ),
        Ok(QueryClient::VerifyClientMessage(VerifyClientMessage { is_valid: true }))
    );
    assert_eq!(
        QueryClient::try_from(&QueryMsg::ExportMetadata, response.clone()),
        Err(unreadable("ExportMetadata"))
    );
    assert_eq!(
        QueryClient::try_from(
            &QueryMsg::CheckForMisbehaviour { client_message: vec![] },
            response.clone()
        ),
        Err(unreadable("CheckForMisbehaviour"))
    );
    assert_eq!(
        QueryClient::try_from(&QueryMsg::Ownership, response.clone()),
        Err(ContractError::TryFrom {
            source_type: "QueryMsg".to_string(),
            target_type: "QueryClient".to_string()
        })
    );
    assert!(QueryClient::try_from(&QueryMsg::VerifyMembership(membership()), response).is_err());
}

#[test]
fn contract_error_constructors() {
    assert_eq!(
        ContractError::not_found("client", vec![1, 2]),
        ContractError::NotFound { kind: "client".to_string(), key: vec![1, 2] }
    );
    assert_eq!(
        ContractError::try_from("A", "B"),
        ContractError::TryFrom { source_type: "A".to_string(), target_type: "B".to_string() }
    );
    assert_eq!(
        ContractError::invalid_counterparty("a".to_string(), "b".to_string()),
        ContractError::InvalidCounterparty { expected: "a".to_string(), actual: "b".to_string() }
    );
    assert_eq!(
        ContractError::invalid_timeout_timestamp(2, 1),
        ContractError::InvalidTimeoutTimestamp { current: 2, timestamp: 1 }
    );
    assert_eq!(
        ContractError::packet_already_commited(vec![1]),
        ContractError::PacketAlreadyCommited { key: vec![1] }
    );
    assert_eq!(
        ContractError::packet_commitment_mismatch(vec![1], vec![2]),
        ContractError::PacketCommitmentMismatch { expected: vec![1], provided: vec![2] }
    );
    assert_eq!(
        ContractError::packet_commitment_not_found(vec![1]),
        ContractError::PacketCommitmentNotFound { key: vec![1] }
    );
}

#[test]
fn code_handles() {
    assert_eq!(LightClientCode::new(7).code_id(), 7);
    assert_eq!(Ics02ClientCode::new(8).code_id(), 8);
    assert_eq!(Ics07TendermintCode::new(9).code_id(), 9);
    let init = InstantiateMsg { client_state: vec![1], consensus_state: vec![2] };
    assert_eq!(
        LightClientCode::new(7).instantiate(init.clone(), "label".to_string(), None),
        WasmMsg::Instantiate { admin: None, code_id: 7, msg: init.clone(), label: "label".to_string() }
    );
    assert_eq!(
        Ics07TendermintCode::new(9).instantiate(
            init.clone(),
            "label".to_string(),
            Some("admin".to_string())
        ),
        WasmMsg::Instantiate {
            admin: Some("admin".to_string()),
            code_id: 9,
            msg: init,
            label: "label".to_string()
        }
    );
    assert_eq!(
        Ics02ClientCode::new(8).instantiate(RegistryInstantiateMsg {}, "r".to_string(), None),
        WasmMsg::Instantiate {
            admin: None,
            code_id: 8,
            msg: RegistryInstantiateMsg {},
            label: "r".to_string()
        }
    );
}

#[test]
fn instantiate2_derives_the_address() {
    let checksum = [0x9a; 32];
    let creator = [0x11; 20];
    let expected: Vec<u8> = cosmwasm_std::instantiate2_address(
        &checksum,
        &cosmwasm_std::CanonicalAddr::from(&creator[..]),
        b"08-wasm-0",
    )
    .unwrap()
    .into();
    assert_eq!(expected.len(), 32);
    assert_eq!(predict_address(&checksum, &creator, "08-wasm-0"), Ok(expected.clone()));
    assert_ne!(predict_address(&checksum, &creator, "08-wasm-1"), Ok(expected.clone()));

    let init = InstantiateMsg { client_state: vec![1], consensus_state: vec![2] };
    let (message, address) = LightClientCode::new(7)
        .instantiate2(
            &checksum,
            &creator,
            init.clone(),
            "08-wasm-0".to_string(),
            Some("registry".to_string()),
            "08-wasm-0",
        )
        .unwrap();
    assert_eq!(address, expected);
    assert_eq!(
        message,
        WasmMsg::Instantiate2 {
            admin: Some("registry".to_string()),
            code_id: 7,
            label: "08-wasm-0".to_string(),
            msg: init.clone(),
            salt: b"08-wasm-0".to_vec()
        }
    );
    let (_, address) = Ics07TendermintCode::new(7)
        .instantiate2(&checksum, &creator, init, "l".to_string(), None, "08-wasm-0")
        .unwrap();
    assert_eq!(address, expected);
    let (_, address) = Ics02ClientCode::new(7)
        .instantiate2(&checksum, &creator, RegistryInstantiateMsg {}, "l".to_string(), None, "08-wasm-0")
        .unwrap();
    assert_eq!(address, expected);
}

#[test]
fn instantiate2_rejects_bad_checksum_and_salt() {
    let creator = [0x11; 20];
    assert_eq!(
        predict_address(&[0x9a; 31], &creator, "salt"),
        Err(ContractError::Std("invalid checksum length".to_string()))
    );
    assert_eq!(
        predict_address(&[0x9a; 32], &creator, ""),
        Err(ContractError::Std("invalid salt length".to_string()))
    );
    assert_eq!(
        predict_address(&[0x9a; 32], &creator, &"s".repeat(65)),
        Err(ContractError::Std("invalid salt length".to_string()))
    );
    assert!(predict_address(&[0x9a; 32], &creator, &"s".repeat(64)).is_ok());
}

#[test]
fn contract_handles_address_their_contract() {
    let client = LightClientContract::new("client".to_string());
    assert_eq!(client.addr(), "client");
    let update = ExecuteMsg::UpdateState { client_message: vec![1] };
    assert_eq!(
        client.call(update.clone()),
        WasmMsg::Execute { contract_addr: "client".to_string(), msg: update.clone() }
    );
    assert_eq!(
        client.update_admin("admin".to_string()),
        WasmMsg::UpdateAdmin { contract_addr: "client".to_string(), admin: "admin".to_string() }
    );
    assert_eq!(client.clear_admin(), WasmMsg::ClearAdmin { contract_addr: "client".to_string() });

    let tendermint = Ics07TendermintContract::new("tm".to_string());
    assert_eq!(tendermint.addr(), "tm");
    assert_eq!(
        tendermint.call(update.clone()),
        WasmMsg::Execute { contract_addr: "tm".to_string(), msg: update }
    );
    assert_eq!(tendermint.clear_admin(), WasmMsg::ClearAdmin { contract_addr: "tm".to_string() });
    assert_eq!(
        tendermint.update_admin("a".to_string()),
        WasmMsg::UpdateAdmin { contract_addr: "tm".to_string(), admin: "a".to_string() }
    );

    let registry = Ics02ClientContract::new("registry".to_string());
    assert_eq!(registry.addr(), "registry");
    let migrate = RegistryExecuteMsg::MigrateClient {
        subject_client_id: "08-wasm-0".to_string(),
        substitute_client_id: "08-wasm-1".to_string(),
    };
    match registry.call(migrate) {
        WasmMsg::Execute { contract_addr, msg } => {
            assert_eq!(contract_addr, "registry");
            assert!(matches!(msg, RegistryExecuteMsg::MigrateClient { .. }));
        }
        other => panic!("unexpected {other:?}"),
    }
    assert_eq!(registry.clear_admin(), WasmMsg::ClearAdmin { contract_addr: "registry".to_string() });
    assert_eq!(
        registry.update_admin("a".to_string()),
        WasmMsg::UpdateAdmin { contract_addr: "registry".to_string(), admin: "a".to_string() }
    );

    let app = IbcApplicationContract::new("app".to_string());
    assert_eq!(app.addr(), "app");
    let packet = Packet {
        sequence: Sequence(1),
        source_port: "transfer".parse().unwrap(),
        source_channel: "08-wasm-0".parse().unwrap(),
        destination_port: "transfer".parse().unwrap(),
        destination_channel: "08-wasm-1".parse().unwrap(),
        data: vec![],
        timeout: Timeout::with_timestamp(1),
    };
    let callback =
        IbcAppCallbackMsg::OnTimeoutPacket { packet: packet.clone(), relayer: "r".to_string() };
    assert_eq!(
        IbcAppCallbackMsg::OnRecvPacket { packet: packet.clone(), relayer: "r".to_string() }
            .into_cosmos_msg("app".to_string()),
        WasmMsg::Execute {
            contract_addr: "app".to_string(),
            msg: IbcAppCallbackMsg::OnRecvPacket { packet, relayer: "r".to_string() }
        }
    );
    match app.call(callback) {
        WasmMsg::Execute { contract_addr, msg } => {
            assert_eq!(contract_addr, "app");
            assert!(matches!(msg, IbcAppCallbackMsg::OnTimeoutPacket { .. }));
        }
        other => panic!("unexpected {other:?}"),
    }
    assert_eq!(app.clear_admin(), WasmMsg::ClearAdmin { contract_addr: "app".to_string() });
    assert_eq!(
        app.update_admin("a".to_string()),
        WasmMsg::UpdateAdmin { contract_addr: "app".to_string(), admin: "a".to_string() }
    );

    let template = CwTemplateContract("any".to_string());
    assert_eq!(template.addr(), "any");
    assert_eq!(
        template.call(5u8),
        WasmMsg::Execute { contract_addr: "any".to_string(), msg: 5u8 }
    );
}

#[test]
fn queriers_put_questions_to_their_contract() {
    let registry = Ics02ClientContract::new("registry".to_string()).query();
    assert_eq!(
        registry.client_info("08-wasm-0".to_string()),
        WasmQuery {
            contract_addr: "registry".to_string(),
            msg: RegistryQueryMsg::ClientInfo { client_id: "08-wasm-0".to_string() }
        }
    );
    assert_eq!(
        registry.counterparty("08-wasm-0".to_string()),
        WasmQuery {
            contract_addr: "registry".to_string(),
            msg: RegistryQueryMsg::Counterparty { client_id: "08-wasm-0".to_string() }
        }
    );
    assert_eq!(
        Ics02ClientContractQuerier::new("registry".to_string())
            .query_client("08-wasm-0".to_string(), QueryMsg::Status),
        WasmQuery {
            contract_addr: "registry".to_string(),
            msg: RegistryQueryMsg::QueryClient {
                client_id: "08-wasm-0".to_string(),
                query: QueryMsg::Status
            }
        }
    );

    let client = registry.client_querier("client".to_string());
    assert_eq!(client, LightClientContractQuerier::new("client".to_string()));
    let ask = |msg: QueryMsg| WasmQuery { contract_addr: "client".to_string(), msg };
    assert_eq!(client.status(), ask(QueryMsg::Status));
    assert_eq!(client.export_metadata(), ask(QueryMsg::ExportMetadata));
    assert_eq!(client.ownership(), ask(QueryMsg::Ownership));
    assert_eq!(
        client.timestamp_at_height(height()),
        ask(QueryMsg::TimestampAtHeight { height: height() })
    );
    assert_eq!(
        client.verify_client_message(vec![1]),
        ask(QueryMsg::VerifyClientMessage { client_message: vec![1] })
    );
    assert_eq!(
        client.check_for_misbehaviour(vec![1]),
        ask(QueryMsg::CheckForMisbehaviour { client_message: vec![1] })
    );
    assert_eq!(client.verify_membership(membership()), ask(QueryMsg::VerifyMembership(membership())));
    assert_eq!(
        client.verify_non_membership(non_membership()),
        ask(QueryMsg::VerifyNonMembership(non_membership()))
    );
    assert_eq!(
        Ics07TendermintContract::new("tm".to_string()).query().status(),
        WasmQuery { contract_addr: "tm".to_string(), msg: QueryMsg::Status }
    );
}

#[test]
fn raw_query_outcomes() {
    assert_eq!(smart_raw(RawQueryOutcome::Answer(vec![1, 2])), Ok(vec![1, 2]));
    assert_eq!(
        smart_raw(RawQueryOutcome::SystemError("no such contract".to_string())),
        Err(ContractError::Std("Querier system error: no such contract".to_string()))
    );
    assert_eq!(
        smart_raw(RawQueryOutcome::ContractError("bad query".to_string())),
        Err(ContractError::Std("Querier contract error: bad query".to_string()))
    );
}

#[test]
fn tendermint_routes_questions() {
    assert_eq!(query(QueryMsg::Status), Routed::Query(TendermintQueryMsg::Status));
    assert_eq!(query(QueryMsg::ExportMetadata), Routed::Query(TendermintQueryMsg::ExportMetadata));
    assert_eq!(
        query(QueryMsg::TimestampAtHeight { height: height() }),
        Routed::Query(TendermintQueryMsg::TimestampAtHeight { height: height() })
    );
    assert_eq!(
        query(QueryMsg::VerifyClientMessage { client_message: vec![1] }),
        Routed::Query(TendermintQueryMsg::VerifyClientMessage { client_message: vec![1] })
    );
    assert_eq!(
        query(QueryMsg::CheckForMisbehaviour { client_message: vec![1] }),
        Routed::Query(TendermintQueryMsg::CheckForMisbehaviour { client_message: vec![1] })
    );
    assert_eq!(
        query(QueryMsg::VerifyMembership(membership())),
        Routed::Sudo(SudoMsg::VerifyMembership(membership()))
    );
    assert_eq!(
        query(QueryMsg::VerifyNonMembership(non_membership())),
        Routed::Sudo(SudoMsg::VerifyNonMembership(non_membership()))
    );
    assert_eq!(query(QueryMsg::Ownership), Routed::Ownership);
}

#[test]
fn tendermint_conversions() {
    assert_eq!(TendermintQueryMsg::try_from(QueryMsg::Status), Ok(TendermintQueryMsg::Status));
    assert_eq!(
        TendermintQueryMsg::try_from(QueryMsg::VerifyMembership(membership())),
        Err(ContractError::TryFrom {
            source_type: "QueryMsg".to_string(),
            target_type: "QueryMsg".to_string()
        })
    );
    assert_eq!(
        SudoMsg::try_from(QueryMsg::VerifyNonMembership(non_membership())),
        Ok(SudoMsg::VerifyNonMembership(non_membership()))
    );
    assert_eq!(
        SudoMsg::try_from(QueryMsg::Status),
        Err(ContractError::TryFrom {
            source_type: "QueryMsg".to_string(),
            target_type: "SudoMsg".to_string()
        })
    );
    assert_eq!(
        SudoMsg::from(ExecuteMsg::UpdateState { client_message: vec![1] }),
        SudoMsg::UpdateState { client_message: vec![1] }
    );
    assert_eq!(
        SudoMsg::from(ExecuteMsg::UpdateStateOnMisbehaviour { client_message: vec![2] }),
        SudoMsg::UpdateStateOnMisbehaviour { client_message: vec![2] }
    );
    assert_eq!(
        SudoMsg::from(ExecuteMsg::VerifyUpgradeAndUpdateState {
            upgrade_client_state: vec![1],
            upgrade_consensus_state: vec![2],
            proof_upgrade_client: vec![3],
            proof_upgrade_consensus_state: vec![4],
        }),
        SudoMsg::VerifyUpgradeAndUpdateState {
            upgrade_client_state: vec![1],
            upgrade_consensus_state: vec![2],
            proof_upgrade_client: vec![3],
            proof_upgrade_consensus_state: vec![4],
        }
    );
    let native = TendermintInstantiateMsg::from(InstantiateMsg {
        client_state: vec![1],
        consensus_state: vec![2],
    });
    assert_eq!(
        native,
        TendermintInstantiateMsg { client_state: vec![1], consensus_state: vec![2], checksum: vec![] }
    );
    assert_eq!(TendermintClient, TendermintClient.clone());
}

#[test]
fn tendermint_execute_is_for_the_owner() {
    let owner = Some("registry".to_string());
    let update = ExecuteMsg::UpdateState { client_message: vec![1] };
    assert_eq!(
        execute(&owner, "registry", update.clone()),
        Ok(SudoMsg::UpdateState { client_message: vec![1] })
    );
    assert_eq!(
        execute(&owner, "mallory", update.clone()),
        Err(ContractError::OwnershipError(OwnershipError::NotOwner))
    );
    assert_eq!(
        execute(&None, "registry", update),
        Err(ContractError::OwnershipError(OwnershipError::NoOwner))
    );
    assert_eq!(assert_owner(&owner, "registry"), Ok(()));
}
