use ibc_lite::clients::{ExecuteMsg as ClientExecuteMsg, InstantiateMsg, QueryMsg as ClientQueryMsg};
use ibc_lite::error::{ContractError, OwnershipError};
use ibc_lite::host::{Env, MessageInfo};
use ibc_lite::paths::MerklePath;
use ibc_lite::registry::{
    execute, query, ClientRegistry, CounterpartyInfo, ExecuteMsg, QueryMsg, QueryResponse,
    RegistryInstantiateMsg,
};
use ibc_lite::wasm::WasmMsg;

fn env() -> Env {
    Env {
        block_time_nanos: 1_700_000_000_000_000_000,
        block_height: 10,
        contract_address: "registry".to_string(),
        contract_admin: None,
    }
}

fn info(sender: &str) -> MessageInfo {
    MessageInfo { sender: sender.to_string() }
}

fn init_msg() -> InstantiateMsg {
    InstantiateMsg { client_state: vec![1, 2], consensus_state: vec![3] }
}

fn counterparty(id: &str) -> CounterpartyInfo {
    CounterpartyInfo { client_id: id.to_string(), merkle_path_prefix: None }
}

fn attribute<'a>(event: &'a ibc_lite::events::Event, key: &str) -> &'a str {
    event
        .attributes
        .iter()
        .find(|a| a.key == key)
        .map(|a| a.value.as_str())
        .unwrap_or_else(|| panic!("no attribute {key}"))
}

#[test]
fn create_client_issues_identifiers_in_order() {
    let mut registry = ClientRegistry::instantiate(&info("router"), RegistryInstantiateMsg {});
    assert_eq!(registry.owner(), Some("router".to_string()));
    assert_eq!(registry.next_client_id(), "08-wasm-0");

    let first = registry
        .create_client(&env(), &info("alice"), 5, init_msg(), None, "addr0".to_string())
        .unwrap();
    assert_eq!(first.client_id, Some("08-wasm-0".to_string()));
    assert_eq!(registry.next_client_id(), "08-wasm-1");

    let second = registry
        .create_client(
            &env(),
            &info("bob"),
            5,
            init_msg(),
            Some(counterparty("08-wasm-7")),
            "addr1".to_string(),
        )
        .unwrap();
    assert_eq!(second.client_id, Some("08-wasm-1".to_string()));

    let record = registry.client_info("08-wasm-0").unwrap();
    assert_eq!(record.client_id, "08-wasm-0");
    assert_eq!(record.address, "addr0");
    assert_eq!(record.creator, "alice");
    assert_eq!(record.counterparty_info, None);

    let record = registry.client_info("08-wasm-1").unwrap();
    assert_eq!(record.address, "addr1");
    assert_eq!(record.creator, "bob");
    assert_eq!(record.counterparty_info, Some(counterparty("08-wasm-7")));
}

#[test]
fn create_client_asks_for_the_implementation() {
    let mut registry = ClientRegistry::new(Some("router".to_string()));
    let response = registry
        .create_client(&env(), &info("alice"), 42, init_msg(), None, "addr0".to_string())
        .unwrap();
    assert_eq!(
        response.instantiate,
        Some(WasmMsg::Instantiate2 {
            admin: Some("registry".to_string()),
            code_id: 42,
            label: "08-wasm-0".to_string(),
            msg: init_msg(),
            salt: b"08-wasm-0".to_vec(),
        })
    );
    assert_eq!(response.execute, None);
}

#[test]
fn create_client_event() {
    let mut registry = ClientRegistry::new(Some("router".to_string()));
    let response = registry
        .create_client(&env(), &info("alice"), 42, init_msg(), None, "addr0".to_string())
        .unwrap();
    let event = response.event.unwrap();
    assert_eq!(event.ty, "create_client");
    assert_eq!(event.attributes.len(), 5);
    assert_eq!(attribute(&event, "client_id"), "08-wasm-0");
    assert_eq!(attribute(&event, "counterparty_id"), "");
    assert_eq!(attribute(&event, "counterparty_merkle_prefix"), "");
    assert_eq!(attribute(&event, "creator"), "alice");
    assert_eq!(attribute(&event, "contract_address"), "addr0");

    let prefixed = CounterpartyInfo {
        client_id: "08-wasm-7".to_string(),
        merkle_path_prefix: Some(MerklePath { key_path: vec!["ibc".to_string(), "".to_string()] }),
    };
    let response = registry
        .create_client(&env(), &info("alice"), 42, init_msg(), Some(prefixed), "addr1".to_string())
        .unwrap();
    let event = response.event.unwrap();
    assert_eq!(attribute(&event, "client_id"), "08-wasm-1");
    assert_eq!(attribute(&event, "counterparty_id"), "08-wasm-7");
    assert_eq!(attribute(&event, "counterparty_merkle_prefix"), "[\"ibc\", \"\"]");
}

#[test]
fn counterparty_rebind_forbidden() {
    let mut registry = ClientRegistry::new(Some("router".to_string()));
    registry
        .create_client(
            &env(),
            &info("alice"),
            1,
            init_msg(),
            Some(counterparty("08-wasm-10")),
            "addr0".to_string(),
        )
        .unwrap();
    assert_eq!(
        registry.provide_counterparty(&info("alice"), "08-wasm-0", counterparty("08-wasm-11")),
        Err(ContractError::CounterpartyAlreadyProvided)
    );
    assert_eq!(registry.counterparty("08-wasm-0"), Ok(counterparty("08-wasm-10")));
}

#[test]
fn provide_counterparty_once_by_creator() {
    let mut registry = ClientRegistry::new(Some("router".to_string()));
    registry
        .create_client(&env(), &info("alice"), 1, init_msg(), None, "addr0".to_string())
        .unwrap();
    assert_eq!(
        registry.counterparty("08-wasm-0"),
        Err(ContractError::NotFound {
            kind: "counterparty".to_string(),
            key: b"08-wasm-0".to_vec()
        })
    );
    assert_eq!(
        registry.provide_counterparty(&info("mallory"), "08-wasm-0", counterparty("08-wasm-7")),
        Err(ContractError::Unauthorized)
    );
    assert_eq!(
        registry.provide_counterparty(&info("alice"), "08-wasm-9", counterparty("08-wasm-7")),
        Err(ContractError::NotFound { kind: "creator".to_string(), key: b"08-wasm-9".to_vec() })
    );
    let response = registry
        .provide_counterparty(&info("alice"), "08-wasm-0", counterparty("08-wasm-7"))
        .unwrap();
    let event = response.event.unwrap();
    assert_eq!(event.ty, "provide_counterparty");
    assert_eq!(attribute(&event, "client_id"), "08-wasm-0");
    assert_eq!(attribute(&event, "counterparty_id"), "08-wasm-7");
    assert_eq!(attribute(&event, "counterparty_merkle_prefix"), "");
    assert_eq!(registry.counterparty("08-wasm-0"), Ok(counterparty("08-wasm-7")));
    assert_eq!(
        registry.provide_counterparty(&info("alice"), "08-wasm-0", counterparty("08-wasm-8")),
        Err(ContractError::CounterpartyAlreadyProvided)
    );
}

#[test]
fn assert_creator_checks_the_record() {
    let mut registry = ClientRegistry::new(None);
    registry
        .create_client(&env(), &info("alice"), 1, init_msg(), None, "addr0".to_string())
        .unwrap();
    assert_eq!(registry.assert_creator("08-wasm-0", "alice"), Ok(()));
    assert_eq!(registry.assert_creator("08-wasm-0", "bob"), Err(ContractError::Unauthorized));
    assert!(matches!(
        registry.assert_creator("08-wasm-1", "alice"),
        Err(ContractError::NotFound { .. })
    ));
}

#[test]
fn migrate_client_is_for_the_owner() {
    let mut registry = ClientRegistry::new(Some("router".to_string()));
    registry
        .create_client(
            &env(),
            &info("alice"),
            1,
            init_msg(),
            Some(counterparty("08-wasm-7")),
            "addr0".to_string(),
        )
        .unwrap();
    registry
        .create_client(&env(), &info("bob"), 2, init_msg(), None, "addr1".to_string())
        .unwrap();

    assert_eq!(
        registry.migrate_client(&info("alice"), "08-wasm-0", "08-wasm-1"),
        Err(ContractError::OwnershipError(OwnershipError::NotOwner))
    );
    assert_eq!(
        registry.migrate_client(&info("router"), "08-wasm-5", "08-wasm-1"),
        Err(ContractError::NotFound { kind: "client".to_string(), key: b"08-wasm-5".to_vec() })
    );
    assert_eq!(
        registry.migrate_client(&info("router"), "08-wasm-0", "08-wasm-5"),
        Err(ContractError::NotFound { kind: "client".to_string(), key: b"08-wasm-5".to_vec() })
    );
    assert_eq!(registry.client_address("08-wasm-0"), Ok("addr0".to_string()));

    let response = registry.migrate_client(&info("router"), "08-wasm-0", "08-wasm-1").unwrap();
    let event = response.event.unwrap();
    assert_eq!(event.ty, "migrate_client");
    assert_eq!(attribute(&event, "subject_client_id"), "08-wasm-0");
    assert_eq!(attribute(&event, "substitute_client_id"), "08-wasm-1");
    assert_eq!(attribute(&event, "substitute_client_address"), "addr1");

    let record = registry.client_info("08-wasm-0").unwrap();
    assert_eq!(record.address, "addr1");
    assert_eq!(record.creator, "alice");
    assert_eq!(record.counterparty_info, Some(counterparty("08-wasm-7")));
    assert_eq!(registry.client_address("08-wasm-1"), Ok("addr1".to_string()));
    // The counter is not reused: the next client still gets a fresh identifier.
    assert_eq!(registry.next_client_id(), "08-wasm-2");
}

#[test]
fn migrate_client_without_owner() {
    let mut registry = ClientRegistry::new(None);
    registry
        .create_client(&env(), &info("alice"), 1, init_msg(), None, "addr0".to_string())
        .unwrap();
    assert_eq!(
        registry.migrate_client(&info("alice"), "08-wasm-0", "08-wasm-0"),
        Err(ContractError::OwnershipError(OwnershipError::NoOwner))
    );
}

#[test]
fn execute_client_forwards_to_the_implementation() {
    let mut registry = ClientRegistry::new(Some("router".to_string()));
    registry
        .create_client(&env(), &info("alice"), 1, init_msg(), None, "addr0".to_string())
        .unwrap();
    let message = ClientExecuteMsg::UpdateState { client_message: vec![9, 9] };
    let response = registry.execute_client("08-wasm-0", message.clone()).unwrap();
    assert_eq!(
        response.execute,
        Some(WasmMsg::Execute { contract_addr: "addr0".to_string(), msg: message.clone() })
    );
    assert_eq!(response.event, None);
    assert_eq!(
        registry.execute_client("08-wasm-3", message),
        Err(ContractError::NotFound { kind: "client".to_string(), key: b"08-wasm-3".to_vec() })
    );
}

#[test]
fn registry_execute_dispatches() {
    let mut registry = ClientRegistry::new(Some("router".to_string()));
    let created = execute(
        &mut registry,
        &env(),
        &info("alice"),
        ExecuteMsg::CreateClient {
            code_id: 3,
            instantiate_msg: init_msg(),
            counterparty_info: None,
        },
        "addr0".to_string(),
    )
    .unwrap();
    assert_eq!(created.client_id, Some("08-wasm-0".to_string()));

    let provided = execute(
        &mut registry,
        &env(),
        &info("alice"),
        ExecuteMsg::ProvideCounterparty {
            client_id: "08-wasm-0".to_string(),
            counterparty_info: counterparty("08-wasm-7"),
        },
        String::new(),
    )
    .unwrap();
    assert_eq!(provided.event.unwrap().ty, "provide_counterparty");

    let forwarded = execute(
        &mut registry,
        &env(),
        &info("anyone"),
        ExecuteMsg::ExecuteClient {
            client_id: "08-wasm-0".to_string(),
            message: ClientExecuteMsg::UpdateState { client_message: vec![1] },
        },
        String::new(),
    )
    .unwrap();
    assert!(forwarded.execute.is_some());

    let refused = execute(
        &mut registry,
        &env(),
        &info("alice"),
        ExecuteMsg::MigrateClient {
            subject_client_id: "08-wasm-0".to_string(),
            substitute_client_id: "08-wasm-0".to_string(),
        },
        String::new(),
    );
    assert_eq!(refused, Err(ContractError::OwnershipError(OwnershipError::NotOwner)));
}

#[test]
fn registry_query_dispatches() {
    let mut registry = ClientRegistry::new(Some("router".to_string()));
    registry
        .create_client(
            &env(),
            &info("alice"),
            1,
            init_msg(),
            Some(counterparty("08-wasm-7")),
            "addr0".to_string(),
        )
        .unwrap();

    match query(&registry, QueryMsg::ClientInfo { client_id: "08-wasm-0".to_string() }).unwrap() {
        QueryResponse::ClientInfo(record) => {
            assert_eq!(record.address, "addr0");
            assert_eq!(record.creator, "alice");
        }
        other => panic!("unexpected {other:?}"),
    }
    assert_eq!(
        query(&registry, QueryMsg::Counterparty { client_id: "08-wasm-0".to_string() }),
        Ok(QueryResponse::Counterparty(counterparty("08-wasm-7")))
    );
    assert_eq!(
        query(
            &registry,
            QueryMsg::QueryClient { client_id: "08-wasm-0".to_string(), query: ClientQueryMsg::Status }
        ),
        Ok(QueryResponse::QueryClient {
            contract_addr: "addr0".to_string(),
            query: ClientQueryMsg::Status
        })
    );
    assert!(matches!(
        query(&registry, QueryMsg::ClientInfo { client_id: "08-wasm-1".to_string() }),
        Err(ContractError::NotFound { .. })
    ));
}
