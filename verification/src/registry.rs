//! The client registry: the set of light clients, each with its creator and,
//! once known, its counterparty.
//!
//! The registry issues client identifiers from a counter that only grows,
//! binds each client to the address of its implementation, lets the creator
//! of a client name its counterparty once, and lets the owner of the registry
//! move a client to the implementation of another.

use crate::clients::{ExecuteMsg as ClientExecuteMsg, InstantiateMsg, QueryMsg as ClientQueryMsg};
use crate::directory::Directory;
use crate::encoding::{
    copy_bytes, decimal, decimal_string, lemma_decimal_injective, parse_decimal, same_text,
    text_bytes,
};
use crate::error::{ContractError, ErrorView, OwnershipError};
use crate::events::{
    create_client_event, migrate_client_event, provide_counterparty_event, Event, EventView,
};
use crate::host::{Env, MessageInfo};
use crate::paths::{lemma_cancel_prefix, MerklePath};
use crate::wasm::WasmMsg;
use vstd::prelude::*;
use vstd::string::StrSliceExecFns;
use vstd::utf8::encode_utf8;

verus! {

/// What every client identifier begins with.
pub const CLIENT_ID_PREFIX: &'static str = "08-wasm-";

/// The `n`-th client identifier that a registry issues, counting from zero.
pub open spec fn client_id_text(n: u64) -> Seq<char> {
    "08-wasm-"@ + decimal(n as nat)
}

/// Different numbers give different client identifiers.
pub proof fn lemma_client_id_text_injective(a: u64, b: u64)
    requires
        client_id_text(a) == client_id_text(b),
    ensures
        a == b,
{
    lemma_cancel_prefix("08-wasm-"@, decimal(a as nat), decimal(b as nat));
    lemma_decimal_injective(a as nat, b as nat);
}

/// The client on the other chain that a client stands opposite to.
#[derive(Debug, PartialEq, Eq)]
pub struct CounterpartyInfo {
    /// The identifier of the client on the other chain.
    pub client_id: String,
    /// Where the other chain keeps its provable store, if not at the root.
    pub merkle_path_prefix: Option<MerklePath>,
}

/// A counterparty as a mathematical value.
pub struct CounterpartyView {
    pub client_id: Seq<char>,
    pub merkle_path_prefix: Option<Seq<Seq<char>>>,
}

impl View for CounterpartyInfo {
    type V = CounterpartyView;

    open spec fn view(&self) -> CounterpartyView {
        CounterpartyView {
            client_id: self.client_id@,
            merkle_path_prefix: match self.merkle_path_prefix {
                Some(prefix) => Some(prefix@),
                None => None,
            },
        }
    }
}

impl Clone for CounterpartyInfo {
    fn clone(&self) -> (copy: Self)
        ensures
            copy@ == self@,
    {
        CounterpartyInfo {
            client_id: self.client_id.clone(),
            merkle_path_prefix: match &self.merkle_path_prefix {
                Some(prefix) => Some(prefix.clone()),
                None => None,
            },
        }
    }
}

/// The view of a counterparty that may be absent.
pub open spec fn counterparty_view(info: Option<CounterpartyInfo>) -> Option<CounterpartyView> {
    match info {
        Some(info) => Some(info@),
        None => None,
    }
}

/// What the registry records of one client.
#[derive(Debug, PartialEq, Eq)]
pub struct ClientRecord {
    /// The address of the implementation of the client.
    pub address: String,
    /// Who created the client.
    pub creator: String,
    /// The counterparty of the client, once it is known.
    pub counterparty: Option<CounterpartyInfo>,
}

/// The record of a client as a mathematical value.
pub struct ClientView {
    pub address: Seq<char>,
    pub creator: Seq<char>,
    pub counterparty: Option<CounterpartyView>,
}

impl View for ClientRecord {
    type V = ClientView;

    open spec fn view(&self) -> ClientView {
        ClientView {
            address: self.address@,
            creator: self.creator@,
            counterparty: counterparty_view(self.counterparty),
        }
    }
}

/// What the registry answers when asked about a client.
#[derive(Debug, PartialEq, Eq)]
pub struct ClientInfo {
    /// The identifier of the client.
    pub client_id: String,
    /// The address of the implementation of the client.
    pub address: String,
    /// The counterparty of the client, if one was provided.
    pub counterparty_info: Option<CounterpartyInfo>,
    /// Who created the client.
    pub creator: String,
}

/// The registry starts without parameters; its creator becomes its owner.
#[derive(Debug, Clone, Copy, PartialEq, Eq, Structural)]
pub struct RegistryInstantiateMsg {}

/// A request that changes the registry, or a client through it.
#[derive(Debug, PartialEq, Eq)]
pub enum ExecuteMsg {
    /// Creates a client from the code `code_id`.
    CreateClient {
        code_id: u64,
        instantiate_msg: InstantiateMsg,
        counterparty_info: Option<CounterpartyInfo>,
    },
    /// Hands `message` to the client `client_id`.
    ExecuteClient { client_id: String, message: ClientExecuteMsg },
    /// Lets the client `subject_client_id` run on the implementation of
    /// `substitute_client_id`.
    MigrateClient { subject_client_id: String, substitute_client_id: String },
    /// Names the counterparty of the client `client_id`.
    ProvideCounterparty { client_id: String, counterparty_info: CounterpartyInfo },
}

/// A question to the registry.
#[derive(Debug, PartialEq, Eq)]
pub enum QueryMsg {
    /// A question for the client `client_id`, to be passed on.
    QueryClient { client_id: String, query: ClientQueryMsg },
    /// What the registry records of the client `client_id`.
    ClientInfo { client_id: String },
    /// The counterparty of the client `client_id`.
    Counterparty { client_id: String },
}

/// What the registry answers.
#[derive(Debug, PartialEq, Eq)]
pub enum QueryResponse {
    /// A question that the caller has to put to the light client at
    /// `contract_addr`.
    QueryClient { contract_addr: String, query: ClientQueryMsg },
    /// The record of a client.
    ClientInfo(ClientInfo),
    /// The counterparty of a client.
    Counterparty(CounterpartyInfo),
}

/// What a request to the registry brings about besides the change of the
/// registry itself: at most one light client to create, at most one message
/// to pass on, at most one event.
#[derive(Debug, PartialEq, Eq)]
pub struct Response {
    /// The identifier of the client that was created, if one was.
    pub client_id: Option<String>,
    /// The light client to create, if any.
    pub instantiate: Option<WasmMsg<InstantiateMsg>>,
    /// The message to pass on to a light client, if any.
    pub execute: Option<WasmMsg<ClientExecuteMsg>>,
    /// The event to emit, if any.
    pub event: Option<Event>,
}

/// The registry as a mathematical value.
pub struct RegistryView {
    /// The owner of the registry, who alone may migrate clients.
    pub owner: Option<Seq<char>>,
    /// The number that the next client identifier is made of.
    pub next_client_number: u64,
    /// The clients, by their identifiers.
    pub clients: Map<Seq<char>, ClientView>,
}

/// The error for a client that the registry does not know.
pub open spec fn unknown_client(kind: Seq<char>, client_id: Seq<char>) -> ErrorView {
    ErrorView::NotFound { kind, key: encode_utf8(client_id) }
}

impl RegistryView {
    /// Every client bears an identifier that the counter has passed.
    pub open spec fn wf(self) -> bool {
        forall|id: Seq<char>| #[trigger]
            self.clients.contains_key(id) ==> exists|n: u64|
                n < self.next_client_number && id == #[trigger] client_id_text(n)
    }

    /// The registry after `sender` has created a client at `address`.
    pub open spec fn create_client(
        self,
        sender: Seq<char>,
        counterparty: Option<CounterpartyView>,
        address: Seq<char>,
    ) -> Result<RegistryView, ErrorView> {
        if self.next_client_number == u64::MAX {
            Err(ErrorView::CounterOverflow)
        } else {
            Ok(
                RegistryView {
                    owner: self.owner,
                    next_client_number: (self.next_client_number + 1) as u64,
                    clients: self.clients.insert(
                        client_id_text(self.next_client_number),
                        ClientView { address, creator: sender, counterparty },
                    ),
                },
            )
        }
    }

    /// The registry after `sender` has named `info` as the counterparty of
    /// `client_id`: only the creator may, and only once.
    pub open spec fn provide_counterparty(
        self,
        sender: Seq<char>,
        client_id: Seq<char>,
        info: CounterpartyView,
    ) -> Result<RegistryView, ErrorView> {
        if !self.clients.contains_key(client_id) {
            Err(unknown_client("creator"@, client_id))
        } else if self.clients[client_id].creator != sender {
            Err(ErrorView::Unauthorized)
        } else if self.clients[client_id].counterparty is Some {
            Err(ErrorView::CounterpartyAlreadyProvided)
        } else {
            Ok(
                RegistryView {
                    owner: self.owner,
                    next_client_number: self.next_client_number,
                    clients: self.clients.insert(
                        client_id,
                        ClientView {
                            address: self.clients[client_id].address,
                            creator: self.clients[client_id].creator,
                            counterparty: Some(info),
                        },
                    ),
                },
            )
        }
    }

    /// The registry after `sender` has moved `subject` to the implementation
    /// of `substitute`: only the owner may, and both clients must exist.
    pub open spec fn migrate_client(
        self,
        sender: Seq<char>,
        subject: Seq<char>,
        substitute: Seq<char>,
    ) -> Result<RegistryView, ErrorView> {
        if self.owner is None {
            Err(ErrorView::OwnershipError(OwnershipError::NoOwner))
        } else if self.owner->0 != sender {
            Err(ErrorView::OwnershipError(OwnershipError::NotOwner))
        } else if !self.clients.contains_key(subject) {
            Err(unknown_client("client"@, subject))
        } else if !self.clients.contains_key(substitute) {
            Err(unknown_client("client"@, substitute))
        } else {
            Ok(
                RegistryView {
                    owner: self.owner,
                    next_client_number: self.next_client_number,
                    clients: self.clients.insert(
                        subject,
                        ClientView {
                            address: self.clients[substitute].address,
                            creator: self.clients[subject].creator,
                            counterparty: self.clients[subject].counterparty,
                        },
                    ),
                },
            )
        }
    }

    /// The counterparty of `client_id`, or the error for a client that is
    /// unknown or has none.
    pub open spec fn counterparty(self, client_id: Seq<char>) -> Result<
        CounterpartyView,
        ErrorView,
    > {
        if self.clients.contains_key(client_id) && self.clients[client_id].counterparty is Some {
            Ok(self.clients[client_id].counterparty->0)
        } else {
            Err(unknown_client("counterparty"@, client_id))
        }
    }

    /// The address of the implementation of `client_id`, or the error for a
    /// client that is unknown.
    pub open spec fn client_address(self, client_id: Seq<char>) -> Result<Seq<char>, ErrorView> {
        if self.clients.contains_key(client_id) {
            Ok(self.clients[client_id].address)
        } else {
            Err(unknown_client("client"@, client_id))
        }
    }
}

/// The registry of light clients.
pub struct ClientRegistry {
    owner: Option<String>,
    next_client_number: u64,
    clients: Directory<ClientRecord>,
}

impl View for ClientRegistry {
    type V = RegistryView;

    closed spec fn view(&self) -> RegistryView {
        RegistryView {
            owner: match self.owner {
                Some(owner) => Some(owner@),
                None => None,
            },
            next_client_number: self.next_client_number,
            clients: records_view(self.clients@),
        }
    }
}

/// The records of a directory of clients as mathematical values.
pub open spec fn records_view(records: Map<Seq<char>, ClientRecord>) -> Map<Seq<char>, ClientView> {
    Map::new(|id: Seq<char>| records.contains_key(id), |id: Seq<char>| records[id]@)
}

/// Listing a record lists its view.
proof fn lemma_records_insert(
    records: Map<Seq<char>, ClientRecord>,
    id: Seq<char>,
    record: ClientRecord,
)
    ensures
        records_view(records.insert(id, record)) == records_view(records).insert(id, record@),
{
    assert(records_view(records.insert(id, record)) =~= records_view(records).insert(id, record@));
}

impl ClientRegistry {
    /// Every client bears an identifier that the counter has passed.
    #[verifier::type_invariant]
    closed spec fn issued(&self) -> bool {
        self@.wf()
    }

    /// A registry without clients, owned by `owner`.
    pub fn new(owner: Option<String>) -> (registry: Self)
        ensures
            registry@ == (RegistryView {
                owner: crate::host::admin_view(owner),
                next_client_number: 0,
                clients: Map::empty(),
            }),
            registry@.wf(),
    {
        let registry = ClientRegistry { owner, next_client_number: 0, clients: Directory::new() };
        assert(registry@.clients =~= Map::<Seq<char>, ClientView>::empty());
        registry
    }

    /// Starts a registry: the caller becomes its owner.
    pub fn instantiate(info: &MessageInfo, msg: RegistryInstantiateMsg) -> (registry: Self)
        ensures
            registry@ == (RegistryView {
                owner: Some(info.sender@),
                next_client_number: 0,
                clients: Map::empty(),
            }),
            registry@.wf(),
    {
        ClientRegistry::new(Some(info.sender.clone()))
    }

    /// The identifier that the next client will get.
    pub fn next_client_id(&self) -> (id: String)
        ensures
            id@ == client_id_text(self@.next_client_number),
            self@.wf(),
    {
        proof {
            use_type_invariant(self);
        }
        let mut id = "08-wasm-".to_owned();
        let digits = decimal_string(self.next_client_number);
        id.append(digits.as_str());
        id
    }

    /// Issues a client identifier and moves the counter on.
    pub fn new_client_id(&mut self) -> (r: Result<String, ContractError>)
        ensures
            old(self)@.next_client_number < u64::MAX ==> r is Ok && r->Ok_0@ == client_id_text(
                old(self)@.next_client_number,
            ) && final(self)@ == (RegistryView {
                next_client_number: (old(self)@.next_client_number + 1) as u64,
                ..old(self)@
            }),
            old(self)@.next_client_number == u64::MAX ==> r is Err && r->Err_0@
                == ErrorView::CounterOverflow && final(self)@ == old(self)@,
            final(self)@.wf(),
    {
        proof {
            use_type_invariant(&*self);
        }
        if self.next_client_number == u64::MAX {
            return Err(ContractError::CounterOverflow);
        }
        let id = self.next_client_id();
        let ghost before = self@;
        self.next_client_number = self.next_client_number + 1;
        proof {
            assert forall|id: Seq<char>| #[trigger]
                self@.clients.contains_key(id) implies exists|n: u64|
                n < self@.next_client_number && id == #[trigger] client_id_text(n) by {
                assert(before.clients.contains_key(id));
                let n = choose|n: u64|
                    n < before.next_client_number && id == #[trigger] client_id_text(n);
                assert(n < self@.next_client_number && id == client_id_text(n));
            }
        }
        Ok(id)
    }

    /// Checks that `creator` created the client `client_id`.
    pub fn assert_creator(&self, client_id: &str, creator: &str) -> (r: Result<(), ContractError>)
        ensures
            !self@.clients.contains_key(client_id@) ==> r is Err && r->Err_0@ == unknown_client(
                "creator"@,
                client_id@,
            ),
            self@.clients.contains_key(client_id@) && self@.clients[client_id@].creator
                != creator@ ==> r is Err && r->Err_0@ == ErrorView::Unauthorized,
            self@.clients.contains_key(client_id@) && self@.clients[client_id@].creator
                == creator@ ==> r is Ok,
    {
        match self.clients.get(client_id) {
            None => Err(ContractError::not_found("creator", text_bytes(client_id))),
            Some(record) => {
                if same_text(record.creator.as_str(), creator) {
                    Ok(())
                } else {
                    Err(ContractError::Unauthorized)
                }
            },
        }
    }

    /// Creates a client for the caller: issues its identifier, records its
    /// creator, its counterparty if given and the address `address` of its
    /// implementation, and asks the host to create the implementation there,
    /// from the code `code_id`, salted with the identifier and administered
    /// by the registry.
    pub fn create_client(
        &mut self,
        env: &Env,
        info: &MessageInfo,
        code_id: u64,
        instantiate_msg: InstantiateMsg,
        counterparty_info: Option<CounterpartyInfo>,
        address: String,
    ) -> (r: Result<Response, ContractError>)
        ensures
            match old(self)@.create_client(
                info.sender@,
                counterparty_view(counterparty_info),
                address@,
            ) {
                Ok(post) => {
                    &&& r is Ok
                    &&& final(self)@ == post
                    &&& created_response(
                        r->Ok_0,
                        client_id_text(old(self)@.next_client_number),
                        env.contract_address@,
                        info.sender@,
                        code_id,
                        instantiate_msg,
                        counterparty_view(counterparty_info),
                        address@,
                    )
                },
                Err(e) => r is Err && r->Err_0@ == e && final(self)@ == old(self)@,
            },
            final(self)@.wf(),
    {
        proof {
            use_type_invariant(&*self);
        }
        let client_id = match self.new_client_id() {
            Ok(id) => id,
            Err(e) => {
                return Err(e);
            },
        };
        let event = crate::events::create_client::success(
            client_id.as_str(),
            &counterparty_info,
            info.sender.as_str(),
            address.as_str(),
        );
        let record = ClientRecord {
            address,
            creator: info.sender.clone(),
            counterparty: counterparty_info,
        };
        let ghost middle = self@;
        let ghost records = self.clients@;
        let mut clients: Directory<ClientRecord> = Directory::new();
        core::mem::swap(&mut clients, &mut self.clients);
        clients.insert(client_id.clone(), record);
        proof {
            lemma_records_insert(records, client_id@, record);
            assert forall|id: Seq<char>| #[trigger]
                records_view(clients@).contains_key(id) implies exists|n: u64|
                n < self.next_client_number && id == #[trigger] client_id_text(n) by {
                if id == client_id@ {
                    assert(id == client_id_text(old(self)@.next_client_number));
                } else {
                    assert(middle.clients.contains_key(id));
                }
            }
        }
        core::mem::swap(&mut clients, &mut self.clients);
        let instantiate = WasmMsg::Instantiate2 {
            admin: Some(env.contract_address.clone()),
            code_id,
            label: client_id.clone(),
            msg: instantiate_msg,
            salt: text_bytes(client_id.as_str()),
        };
        Ok(
            Response {
                client_id: Some(client_id),
                instantiate: Some(instantiate),
                execute: None,
                event: Some(event),
            },
        )
    }

    /// The message that hands `message` to the client `client_id`.
    pub fn execute_client(&self, client_id: &str, message: ClientExecuteMsg) -> (r: Result<
        Response,
        ContractError,
    >)
        ensures
            match self@.client_address(client_id@) {
                Ok(address) => {
                    &&& r is Ok
                    &&& r->Ok_0.client_id is None
                    &&& r->Ok_0.instantiate is None
                    &&& r->Ok_0.event is None
                    &&& r->Ok_0.execute matches Some(WasmMsg::Execute { contract_addr, msg })
                    &&& contract_addr@ == address
                    &&& msg == message
                },
                Err(e) => r is Err && r->Err_0@ == e,
            },
    {
        match self.clients.get(client_id) {
            None => Err(ContractError::not_found("client", text_bytes(client_id))),
            Some(record) => Ok(
                Response {
                    client_id: None,
                    instantiate: None,
                    execute: Some(
                        WasmMsg::Execute { contract_addr: record.address.clone(), msg: message },
                    ),
                    event: None,
                },
            ),
        }
    }

    /// Moves the client `subject_client_id` to the implementation of
    /// `substitute_client_id`. Only the owner of the registry may do so, and
    /// both clients must exist.
    pub fn migrate_client(
        &mut self,
        info: &MessageInfo,
        subject_client_id: &str,
        substitute_client_id: &str,
    ) -> (r: Result<Response, ContractError>)
        ensures
            match old(self)@.migrate_client(
                info.sender@,
                subject_client_id@,
                substitute_client_id@,
            ) {
                Ok(post) => {
                    &&& r is Ok
                    &&& final(self)@ == post
                    &&& r->Ok_0.client_id is None
                    &&& r->Ok_0.instantiate is None
                    &&& r->Ok_0.execute is None
                    &&& r->Ok_0.event is Some
                    &&& r->Ok_0.event->0@ == migrate_client_event(
                        subject_client_id@,
                        substitute_client_id@,
                        old(self)@.clients[substitute_client_id@].address,
                    )
                },
                Err(e) => r is Err && r->Err_0@ == e && final(self)@ == old(self)@,
            },
            final(self)@.wf(),
    {
        proof {
            use_type_invariant(&*self);
        }
        match &self.owner {
            None => {
                return Err(ContractError::OwnershipError(OwnershipError::NoOwner));
            },
            Some(owner) => {
                if !same_text(owner.as_str(), info.sender.as_str()) {
                    return Err(ContractError::OwnershipError(OwnershipError::NotOwner));
                }
            },
        }
        let record = match self.clients.get(subject_client_id) {
            None => {
                return Err(ContractError::not_found("client", text_bytes(subject_client_id)));
            },
            Some(subject) => {
                match self.clients.get(substitute_client_id) {
                    None => {
                        return Err(
                            ContractError::not_found("client", text_bytes(substitute_client_id)),
                        );
                    },
                    Some(substitute) => ClientRecord {
                        address: substitute.address.clone(),
                        creator: subject.creator.clone(),
                        counterparty: match &subject.counterparty {
                            Some(info) => Some(info.clone()),
                            None => None,
                        },
                    },
                }
            },
        };
        let event = crate::events::migrate_client::success(
            subject_client_id,
            substitute_client_id,
            record.address.as_str(),
        );
        self.replace_record(subject_client_id, record);
        Ok(Response { client_id: None, instantiate: None, execute: None, event: Some(event) })
    }

    /// Puts `record` in place of the record of a client that exists.
    fn replace_record(&mut self, client_id: &str, record: ClientRecord)
        requires
            old(self)@.clients.contains_key(client_id@),
        ensures
            final(self)@ == (RegistryView {
                clients: old(self)@.clients.insert(client_id@, record@),
                ..old(self)@
            }),
            final(self)@.wf(),
    {
        proof {
            use_type_invariant(&*self);
        }
        let ghost before = self@;
        let mut clients: Directory<ClientRecord> = Directory::new();
        core::mem::swap(&mut clients, &mut self.clients);
        clients.insert(client_id.to_owned(), record);
        proof {
            lemma_records_insert(old(self).clients@, client_id@, record);
            assert forall|id: Seq<char>| #[trigger]
                records_view(clients@).contains_key(id) implies exists|n: u64|
                n < self.next_client_number && id == #[trigger] client_id_text(n) by {
                assert(before.clients.contains_key(id));
            }
        }
        core::mem::swap(&mut clients, &mut self.clients);
    }

    /// Names the counterparty of the client `client_id`. Only the creator of
    /// the client may do so, and only while the client has none.
    pub fn provide_counterparty(
        &mut self,
        info: &MessageInfo,
        client_id: &str,
        counterparty_info: CounterpartyInfo,
    ) -> (r: Result<Response, ContractError>)
        ensures
            match old(self)@.provide_counterparty(info.sender@, client_id@, counterparty_info@) {
                Ok(post) => {
                    &&& r is Ok
                    &&& final(self)@ == post
                    &&& r->Ok_0.client_id is None
                    &&& r->Ok_0.instantiate is None
                    &&& r->Ok_0.execute is None
                    &&& r->Ok_0.event is Some
                    &&& r->Ok_0.event->0@ == provide_counterparty_event(
                        client_id@,
                        counterparty_info@.client_id,
                        counterparty_info@.merkle_path_prefix,
                    )
                },
                Err(e) => r is Err && r->Err_0@ == e && final(self)@ == old(self)@,
            },
            final(self)@.wf(),
    {
        proof {
            use_type_invariant(&*self);
        }
        match self.assert_creator(client_id, info.sender.as_str()) {
            Ok(_) => {},
            Err(e) => {
                return Err(e);
            },
        }
        let record = match self.clients.get(client_id) {
            None => {
                return Err(ContractError::not_found("creator", text_bytes(client_id)));
            },
            Some(record) => {
                if record.counterparty.is_some() {
                    return Err(ContractError::CounterpartyAlreadyProvided);
                }
                let event = crate::events::provide_counterparty::success(
                    client_id,
                    &counterparty_info,
                );
                (
                    ClientRecord {
                        address: record.address.clone(),
                        creator: record.creator.clone(),
                        counterparty: Some(counterparty_info),
                    },
                    event,
                )
            },
        };
        self.replace_record(client_id, record.0);
        Ok(Response { client_id: None, instantiate: None, execute: None, event: Some(record.1) })
    }

    /// What the registry records of the client `client_id`.
    pub fn client_info(&self, client_id: &str) -> (r: Result<ClientInfo, ContractError>)
        ensures
            self@.clients.contains_key(client_id@) ==> {
                &&& r is Ok
                &&& r->Ok_0.client_id@ == client_id@
                &&& r->Ok_0.address@ == self@.clients[client_id@].address
                &&& r->Ok_0.creator@ == self@.clients[client_id@].creator
                &&& counterparty_view(r->Ok_0.counterparty_info)
                    == self@.clients[client_id@].counterparty
            },
            !self@.clients.contains_key(client_id@) ==> r is Err && r->Err_0@ == unknown_client(
                "client"@,
                client_id@,
            ),
    {
        match self.clients.get(client_id) {
            None => Err(ContractError::not_found("client", text_bytes(client_id))),
            Some(record) => Ok(
                ClientInfo {
                    client_id: client_id.to_owned(),
                    address: record.address.clone(),
                    counterparty_info: match &record.counterparty {
                        Some(info) => Some(info.clone()),
                        None => None,
                    },
                    creator: record.creator.clone(),
                },
            ),
        }
    }

    /// The counterparty of the client `client_id`.
    pub fn counterparty(&self, client_id: &str) -> (r: Result<CounterpartyInfo, ContractError>)
        ensures
            match self@.counterparty(client_id@) {
                Ok(info) => r is Ok && r->Ok_0@ == info,
                Err(e) => r is Err && r->Err_0@ == e,
            },
    {
        match self.clients.get(client_id) {
            None => Err(ContractError::not_found("counterparty", text_bytes(client_id))),
            Some(record) => match &record.counterparty {
                Some(info) => Ok(info.clone()),
                None => Err(ContractError::not_found("counterparty", text_bytes(client_id))),
            },
        }
    }

    /// The address of the implementation of the client `client_id`.
    pub fn client_address(&self, client_id: &str) -> (r: Result<String, ContractError>)
        ensures
            match self@.client_address(client_id@) {
                Ok(address) => r is Ok && r->Ok_0@ == address,
                Err(e) => r is Err && r->Err_0@ == e,
            },
    {
        match self.clients.get(client_id) {
            None => Err(ContractError::not_found("client", text_bytes(client_id))),
            Some(record) => Ok(record.address.clone()),
        }
    }

    /// Where to put a question for the client `client_id`: at the address of
    /// its implementation.
    pub fn query_client(&self, client_id: &str, query: ClientQueryMsg) -> (r: Result<
        QueryResponse,
        ContractError,
    >)
        ensures
            match self@.client_address(client_id@) {
                Ok(address) => {
                    &&& r matches Ok(QueryResponse::QueryClient { contract_addr, query: q })
                    &&& contract_addr@ == address
                    &&& q == query
                },
                Err(e) => r is Err && r->Err_0@ == e,
            },
    {
        match self.client_address(client_id) {
            Ok(contract_addr) => Ok(QueryResponse::QueryClient { contract_addr, query }),
            Err(e) => Err(e),
        }
    }

    /// Who owns the registry.
    pub fn owner(&self) -> (owner: Option<String>)
        ensures
            crate::host::admin_view(owner) == self@.owner,
    {
        match &self.owner {
            Some(owner) => Some(owner.clone()),
            None => None,
        }
    }
}

/// What the response to a created client holds: the identifier, the request
/// to create the implementation, and the event.
pub open spec fn created_response(
    response: Response,
    client_id: Seq<char>,
    registry_address: Seq<char>,
    sender: Seq<char>,
    code_id: u64,
    instantiate_msg: InstantiateMsg,
    counterparty: Option<CounterpartyView>,
    address: Seq<char>,
) -> bool {
    &&& response.client_id is Some
    &&& response.client_id->0@ == client_id
    &&& response.execute is None
    &&& response.instantiate matches Some(
        WasmMsg::Instantiate2 { admin, code_id: code, label, msg, salt },
    )
    &&& admin is Some
    &&& admin->0@ == registry_address
    &&& code == code_id
    &&& label@ == client_id
    &&& msg == instantiate_msg
    &&& salt@ == encode_utf8(client_id)
    &&& response.event is Some
    &&& response.event->0@ == create_client_event(
        client_id,
        match counterparty {
            Some(c) => Some(c.client_id),
            None => None,
        },
        match counterparty {
            Some(c) => c.merkle_path_prefix,
            None => None,
        },
        sender,
        address,
    )
}

/// Carries out a request to the registry. `client_address` is the address at
/// which the host will create the implementation of a new client; it matters
/// to a request that creates one and to no other.
pub fn execute(
    registry: &mut ClientRegistry,
    env: &Env,
    info: &MessageInfo,
    msg: ExecuteMsg,
    client_address: String,
) -> (r: Result<Response, ContractError>)
    ensures
        match execute_spec(old(registry)@, info.sender@, msg, client_address@) {
            Ok(post) => r is Ok && final(registry)@ == post && answers(
                old(registry)@,
                env.contract_address@,
                info.sender@,
                msg,
                client_address@,
                r->Ok_0,
            ),
            Err(e) => r is Err && r->Err_0@ == e && final(registry)@ == old(registry)@,
        },
        final(registry)@.wf(),
{
    match msg {
        ExecuteMsg::CreateClient { code_id, instantiate_msg, counterparty_info } => {
            registry.create_client(
                env,
                info,
                code_id,
                instantiate_msg,
                counterparty_info,
                client_address,
            )
        },
        ExecuteMsg::ExecuteClient { client_id, message } => {
            proof {
                use_type_invariant(&*registry);
            }
            registry.execute_client(client_id.as_str(), message)
        },
        ExecuteMsg::MigrateClient { subject_client_id, substitute_client_id } => {
            registry.migrate_client(info, subject_client_id.as_str(), substitute_client_id.as_str())
        },
        ExecuteMsg::ProvideCounterparty { client_id, counterparty_info } => {
            registry.provide_counterparty(info, client_id.as_str(), counterparty_info)
        },
    }
}

/// Whether `response` is what the registry answers to the request `msg` of
/// `sender` that succeeds in the state `pre`.
pub open spec fn answers(
    pre: RegistryView,
    registry_address: Seq<char>,
    sender: Seq<char>,
    msg: ExecuteMsg,
    client_address: Seq<char>,
    response: Response,
) -> bool {
    match msg {
        ExecuteMsg::CreateClient { code_id, instantiate_msg, counterparty_info } => {
            created_response(
                response,
                client_id_text(pre.next_client_number),
                registry_address,
                sender,
                code_id,
                instantiate_msg,
                counterparty_view(counterparty_info),
                client_address,
            )
        },
        ExecuteMsg::ExecuteClient { client_id, message } => {
            &&& response.client_id is None
            &&& response.instantiate is None
            &&& response.event is None
            &&& response.execute matches Some(WasmMsg::Execute { contract_addr, msg })
            &&& contract_addr@ == pre.clients[client_id@].address
            &&& msg == message
        },
        ExecuteMsg::MigrateClient { subject_client_id, substitute_client_id } => {
            &&& response.client_id is None
            &&& response.instantiate is None
            &&& response.execute is None
            &&& response.event is Some
            &&& response.event->0@ == migrate_client_event(
                subject_client_id@,
                substitute_client_id@,
                pre.clients[substitute_client_id@].address,
            )
        },
        ExecuteMsg::ProvideCounterparty { client_id, counterparty_info } => {
            &&& response.client_id is None
            &&& response.instantiate is None
            &&& response.execute is None
            &&& response.event is Some
            &&& response.event->0@ == provide_counterparty_event(
                client_id@,
                counterparty_info@.client_id,
                counterparty_info@.merkle_path_prefix,
            )
        },
    }
}

/// The registry after the request `msg` of `sender`, or the error that the
/// request ends in.
pub open spec fn execute_spec(
    pre: RegistryView,
    sender: Seq<char>,
    msg: ExecuteMsg,
    client_address: Seq<char>,
) -> Result<RegistryView, ErrorView> {
    match msg {
        ExecuteMsg::CreateClient { code_id, instantiate_msg, counterparty_info } => {
            pre.create_client(sender, counterparty_view(counterparty_info), client_address)
        },
        ExecuteMsg::ExecuteClient { client_id, message } => {
            match pre.client_address(client_id@) {
                Ok(_) => Ok(pre),
                Err(e) => Err(e),
            }
        },
        ExecuteMsg::MigrateClient { subject_client_id, substitute_client_id } => {
            pre.migrate_client(sender, subject_client_id@, substitute_client_id@)
        },
        ExecuteMsg::ProvideCounterparty { client_id, counterparty_info } => {
            pre.provide_counterparty(sender, client_id@, counterparty_info@)
        },
    }
}

/// Answers a question to the registry.
pub fn query(registry: &ClientRegistry, msg: QueryMsg) -> (r: Result<QueryResponse, ContractError>)
    ensures
        match msg {
            QueryMsg::QueryClient { client_id, query } => match registry@.client_address(
                client_id@,
            ) {
                Ok(address) => {
                    &&& r matches Ok(QueryResponse::QueryClient { contract_addr, query: q })
                    &&& contract_addr@ == address
                    &&& q == query
                },
                Err(e) => r is Err && r->Err_0@ == e,
            },
            QueryMsg::ClientInfo { client_id } => {
                if registry@.clients.contains_key(client_id@) {
                    &&& r matches Ok(QueryResponse::ClientInfo(info))
                    &&& info.client_id@ == client_id@
                    &&& info.address@ == registry@.clients[client_id@].address
                    &&& info.creator@ == registry@.clients[client_id@].creator
                    &&& counterparty_view(info.counterparty_info)
                        == registry@.clients[client_id@].counterparty
                } else {
                    r is Err && r->Err_0@ == unknown_client("client"@, client_id@)
                }
            },
            QueryMsg::Counterparty { client_id } => match registry@.counterparty(client_id@) {
                Ok(info) => r matches Ok(QueryResponse::Counterparty(c)) && c@ == info,
                Err(e) => r is Err && r->Err_0@ == e,
            },
        },
{
    match msg {
        QueryMsg::QueryClient { client_id, query } => registry.query_client(
            client_id.as_str(),
            query,
        ),
        QueryMsg::ClientInfo { client_id } => match registry.client_info(client_id.as_str()) {
            Ok(info) => Ok(QueryResponse::ClientInfo(info)),
            Err(e) => Err(e),
        },
        QueryMsg::Counterparty { client_id } => match registry.counterparty(client_id.as_str()) {
            Ok(info) => Ok(QueryResponse::Counterparty(info)),
            Err(e) => Err(e),
        },
    }
}

/// The number that the client identifier `id` was made of, if `id` is an
/// identifier that a registry issues.
pub fn client_number(id: &str) -> (number: Option<u64>)
    ensures
        number matches Some(n) ==> id@ == client_id_text(n),
        number is None ==> forall|n: u64| id@ != #[trigger] client_id_text(n),
{
    proof {
        reveal_strlit("08-wasm-");
    }
    let len = id.unicode_len();
    if len < 8 {
        return None;
    }
    let head = id.substring_char(0, 8);
    let digits = id.substring_char(8, len);
    assert(id@ =~= head@ + digits@);
    if !same_text(head, "08-wasm-") {
        proof {
            assert forall|n: u64| id@ != #[trigger] client_id_text(n) by {
                if id@ == client_id_text(n) {
                    assert(client_id_text(n).subrange(0, 8) =~= "08-wasm-"@);
                }
            }
        }
        return None;
    }
    match parse_decimal(digits) {
        Some(number) => Some(number),
        None => {
            proof {
                assert forall|n: u64| id@ != #[trigger] client_id_text(n) by {
                    if id@ == client_id_text(n) {
                        lemma_cancel_prefix("08-wasm-"@, digits@, decimal(n as nat));
                    }
                }
            }
            None
        },
    }
}

impl ClientRegistry {
    /// The part of a registry that concerns one client: a registry that
    /// holds the client `client_id` with the record `record` and nothing
    /// else. There is such a registry exactly when `client_id` is an
    /// identifier that registries issue.
    pub fn with_client(owner: Option<String>, client_id: &str, record: ClientRecord) -> (r:
        Option<Self>)
        ensures
            r is Some <==> exists|n: u64| n < u64::MAX && client_id@ == #[trigger] client_id_text(n),
            r matches Some(registry) ==> {
                &&& registry@.wf()
                &&& registry@.owner == crate::host::admin_view(owner)
                &&& registry@.clients == Map::<Seq<char>, ClientView>::empty().insert(
                    client_id@,
                    record@,
                )
            },
    {
        let number = match client_number(client_id) {
            Some(number) => number,
            None => {
                return None;
            },
        };
        if number == u64::MAX {
            proof {
                assert forall|n: u64| n < u64::MAX implies client_id@ != #[trigger] client_id_text(
                    n,
                ) by {
                    if client_id@ == client_id_text(n) {
                        lemma_client_id_text_injective(n, number);
                    }
                }
            }
            return None;
        }
        let mut clients: Directory<ClientRecord> = Directory::new();
        clients.insert(client_id.to_owned(), record);
        proof {
            lemma_records_insert(Map::empty(), client_id@, record);
            assert(records_view(Map::<Seq<char>, ClientRecord>::empty()) =~= Map::<
                Seq<char>,
                ClientView,
            >::empty());
            assert(client_id@ == client_id_text(number));
        }
        Some(ClientRegistry { owner, next_client_number: number + 1, clients })
    }

    /// The registry that holds, for each `n` below the length of `records`,
    /// the `n`-th client with the record `records[n]`: the registry that has
    /// issued that many identifiers.
    pub fn restore(owner: Option<String>, records: Vec<ClientRecord>) -> (registry: Self)
        requires
            records@.len() < u64::MAX,
        ensures
            registry@.wf(),
            registry@.owner == crate::host::admin_view(owner),
            registry@.next_client_number == records@.len(),
            forall|n: u64|
                n < records@.len() ==> registry@.clients.contains_key(
                    #[trigger] client_id_text(n),
                ) && registry@.clients[client_id_text(n)] == records@[n as int]@,
            forall|id: Seq<char>| #[trigger]
                registry@.clients.contains_key(id) ==> exists|n: u64|
                    n < records@.len() && id == #[trigger] client_id_text(n),
    {
        let mut registry = ClientRegistry::new(owner);
        let mut records = records;
        let ghost all = records@;
        let mut rest: Vec<ClientRecord> = Vec::new();
        // Take the records from last to first, then list them from first to last.
        while records.len() > 0
            invariant
                records@.len() + rest@.len() == all.len(),
                forall|i: int| 0 <= i < records@.len() ==> records@[i] == all[i],
                forall|i: int|
                    0 <= i < rest@.len() ==> #[trigger] rest@[i] == all[all.len() - 1 - i],
            decreases records@.len(),
        {
            let record = records.pop().unwrap();
            rest.push(record);
        }
        while rest.len() > 0
            invariant
                all.len() < u64::MAX,
                registry@.wf(),
                registry@.owner == crate::host::admin_view(owner),
                registry@.next_client_number + rest@.len() == all.len(),
                forall|i: int|
                    0 <= i < rest@.len() ==> #[trigger] rest@[i] == all[all.len() - 1 - i],
                forall|n: u64|
                    n < registry@.next_client_number ==> registry@.clients.contains_key(
                        #[trigger] client_id_text(n),
                    ) && registry@.clients[client_id_text(n)] == all[n as int]@,
                forall|id: Seq<char>| #[trigger]
                    registry@.clients.contains_key(id) ==> exists|n: u64|
                        n < registry@.next_client_number && id == #[trigger] client_id_text(n),
            decreases rest@.len(),
        {
            let record = rest.pop().unwrap();
            let ghost before = registry@;
            let ghost number = registry@.next_client_number;
            let id = match registry.new_client_id() {
                Ok(id) => id,
                Err(_) => {
                    return registry;
                },
            };
            registry.place_record(id.as_str(), record);
            proof {
                assert forall|n: u64| n < registry@.next_client_number implies registry@.clients.contains_key(
                    #[trigger] client_id_text(n),
                ) && registry@.clients[client_id_text(n)] == all[n as int]@ by {
                    if n < number {
                        assert(before.clients.contains_key(client_id_text(n)));
                        if client_id_text(n) == client_id_text(number) {
                            lemma_client_id_text_injective(n, number);
                        }
                    }
                }
                assert forall|id: Seq<char>| #[trigger]
                    registry@.clients.contains_key(id) implies exists|n: u64|
                    n < registry@.next_client_number && id == #[trigger] client_id_text(n) by {
                    if id == client_id_text(number) {
                        assert(number < registry@.next_client_number);
                    } else {
                        assert(before.clients.contains_key(id));
                        let n = choose|n: u64|
                            n < before.next_client_number && id == #[trigger] client_id_text(n);
                        assert(n < registry@.next_client_number && id == client_id_text(n));
                    }
                }
            }
        }
        registry
    }

    /// Lists `record` under an identifier that the counter has passed.
    fn place_record(&mut self, client_id: &str, record: ClientRecord)
        requires
            exists|n: u64|
                n < old(self)@.next_client_number && client_id@ == #[trigger] client_id_text(n),
        ensures
            final(self)@ == (RegistryView {
                clients: old(self)@.clients.insert(client_id@, record@),
                ..old(self)@
            }),
            final(self)@.wf(),
    {
        proof {
            use_type_invariant(&*self);
        }
        let ghost before = self@;
        let ghost records = self.clients@;
        let mut clients: Directory<ClientRecord> = Directory::new();
        core::mem::swap(&mut clients, &mut self.clients);
        clients.insert(client_id.to_owned(), record);
        proof {
            lemma_records_insert(records, client_id@, record);
            assert forall|id: Seq<char>| #[trigger]
                records_view(clients@).contains_key(id) implies exists|n: u64|
                n < self.next_client_number && id == #[trigger] client_id_text(n) by {
                if id != client_id@ {
                    assert(before.clients.contains_key(id));
                }
            }
        }
        core::mem::swap(&mut clients, &mut self.clients);
    }

    /// The number that the next client identifier is made of: the number of
    /// clients that the registry has created.
    pub fn next_client_number(&self) -> (n: u64)
        ensures
            n == self@.next_client_number,
    {
        self.next_client_number
    }
}

/// An identifier is issued once: the client that a registry creates gets an
/// identifier that no client of the registry bears, and the registry stays
/// well formed.
pub proof fn law_client_identifiers_are_fresh(
    pre: RegistryView,
    sender: Seq<char>,
    counterparty: Option<CounterpartyView>,
    address: Seq<char>,
)
    requires
        pre.wf(),
        pre.create_client(sender, counterparty, address) is Ok,
    ensures
        !pre.clients.contains_key(client_id_text(pre.next_client_number)),
        pre.create_client(sender, counterparty, address)->Ok_0.wf(),
        pre.create_client(sender, counterparty, address)->Ok_0.next_client_number
            == pre.next_client_number + 1,
{
    let id = client_id_text(pre.next_client_number);
    if pre.clients.contains_key(id) {
        let n = choose|n: u64| n < pre.next_client_number && id == #[trigger] client_id_text(n);
        lemma_client_id_text_injective(n, pre.next_client_number);
    }
    let post = pre.create_client(sender, counterparty, address)->Ok_0;
    assert forall|other: Seq<char>| #[trigger] post.clients.contains_key(other) implies exists|
        n: u64,
    | n < post.next_client_number && other == #[trigger] client_id_text(n) by {
        if other == id {
            assert(pre.next_client_number < post.next_client_number);
        } else {
            assert(pre.clients.contains_key(other));
            let n = choose|n: u64|
                n < pre.next_client_number && other == #[trigger] client_id_text(n);
            assert(n < post.next_client_number && other == client_id_text(n));
        }
    }
}

/// A counterparty is named once: a client that has a counterparty keeps it,
/// whoever tries to name another, and a migration leaves it as it is.
pub proof fn law_counterparty_is_named_once(
    pre: RegistryView,
    sender: Seq<char>,
    client_id: Seq<char>,
    info: CounterpartyView,
    subject: Seq<char>,
    substitute: Seq<char>,
)
    requires
        pre.clients.contains_key(client_id),
        pre.clients[client_id].counterparty is Some,
    ensures
        pre.provide_counterparty(sender, client_id, info) is Err,
        sender == pre.clients[client_id].creator ==> pre.provide_counterparty(
            sender,
            client_id,
            info,
        ) == Err::<RegistryView, ErrorView>(ErrorView::CounterpartyAlreadyProvided),
        pre.migrate_client(sender, subject, substitute) matches Ok(post)
            ==> post.clients.contains_key(client_id) && post.clients[client_id].counterparty
            == pre.clients[client_id].counterparty && post.clients[client_id].creator
            == pre.clients[client_id].creator,
{
}

} // verus!
