//! Handles on the contracts of the fabric: for each contract, the messages
//! that address it and the questions that can be put to it.
//!
//! A handle decides what is sent and where. Serialising the message and
//! handing it to the host is left to the caller.

use crate::clients::{ExecuteMsg as ClientExecuteMsg, InstantiateMsg, QueryMsg as ClientQueryMsg};
use crate::error::{ContractError, ErrorView};
use crate::registry::{
    ExecuteMsg as RegistryExecuteMsg, QueryMsg as RegistryQueryMsg, RegistryInstantiateMsg,
};
use crate::wasm::{derivable, instantiate2, instantiate2_address, WasmMsg, WasmQuery};
use vstd::prelude::*;
use vstd::utf8::encode_utf8;

verus! {

/// A client registry, by the address of its contract.
#[derive(Debug, Clone, PartialEq, Eq)]
pub struct Ics02ClientContract(pub String);

/// The code of the client registry, by the number under which the host
/// stores it.
#[derive(Debug, Clone, Copy, PartialEq, Eq, Structural)]
pub struct Ics02ClientCode(pub u64);

/// The questions that can be put to a client registry.
#[derive(Debug, Clone, PartialEq, Eq)]
pub struct Ics02ClientContractQuerier {
    addr: String,
}

impl Ics02ClientContract {
    /// The client registry at `addr`.
    pub fn new(addr: String) -> (contract: Self)
        ensures
            contract.0 == addr,
    {
        Ics02ClientContract(addr)
    }

    /// The address of the client registry.
    pub fn addr(&self) -> (addr: String)
        ensures
            addr@ == self.0@,
    {
        self.0.clone()
    }

    /// The message that hands `msg` to the client registry.
    pub fn call(&self, msg: RegistryExecuteMsg) -> (call: WasmMsg<RegistryExecuteMsg>)
        ensures
            call matches WasmMsg::Execute { contract_addr, msg: m } && contract_addr@ == self.0@
                && m == msg,
    {
        WasmMsg::Execute { contract_addr: self.0.clone(), msg }
    }

    /// The questions that can be put to the client registry.
    pub fn query(&self) -> (querier: Ics02ClientContractQuerier)
        ensures
            querier.address() == self.0@,
    {
        Ics02ClientContractQuerier::new(self.0.clone())
    }

    /// The message that makes `admin` the administrator of the registry.
    pub fn update_admin(&self, admin: String) -> (call: WasmMsg<RegistryExecuteMsg>)
        ensures
            call matches WasmMsg::UpdateAdmin { contract_addr, admin: a } && contract_addr@
                == self.0@ && a == admin,
    {
        WasmMsg::UpdateAdmin { contract_addr: self.0.clone(), admin }
    }

    /// The message that leaves the registry without administrator.
    pub fn clear_admin(&self) -> (call: WasmMsg<RegistryExecuteMsg>)
        ensures
            call matches WasmMsg::ClearAdmin { contract_addr } && contract_addr@ == self.0@,
    {
        WasmMsg::ClearAdmin { contract_addr: self.0.clone() }
    }
}

impl Ics02ClientCode {
    /// The code stored under `code_id`.
    pub fn new(code_id: u64) -> (code: Self)
        ensures
            code.0 == code_id,
    {
        Ics02ClientCode(code_id)
    }

    /// The number under which the host stores the code.
    pub fn code_id(&self) -> (id: u64)
        ensures
            id == self.0,
    {
        self.0
    }

    /// The message that creates a client registry from this code, at an
    /// address that the host chooses.
    pub fn instantiate(
        &self,
        msg: RegistryInstantiateMsg,
        label: String,
        admin: Option<String>,
    ) -> (call: WasmMsg<RegistryInstantiateMsg>)
        ensures
            call == (WasmMsg::Instantiate { admin, code_id: self.0, msg, label }),
    {
        WasmMsg::Instantiate { admin, code_id: self.0, msg, label }
    }

    /// The message that creates a client registry from this code at a
    /// predictable address, and that address in canonical form. `checksum`
    /// is the checksum of the code, `creator` the canonical address of the
    /// sender of the message.
    pub fn instantiate2(
        &self,
        checksum: &[u8],
        creator: &[u8],
        msg: RegistryInstantiateMsg,
        label: String,
        admin: Option<String>,
        salt: &str,
    ) -> (r: Result<(WasmMsg<RegistryInstantiateMsg>, Vec<u8>), ContractError>)
        ensures
            r is Ok <==> derivable(checksum@, encode_utf8(salt@)),
            r matches Ok(pair) ==> {
                &&& pair.1@ == instantiate2_address(checksum@, creator@, encode_utf8(salt@))
                &&& pair.0 matches WasmMsg::Instantiate2 {
                    admin: a,
                    code_id: c,
                    label: l,
                    msg: m,
                    salt: s,
                }
                &&& a == admin
                &&& c == self.0
                &&& l == label
                &&& m == msg
                &&& s@ == encode_utf8(salt@)
            },
            r matches Err(e) ==> e@ is Std,
    {
        instantiate2(self.0, checksum, creator, msg, label, admin, salt)
    }
}

impl Ics02ClientContractQuerier {
    /// The questions for the client registry at `addr`.
    pub fn new(addr: String) -> (querier: Self)
        ensures
            querier.address() == addr@,
    {
        Ics02ClientContractQuerier { addr }
    }

    /// The address of the client registry.
    pub closed spec fn address(&self) -> Seq<char> {
        self.addr@
    }

    /// The question for what the registry records of the client `client_id`.
    pub fn client_info(&self, client_id: String) -> (question: WasmQuery<RegistryQueryMsg>)
        ensures
            question.contract_addr@ == self.address(),
            question.msg == (RegistryQueryMsg::ClientInfo { client_id }),
    {
        WasmQuery { contract_addr: self.addr.clone(), msg: RegistryQueryMsg::ClientInfo { client_id } }
    }

    /// The question `query` for the client `client_id`, put through the
    /// registry.
    pub fn query_client(&self, client_id: String, query: ClientQueryMsg) -> (question: WasmQuery<
        RegistryQueryMsg,
    >)
        ensures
            question.contract_addr@ == self.address(),
            question.msg == (RegistryQueryMsg::QueryClient { client_id, query }),
    {
        WasmQuery {
            contract_addr: self.addr.clone(),
            msg: RegistryQueryMsg::QueryClient { client_id, query },
        }
    }

    /// The question for the counterparty of the client `client_id`.
    pub fn counterparty(&self, client_id: String) -> (question: WasmQuery<RegistryQueryMsg>)
        ensures
            question.contract_addr@ == self.address(),
            question.msg == (RegistryQueryMsg::Counterparty { client_id }),
    {
        WasmQuery {
            contract_addr: self.addr.clone(),
            msg: RegistryQueryMsg::Counterparty { client_id },
        }
    }

    /// The questions for the light client at `client_address`, the address
    /// that the registry records for a client.
    pub fn client_querier(&self, client_address: String) -> (querier: LightClientContractQuerier)
        ensures
            querier.address() == client_address@,
    {
        LightClientContractQuerier::new(client_address)
    }
}

/// The questions that can be put to a light client.
#[derive(Debug, Clone, PartialEq, Eq)]
pub struct LightClientContractQuerier {
    addr: String,
}

impl LightClientContractQuerier {
    /// The questions for the light client at `addr`.
    pub fn new(addr: String) -> (querier: Self)
        ensures
            querier.address() == addr@,
    {
        LightClientContractQuerier { addr }
    }

    /// The address of the light client.
    pub closed spec fn address(&self) -> Seq<char> {
        self.addr@
    }

    /// The question `msg` for the light client.
    pub fn ask(&self, msg: ClientQueryMsg) -> (question: WasmQuery<ClientQueryMsg>)
        ensures
            question.contract_addr@ == self.address(),
            question.msg == msg,
    {
        WasmQuery { contract_addr: self.addr.clone(), msg }
    }

    /// The question for the status of the client.
    pub fn status(&self) -> (question: WasmQuery<ClientQueryMsg>)
        ensures
            question.contract_addr@ == self.address(),
            question.msg == ClientQueryMsg::Status,
    {
        self.ask(ClientQueryMsg::Status)
    }

    /// The question for the genesis metadata of the client.
    pub fn export_metadata(&self) -> (question: WasmQuery<ClientQueryMsg>)
        ensures
            question.contract_addr@ == self.address(),
            question.msg == ClientQueryMsg::ExportMetadata,
    {
        self.ask(ClientQueryMsg::ExportMetadata)
    }

    /// The question for the time of the counterparty at `height`.
    pub fn timestamp_at_height(&self, height: crate::ibc::Height) -> (question: WasmQuery<
        ClientQueryMsg,
    >)
        ensures
            question.contract_addr@ == self.address(),
            question.msg == (ClientQueryMsg::TimestampAtHeight { height }),
    {
        self.ask(ClientQueryMsg::TimestampAtHeight { height })
    }

    /// The question whether `client_message` is valid.
    pub fn verify_client_message(&self, client_message: Vec<u8>) -> (question: WasmQuery<
        ClientQueryMsg,
    >)
        ensures
            question.contract_addr@ == self.address(),
            question.msg == (ClientQueryMsg::VerifyClientMessage { client_message }),
    {
        self.ask(ClientQueryMsg::VerifyClientMessage { client_message })
    }

    /// The question whether `client_message` is evidence of misbehaviour.
    pub fn check_for_misbehaviour(&self, client_message: Vec<u8>) -> (question: WasmQuery<
        ClientQueryMsg,
    >)
        ensures
            question.contract_addr@ == self.address(),
            question.msg == (ClientQueryMsg::CheckForMisbehaviour { client_message }),
    {
        self.ask(ClientQueryMsg::CheckForMisbehaviour { client_message })
    }

    /// The question whether a value is stored on the counterparty.
    pub fn verify_membership(&self, msg: crate::clients::VerifyMembershipMsg) -> (question:
        WasmQuery<ClientQueryMsg>)
        ensures
            question.contract_addr@ == self.address(),
            question.msg == ClientQueryMsg::VerifyMembership(msg),
    {
        self.ask(ClientQueryMsg::VerifyMembership(msg))
    }

    /// The question whether a path is empty on the counterparty.
    pub fn verify_non_membership(&self, msg: crate::clients::VerifyNonMembershipMsg) -> (question:
        WasmQuery<ClientQueryMsg>)
        ensures
            question.contract_addr@ == self.address(),
            question.msg == ClientQueryMsg::VerifyNonMembership(msg),
    {
        self.ask(ClientQueryMsg::VerifyNonMembership(msg))
    }

    /// The question for the owner of the client.
    pub fn ownership(&self) -> (question: WasmQuery<ClientQueryMsg>)
        ensures
            question.contract_addr@ == self.address(),
            question.msg == ClientQueryMsg::Ownership,
    {
        self.ask(ClientQueryMsg::Ownership)
    }
}

/// A Tendermint light client, by the address of its contract.
#[derive(Debug, Clone, PartialEq, Eq)]
pub struct Ics07TendermintContract(pub String);

/// The code of the Tendermint light client, by the number under which the
/// host stores it.
#[derive(Debug, Clone, Copy, PartialEq, Eq, Structural)]
pub struct Ics07TendermintCode(pub u64);

/// The questions that can be put to a Tendermint light client: those that
/// can be put to any light client.
pub type Ics07TendermintContractQuerier = LightClientContractQuerier;

impl Ics07TendermintContract {
    /// The Tendermint light client at `addr`.
    pub fn new(addr: String) -> (contract: Self)
        ensures
            contract.0 == addr,
    {
        Ics07TendermintContract(addr)
    }

    /// The address of the light client.
    pub fn addr(&self) -> (addr: String)
        ensures
            addr@ == self.0@,
    {
        self.0.clone()
    }

    /// The message that hands `msg` to the light client.
    pub fn call(&self, msg: ClientExecuteMsg) -> (call: WasmMsg<ClientExecuteMsg>)
        ensures
            call matches WasmMsg::Execute { contract_addr, msg: m } && contract_addr@ == self.0@
                && m == msg,
    {
        WasmMsg::Execute { contract_addr: self.0.clone(), msg }
    }

    /// The questions that can be put to the light client.
    pub fn query(&self) -> (querier: Ics07TendermintContractQuerier)
        ensures
            querier.address() == self.0@,
    {
        LightClientContractQuerier::new(self.0.clone())
    }

    /// The message that makes `admin` the administrator of the light client.
    pub fn update_admin(&self, admin: String) -> (call: WasmMsg<ClientExecuteMsg>)
        ensures
            call matches WasmMsg::UpdateAdmin { contract_addr, admin: a } && contract_addr@
                == self.0@ && a == admin,
    {
        WasmMsg::UpdateAdmin { contract_addr: self.0.clone(), admin }
    }

    /// The message that leaves the light client without administrator.
    pub fn clear_admin(&self) -> (call: WasmMsg<ClientExecuteMsg>)
        ensures
            call matches WasmMsg::ClearAdmin { contract_addr } && contract_addr@ == self.0@,
    {
        WasmMsg::ClearAdmin { contract_addr: self.0.clone() }
    }
}

impl Ics07TendermintCode {
    /// The code stored under `code_id`.
    pub fn new(code_id: u64) -> (code: Self)
        ensures
            code.0 == code_id,
    {
        Ics07TendermintCode(code_id)
    }

    /// The number under which the host stores the code.
    pub fn code_id(&self) -> (id: u64)
        ensures
            id == self.0,
    {
        self.0
    }

    /// The message that creates a Tendermint light client from this code, at
    /// an address that the host chooses.
    pub fn instantiate(&self, msg: InstantiateMsg, label: String, admin: Option<String>) -> (call:
        WasmMsg<InstantiateMsg>)
        ensures
            call == (WasmMsg::Instantiate { admin, code_id: self.0, msg, label }),
    {
        WasmMsg::Instantiate { admin, code_id: self.0, msg, label }
    }

    /// The message that creates a Tendermint light client from this code at
    /// a predictable address, and that address in canonical form.
    pub fn instantiate2(
        &self,
        checksum: &[u8],
        creator: &[u8],
        msg: InstantiateMsg,
        label: String,
        admin: Option<String>,
        salt: &str,
    ) -> (r: Result<(WasmMsg<InstantiateMsg>, Vec<u8>), ContractError>)
        ensures
            r is Ok <==> derivable(checksum@, encode_utf8(salt@)),
            r matches Ok(pair) ==> {
                &&& pair.1@ == instantiate2_address(checksum@, creator@, encode_utf8(salt@))
                &&& pair.0 matches WasmMsg::Instantiate2 {
                    admin: a,
                    code_id: c,
                    label: l,
                    msg: m,
                    salt: s,
                }
                &&& a == admin
                &&& c == self.0
                &&& l == label
                &&& m == msg
                &&& s@ == encode_utf8(salt@)
            },
            r matches Err(e) ==> e@ is Std,
    {
        instantiate2(self.0, checksum, creator, msg, label, admin, salt)
    }
}

/// A contract of any kind, by its address.
#[derive(Debug, Clone, PartialEq, Eq)]
pub struct CwTemplateContract(pub String);

impl CwTemplateContract {
    /// The address of the contract.
    pub fn addr(&self) -> (addr: String)
        ensures
            addr@ == self.0@,
    {
        self.0.clone()
    }

    /// The message that hands `msg` to the contract.
    pub fn call<M>(&self, msg: M) -> (call: WasmMsg<M>)
        ensures
            call matches WasmMsg::Execute { contract_addr, msg: m } && contract_addr@ == self.0@
                && m == msg,
    {
        WasmMsg::Execute { contract_addr: self.0.clone(), msg }
    }
}

} // verus!
