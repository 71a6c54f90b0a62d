//! The interface of a light client: the messages that it accepts and the
//! answers that it gives.
//!
//! The router and the registry never look inside a light client. They decide
//! which client to ask and what to ask it; the answers come back as plain
//! values.

use crate::encoding::copy_bytes;
use crate::error::{ContractError, ErrorView};
use crate::ibc::Height;
use crate::paths::MerklePath;
use crate::wasm::WasmMsg;
use vstd::prelude::*;

verus! {

/// What a light client is created with.
#[derive(Debug, Clone, PartialEq, Eq)]
pub struct InstantiateMsg {
    /// The initial client state, encoded.
    pub client_state: Vec<u8>,
    /// The initial consensus state, encoded.
    pub consensus_state: Vec<u8>,
}

/// A message that changes the state of a light client.
#[derive(Debug, Clone, PartialEq, Eq)]
pub enum ExecuteMsg {
    /// Updates the client with a header.
    UpdateState { client_message: Vec<u8> },
    /// Freezes the client on evidence of misbehaviour.
    UpdateStateOnMisbehaviour { client_message: Vec<u8> },
    /// Verifies an upgrade and moves the client to the upgraded state.
    VerifyUpgradeAndUpdateState {
        upgrade_client_state: Vec<u8>,
        upgrade_consensus_state: Vec<u8>,
        proof_upgrade_client: Vec<u8>,
        proof_upgrade_consensus_state: Vec<u8>,
    },
}

/// The question whether `value` is stored under `path` on the counterparty
/// at `height`.
#[derive(Debug, Clone, PartialEq, Eq)]
pub struct VerifyMembershipMsg {
    /// The proof submitted by the relayer.
    pub proof: Vec<u8>,
    /// The path of the value in the counterparty's store.
    pub path: MerklePath,
    /// The value claimed to be stored.
    pub value: Vec<u8>,
    /// The height at which the proof was taken.
    pub height: Height,
    /// The delay in blocks that the proof must have aged; the router asks none.
    pub delay_block_period: u64,
    /// The delay in time that the proof must have aged; the router asks none.
    pub delay_time_period: u64,
}

/// The question whether nothing is stored under `path` on the counterparty
/// at `height`.
#[derive(Debug, Clone, PartialEq, Eq)]
pub struct VerifyNonMembershipMsg {
    /// The proof submitted by the relayer.
    pub proof: Vec<u8>,
    /// The path in the counterparty's store.
    pub path: MerklePath,
    /// The height at which the proof was taken.
    pub height: Height,
    /// The delay in blocks that the proof must have aged; the router asks none.
    pub delay_block_period: u64,
    /// The delay in time that the proof must have aged; the router asks none.
    pub delay_time_period: u64,
}

/// A question to a light client.
#[derive(Debug, Clone, PartialEq, Eq)]
pub enum QueryMsg {
    /// Whether the client is active, expired or frozen.
    Status,
    /// The metadata of the client's genesis.
    ExportMetadata,
    /// The time of the counterparty at `height`.
    TimestampAtHeight { height: Height },
    /// Whether a client message is valid.
    VerifyClientMessage { client_message: Vec<u8> },
    /// Whether a client message is evidence of misbehaviour.
    CheckForMisbehaviour { client_message: Vec<u8> },
    /// Whether a value is stored on the counterparty.
    VerifyMembership(VerifyMembershipMsg),
    /// Whether a path is empty on the counterparty.
    VerifyNonMembership(VerifyNonMembershipMsg),
    /// Who owns the client.
    Ownership,
}

/// A question to a light client as a mathematical value.
pub enum QueryView {
    Status,
    ExportMetadata,
    TimestampAtHeight { height: Height },
    VerifyClientMessage { client_message: Seq<u8> },
    CheckForMisbehaviour { client_message: Seq<u8> },
    VerifyMembership {
        proof: Seq<u8>,
        path: Seq<Seq<char>>,
        value: Seq<u8>,
        height: Height,
        delay_block_period: u64,
        delay_time_period: u64,
    },
    VerifyNonMembership {
        proof: Seq<u8>,
        path: Seq<Seq<char>>,
        height: Height,
        delay_block_period: u64,
        delay_time_period: u64,
    },
    Ownership,
}

impl View for QueryMsg {
    type V = QueryView;

    open spec fn view(&self) -> QueryView {
        match self {
            QueryMsg::Status => QueryView::Status,
            QueryMsg::ExportMetadata => QueryView::ExportMetadata,
            QueryMsg::TimestampAtHeight { height } => QueryView::TimestampAtHeight {
                height: *height,
            },
            QueryMsg::VerifyClientMessage { client_message } => QueryView::VerifyClientMessage {
                client_message: client_message@,
            },
            QueryMsg::CheckForMisbehaviour { client_message } => QueryView::CheckForMisbehaviour {
                client_message: client_message@,
            },
            QueryMsg::VerifyMembership(msg) => QueryView::VerifyMembership {
                proof: msg.proof@,
                path: msg.path@,
                value: msg.value@,
                height: msg.height,
                delay_block_period: msg.delay_block_period,
                delay_time_period: msg.delay_time_period,
            },
            QueryMsg::VerifyNonMembership(msg) => QueryView::VerifyNonMembership {
                proof: msg.proof@,
                path: msg.path@,
                height: msg.height,
                delay_block_period: msg.delay_block_period,
                delay_time_period: msg.delay_time_period,
            },
            QueryMsg::Ownership => QueryView::Ownership,
        }
    }
}

/// One entry of the metadata of a client's genesis.
#[derive(Debug, Clone, PartialEq, Eq)]
pub struct GenesisMetadata {
    pub key: Vec<u8>,
    pub value: Vec<u8>,
}

/// The answer of a light client to a question about its state. Which fields
/// are filled depends on the question.
#[derive(Debug, Clone, PartialEq, Eq)]
pub struct QueryResponse {
    /// Whether the question could be answered.
    pub is_valid: bool,
    /// The status of the client, for a question about the status.
    pub status: Option<String>,
    /// The genesis metadata, for a question about the metadata.
    pub genesis_metadata: Option<Vec<GenesisMetadata>>,
    /// Whether misbehaviour was found, for a question about misbehaviour.
    pub found_misbehaviour: Option<bool>,
    /// The time at the height, for a question about a time.
    pub timestamp: Option<u64>,
}

/// The error for an answer that does not hold what was asked for.
pub open spec fn unreadable_answer(target: Seq<char>) -> ErrorView {
    ErrorView::TryFrom { source_type: "QueryResponse"@, target_type: target }
}

/// The status of a light client.
#[derive(Debug, Clone, PartialEq, Eq)]
pub struct Status {
    /// The status of the client: `Active`, `Expired`, `Frozen` or another
    /// word of the client's.
    pub status: String,
}

/// The genesis metadata of a light client.
#[derive(Debug, Clone, PartialEq, Eq)]
pub struct ExportMetadata {
    /// The genesis metadata.
    pub metadata: Vec<GenesisMetadata>,
}

/// The time of the counterparty at a height.
#[derive(Debug, Clone, Copy, PartialEq, Eq, Structural)]
pub struct TimestampAtHeight {
    /// The time at the height, in nanoseconds since the epoch.
    pub timestamp: u64,
}

/// Whether a client message is valid.
#[derive(Debug, Clone, Copy, PartialEq, Eq, Structural)]
pub struct VerifyClientMessage {
    /// Whether the client message is valid.
    pub is_valid: bool,
}

/// Whether a client message is evidence of misbehaviour.
#[derive(Debug, Clone, Copy, PartialEq, Eq, Structural)]
pub struct CheckForMisbehaviour {
    /// Whether misbehaviour was found.
    pub found_misbehaviour: bool,
}

impl Status {
    /// Reads the status out of an answer: the answer must be valid and hold
    /// a status.
    pub fn try_from(response: QueryResponse) -> (r: Result<Self, ContractError>)
        ensures
            response.is_valid && response.status is Some ==> r is Ok && r->Ok_0.status
                == response.status->0,
            !(response.is_valid && response.status is Some) ==> r is Err && r->Err_0@
                == unreadable_answer("Status"@),
    {
        if !response.is_valid {
            return Err(ContractError::try_from("QueryResponse", "Status"));
        }
        match response.status {
            Some(status) => Ok(Status { status }),
            None => Err(ContractError::try_from("QueryResponse", "Status")),
        }
    }
}

impl ExportMetadata {
    /// Reads the metadata out of an answer: the answer must be valid and
    /// hold metadata.
    pub fn try_from(response: QueryResponse) -> (r: Result<Self, ContractError>)
        ensures
            response.is_valid && response.genesis_metadata is Some ==> r is Ok
                && r->Ok_0.metadata == response.genesis_metadata->0,
            !(response.is_valid && response.genesis_metadata is Some) ==> r is Err && r->Err_0@
                == unreadable_answer("ExportMetadata"@),
    {
        if !response.is_valid {
            return Err(ContractError::try_from("QueryResponse", "ExportMetadata"));
        }
        match response.genesis_metadata {
            Some(metadata) => Ok(ExportMetadata { metadata }),
            None => Err(ContractError::try_from("QueryResponse", "ExportMetadata")),
        }
    }
}

impl TimestampAtHeight {
    /// Reads the time out of an answer: the answer must be valid and hold a
    /// time.
    pub fn try_from(response: QueryResponse) -> (r: Result<Self, ContractError>)
        ensures
            response.is_valid && response.timestamp is Some ==> r is Ok && r->Ok_0.timestamp
                == response.timestamp->0,
            !(response.is_valid && response.timestamp is Some) ==> r is Err && r->Err_0@
                == unreadable_answer("TimestampAtHeight"@),
    {
        if !response.is_valid {
            return Err(ContractError::try_from("QueryResponse", "TimestampAtHeight"));
        }
        match response.timestamp {
            Some(timestamp) => Ok(TimestampAtHeight { timestamp }),
            None => Err(ContractError::try_from("QueryResponse", "TimestampAtHeight")),
        }
    }
}

impl VerifyClientMessage {
    /// Reads the verdict out of an answer: a valid answer says that the
    /// client message is valid, any other answer is an error.
    pub fn try_from(response: QueryResponse) -> (r: Result<Self, ContractError>)
        ensures
            response.is_valid ==> r is Ok && r->Ok_0.is_valid,
            !response.is_valid ==> r is Err && r->Err_0@ == unreadable_answer(
                "VerifyClientMessage"@,
            ),
    {
        if !response.is_valid {
            return Err(ContractError::try_from("QueryResponse", "VerifyClientMessage"));
        }
        Ok(VerifyClientMessage { is_valid: true })
    }
}

impl CheckForMisbehaviour {
    /// Reads the finding out of an answer: the answer must be valid and hold
    /// a finding.
    pub fn try_from(response: QueryResponse) -> (r: Result<Self, ContractError>)
        ensures
            response.is_valid && response.found_misbehaviour is Some ==> r is Ok
                && r->Ok_0.found_misbehaviour == response.found_misbehaviour->0,
            !(response.is_valid && response.found_misbehaviour is Some) ==> r is Err && r->Err_0@
                == unreadable_answer("CheckForMisbehaviour"@),
    {
        if !response.is_valid {
            return Err(ContractError::try_from("QueryResponse", "CheckForMisbehaviour"));
        }
        match response.found_misbehaviour {
            Some(found_misbehaviour) => Ok(CheckForMisbehaviour { found_misbehaviour }),
            None => Err(ContractError::try_from("QueryResponse", "CheckForMisbehaviour")),
        }
    }
}

/// The code of a light client, by the number under which the host stores it.
#[derive(Debug, Clone, Copy, PartialEq, Eq, Structural)]
pub struct LightClientCode(pub u64);

impl LightClientCode {
    /// The code stored under `code_id`.
    pub fn new(code_id: u64) -> (code: Self)
        ensures
            code.0 == code_id,
    {
        LightClientCode(code_id)
    }

    /// The number under which the host stores the code.
    pub fn code_id(&self) -> (id: u64)
        ensures
            id == self.0,
    {
        self.0
    }

    /// The message that creates a light client from this code, at an address
    /// that the host chooses.
    pub fn instantiate(&self, msg: InstantiateMsg, label: String, admin: Option<String>) -> (call:
        WasmMsg<InstantiateMsg>)
        ensures
            call == (WasmMsg::Instantiate { admin, code_id: self.0, msg, label }),
    {
        WasmMsg::Instantiate { admin, code_id: self.0, msg, label }
    }

    /// The message that creates a light client from this code at a
    /// predictable address, and that address in canonical form. `checksum`
    /// is the checksum of the code, `creator` the canonical address of the
    /// sender of the message.
    pub fn instantiate2(
        &self,
        checksum: &[u8],
        creator: &[u8],
        msg: InstantiateMsg,
        label: String,
        admin: Option<String>,
        salt: &str,
    ) -> (r: Result<(WasmMsg<InstantiateMsg>, Vec<u8>), ContractError>)
        ensures
            r is Ok <==> crate::wasm::derivable(checksum@, vstd::utf8::encode_utf8(salt@)),
            r matches Ok(pair) ==> {
                &&& pair.1@ == crate::wasm::instantiate2_address(
                    checksum@,
                    creator@,
                    vstd::utf8::encode_utf8(salt@),
                )
                &&& pair.0 matches WasmMsg::Instantiate2 {
                    admin: a,
                    code_id: c,
                    label: l,
                    msg: m,
                    salt: s,
                }
                &&& a == admin
                &&& c == self.0
                &&& l == label
                &&& m == msg
                &&& s@ == vstd::utf8::encode_utf8(salt@)
            },
            r matches Err(e) ==> e@ is Std,
    {
        crate::wasm::instantiate2(self.0, checksum, creator, msg, label, admin, salt)
    }
}

/// A light client, by the address of its contract.
#[derive(Debug, Clone, PartialEq, Eq)]
pub struct LightClientContract(pub String);

impl LightClientContract {
    /// The light client at `addr`.
    pub fn new(addr: String) -> (contract: Self)
        ensures
            contract.0 == addr,
    {
        LightClientContract(addr)
    }

    /// The address of the light client.
    pub fn addr(&self) -> (addr: String)
        ensures
            addr@ == self.0@,
    {
        self.0.clone()
    }

    /// The message that hands `msg` to the light client.
    pub fn call(&self, msg: ExecuteMsg) -> (call: WasmMsg<ExecuteMsg>)
        ensures
            call matches WasmMsg::Execute { contract_addr, msg: m } && contract_addr@ == self.0@
                && m == msg,
    {
        WasmMsg::Execute { contract_addr: self.0.clone(), msg }
    }

    /// The message that makes `admin` the administrator of the light client.
    pub fn update_admin(&self, admin: String) -> (call: WasmMsg<ExecuteMsg>)
        ensures
            call matches WasmMsg::UpdateAdmin { contract_addr, admin: a } && contract_addr@
                == self.0@ && a == admin,
    {
        WasmMsg::UpdateAdmin { contract_addr: self.0.clone(), admin }
    }

    /// The message that leaves the light client without administrator.
    pub fn clear_admin(&self) -> (call: WasmMsg<ExecuteMsg>)
        ensures
            call matches WasmMsg::ClearAdmin { contract_addr } && contract_addr@ == self.0@,
    {
        WasmMsg::ClearAdmin { contract_addr: self.0.clone() }
    }
}

/// The answer of a light client to a question about its state, by the kind
/// of the question.
#[derive(Debug, Clone, PartialEq, Eq)]
pub enum QueryClient {
    Status(Status),
    ExportMetadata(ExportMetadata),
    TimestampAtHeight(TimestampAtHeight),
    VerifyClientMessage(VerifyClientMessage),
    CheckForMisbehaviour(CheckForMisbehaviour),
}

/// The error for a question whose answer is no state of the client.
pub open spec fn no_state_answer() -> ErrorView {
    ErrorView::TryFrom { source_type: "QueryMsg"@, target_type: "QueryClient"@ }
}

impl QueryClient {
    /// Reads the answer `response` to the question `query`: the part of the
    /// answer that the question asks for. A question about membership or
    /// ownership has no such answer.
    pub fn try_from(query: &QueryMsg, response: QueryResponse) -> (r: Result<Self, ContractError>)
        ensures
            match query {
                QueryMsg::Status => {
                    if response.is_valid && response.status is Some {
                        r matches Ok(QueryClient::Status(s)) && s.status == response.status->0
                    } else {
                        r is Err && r->Err_0@ == unreadable_answer("Status"@)
                    }
                },
                QueryMsg::ExportMetadata => {
                    if response.is_valid && response.genesis_metadata is Some {
                        r matches Ok(QueryClient::ExportMetadata(m)) && m.metadata
                            == response.genesis_metadata->0
                    } else {
                        r is Err && r->Err_0@ == unreadable_answer("ExportMetadata"@)
                    }
                },
                QueryMsg::TimestampAtHeight { height } => {
                    if response.is_valid && response.timestamp is Some {
                        r matches Ok(QueryClient::TimestampAtHeight(t)) && t.timestamp
                            == response.timestamp->0
                    } else {
                        r is Err && r->Err_0@ == unreadable_answer("TimestampAtHeight"@)
                    }
                },
                QueryMsg::VerifyClientMessage { client_message } => {
                    if response.is_valid {
                        r matches Ok(QueryClient::VerifyClientMessage(v)) && v.is_valid
                    } else {
                        r is Err && r->Err_0@ == unreadable_answer("VerifyClientMessage"@)
                    }
                },
                QueryMsg::CheckForMisbehaviour { client_message } => {
                    if response.is_valid && response.found_misbehaviour is Some {
                        r matches Ok(QueryClient::CheckForMisbehaviour(c)) && c.found_misbehaviour
                            == response.found_misbehaviour->0
                    } else {
                        r is Err && r->Err_0@ == unreadable_answer("CheckForMisbehaviour"@)
                    }
                },
                _ => r is Err && r->Err_0@ == no_state_answer(),
            },
    {
        match query {
            QueryMsg::Status => match Status::try_from(response) {
                Ok(status) => Ok(QueryClient::Status(status)),
                Err(e) => Err(e),
            },
            QueryMsg::ExportMetadata => match ExportMetadata::try_from(response) {
                Ok(metadata) => Ok(QueryClient::ExportMetadata(metadata)),
                Err(e) => Err(e),
            },
            QueryMsg::TimestampAtHeight { height: _ } => match TimestampAtHeight::try_from(
                response,
            ) {
                Ok(time) => Ok(QueryClient::TimestampAtHeight(time)),
                Err(e) => Err(e),
            },
            QueryMsg::VerifyClientMessage { client_message: _ } => {
                match VerifyClientMessage::try_from(response) {
                    Ok(verdict) => Ok(QueryClient::VerifyClientMessage(verdict)),
                    Err(e) => Err(e),
                }
            },
            QueryMsg::CheckForMisbehaviour { client_message: _ } => {
                match CheckForMisbehaviour::try_from(response) {
                    Ok(finding) => Ok(QueryClient::CheckForMisbehaviour(finding)),
                    Err(e) => Err(e),
                }
            },
            _ => Err(ContractError::try_from("QueryMsg", "QueryClient")),
        }
    }
}

} // verus!
