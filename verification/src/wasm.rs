//! Messages from one contract to another, before they are serialised.
//!
//! The library decides which contract is called and with what; turning the
//! payload into bytes and handing the message to the host is left to the
//! caller. A message therefore carries its payload as a typed value.

use crate::encoding::copy_bytes;
use crate::error::{ContractError, ErrorView};
use vstd::prelude::*;
use vstd::string::StringSliceAdditionalSpecFns;

verus! {

/// A message to a contract, or to the host about a contract.
#[derive(Debug, Clone, PartialEq, Eq)]
pub enum WasmMsg<M> {
    /// Calls the contract at `contract_addr` with `msg`.
    Execute { contract_addr: String, msg: M },
    /// Creates a contract from the code `code_id`, at an address that the
    /// host chooses.
    Instantiate { admin: Option<String>, code_id: u64, msg: M, label: String },
    /// Creates a contract from the code `code_id`, at the address that
    /// follows from the code, the creator and `salt`.
    Instantiate2 { admin: Option<String>, code_id: u64, label: String, msg: M, salt: Vec<u8> },
    /// Makes `admin` the administrator of the contract at `contract_addr`.
    UpdateAdmin { contract_addr: String, admin: String },
    /// Leaves the contract at `contract_addr` without administrator.
    ClearAdmin { contract_addr: String },
}

/// The address that a contract gets when it is created from the code with
/// checksum `checksum` by `creator` with `salt`.
pub uninterp spec fn instantiate2_address(
    checksum: Seq<u8>,
    creator: Seq<u8>,
    salt: Seq<u8>,
) -> Seq<u8>;

/// Whether an address can be derived: the checksum has 32 bytes and the salt
/// between 1 and 64.
pub open spec fn derivable(checksum: Seq<u8>, salt: Seq<u8>) -> bool {
    checksum.len() == 32 && 1 <= salt.len() <= 64
}

/// Why `cosmwasm-std` could not derive an address.
#[verifier::external_type_specification]
#[verifier::external_body]
pub struct ExInstantiate2AddressError(cosmwasm_std::Instantiate2AddressError);

/// Derives the address of a contract with `instantiate2_address` of
/// `cosmwasm-std`, on canonical addresses.
///
/// Trusted: the derivation succeeds exactly when the checksum has 32 bytes
/// and the salt has between 1 and 64; the address depends on the three
/// arguments alone and has 32 bytes.
#[verifier::external_body]
fn derive_address(checksum: &[u8], creator: &[u8], salt: &[u8]) -> (derived: Result<
    Vec<u8>,
    cosmwasm_std::Instantiate2AddressError,
>)
    ensures
        derived is Ok <==> derivable(checksum@, salt@),
        derived matches Ok(address) ==> address@ == instantiate2_address(
            checksum@,
            creator@,
            salt@,
        ) && address@.len() == 32,
{
    cosmwasm_std::instantiate2_address(
        checksum,
        &cosmwasm_std::CanonicalAddr::from(creator),
        salt,
    ).map(Vec::from)
}

/// Renders an error of the address derivation with its `Display` impl.
/// Nothing is claimed of the text.
#[verifier::external_body]
fn address_error_text(e: &cosmwasm_std::Instantiate2AddressError) -> String {
    e.to_string()
}

/// The message that creates a contract from the code `code_id` at a
/// predictable address, together with that address in canonical form.
///
/// `checksum` is the checksum of the code and `creator` the canonical address
/// of the contract that sends the message. The derivation fails, with the
/// host's message, unless the checksum has 32 bytes and the salt between 1
/// and 64.
pub fn instantiate2<M>(
    code_id: u64,
    checksum: &[u8],
    creator: &[u8],
    msg: M,
    label: String,
    admin: Option<String>,
    salt: &str,
) -> (r: Result<(WasmMsg<M>, Vec<u8>), ContractError>)
    ensures
        r is Ok <==> derivable(checksum@, vstd::utf8::encode_utf8(salt@)),
        r matches Ok(pair) ==> {
            &&& pair.1@ == instantiate2_address(checksum@, creator@, vstd::utf8::encode_utf8(salt@))
            &&& pair.1@.len() == 32
            &&& pair.0 matches WasmMsg::Instantiate2 {
                admin: a,
                code_id: c,
                label: l,
                msg: m,
                salt: s,
            }
            &&& a == admin
            &&& c == code_id
            &&& l == label
            &&& m == msg
            &&& s@ == vstd::utf8::encode_utf8(salt@)
        },
        r matches Err(e) ==> e@ is Std,
{
    let salt_bytes = copy_bytes(salt.as_bytes());
    match derive_address(checksum, creator, salt_bytes.as_slice()) {
        Ok(address) => Ok(
            (WasmMsg::Instantiate2 { admin, code_id, label, msg, salt: salt_bytes }, address),
        ),
        Err(e) => Err(ContractError::Std(address_error_text(&e))),
    }
}

/// A question to the contract at `contract_addr`, before it is serialised.
#[derive(Debug, Clone, PartialEq, Eq)]
pub struct WasmQuery<M> {
    /// The address of the contract that is asked.
    pub contract_addr: String,
    /// The question.
    pub msg: M,
}

/// What the host reports of a question that it passed on to a contract.
#[derive(Debug, Clone, PartialEq, Eq)]
pub enum RawQueryOutcome {
    /// The host could not put the question; the text says why.
    SystemError(String),
    /// The contract refused the question; the text says why.
    ContractError(String),
    /// The contract answered with these bytes.
    Answer(Vec<u8>),
}

/// The answer of a contract out of what the host reports: the bytes of the
/// answer, or an error that names who failed and why.
pub fn smart_raw(outcome: RawQueryOutcome) -> (r: Result<Vec<u8>, ContractError>)
    ensures
        match outcome {
            RawQueryOutcome::SystemError(reason) => r is Err && r->Err_0@ == ErrorView::Std(
                "Querier system error: "@ + reason@,
            ),
            RawQueryOutcome::ContractError(reason) => r is Err && r->Err_0@ == ErrorView::Std(
                "Querier contract error: "@ + reason@,
            ),
            RawQueryOutcome::Answer(bytes) => r is Ok && r->Ok_0 == bytes,
        },
{
    match outcome {
        RawQueryOutcome::SystemError(reason) => {
            let mut text = "Querier system error: ".to_owned();
            text.append(reason.as_str());
            Err(ContractError::Std(text))
        },
        RawQueryOutcome::ContractError(reason) => {
            let mut text = "Querier contract error: ".to_owned();
            text.append(reason.as_str());
            Err(ContractError::Std(text))
        },
        RawQueryOutcome::Answer(bytes) => Ok(bytes),
    }
}

/// The canonical address that a contract gets when it is created from the
/// code with checksum `checksum` by `creator` with `salt`.
pub fn predict_address(checksum: &[u8], creator: &[u8], salt: &str) -> (r: Result<
    Vec<u8>,
    ContractError,
>)
    ensures
        r is Ok <==> derivable(checksum@, vstd::utf8::encode_utf8(salt@)),
        r matches Ok(address) ==> address@ == instantiate2_address(
            checksum@,
            creator@,
            vstd::utf8::encode_utf8(salt@),
        ) && address@.len() == 32,
        r matches Err(e) ==> e@ is Std,
{
    match derive_address(checksum, creator, salt.as_bytes()) {
        Ok(address) => Ok(address),
        Err(e) => Err(ContractError::Std(address_error_text(&e))),
    }
}

} // verus!
