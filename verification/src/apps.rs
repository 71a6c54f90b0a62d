//! Applications: the contracts that send and receive packets through the
//! router.

use crate::callbacks::IbcAppCallbackMsg;
use crate::error::{ContractError, ErrorView};
use crate::identifiers::{ascii_identifier, is_port_id, port_identifier_accepted, PortId};
use crate::wasm::WasmMsg;
use vstd::prelude::*;

verus! {

/// What the port of an application begins with when the port follows from
/// the address of the application.
pub const PORT_ID_PREFIX: &'static str = "wasm.";

/// The port of the application at `address`: `wasm.` followed by the
/// address, provided that this is a port identifier.
pub fn contract_port_id(address: &str) -> (r: Result<PortId, ContractError>)
    ensures
        r is Ok <==> port_identifier_accepted("wasm."@ + address@),
        ascii_identifier("wasm."@ + address@, 2, 128) ==> r is Ok,
        r matches Ok(port) ==> port@ == "wasm."@ + address@ && is_port_id(port@),
        r matches Err(e) ==> e@ is IdentifierError,
{
    let mut port = "wasm.".to_owned();
    port.append(address);
    PortId::new(port)
}

/// An application, by the address of its contract.
#[derive(Debug, Clone, PartialEq, Eq)]
pub struct IbcApplicationContract(pub String);

impl IbcApplicationContract {
    /// The application at `addr`.
    pub fn new(addr: String) -> (contract: Self)
        ensures
            contract.0 == addr,
    {
        IbcApplicationContract(addr)
    }

    /// The address of the application.
    pub fn addr(&self) -> (addr: String)
        ensures
            addr@ == self.0@,
    {
        self.0.clone()
    }

    /// The message that calls the application back with `msg`.
    pub fn call(&self, msg: IbcAppCallbackMsg) -> (call: WasmMsg<IbcAppCallbackMsg>)
        ensures
            call matches WasmMsg::Execute { contract_addr, msg: m } && contract_addr@ == self.0@
                && m == msg,
    {
        WasmMsg::Execute { contract_addr: self.0.clone(), msg }
    }

    /// The message that makes `admin` the administrator of the application.
    pub fn update_admin(&self, admin: String) -> (call: WasmMsg<IbcAppCallbackMsg>)
        ensures
            call matches WasmMsg::UpdateAdmin { contract_addr, admin: a } && contract_addr@
                == self.0@ && a == admin,
    {
        WasmMsg::UpdateAdmin { contract_addr: self.0.clone(), admin }
    }

    /// The message that leaves the application without administrator.
    pub fn clear_admin(&self) -> (call: WasmMsg<IbcAppCallbackMsg>)
        ensures
            call matches WasmMsg::ClearAdmin { contract_addr } && contract_addr@ == self.0@,
    {
        WasmMsg::ClearAdmin { contract_addr: self.0.clone() }
    }
}

} // verus!
