//! The Tendermint light client, as far as the fabric decides about it: which
//! messages reach the client in which form, and who may send them.
//!
//! The client itself verifies headers and proofs and is not part of the
//! library. It accepts questions about its state as queries, and everything
//! else, membership proofs included, as privileged calls. The fabric offers
//! membership proofs as questions, so a question is routed to one of the two.

use crate::clients::{
    ExecuteMsg, InstantiateMsg, QueryMsg, VerifyMembershipMsg, VerifyNonMembershipMsg,
};
use crate::error::{ContractError, ErrorView, OwnershipError};
use crate::host::assert_owner;
use crate::ibc::Height;
use crate::store::{in_range, precedes, view_bound, Store};
use vstd::prelude::*;

verus! {

/// The kind of light client that follows a Tendermint chain.
#[derive(Clone, Copy, Debug, PartialEq, Eq, Structural)]
pub struct TendermintClient;

/// What the Tendermint client is created with.
#[derive(Debug, Clone, PartialEq, Eq)]
pub struct TendermintInstantiateMsg {
    /// The initial client state, encoded.
    pub client_state: Vec<u8>,
    /// The initial consensus state, encoded.
    pub consensus_state: Vec<u8>,
    /// The checksum of the code of the client; the fabric leaves it empty.
    pub checksum: Vec<u8>,
}

impl TendermintInstantiateMsg {
    /// The message for the client out of the message of the fabric.
    pub fn from(msg: InstantiateMsg) -> (native: Self)
        ensures
            native.client_state == msg.client_state,
            native.consensus_state == msg.consensus_state,
            native.checksum@ == Seq::<u8>::empty(),
    {
        TendermintInstantiateMsg {
            client_state: msg.client_state,
            consensus_state: msg.consensus_state,
            checksum: Vec::new(),
        }
    }
}

/// A question that the Tendermint client answers as a query.
#[derive(Debug, PartialEq, Eq)]
pub enum TendermintQueryMsg {
    Status,
    ExportMetadata,
    TimestampAtHeight { height: Height },
    VerifyClientMessage { client_message: Vec<u8> },
    CheckForMisbehaviour { client_message: Vec<u8> },
}

/// A privileged call of the Tendermint client.
#[derive(Debug, PartialEq, Eq)]
pub enum SudoMsg {
    UpdateState { client_message: Vec<u8> },
    UpdateStateOnMisbehaviour { client_message: Vec<u8> },
    VerifyUpgradeAndUpdateState {
        upgrade_client_state: Vec<u8>,
        upgrade_consensus_state: Vec<u8>,
        proof_upgrade_client: Vec<u8>,
        proof_upgrade_consensus_state: Vec<u8>,
    },
    VerifyMembership(VerifyMembershipMsg),
    VerifyNonMembership(VerifyNonMembershipMsg),
}

/// The error for a question that does not convert to `target`.
pub open spec fn unroutable(target: Seq<char>) -> ErrorView {
    ErrorView::TryFrom { source_type: "QueryMsg"@, target_type: target }
}

impl TendermintQueryMsg {
    /// The query for the client out of a question of the fabric. Questions
    /// about membership and about ownership are no queries of the client.
    pub fn try_from(msg: QueryMsg) -> (r: Result<Self, ContractError>)
        ensures
            match msg {
                QueryMsg::Status => r == Ok::<Self, ContractError>(TendermintQueryMsg::Status),
                QueryMsg::ExportMetadata => r == Ok::<Self, ContractError>(
                    TendermintQueryMsg::ExportMetadata,
                ),
                QueryMsg::TimestampAtHeight { height } => r == Ok::<Self, ContractError>(
                    TendermintQueryMsg::TimestampAtHeight { height },
                ),
                QueryMsg::VerifyClientMessage { client_message } => r == Ok::<Self, ContractError>(
                    TendermintQueryMsg::VerifyClientMessage { client_message },
                ),
                QueryMsg::CheckForMisbehaviour { client_message } => r == Ok::<
                    Self,
                    ContractError,
                >(TendermintQueryMsg::CheckForMisbehaviour { client_message }),
                _ => r is Err && r->Err_0@ == unroutable("QueryMsg"@),
            },
    {
        match msg {
            QueryMsg::Status => Ok(TendermintQueryMsg::Status),
            QueryMsg::ExportMetadata => Ok(TendermintQueryMsg::ExportMetadata),
            QueryMsg::TimestampAtHeight { height } => Ok(
                TendermintQueryMsg::TimestampAtHeight { height },
            ),
            QueryMsg::VerifyClientMessage { client_message } => Ok(
                TendermintQueryMsg::VerifyClientMessage { client_message },
            ),
            QueryMsg::CheckForMisbehaviour { client_message } => Ok(
                TendermintQueryMsg::CheckForMisbehaviour { client_message },
            ),
            _ => Err(ContractError::try_from("QueryMsg", "QueryMsg")),
        }
    }
}

/// The privileged call that the message `msg` becomes: the same call with
/// the same payload.
pub open spec fn sudo_of(msg: ExecuteMsg) -> SudoMsg {
    match msg {
        ExecuteMsg::UpdateState { client_message } => SudoMsg::UpdateState { client_message },
        ExecuteMsg::UpdateStateOnMisbehaviour { client_message } => {
            SudoMsg::UpdateStateOnMisbehaviour { client_message }
        },
        ExecuteMsg::VerifyUpgradeAndUpdateState {
            upgrade_client_state,
            upgrade_consensus_state,
            proof_upgrade_client,
            proof_upgrade_consensus_state,
        } => SudoMsg::VerifyUpgradeAndUpdateState {
            upgrade_client_state,
            upgrade_consensus_state,
            proof_upgrade_client,
            proof_upgrade_consensus_state,
        },
    }
}

impl SudoMsg {
    /// The privileged call for a message that changes the client.
    pub fn from(msg: ExecuteMsg) -> (call: Self)
        ensures
            call == sudo_of(msg),
    {
        match msg {
            ExecuteMsg::UpdateState { client_message } => SudoMsg::UpdateState { client_message },
            ExecuteMsg::UpdateStateOnMisbehaviour { client_message } => {
                SudoMsg::UpdateStateOnMisbehaviour { client_message }
            },
            ExecuteMsg::VerifyUpgradeAndUpdateState {
                upgrade_client_state,
                upgrade_consensus_state,
                proof_upgrade_client,
                proof_upgrade_consensus_state,
            } => SudoMsg::VerifyUpgradeAndUpdateState {
                upgrade_client_state,
                upgrade_consensus_state,
                proof_upgrade_client,
                proof_upgrade_consensus_state,
            },
        }
    }

    /// The privileged call for a question about membership. No other
    /// question is a privileged call.
    pub fn try_from(msg: QueryMsg) -> (r: Result<Self, ContractError>)
        ensures
            match msg {
                QueryMsg::VerifyMembership(m) => r == Ok::<Self, ContractError>(
                    SudoMsg::VerifyMembership(m),
                ),
                QueryMsg::VerifyNonMembership(m) => r == Ok::<Self, ContractError>(
                    SudoMsg::VerifyNonMembership(m),
                ),
                _ => r is Err && r->Err_0@ == unroutable("SudoMsg"@),
            },
    {
        match msg {
            QueryMsg::VerifyMembership(m) => Ok(SudoMsg::VerifyMembership(m)),
            QueryMsg::VerifyNonMembership(m) => Ok(SudoMsg::VerifyNonMembership(m)),
            _ => Err(ContractError::try_from("QueryMsg", "SudoMsg")),
        }
    }
}

/// Where a question to the client goes.
#[derive(Debug, PartialEq, Eq)]
pub enum Routed {
    /// To the queries of the client.
    Query(TendermintQueryMsg),
    /// To the privileged calls of the client, on a store that takes no
    /// writes.
    Sudo(SudoMsg),
    /// To the record of who owns the client.
    Ownership,
}

/// Routes a question to the client: a question about its state is a query, a
/// question about membership a privileged call on a store that takes no
/// writes, and the question for the owner is answered from the record.
pub fn query(msg: QueryMsg) -> (route: Routed)
    ensures
        match msg {
            QueryMsg::Status => route == Routed::Query(TendermintQueryMsg::Status),
            QueryMsg::ExportMetadata => route == Routed::Query(TendermintQueryMsg::ExportMetadata),
            QueryMsg::TimestampAtHeight { height } => route == Routed::Query(
                TendermintQueryMsg::TimestampAtHeight { height },
            ),
            QueryMsg::VerifyClientMessage { client_message } => route == Routed::Query(
                TendermintQueryMsg::VerifyClientMessage { client_message },
            ),
            QueryMsg::CheckForMisbehaviour { client_message } => route == Routed::Query(
                TendermintQueryMsg::CheckForMisbehaviour { client_message },
            ),
            QueryMsg::VerifyMembership(m) => route == Routed::Sudo(SudoMsg::VerifyMembership(m)),
            QueryMsg::VerifyNonMembership(m) => route == Routed::Sudo(
                SudoMsg::VerifyNonMembership(m),
            ),
            QueryMsg::Ownership => route == Routed::Ownership,
        },
{
    match msg {
        QueryMsg::Status => Routed::Query(TendermintQueryMsg::Status),
        QueryMsg::ExportMetadata => Routed::Query(TendermintQueryMsg::ExportMetadata),
        QueryMsg::TimestampAtHeight { height } => Routed::Query(
            TendermintQueryMsg::TimestampAtHeight { height },
        ),
        QueryMsg::VerifyClientMessage { client_message } => Routed::Query(
            TendermintQueryMsg::VerifyClientMessage { client_message },
        ),
        QueryMsg::CheckForMisbehaviour { client_message } => Routed::Query(
            TendermintQueryMsg::CheckForMisbehaviour { client_message },
        ),
        QueryMsg::VerifyMembership(m) => Routed::Sudo(SudoMsg::VerifyMembership(m)),
        QueryMsg::VerifyNonMembership(m) => Routed::Sudo(SudoMsg::VerifyNonMembership(m)),
        QueryMsg::Ownership => Routed::Ownership,
    }
}

/// The privileged call that a message to the client becomes. Only the owner
/// of the client may send one.
pub fn execute(owner: &Option<String>, sender: &str, msg: ExecuteMsg) -> (r: Result<
    SudoMsg,
    ContractError,
>)
    ensures
        match owner {
            None => r is Err && r->Err_0@ == ErrorView::OwnershipError(OwnershipError::NoOwner),
            Some(o) => if o@ == sender@ {
                r is Ok && r->Ok_0 == sudo_of(msg)
            } else {
                r is Err && r->Err_0@ == ErrorView::OwnershipError(OwnershipError::NotOwner)
            },
        },
{
    match assert_owner(owner, sender) {
        Ok(_) => Ok(SudoMsg::from(msg)),
        Err(e) => Err(e),
    }
}

/// A store that can be read and takes no writes: what is written to it is
/// dropped, and it stays what the store beneath it is.
pub struct MockMutStorage<'a> {
    underlying: &'a Store,
}

impl<'a> View for MockMutStorage<'a> {
    type V = Map<Seq<u8>, Seq<u8>>;

    closed spec fn view(&self) -> Map<Seq<u8>, Seq<u8>> {
        self.underlying@
    }
}

impl<'a> MockMutStorage<'a> {
    /// A store that reads from `underlying` and takes no writes.
    pub fn new(underlying: &'a Store) -> (storage: Self)
        ensures
            storage@ == underlying@,
    {
        MockMutStorage { underlying }
    }

    /// The value stored under `key`, if any.
    pub fn get(&self, key: &[u8]) -> (value: Option<Vec<u8>>)
        ensures
            value is Some <==> self@.contains_key(key@),
            value is Some ==> value->0@ == self@[key@],
    {
        self.underlying.get(key)
    }

    /// Drops the write.
    pub fn set(&mut self, key: &[u8], value: &[u8])
        ensures
            final(self)@ == old(self)@,
    {
    }

    /// Drops the removal.
    pub fn remove(&mut self, key: &[u8])
        ensures
            final(self)@ == old(self)@,
    {
    }

    /// The entries whose keys lie from `start` to `end`, in ascending order.
    pub fn range(&self, start: Option<&[u8]>, end: Option<&[u8]>) -> (found: Vec<(Vec<u8>, Vec<u8>)>)
        ensures
            forall|i: int, j: int|
                0 <= i < j < found@.len() ==> precedes(
                    #[trigger] found@[i].0@,
                    #[trigger] found@[j].0@,
                ),
            forall|i: int|
                0 <= i < found@.len() ==> {
                    &&& in_range((#[trigger] found@[i]).0@, view_bound(start), view_bound(end))
                    &&& self@.contains_key(found@[i].0@)
                    &&& self@[found@[i].0@] == found@[i].1@
                },
            forall|key: Seq<u8>|
                self@.contains_key(key) && in_range(key, view_bound(start), view_bound(end))
                    ==> exists|i: int| 0 <= i < found@.len() && #[trigger] found@[i].0@ == key,
    {
        self.underlying.range(start, end)
    }
}

} // verus!
