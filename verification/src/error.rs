//! The error taxonomy of the router and the client registry.

use vstd::prelude::*;

verus! {

/// Why a check on the owner of a registry failed.
#[derive(Debug, Clone, Copy, PartialEq, Eq, Structural)]
pub enum OwnershipError {
    /// The registry has no owner, so nobody may act as one.
    NoOwner,
    /// The caller is not the owner.
    NotOwner,
}

/// Errors of the token-transfer application that rides on the router.
#[derive(Debug, Clone, PartialEq, Eq)]
#[non_exhaustive]
pub enum TransferError {
    UnexpectedNativeToken,
    ZeroAmount,
    EmptyDenom,
    AmountOverflow,
    EmptyReceiver,
    EmptySender,
    InvalidVersion,
    UnexpectedPortId { expected: String, actual: String },
    UnexpectedChannelId { expected: String, actual: String },
    NoForeignTokens,
    InsufficientFundsInEscrow { escrowed: String, requested: String },
    Reentrancy,
    UnknownAcknowledgement(String),
}

/// What a [`TransferError`] says, with strings as sequences of characters.
pub enum TransferErrorView {
    UnexpectedNativeToken,
    ZeroAmount,
    EmptyDenom,
    AmountOverflow,
    EmptyReceiver,
    EmptySender,
    InvalidVersion,
    UnexpectedPortId { expected: Seq<char>, actual: Seq<char> },
    UnexpectedChannelId { expected: Seq<char>, actual: Seq<char> },
    NoForeignTokens,
    InsufficientFundsInEscrow { escrowed: Seq<char>, requested: Seq<char> },
    Reentrancy,
    UnknownAcknowledgement(Seq<char>),
}

impl View for TransferError {
    type V = TransferErrorView;

    open spec fn view(&self) -> TransferErrorView {
        match self {
            TransferError::UnexpectedNativeToken => TransferErrorView::UnexpectedNativeToken,
            TransferError::ZeroAmount => TransferErrorView::ZeroAmount,
            TransferError::EmptyDenom => TransferErrorView::EmptyDenom,
            TransferError::AmountOverflow => TransferErrorView::AmountOverflow,
            TransferError::EmptyReceiver => TransferErrorView::EmptyReceiver,
            TransferError::EmptySender => TransferErrorView::EmptySender,
            TransferError::InvalidVersion => TransferErrorView::InvalidVersion,
            TransferError::UnexpectedPortId { expected, actual } => {
                TransferErrorView::UnexpectedPortId { expected: expected@, actual: actual@ }
            },
            TransferError::UnexpectedChannelId { expected, actual } => {
                TransferErrorView::UnexpectedChannelId { expected: expected@, actual: actual@ }
            },
            TransferError::NoForeignTokens => TransferErrorView::NoForeignTokens,
            TransferError::InsufficientFundsInEscrow { escrowed, requested } => {
                TransferErrorView::InsufficientFundsInEscrow {
                    escrowed: escrowed@,
                    requested: requested@,
                }
            },
            TransferError::Reentrancy => TransferErrorView::Reentrancy,
            TransferError::UnknownAcknowledgement(ack) => {
                TransferErrorView::UnknownAcknowledgement(ack@)
            },
        }
    }
}

impl TransferError {
    /// A port other than the expected one was named.
    pub fn unexpected_port_id(expected: &str, actual: &str) -> (e: Self)
        ensures
            e@ == (TransferErrorView::UnexpectedPortId { expected: expected@, actual: actual@ }),
    {
        TransferError::UnexpectedPortId { expected: expected.to_owned(), actual: actual.to_owned() }
    }

    /// A channel other than the expected one was named.
    pub fn unexpected_channel_id(expected: &str, actual: &str) -> (e: Self)
        ensures
            e@ == (TransferErrorView::UnexpectedChannelId { expected: expected@, actual: actual@ }),
    {
        TransferError::UnexpectedChannelId {
            expected: expected.to_owned(),
            actual: actual.to_owned(),
        }
    }

    /// More was asked from escrow than escrow holds.
    pub fn insufficient_funds_in_escrow(escrowed: &str, requested: &str) -> (e: Self)
        ensures
            e@ == (TransferErrorView::InsufficientFundsInEscrow {
                escrowed: escrowed@,
                requested: requested@,
            }),
    {
        TransferError::InsufficientFundsInEscrow {
            escrowed: escrowed.to_owned(),
            requested: requested.to_owned(),
        }
    }
}

/// The error returned by every fallible operation of the library.
#[derive(Debug, Clone, PartialEq, Eq)]
#[non_exhaustive]
#[allow(inconsistent_fields)]
pub enum ContractError {
    /// A failure reported by the host, carried as its message.
    Std(String),
    /// The caller is not the owner of the registry.
    OwnershipError(OwnershipError),
    /// Stored bytes are not valid UTF-8.
    FromUTF8Error,
    /// An identifier was refused; the payload is the validator's message.
    IdentifierError(String),
    /// An error of the token-transfer application.
    TransferError(TransferError),
    /// The caller may not perform the operation.
    Unauthorized,
    /// Nothing is stored under `key` where a value of that `kind` is required.
    NotFound { kind: String, key: Vec<u8> },
    /// A value of `source_type` does not convert to `target_type`.
    TryFrom { source_type: String, target_type: String },
    /// A reply arrived under an identifier that the router never issued.
    UnknownReplyId(u64),
    /// The client already has a counterparty.
    CounterpartyAlreadyProvided,
    /// The channel named is not the counterparty on record.
    InvalidCounterparty { expected: String, actual: String },
    /// The timeout carries a block height; only timestamps are accepted.
    InvalidTimeoutHeight,
    /// The timeout timestamp is not in the future (both in seconds since epoch).
    InvalidTimeoutTimestamp { current: u64, timestamp: u64 },
    /// The timeout carries no timestamp.
    EmptyTimestamp,
    /// A commitment, a receipt or an acknowledgement already sits under `key`.
    PacketAlreadyCommited { key: Vec<u8> },
    /// The stored commitment is not the commitment of the packet presented.
    PacketCommitmentMismatch { expected: Vec<u8>, provided: Vec<u8> },
    /// No commitment sits under `key`.
    PacketCommitmentNotFound { key: Vec<u8> },
    /// The receive callback returned no acknowledgement bytes.
    RecvPacketCallbackNoResponse,
    /// A merkle prefix without any element was supplied.
    EmptyMerklePrefix,
    /// The light client rejected a membership or non-membership proof.
    VerificationFailed,
    /// A packet is already in flight between receive and its reply.
    Reentrancy,
    /// The proof height does not lie at or after the packet's timeout.
    TimeoutNotReached { timeout: u64, proof_timestamp: u64 },
    /// The light client has no timestamp for the proof height.
    ProofHeightNotReached,
    /// The port is already bound to another application.
    PortAlreadyBound { port_id: String, address: String },
    /// A counter has reached the largest value it can hold.
    CounterOverflow,
}

/// What a [`ContractError`] says, with strings and bytes as sequences.
#[allow(inconsistent_fields)]
pub enum ErrorView {
    Std(Seq<char>),
    OwnershipError(OwnershipError),
    FromUTF8Error,
    IdentifierError(Seq<char>),
    TransferError(TransferErrorView),
    Unauthorized,
    NotFound { kind: Seq<char>, key: Seq<u8> },
    TryFrom { source_type: Seq<char>, target_type: Seq<char> },
    UnknownReplyId(u64),
    CounterpartyAlreadyProvided,
    InvalidCounterparty { expected: Seq<char>, actual: Seq<char> },
    InvalidTimeoutHeight,
    InvalidTimeoutTimestamp { current: u64, timestamp: u64 },
    EmptyTimestamp,
    PacketAlreadyCommited { key: Seq<u8> },
    PacketCommitmentMismatch { expected: Seq<u8>, provided: Seq<u8> },
    PacketCommitmentNotFound { key: Seq<u8> },
    RecvPacketCallbackNoResponse,
    EmptyMerklePrefix,
    VerificationFailed,
    Reentrancy,
    TimeoutNotReached { timeout: u64, proof_timestamp: u64 },
    ProofHeightNotReached,
    PortAlreadyBound { port_id: Seq<char>, address: Seq<char> },
    CounterOverflow,
}

impl View for ContractError {
    type V = ErrorView;

    open spec fn view(&self) -> ErrorView {
        match self {
            ContractError::Std(msg) => ErrorView::Std(msg@),
            ContractError::OwnershipError(e) => ErrorView::OwnershipError(*e),
            ContractError::FromUTF8Error => ErrorView::FromUTF8Error,
            ContractError::IdentifierError(msg) => ErrorView::IdentifierError(msg@),
            ContractError::TransferError(e) => ErrorView::TransferError(e@),
            ContractError::Unauthorized => ErrorView::Unauthorized,
            ContractError::NotFound { kind, key } => {
                ErrorView::NotFound { kind: kind@, key: key@ }
            },
            ContractError::TryFrom { source_type, target_type } => {
                ErrorView::TryFrom { source_type: source_type@, target_type: target_type@ }
            },
            ContractError::UnknownReplyId(id) => ErrorView::UnknownReplyId(*id),
            ContractError::CounterpartyAlreadyProvided => ErrorView::CounterpartyAlreadyProvided,
            ContractError::InvalidCounterparty { expected, actual } => {
                ErrorView::InvalidCounterparty { expected: expected@, actual: actual@ }
            },
            ContractError::InvalidTimeoutHeight => ErrorView::InvalidTimeoutHeight,
            ContractError::InvalidTimeoutTimestamp { current, timestamp } => {
                ErrorView::InvalidTimeoutTimestamp { current: *current, timestamp: *timestamp }
            },
            ContractError::EmptyTimestamp => ErrorView::EmptyTimestamp,
            ContractError::PacketAlreadyCommited { key } => {
                ErrorView::PacketAlreadyCommited { key: key@ }
            },
            ContractError::PacketCommitmentMismatch { expected, provided } => {
                ErrorView::PacketCommitmentMismatch { expected: expected@, provided: provided@ }
            },
            ContractError::PacketCommitmentNotFound { key } => {
                ErrorView::PacketCommitmentNotFound { key: key@ }
            },
            ContractError::RecvPacketCallbackNoResponse => ErrorView::RecvPacketCallbackNoResponse,
            ContractError::EmptyMerklePrefix => ErrorView::EmptyMerklePrefix,
            ContractError::VerificationFailed => ErrorView::VerificationFailed,
            ContractError::Reentrancy => ErrorView::Reentrancy,
            ContractError::TimeoutNotReached { timeout, proof_timestamp } => {
                ErrorView::TimeoutNotReached {
                    timeout: *timeout,
                    proof_timestamp: *proof_timestamp,
                }
            },
            ContractError::ProofHeightNotReached => ErrorView::ProofHeightNotReached,
            ContractError::PortAlreadyBound { port_id, address } => {
                ErrorView::PortAlreadyBound { port_id: port_id@, address: address@ }
            },
            ContractError::CounterOverflow => ErrorView::CounterOverflow,
        }
    }
}

impl ContractError {
    /// Nothing of that `kind` is stored under `key`.
    pub fn not_found(kind: &str, key: Vec<u8>) -> (e: Self)
        ensures
            e@ == (ErrorView::NotFound { kind: kind@, key: key@ }),
    {
        ContractError::NotFound { kind: kind.to_owned(), key }
    }

    /// A value of `source_type` does not convert to `target_type`.
    pub fn try_from(source_type: &str, target_type: &str) -> (e: Self)
        ensures
            e@ == (ErrorView::TryFrom { source_type: source_type@, target_type: target_type@ }),
    {
        ContractError::TryFrom {
            source_type: source_type.to_owned(),
            target_type: target_type.to_owned(),
        }
    }

    /// The channel `actual` was named where `expected` is on record.
    pub fn invalid_counterparty(expected: String, actual: String) -> (e: Self)
        ensures
            e@ == (ErrorView::InvalidCounterparty { expected: expected@, actual: actual@ }),
    {
        ContractError::InvalidCounterparty { expected, actual }
    }

    /// The timeout `timestamp` is not after `current`.
    pub fn invalid_timeout_timestamp(current: u64, timestamp: u64) -> (e: Self)
        ensures
            e@ == (ErrorView::InvalidTimeoutTimestamp { current, timestamp }),
    {
        ContractError::InvalidTimeoutTimestamp { current, timestamp }
    }

    /// Something is already stored under `key`.
    pub fn packet_already_commited(key: Vec<u8>) -> (e: Self)
        ensures
            e@ == (ErrorView::PacketAlreadyCommited { key: key@ }),
    {
        ContractError::PacketAlreadyCommited { key }
    }

    /// The commitment stored is `expected`, that of the packet is `provided`.
    pub fn packet_commitment_mismatch(expected: Vec<u8>, provided: Vec<u8>) -> (e: Self)
        ensures
            e@ == (ErrorView::PacketCommitmentMismatch { expected: expected@, provided: provided@ }),
    {
        ContractError::PacketCommitmentMismatch { expected, provided }
    }

    /// No commitment is stored under `key`.
    pub fn packet_commitment_not_found(key: Vec<u8>) -> (e: Self)
        ensures
            e@ == (ErrorView::PacketCommitmentNotFound { key: key@ }),
    {
        ContractError::PacketCommitmentNotFound { key }
    }
}

} // verus!
