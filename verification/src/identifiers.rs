//! Validated identifiers: ports, clients (which double as channels) and
//! packet sequence numbers.
//!
//! Which strings are identifiers is decided by the validators of
//! `ibc-core-host`. The library names their verdicts and records, beside the
//! names, the shape that every accepted identifier has: a bounded length, and
//! no ASCII character outside letters, digits and `._+-#[]<>`. In particular
//! an identifier holds neither `/` nor ASCII white space, which is what makes
//! provable paths unambiguous.

use crate::error::{ContractError, ErrorView};
use std::str::FromStr;
use vstd::prelude::*;
use vstd::string::StringSliceAdditionalSpecFns;
use vstd::utf8::encode_utf8;

verus! {

/// Whether `c` is an ASCII character.
pub open spec fn is_ascii_char(c: char) -> bool {
    (c as u32) < 128
}

/// Whether `c` is an ASCII character that may stand in an identifier.
pub open spec fn is_identifier_ascii(c: char) -> bool {
    ('a' <= c && c <= 'z') || ('A' <= c && c <= 'Z') || ('0' <= c && c <= '9') || c == '.' || c
        == '_' || c == '+' || c == '-' || c == '#' || c == '[' || c == ']' || c == '<' || c == '>'
}

/// The shape of every identifier: between `min` and `max` bytes of UTF-8, and
/// no ASCII character that identifiers exclude.
pub open spec fn identifier_shape(id: Seq<char>, min: nat, max: nat) -> bool {
    &&& min <= encode_utf8(id).len() <= max
    &&& forall|i: int|
        0 <= i < id.len() && is_ascii_char(#[trigger] id[i]) ==> is_identifier_ascii(id[i])
}

/// An identifier made of ASCII identifier characters only, of a length
/// between `min` and `max`.
pub open spec fn ascii_identifier(id: Seq<char>, min: nat, max: nat) -> bool {
    &&& min <= id.len() <= max
    &&& forall|i: int| 0 <= i < id.len() ==> is_identifier_ascii(#[trigger] id[i])
}

/// Whether `ibc-core-host` accepts `id` as a port identifier.
pub uninterp spec fn port_identifier_accepted(id: Seq<char>) -> bool;

/// Whether `ibc-core-host` accepts `id` as a client identifier.
pub uninterp spec fn client_identifier_accepted(id: Seq<char>) -> bool;

/// Whether `id` is a port identifier: accepted, and therefore of the shape of
/// an identifier of 2 to 128 bytes.
pub open spec fn is_port_id(id: Seq<char>) -> bool {
    port_identifier_accepted(id) && identifier_shape(id, 2, 128)
}

/// Whether `id` is a client identifier: accepted, and therefore of the shape
/// of an identifier of 9 to 64 bytes.
pub open spec fn is_client_id(id: Seq<char>) -> bool {
    client_identifier_accepted(id) && identifier_shape(id, 9, 64)
}

/// The error type of the validators of `ibc-core-host`.
#[verifier::external_type_specification]
#[verifier::external_body]
pub struct ExIdentifierError(ibc_core_host::types::error::IdentifierError);

/// Asks `PortId::from_str` of `ibc-core-host` whether `id` is a port
/// identifier.
///
/// Trusted: the verdict depends on the characters of `id` alone. The
/// validator accepts only strings of 2 to 128 bytes whose characters are
/// alphanumeric or among `._+-#[]<>`, so an accepted string has no other
/// ASCII character; and it accepts every ASCII string of that length made of
/// ASCII letters, digits and those signs.
#[verifier::external_body]
fn check_port_identifier(id: &str) -> (verdict: Result<
    (),
    ibc_core_host::types::error::IdentifierError,
>)
    ensures
        verdict is Ok <==> port_identifier_accepted(id@),
        verdict is Ok ==> identifier_shape(id@, 2, 128),
        ascii_identifier(id@, 2, 128) ==> verdict is Ok,
{
    ibc_core_host::types::identifiers::PortId::from_str(id).map(|_| ())
}

/// Asks `ClientId::from_str` of `ibc-core-host` whether `id` is a client
/// identifier.
///
/// Trusted: the verdict depends on the characters of `id` alone. The
/// validator accepts only strings of 9 to 64 bytes whose characters are
/// alphanumeric or among `._+-#[]<>`, so an accepted string has no other
/// ASCII character; and it accepts every ASCII string of that length made of
/// ASCII letters, digits and those signs.
#[verifier::external_body]
fn check_client_identifier(id: &str) -> (verdict: Result<
    (),
    ibc_core_host::types::error::IdentifierError,
>)
    ensures
        verdict is Ok <==> client_identifier_accepted(id@),
        verdict is Ok ==> identifier_shape(id@, 9, 64),
        ascii_identifier(id@, 9, 64) ==> verdict is Ok,
{
    ibc_core_host::types::identifiers::ClientId::from_str(id).map(|_| ())
}

/// Renders an error of `ibc-core-host` with its `Display` impl. Nothing is
/// claimed of the text.
#[verifier::external_body]
fn identifier_error_text(e: &ibc_core_host::types::error::IdentifierError) -> String {
    e.to_string()
}

/// The identifier of a port: the endpoint of one application.
#[derive(Debug, PartialEq, Eq)]
pub struct PortId {
    id: String,
}

impl View for PortId {
    type V = Seq<char>;

    closed spec fn view(&self) -> Seq<char> {
        self.id@
    }
}

impl PortId {
    /// Every port identifier that exists was accepted by the validator.
    #[verifier::type_invariant]
    pub closed spec fn accepted(&self) -> bool {
        is_port_id(self.id@)
    }

    /// Validates `id` as a port identifier.
    pub fn new(id: String) -> (r: Result<Self, ContractError>)
        ensures
            r is Ok <==> port_identifier_accepted(id@),
            ascii_identifier(id@, 2, 128) ==> r is Ok,
            r matches Ok(port) ==> port@ == id@ && is_port_id(id@),
            r matches Err(e) ==> e@ is IdentifierError,
    {
        match check_port_identifier(id.as_str()) {
            Ok(_) => Ok(PortId { id }),
            Err(e) => Err(ContractError::IdentifierError(identifier_error_text(&e))),
        }
    }

    /// Validates `s` as a port identifier.
    pub fn parse(s: &str) -> (r: Result<Self, ContractError>)
        ensures
            r is Ok <==> port_identifier_accepted(s@),
            ascii_identifier(s@, 2, 128) ==> r is Ok,
            r matches Ok(port) ==> port@ == s@ && is_port_id(s@),
            r matches Err(e) ==> e@ is IdentifierError,
    {
        PortId::new(s.to_owned())
    }

    /// The identifier as a string.
    pub fn as_str(&self) -> (s: &str)
        ensures
            s@ == self@,
            is_port_id(self@),
    {
        proof {
            use_type_invariant(self);
        }
        self.id.as_str()
    }

    /// The identifier as UTF-8 bytes.
    pub fn as_bytes(&self) -> (bytes: &[u8])
        ensures
            bytes@ == encode_utf8(self@),
            is_port_id(self@),
    {
        proof {
            use_type_invariant(self);
        }
        self.id.as_str().as_bytes()
    }
}

impl Clone for PortId {
    fn clone(&self) -> (copy: Self)
        ensures
            copy@ == self@,
    {
        proof {
            use_type_invariant(self);
        }
        PortId { id: self.id.clone() }
    }
}

impl FromStr for PortId {
    type Err = ContractError;

    /// Validates `s` as a port identifier, as [`PortId::parse`] does.
    fn from_str(s: &str) -> (r: Result<Self, ContractError>)
        ensures
            r is Ok <==> port_identifier_accepted(s@),
            ascii_identifier(s@, 2, 128) ==> r is Ok,
            r matches Ok(port) ==> port@ == s@ && is_port_id(s@),
            r matches Err(e) ==> e@ is IdentifierError,
    {
        PortId::parse(s)
    }
}

/// The identifier of a light client. One logical channel runs between a
/// client and its counterparty, so the same identifier names the channel.
#[derive(Debug, PartialEq, Eq)]
pub struct ClientId {
    id: String,
}

/// A channel is named by the client it runs over.
pub type ChannelId = ClientId;

impl View for ClientId {
    type V = Seq<char>;

    closed spec fn view(&self) -> Seq<char> {
        self.id@
    }
}

impl ClientId {
    /// Every client identifier that exists was accepted by the validator.
    #[verifier::type_invariant]
    pub closed spec fn accepted(&self) -> bool {
        is_client_id(self.id@)
    }

    /// Validates `id` as a client identifier.
    pub fn new(id: String) -> (r: Result<Self, ContractError>)
        ensures
            r is Ok <==> client_identifier_accepted(id@),
            ascii_identifier(id@, 9, 64) ==> r is Ok,
            r matches Ok(client) ==> client@ == id@ && is_client_id(id@),
            r matches Err(e) ==> e@ is IdentifierError,
    {
        match check_client_identifier(id.as_str()) {
            Ok(_) => Ok(ClientId { id }),
            Err(e) => Err(ContractError::IdentifierError(identifier_error_text(&e))),
        }
    }

    /// Validates `s` as a client identifier.
    pub fn parse(s: &str) -> (r: Result<Self, ContractError>)
        ensures
            r is Ok <==> client_identifier_accepted(s@),
            ascii_identifier(s@, 9, 64) ==> r is Ok,
            r matches Ok(client) ==> client@ == s@ && is_client_id(s@),
            r matches Err(e) ==> e@ is IdentifierError,
    {
        ClientId::new(s.to_owned())
    }

    /// The identifier as a string.
    pub fn as_str(&self) -> (s: &str)
        ensures
            s@ == self@,
            is_client_id(self@),
    {
        proof {
            use_type_invariant(self);
        }
        self.id.as_str()
    }

    /// The identifier as UTF-8 bytes.
    pub fn as_bytes(&self) -> (bytes: &[u8])
        ensures
            bytes@ == encode_utf8(self@),
            is_client_id(self@),
    {
        proof {
            use_type_invariant(self);
        }
        self.id.as_str().as_bytes()
    }
}

impl Clone for ClientId {
    fn clone(&self) -> (copy: Self)
        ensures
            copy@ == self@,
    {
        proof {
            use_type_invariant(self);
        }
        ClientId { id: self.id.clone() }
    }
}

impl FromStr for ClientId {
    type Err = ContractError;

    /// Validates `s` as a client identifier, as [`ClientId::parse`] does.
    fn from_str(s: &str) -> (r: Result<Self, ContractError>)
        ensures
            r is Ok <==> client_identifier_accepted(s@),
            ascii_identifier(s@, 9, 64) ==> r is Ok,
            r matches Ok(client) ==> client@ == s@ && is_client_id(s@),
            r matches Err(e) ==> e@ is IdentifierError,
    {
        ClientId::parse(s)
    }
}

/// The number of a packet on its channel. The first packet has number 1.
#[derive(Debug, Clone, Copy, PartialEq, Eq, Structural)]
pub struct Sequence(pub u64);

impl Sequence {
    /// The number itself.
    pub fn value(&self) -> (n: u64)
        ensures
            n == self.0,
    {
        self.0
    }

    /// Whether the number is zero, which no packet bears.
    pub fn is_zero(&self) -> (zero: bool)
        ensures
            zero == (self.0 == 0),
    {
        self.0 == 0
    }
}

impl Sequence {
    /// Reads a sequence number in decimal. Only the rendering of a number is
    /// read: no sign, no leading zero, no white space.
    pub fn parse(text: &str) -> (r: Result<Self, ContractError>)
        ensures
            r matches Ok(sequence) ==> text@ == crate::encoding::decimal(sequence.0 as nat),
            r is Err ==> forall|n: u64| text@ != #[trigger] crate::encoding::decimal(n as nat),
            r matches Err(e) ==> e@ == ErrorView::IdentifierError("invalid sequence"@),
    {
        match crate::encoding::parse_decimal(text) {
            Some(n) => Ok(Sequence(n)),
            None => Err(ContractError::IdentifierError("invalid sequence".to_owned())),
        }
    }
}

impl FromStr for Sequence {
    type Err = ContractError;

    /// Reads a sequence number in decimal, as [`Sequence::parse`] does.
    fn from_str(s: &str) -> (r: Result<Self, ContractError>)
        ensures
            r matches Ok(sequence) ==> s@ == crate::encoding::decimal(sequence.0 as nat),
            r is Err ==> forall|n: u64| s@ != #[trigger] crate::encoding::decimal(n as nat),
            r matches Err(e) ==> e@ == ErrorView::IdentifierError("invalid sequence"@),
    {
        Sequence::parse(s)
    }
}

impl From<u64> for Sequence {
    fn from(n: u64) -> (s: Sequence) {
        Sequence(n)
    }
}

impl vstd::std_specs::convert::FromSpecImpl<u64> for Sequence {
    open spec fn obeys_from_spec() -> bool {
        true
    }

    open spec fn from_spec(n: u64) -> Sequence {
        Sequence(n)
    }
}

} // verus!
