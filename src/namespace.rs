//! Deterministic namespaces for user addresses.
use vstd::prelude::*;
use vstd::string::StringSliceAdditionalSpecFns;
use crate::encoding::{base64_bytes, decode_base64};

verus! {

/// Number of bytes in a namespace identifier.
pub const NAMESPACE_LEN: usize = 8;

/// The 8-byte identifier under which a user's blobs are written and read.
#[derive(Debug, Clone, Copy, PartialEq, Eq)]
pub struct NamespaceId {
    pub id: [u8; 8],
}

/// Why an address yields no namespace.
#[derive(Debug, Clone, Copy, PartialEq, Eq, Structural)]
pub enum AddressError {
    /// The address body is not valid base64.
    InvalidAddressEncoding,
    /// The address body decodes to fewer than eight bytes.
    AddressTooShort,
}

impl View for NamespaceId {
    type V = Seq<u8>;

    open spec fn view(&self) -> Seq<u8> {
        self.id@
    }
}

/// The address bytes without a leading `0x`, if there is one.
pub open spec fn address_body(address: Seq<u8>) -> Seq<u8> {
    if address.len() >= 2 && address[0] == 48u8 && address[1] == 120u8 {
        address.subrange(2, address.len() as int)
    } else {
        address
    }
}

/// The namespace bytes that an address (given as its UTF-8 bytes) maps to.
pub open spec fn namespace_of(address: Seq<u8>) -> Result<Seq<u8>, AddressError> {
    match base64_bytes(address_body(address)) {
        None => Err(AddressError::InvalidAddressEncoding),
        Some(decoded) => if decoded.len() < NAMESPACE_LEN {
            Err(AddressError::AddressTooShort)
        } else {
            Ok(decoded.subrange(0, NAMESPACE_LEN as int))
        },
    }
}

/// Whether a namespace derivation result agrees with its model.
pub open spec fn namespace_result_matches(
    r: Result<NamespaceId, AddressError>,
    model: Result<Seq<u8>, AddressError>,
) -> bool {
    match (r, model) {
        (Ok(ns), Ok(bytes)) => ns@ == bytes,
        (Err(e), Err(f)) => e == f,
        _ => false,
    }
}

fn strip_hex_prefix(address: &[u8]) -> (r: &[u8])
    ensures
        r@ == address_body(address@),
{
    if address.len() >= 2 && address[0] == 48u8 && address[1] == 120u8 {
        &address[2..address.len()]
    } else {
        address
    }
}

/// The namespace whose identifier is the first eight of the decoded address
/// bytes; fewer than eight are refused, never padded.
pub fn namespace_from_bytes(decoded: &[u8]) -> (r: Result<NamespaceId, AddressError>)
    ensures
        match r {
            Ok(ns) => decoded@.len() >= NAMESPACE_LEN && ns@ == decoded@.subrange(
                0,
                NAMESPACE_LEN as int,
            ),
            Err(e) => decoded@.len() < NAMESPACE_LEN && e == AddressError::AddressTooShort,
        },
{
    if decoded.len() < NAMESPACE_LEN {
        Err(AddressError::AddressTooShort)
    } else {
        let id: [u8; 8] = [
            decoded[0],
            decoded[1],
            decoded[2],
            decoded[3],
            decoded[4],
            decoded[5],
            decoded[6],
            decoded[7],
        ];
        let ns = NamespaceId { id };
        assert(ns@ =~= decoded@.subrange(0, NAMESPACE_LEN as int));
        Ok(ns)
    }
}

/// Derives the namespace of an address: an optional `0x` prefix is dropped,
/// the rest is decoded as base64, and the first eight decoded bytes are the
/// namespace.
pub fn address_to_namespace(address: &str) -> (r: Result<NamespaceId, AddressError>)
    ensures
        namespace_result_matches(r, namespace_of(address.spec_bytes())),
{
    let body = strip_hex_prefix(address.as_bytes());
    match decode_base64(body) {
        None => Err(AddressError::InvalidAddressEncoding),
        Some(decoded) => namespace_from_bytes(decoded.as_slice()),
    }
}

/// The same address always yields the same namespace; two addresses that both
/// yield one yield the same one exactly when their decoded bodies agree on
/// the first eight bytes.
pub proof fn lemma_namespace_deterministic(a: Seq<u8>, b: Seq<u8>)
    ensures
        a == b ==> namespace_of(a) == namespace_of(b),
        namespace_of(a) is Ok && namespace_of(b) is Ok ==> (namespace_of(a) == namespace_of(b)
            <==> base64_bytes(address_body(a))->0.subrange(0, NAMESPACE_LEN as int)
            == base64_bytes(address_body(b))->0.subrange(0, NAMESPACE_LEN as int)),
{
}

/// An address whose body decodes to fewer than eight bytes is refused as too
/// short: it is neither padded nor accepted.
pub proof fn lemma_short_address_refused(a: Seq<u8>)
    requires
        base64_bytes(address_body(a)) is Some,
        base64_bytes(address_body(a))->0.len() < NAMESPACE_LEN,
    ensures
        namespace_of(a) == Err::<Seq<u8>, AddressError>(AddressError::AddressTooShort),
{
}

} // verus!
