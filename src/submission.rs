//! Preparing a transaction record for the data-availability network and for
//! the history index.
use vstd::prelude::*;
use vstd::utf8::encode_utf8;
use crate::blob::{Blob, CodecError, build_blob, encoded_record, payload_fits, record_of_blob_data};
use crate::encoding::{json_accepts, lower_of, lowercase};
use crate::namespace::{AddressError, address_to_namespace, namespace_of};
use crate::record::TransactionRecord;

verus! {

/// Why a record could not be prepared for submission.
#[derive(Debug, Clone, Copy, PartialEq, Eq, Structural)]
pub enum SubmitError {
    /// The address yields no namespace.
    InvalidAddress(AddressError),
    /// The record's payload is not JSON text.
    SerializationError,
}

/// The blob that records `record` for `address`: the address is lower-cased,
/// its namespace derived, and the record encoded under it.
pub fn record_blob(address: &str, record: &TransactionRecord) -> (r: Result<Blob, SubmitError>)
    requires
        payload_fits(record@),
    ensures
        match namespace_of(encode_utf8(lower_of(address@))) {
            Err(e) => r == Err::<Blob, SubmitError>(SubmitError::InvalidAddress(e)),
            Ok(ns) => if json_accepts(record.payload@) {
                match r {
                    Ok(blob) => {
                        &&& blob.namespace@ == ns
                        &&& blob.data@ == encoded_record(record@)
                        &&& record_of_blob_data(blob.data@) == Some(record@)
                    },
                    Err(_) => false,
                }
            } else {
                r == Err::<Blob, SubmitError>(SubmitError::SerializationError)
            },
        },
{
    let normalized = lowercase(address);
    match address_to_namespace(normalized.as_str()) {
        Err(e) => Err(SubmitError::InvalidAddress(e)),
        Ok(ns) => match build_blob(ns, record) {
            Ok(blob) => Ok(blob),
            Err(CodecError::SerializationError) => Err(SubmitError::SerializationError),
            Err(CodecError::MalformedBlob) => Err(SubmitError::SerializationError),
        },
    }
}

} // verus!
