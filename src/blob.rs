//! Blobs: how a transaction record is framed, encoded and read back.
//!
//! A record is written as the JSON text `{"data":<payload>,"tx_type":"<kind>"}`,
//! whose UTF-8 bytes are base64-encoded to form the blob's data.
use vstd::prelude::*;
use vstd::utf8::{decode_utf8, encode_utf8, valid_utf8};
use crate::encoding::{
    base64_bytes, base64_text, decode_base64, encode_base64, is_json, json_accepts,
    json_member, json_member_of, json_string, json_string_of, utf8_string,
};
use crate::namespace::NamespaceId;
use crate::record::{TransactionRecord, TransactionRecordView, TransactionType, kind_of_tag};

verus! {

broadcast use vstd::utf8::group_utf8_lib;

/// The unit that the data-availability network stores: data under a namespace.
#[derive(Debug, Clone, PartialEq, Eq)]
pub struct Blob {
    pub namespace: NamespaceId,
    pub data: Vec<u8>,
}

/// Why a record could not be encoded or a blob decoded.
#[derive(Debug, Clone, Copy, PartialEq, Eq, Structural)]
pub enum CodecError {
    /// The record's payload is not JSON text.
    SerializationError,
    /// The blob's data is not base64 of a framed record with a JSON payload.
    MalformedBlob,
}

/// `{"data":`
pub open spec fn envelope_head() -> Seq<u8> {
    seq![123u8, 34u8, 100u8, 97u8, 116u8, 97u8, 34u8, 58u8]
}

/// The bytes of a kind's tag.
pub open spec fn tag_bytes(kind: TransactionType) -> Seq<u8> {
    match kind {
        TransactionType::Swap => seq![83u8, 119u8, 97u8, 112u8],
        TransactionType::FiatTransfer => seq![
            70u8, 105u8, 97u8, 116u8, 84u8, 114u8, 97u8, 110u8, 115u8, 102u8, 101u8, 114u8
        ],
        TransactionType::CryptoTransfer => seq![
            67u8, 114u8, 121u8, 112u8, 116u8, 111u8, 84u8, 114u8, 97u8, 110u8, 115u8, 102u8, 101u8, 114u8
        ],
    }
}

/// `,"tx_type":"<kind>"}`
pub open spec fn envelope_tail(kind: TransactionType) -> Seq<u8> {
    seq![44u8, 34u8, 116u8, 120u8, 95u8, 116u8, 121u8, 112u8, 101u8, 34u8, 58u8, 34u8] + tag_bytes(kind)
        + seq![34u8, 125u8]
}

/// The JSON text of a record, as bytes.
pub open spec fn record_text(r: TransactionRecordView) -> Seq<u8> {
    envelope_head() + encode_utf8(r.payload) + envelope_tail(r.kind)
}

/// The data of the blob that holds a record.
pub open spec fn encoded_record(r: TransactionRecordView) -> Seq<u8> {
    base64_text(record_text(r))
}

/// Whether a text ends with a kind's tail, after the head.
pub open spec fn has_tail(text: Seq<u8>, kind: TransactionType) -> bool {
    &&& text.len() >= envelope_head().len() + envelope_tail(kind).len()
    &&& text.subrange(text.len() - envelope_tail(kind).len(), text.len() as int) == envelope_tail(
        kind,
    )
}

/// The kind that a framed text carries, if it is framed as a record.
pub open spec fn framed_kind(text: Seq<u8>) -> Option<TransactionType> {
    if !(text.len() >= envelope_head().len() && text.subrange(0, envelope_head().len() as int)
        == envelope_head()) {
        None
    } else if has_tail(text, TransactionType::Swap) {
        Some(TransactionType::Swap)
    } else if has_tail(text, TransactionType::FiatTransfer) {
        Some(TransactionType::FiatTransfer)
    } else if has_tail(text, TransactionType::CryptoTransfer) {
        Some(TransactionType::CryptoTransfer)
    } else {
        None
    }
}

/// The payload bytes between the head and a kind's tail.
pub open spec fn framed_payload(text: Seq<u8>, kind: TransactionType) -> Seq<u8> {
    text.subrange(envelope_head().len() as int, text.len() - envelope_tail(kind).len())
}

/// The record that a text holds in the framed layout, with a JSON payload.
pub open spec fn framed_record(text: Seq<u8>) -> Option<TransactionRecordView> {
    match framed_kind(text) {
        None => None,
        Some(kind) => {
            let p = framed_payload(text, kind);
            if valid_utf8(p) && json_accepts(decode_utf8(p)) {
                Some(TransactionRecordView { kind, payload: decode_utf8(p) })
            } else {
                None
            }
        },
    }
}

/// The record that a UTF-8 JSON object with a known `tx_type` string and a
/// `data` member holds, in any member order or spacing.
pub open spec fn parsed_record(text: Seq<u8>) -> Option<TransactionRecordView> {
    if !valid_utf8(text) {
        None
    } else {
        let t = decode_utf8(text);
        match (json_member_of(t, "tx_type"@), json_member_of(t, "data"@)) {
            (Some(tag_text), Some(data)) => match json_string_of(tag_text) {
                Some(tag) => match kind_of_tag(tag) {
                    Some(kind) => if json_accepts(data) {
                        Some(TransactionRecordView { kind, payload: data })
                    } else {
                        None
                    },
                    None => None,
                },
                None => None,
            },
            _ => None,
        }
    }
}

/// The record that a text holds: the framed layout keeps the payload text as
/// written; any other JSON object of the record's shape is read by serde_json.
pub open spec fn record_of_text(text: Seq<u8>) -> Option<TransactionRecordView> {
    match framed_record(text) {
        Some(r) => Some(r),
        None => parsed_record(text),
    }
}

/// The record that blob data holds, if any.
pub open spec fn record_of_blob_data(data: Seq<u8>) -> Option<TransactionRecordView> {
    match base64_bytes(data) {
        None => None,
        Some(text) => record_of_text(text),
    }
}

/// Whether a record's payload is small enough to be framed and encoded.
pub open spec fn payload_fits(r: TransactionRecordView) -> bool {
    encode_utf8(r.payload).len() <= usize::MAX / 4 - 64
}

/// Whether a record's payload is small enough to be framed and encoded.
pub fn record_fits(record: &TransactionRecord) -> (r: bool)
    ensures
        r == payload_fits(record@),
{
    record.payload.as_str().as_bytes().len() <= usize::MAX / 4 - 64
}

/// Reading the framing back gives the record that was framed, whenever its
/// payload is JSON text.
pub proof fn lemma_framing_round_trip(r: TransactionRecordView)
    requires
        json_accepts(r.payload),
    ensures
        framed_record(record_text(r)) == Some(r),
        record_of_text(record_text(r)) == Some(r),
{
    let h = envelope_head();
    let p = encode_utf8(r.payload);
    let t = envelope_tail(r.kind);
    let text = record_text(r);
    let n = text.len() as int;
    assert(text.subrange(0, h.len() as int) =~= h);
    assert(text.subrange(n - t.len(), n) =~= t);
    assert(framed_payload(text, r.kind) =~= p);
    // A shorter tail checked earlier differs from the last bytes of the text.
    if r.kind != TransactionType::Swap {
        assert(text[n - 3] == 114u8);
        assert(envelope_tail(TransactionType::Swap)[envelope_tail(TransactionType::Swap).len()
            - 3] == 112u8);
        assert(!has_tail(text, TransactionType::Swap));
    }
    if r.kind == TransactionType::CryptoTransfer {
        assert(text[n - 11] == 111u8);
        assert(envelope_tail(TransactionType::FiatTransfer)[envelope_tail(
            TransactionType::FiatTransfer,
        ).len() - 11] == 116u8);
        assert(!has_tail(text, TransactionType::FiatTransfer));
    }
}

fn head_bytes() -> (r: Vec<u8>)
    ensures
        r@ == envelope_head(),
{
    let r = vec![123u8, 34u8, 100u8, 97u8, 116u8, 97u8, 34u8, 58u8];
    assert(r@ =~= envelope_head());
    r
}

fn tail_bytes(kind: TransactionType) -> (r: Vec<u8>)
    ensures
        r@ == envelope_tail(kind),
{
    let mut r = vec![44u8, 34u8, 116u8, 120u8, 95u8, 116u8, 121u8, 112u8, 101u8, 34u8, 58u8, 34u8];
    let tag = match kind {
        TransactionType::Swap => vec![83u8, 119u8, 97u8, 112u8],
        TransactionType::FiatTransfer => vec![
            70u8, 105u8, 97u8, 116u8, 84u8, 114u8, 97u8, 110u8, 115u8, 102u8, 101u8, 114u8
        ],
        TransactionType::CryptoTransfer => vec![
            67u8, 114u8, 121u8, 112u8, 116u8, 111u8, 84u8, 114u8, 97u8, 110u8, 115u8, 102u8, 101u8, 114u8
        ],
    };
    assert(tag@ =~= tag_bytes(kind));
    push_all(&mut r, tag.as_slice());
    push_all(&mut r, &[34u8, 125u8]);
    assert(r@ =~= envelope_tail(kind));
    r
}

/// Appends the bytes of a slice to a vector.
fn push_all(v: &mut Vec<u8>, s: &[u8])
    ensures
        final(v)@ == old(v)@ + s@,
{
    let mut i: usize = 0;
    while i < s.len()
        invariant
            i <= s@.len(),
            v@ == old(v)@ + s@.subrange(0, i as int),
        decreases s@.len() - i,
    {
        v.push(s[i]);
        i = i + 1;
        assert(v@ =~= old(v)@ + s@.subrange(0, i as int));
    }
    assert(s@.subrange(0, s@.len() as int) =~= s@);
}

/// Whether `pat` occurs in `text` at position `at`.
fn occurs_at(text: &[u8], pat: &[u8], at: usize) -> (r: bool)
    requires
        at <= text@.len(),
    ensures
        r == (at + pat@.len() <= text@.len() && text@.subrange(at as int, at + pat@.len())
            == pat@),
{
    if pat.len() > text.len() - at {
        return false;
    }
    let n = text.len();
    let mut i: usize = 0;
    while i < pat.len()
        invariant
            i <= pat@.len(),
            n == text@.len(),
            at + pat@.len() <= n,
            forall|j: int| 0 <= j < i ==> text@[at + j] == pat@[j],
        decreases pat@.len() - i,
    {
        if text[at + i] != pat[i] {
            assert(text@.subrange(at as int, at + pat@.len())[i as int] != pat@[i as int]);
            return false;
        }
        i = i + 1;
    }
    assert(text@.subrange(at as int, at + pat@.len()) =~= pat@);
    true
}

/// Whether a text ends with the tail of the given kind, after the head.
fn ends_with_tail(text: &[u8], kind: TransactionType) -> (r: bool)
    ensures
        r == has_tail(text@, kind),
{
    let tail = tail_bytes(kind);
    if text.len() < 8 + tail.len() {
        return false;
    }
    occurs_at(text, tail.as_slice(), text.len() - tail.len())
}

/// Encodes a record into a blob under the given namespace: the record's JSON
/// text, base64-encoded. Fails when the payload is not JSON text.
pub fn build_blob(namespace: NamespaceId, record: &TransactionRecord) -> (r: Result<
    Blob,
    CodecError,
>)
    requires
        payload_fits(record@),
    ensures
        match r {
            Ok(blob) => {
                &&& json_accepts(record.payload@)
                &&& blob.namespace == namespace
                &&& blob.data@ == encoded_record(record@)
                &&& record_of_blob_data(blob.data@) == Some(record@)
            },
            Err(e) => !json_accepts(record.payload@) && e == CodecError::SerializationError,
        },
{
    if !is_json(record.payload.as_str()) {
        return Err(CodecError::SerializationError);
    }
    let mut text = head_bytes();
    push_all(&mut text, record.payload.as_str().as_bytes());
    let tail = tail_bytes(record.kind);
    push_all(&mut text, tail.as_slice());
    assert(text@ =~= record_text(record@));
    let data = encode_base64(text.as_slice());
    proof {
        lemma_framing_round_trip(record@);
    }
    Ok(Blob { namespace, data })
}

/// Decodes a blob back into the record it holds: base64-decodes its data,
/// reads the framing, and checks that the payload is UTF-8 JSON text.
pub fn revert_blob(blob: &Blob) -> (r: Result<TransactionRecord, CodecError>)
    ensures
        match r {
            Ok(rec) => record_of_blob_data(blob.data@) == Some(rec@),
            Err(e) => record_of_blob_data(blob.data@) is None && e == CodecError::MalformedBlob,
        },
{
    let decoded = decode_base64(blob.data.as_slice());
    match decoded {
        None => Err(CodecError::MalformedBlob),
        Some(text) => record_from_text(text.as_slice()),
    }
}

/// Reads a record from its JSON text. The framed layout
/// `{"data":<payload>,"tx_type":"<kind>"}` keeps its payload text; any other
/// JSON object with a known `tx_type` string and a `data` member is read by
/// serde_json, its payload being the compact text of `data`.
pub fn record_from_text(text: &[u8]) -> (r: Result<TransactionRecord, CodecError>)
    ensures
        match r {
            Ok(rec) => record_of_text(text@) == Some(rec@),
            Err(e) => record_of_text(text@) is None && e == CodecError::MalformedBlob,
        },
{
    match read_framed(text) {
        Some(rec) => Ok(rec),
        None => match read_parsed(text) {
            Some(rec) => Ok(rec),
            None => Err(CodecError::MalformedBlob),
        },
    }
}

/// Reads a record in the framed layout.
fn read_framed(text: &[u8]) -> (r: Option<TransactionRecord>)
    ensures
        match r {
            Some(rec) => framed_record(text@) == Some(rec@),
            None => framed_record(text@) is None,
        },
{
    if !(text.len() >= 8 && occurs_at(text, head_bytes().as_slice(), 0)) {
        return None;
    }
    let kind = if ends_with_tail(text, TransactionType::Swap) {
        TransactionType::Swap
    } else if ends_with_tail(text, TransactionType::FiatTransfer) {
        TransactionType::FiatTransfer
    } else if ends_with_tail(text, TransactionType::CryptoTransfer) {
        TransactionType::CryptoTransfer
    } else {
        return None;
    };
    assert(framed_kind(text@) == Some(kind));
    let tail_len = tail_bytes(kind).len();
    let body = vstd::slice::slice_to_vec(vstd::slice::slice_subrange(text, 8, text.len() - tail_len));
    assert(body@ == framed_payload(text@, kind));
    match utf8_string(body) {
        None => None,
        Some(payload) => {
            if is_json(payload.as_str()) {
                Some(TransactionRecord { kind, payload })
            } else {
                None
            }
        },
    }
}

/// Reads a record from any JSON object of the record's shape.
fn read_parsed(text: &[u8]) -> (r: Option<TransactionRecord>)
    ensures
        match r {
            Some(rec) => parsed_record(text@) == Some(rec@),
            None => parsed_record(text@) is None,
        },
{
    let whole = match utf8_string(vstd::slice::slice_to_vec(text)) {
        None => return None,
        Some(s) => s,
    };
    let tag_text = match json_member(whole.as_str(), "tx_type") {
        None => return None,
        Some(t) => t,
    };
    let data = match json_member(whole.as_str(), "data") {
        None => return None,
        Some(d) => d,
    };
    let tag = match json_string(tag_text.as_str()) {
        None => return None,
        Some(t) => t,
    };
    match TransactionType::from_tag(tag.as_str()) {
        None => None,
        Some(kind) => {
            if is_json(data.as_str()) {
                Some(TransactionRecord { kind, payload: data })
            } else {
                None
            }
        },
    }
}

} // verus!
