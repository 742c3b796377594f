use tx_ledger::blob::{build_blob, record_fits, record_from_text, revert_blob, Blob, CodecError};
use tx_ledger::history::{decode_batch, HistoryError, HistoryReplay, ReplayAction, ReplayEvent, ReplayStep};
use tx_ledger::index::{heights_of, parse_height, Table, W3Transaction};
use tx_ledger::namespace::{address_to_namespace, namespace_from_bytes, AddressError, NamespaceId};
use tx_ledger::record::{TransactionRecord, TransactionType};
use tx_ledger::submission::{record_blob, SubmitError};

fn record(kind: TransactionType, payload: &str) -> TransactionRecord {
    TransactionRecord::new(kind, payload.to_string())
}

#[test]
fn namespace_is_first_eight_decoded_bytes() {
    let ns = address_to_namespace("0xAQIDBAUGBwgJCg==").unwrap();
    assert_eq!(ns.id, [1, 2, 3, 4, 5, 6, 7, 8]);
}

#[test]
fn namespace_without_prefix() {
    let ns = address_to_namespace("AQIDBAUGBwgJCg==").unwrap();
    assert_eq!(ns.id, [1, 2, 3, 4, 5, 6, 7, 8]);
}

#[test]
fn namespace_of_hex_looking_address_decodes_as_base64() {
    let ns = address_to_namespace("0x52908400098527886e0f7030069857d2e4169ee7").unwrap();
    assert_eq!(ns.id, [231, 111, 116, 243, 141, 52, 211, 223]);
}

#[test]
fn namespace_is_deterministic() {
    let a = "0x52908400098527886e0f7030069857d2e4169ee7";
    assert_eq!(address_to_namespace(a), address_to_namespace(a));
}

#[test]
fn namespaces_differ_for_distinct_prefixes() {
    let a = address_to_namespace("0xAQIDBAUGBwgJCg==").unwrap();
    let b = address_to_namespace("0x52908400098527886e0f7030069857d2e4169ee7").unwrap();
    assert_ne!(a, b);
}

#[test]
fn four_byte_address_is_too_short() {
    assert_eq!(address_to_namespace("0xAAECAw=="), Err(AddressError::AddressTooShort));
}

#[test]
fn empty_address_is_too_short() {
    assert_eq!(address_to_namespace("0x"), Err(AddressError::AddressTooShort));
}

#[test]
fn non_base64_address_is_refused() {
    assert_eq!(address_to_namespace("0x!!!!"), Err(AddressError::InvalidAddressEncoding));
}

#[test]
fn blob_data_is_base64_of_framed_record() {
    let ns = NamespaceId { id: [9; 8] };
    let blob = build_blob(ns, &record(TransactionType::CryptoTransfer, "{\"amount\":\"10\"}")).unwrap();
    assert_eq!(blob.namespace, ns);
    assert_eq!(
        blob.data,
        b"eyJkYXRhIjp7ImFtb3VudCI6IjEwIn0sInR4X3R5cGUiOiJDcnlwdG9UcmFuc2ZlciJ9".to_vec()
    );
}

#[test]
fn non_json_payload_is_not_serialized() {
    let ns = NamespaceId { id: [0; 8] };
    assert_eq!(
        build_blob(ns, &record(TransactionType::Swap, "not json")),
        Err(CodecError::SerializationError)
    );
}

#[test]
fn blob_round_trip_for_each_kind() {
    let ns = NamespaceId { id: [1; 8] };
    for kind in [TransactionType::Swap, TransactionType::FiatTransfer, TransactionType::CryptoTransfer] {
        for payload in ["{}", "[1,2,3]", "\"caf\u{e9}\"", "{\"nested\":{\"tx_type\":\"Swap\"}}", "null"] {
            let r = record(kind, payload);
            let blob = build_blob(ns, &r).unwrap();
            assert_eq!(revert_blob(&blob), Ok(r));
        }
    }
}

#[test]
fn decodes_blob_written_elsewhere() {
    let blob = Blob {
        namespace: NamespaceId { id: [0; 8] },
        data: b"eyJkYXRhIjoiY2Fmw6kiLCJ0eF90eXBlIjoiRmlhdFRyYW5zZmVyIn0=".to_vec(),
    };
    assert_eq!(revert_blob(&blob), Ok(record(TransactionType::FiatTransfer, "\"caf\u{e9}\"")));
}

#[test]
fn malformed_blobs_are_refused() {
    let ns = NamespaceId { id: [0; 8] };
    for data in [
        b"not base64!".to_vec(),
        vec![0xff, 0xfe],
        b"eyJkYXRhIjpub3BlLCJ0eF90eXBlIjoiU3dhcCJ9".to_vec(),
        Vec::new(),
    ] {
        let blob = Blob { namespace: ns, data };
        assert_eq!(revert_blob(&blob), Err(CodecError::MalformedBlob));
    }
}

#[test]
fn batch_decodes_in_order_and_fails_as_a_whole() {
    let ns = NamespaceId { id: [0; 8] };
    let a = record(TransactionType::Swap, "1");
    let b = record(TransactionType::FiatTransfer, "2");
    let blobs = vec![build_blob(ns, &a).unwrap(), build_blob(ns, &b).unwrap()];
    assert_eq!(decode_batch(&blobs), Some(vec![a, b]));
    let mut bad = blobs.clone();
    bad.push(Blob { namespace: ns, data: b"????".to_vec() });
    assert_eq!(decode_batch(&bad), None);
}

#[test]
fn record_blob_lowercases_the_address() {
    let r = record(TransactionType::Swap, "{}");
    let upper = record_blob("0xAQIDBAUGBwgJCg==", &r).unwrap();
    let lower = record_blob("0xaqidbaugbwgjcg==", &r).unwrap();
    assert_eq!(upper.namespace, lower.namespace);
    assert_eq!(upper.namespace, address_to_namespace("0xaqidbaugbwgjcg==").unwrap());
}

#[test]
fn record_blob_errors() {
    let r = record(TransactionType::Swap, "{}");
    assert_eq!(record_blob("0xaaecaw==", &r), Err(SubmitError::InvalidAddress(AddressError::AddressTooShort)));
    let bad = record(TransactionType::Swap, "{");
    assert_eq!(record_blob("0xaqidbaugbwgjcg==", &bad), Err(SubmitError::SerializationError));
}

#[test]
fn history_of_address_without_entries_is_empty() {
    let (mut replay, action) = HistoryReplay::begin("0x52908400098527886E0F7030069857D2E4169EE7");
    assert_eq!(
        action,
        ReplayAction::LookupHeights { address: "0x52908400098527886e0f7030069857d2e4169ee7".to_string() }
    );
    assert_eq!(replay.step(ReplayEvent::Heights(vec![])), ReplayAction::Finish);
    assert_eq!(replay.stage, ReplayStep::Done);
    assert!(replay.records.is_empty());
}

#[test]
fn end_to_end_record_index_and_history() {
    let address = "0x52908400098527886e0f7030069857d2e4169ee7";
    let original = record(TransactionType::CryptoTransfer, "{\"transaction_hash\":\"0xabc\",\"amount\":\"10\"}");
    let blob = record_blob(address, &original).unwrap();
    let height: u64 = 4242;
    let row = W3Transaction::new(height, address);
    let heights = heights_of(&vec![row]).unwrap();
    assert_eq!(heights, vec![height]);

    let (mut replay, _) = HistoryReplay::begin(address);
    let action = replay.step(ReplayEvent::Heights(heights));
    assert_eq!(action, ReplayAction::FetchBlobs { height, namespace: blob.namespace });
    assert_eq!(replay.step(ReplayEvent::Blobs(Some(vec![blob]))), ReplayAction::Finish);
    assert_eq!(replay.records, vec![original]);
}

#[test]
fn history_visits_heights_in_order_and_skips_empty_heights() {
    let address = "0xaqidbaugbwgjcg==";
    let a = record(TransactionType::Swap, "1");
    let b = record(TransactionType::FiatTransfer, "2");
    let c = record(TransactionType::CryptoTransfer, "3");
    let (mut replay, _) = HistoryReplay::begin(address);
    let ns = replay.namespace;
    let blob = |r: &TransactionRecord| build_blob(ns, r).unwrap();
    assert_eq!(replay.step(ReplayEvent::Heights(vec![7, 3, 9])), ReplayAction::FetchBlobs { height: 7, namespace: ns });
    assert_eq!(replay.step(ReplayEvent::Blobs(Some(vec![blob(&a), blob(&b)]))), ReplayAction::FetchBlobs { height: 3, namespace: ns });
    assert_eq!(replay.step(ReplayEvent::Blobs(None)), ReplayAction::FetchBlobs { height: 9, namespace: ns });
    assert_eq!(replay.step(ReplayEvent::Blobs(Some(vec![blob(&c)]))), ReplayAction::Finish);
    assert_eq!(replay.records, vec![a, b, c]);
}

#[test]
fn history_failures() {
    let (mut replay, _) = HistoryReplay::begin("0xaqidbaugbwgjcg==");
    assert!(replay.accepts(&ReplayEvent::CallFailed));
    assert!(!replay.accepts(&ReplayEvent::Blobs(None)));
    assert_eq!(replay.step(ReplayEvent::CallFailed), ReplayAction::Fail(HistoryError::StorageUnavailable));

    let (mut replay, _) = HistoryReplay::begin("0xaqidbaugbwgjcg==");
    replay.step(ReplayEvent::Heights(vec![1, 2]));
    assert_eq!(replay.step(ReplayEvent::CallFailed), ReplayAction::Fail(HistoryError::HistoryFetchFailed));
    assert!(!replay.accepts(&ReplayEvent::Blobs(None)));

    let (mut replay, _) = HistoryReplay::begin("0xaqidbaugbwgjcg==");
    replay.step(ReplayEvent::Heights(vec![1]));
    let bad = Blob { namespace: replay.namespace, data: b"eyJkYXRhIjpub3BlLCJ0eF90eXBlIjoiU3dhcCJ9".to_vec() };
    assert_eq!(replay.step(ReplayEvent::Blobs(Some(vec![bad]))), ReplayAction::Fail(HistoryError::HistoryFetchFailed));
    assert_eq!(replay.stage, ReplayStep::Failed);
}

#[test]
fn history_of_invalid_address_fails_at_once() {
    let (replay, action) = HistoryReplay::begin("0xAAECAw==");
    assert_eq!(action, ReplayAction::Fail(HistoryError::InvalidAddress(AddressError::AddressTooShort)));
    assert_eq!(replay.stage, ReplayStep::Failed);
}

#[test]
fn index_rows_store_decimal_heights_and_lowercase_addresses() {
    let row = W3Transaction::new(123, "0xABCdef");
    assert_eq!(row.w3_height, "123");
    assert_eq!(row.w3_address, "0xabcdef");
    assert_eq!(W3Transaction::new(0, "").w3_height, "0");
    assert_eq!(W3Transaction::new(u64::MAX, "a").w3_height, "18446744073709551615");
    assert_eq!(Table::W3Transaction.map_table(), "w3_transaction");
}

#[test]
fn heights_parse_back() {
    assert_eq!(parse_height("0"), Some(0));
    assert_eq!(parse_height("4242"), Some(4242));
    assert_eq!(parse_height("18446744073709551615"), Some(u64::MAX));
    assert_eq!(parse_height("18446744073709551616"), None);
    assert_eq!(parse_height("99999999999999999999999"), None);
    assert_eq!(parse_height(""), None);
    assert_eq!(parse_height("12a"), None);
    assert_eq!(parse_height("+12"), None);
    assert_eq!(parse_height("1\u{e9}"), None);
}

#[test]
fn rows_with_a_bad_height_give_no_heights() {
    let good = W3Transaction::new(5, "a");
    let bad = W3Transaction { w3_height: "x".to_string(), w3_address: "a".to_string() };
    assert_eq!(heights_of(&vec![good.clone(), W3Transaction::new(6, "a")]), Some(vec![5, 6]));
    assert_eq!(heights_of(&vec![good, bad]), None);
    assert_eq!(heights_of(&vec![]), Some(vec![]));
}

#[test]
fn transaction_type_tags() {
    assert_eq!(TransactionType::Swap.map_tx_type(), "Swap");
    assert_eq!(TransactionType::FiatTransfer.map_tx_type(), "FiatTransfer");
    assert_eq!(TransactionType::CryptoTransfer.map_tx_type(), "CryptoTransfer");
}

#[test]
fn ordinary_records_fit() {
    assert!(record_fits(&record(TransactionType::Swap, "{\"a\":1}")));
    assert!(record_fits(&record(TransactionType::Swap, "")));
}

#[test]
fn namespace_from_decoded_bytes() {
    assert_eq!(namespace_from_bytes(&[1, 2, 3, 4]), Err(AddressError::AddressTooShort));
    assert_eq!(namespace_from_bytes(&[9, 8, 7, 6, 5, 4, 3, 2]).unwrap().id, [9, 8, 7, 6, 5, 4, 3, 2]);
    assert_eq!(namespace_from_bytes(&[0; 30]).unwrap().id, [0; 8]);
}

#[test]
fn record_text_framing() {
    assert_eq!(
        record_from_text(b"{\"data\":{\"a\":1},\"tx_type\":\"CryptoTransfer\"}"),
        Ok(record(TransactionType::CryptoTransfer, "{\"a\":1}"))
    );
    assert_eq!(
        record_from_text(b"{\"data\":1,\"tx_type\":\"Swap\"}"),
        Ok(record(TransactionType::Swap, "1"))
    );
    assert_eq!(record_from_text(b"{\"data\":1,\"tx_type\":\"Other\"}"), Err(CodecError::MalformedBlob));
    assert_eq!(record_from_text(b"{\"tx_type\":\"Swap\",\"data\":1}"), Ok(record(TransactionType::Swap, "1")));
    assert_eq!(record_from_text(b"{\"data\":,\"tx_type\":\"Swap\"}"), Err(CodecError::MalformedBlob));
    assert_eq!(record_from_text(b"{\"data\":\"\xff\",\"tx_type\":\"Swap\"}"), Err(CodecError::MalformedBlob));
    assert_eq!(record_from_text(b""), Err(CodecError::MalformedBlob));
}

#[test]
fn decodes_blob_with_other_member_order() {
    let blob = Blob {
        namespace: NamespaceId { id: [0; 8] },
        data: b"eyJ0eF90eXBlIjoiU3dhcCIsImRhdGEiOjF9".to_vec(),
    };
    assert_eq!(revert_blob(&blob), Ok(record(TransactionType::Swap, "1")));
}

#[test]
fn any_json_object_of_the_record_shape_is_read() {
    assert_eq!(
        record_from_text(b"{ \"data\" : { \"b\" : [1, 2], \"a\" : null } ,\n \"tx_type\" : \"FiatTransfer\" }"),
        Ok(record(TransactionType::FiatTransfer, "{\"a\":null,\"b\":[1,2]}"))
    );
    assert_eq!(
        record_from_text(b"{\"extra\":true,\"tx_type\":\"CryptoTransfer\",\"data\":\"x\"}"),
        Ok(record(TransactionType::CryptoTransfer, "\"x\""))
    );
    assert_eq!(record_from_text(b"{\"tx_type\":\"Swap\"}"), Err(CodecError::MalformedBlob));
    assert_eq!(
        record_from_text(b"{\"tx_type\":\"Sw\\u0061p\",\"data\":true}"),
        Ok(record(TransactionType::Swap, "true"))
    );
    assert_eq!(record_from_text(b"{\"data\":1}"), Err(CodecError::MalformedBlob));
    assert_eq!(record_from_text(b"{\"tx_type\":\"Refund\",\"data\":1}"), Err(CodecError::MalformedBlob));
    assert_eq!(record_from_text(b"{\"tx_type\":7,\"data\":1}"), Err(CodecError::MalformedBlob));
    assert_eq!(record_from_text(b"[\"Swap\",1]"), Err(CodecError::MalformedBlob));
    assert_eq!(record_from_text(b"{\"tx_type\":\"Swap\",\"data\":1} x"), Err(CodecError::MalformedBlob));
}
