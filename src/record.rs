use vstd::prelude::*;

verus! {

/// The kind of a recorded transaction.
#[derive(Debug, Clone, Copy, PartialEq, Eq, Structural)]
pub enum TransactionType {
    Swap,
    FiatTransfer,
    CryptoTransfer,
}

/// The tag under which a transaction kind is written.
pub open spec fn tx_type_name(t: TransactionType) -> Seq<char> {
    match t {
        TransactionType::Swap => "Swap"@,
        TransactionType::FiatTransfer => "FiatTransfer"@,
        TransactionType::CryptoTransfer => "CryptoTransfer"@,
    }
}

/// The kind that a tag names, if any.
pub open spec fn kind_of_tag(tag: Seq<char>) -> Option<TransactionType> {
    if tag == tx_type_name(TransactionType::Swap) {
        Some(TransactionType::Swap)
    } else if tag == tx_type_name(TransactionType::FiatTransfer) {
        Some(TransactionType::FiatTransfer)
    } else if tag == tx_type_name(TransactionType::CryptoTransfer) {
        Some(TransactionType::CryptoTransfer)
    } else {
        None
    }
}

impl TransactionType {
    /// The kind that a tag names, if any.
    pub fn from_tag(tag: &str) -> (r: Option<TransactionType>)
        ensures
            r == kind_of_tag(tag@),
    {
        let tag = String::from_str(tag);
        if tag == String::from_str("Swap") {
            Some(TransactionType::Swap)
        } else if tag == String::from_str("FiatTransfer") {
            Some(TransactionType::FiatTransfer)
        } else if tag == String::from_str("CryptoTransfer") {
            Some(TransactionType::CryptoTransfer)
        } else {
            None
        }
    }

    /// The tag of this kind, as it appears in a stored record.
    pub fn map_tx_type(&self) -> (r: String)
        ensures
            r@ == tx_type_name(*self),
    {
        match self {
            TransactionType::CryptoTransfer => String::from_str("CryptoTransfer"),
            TransactionType::FiatTransfer => String::from_str("FiatTransfer"),
            TransactionType::Swap => String::from_str("Swap"),
        }
    }
}

/// A transaction as it is recorded: its kind and its payload, held as JSON text.
#[derive(Debug, Clone, PartialEq, Eq)]
pub struct TransactionRecord {
    pub kind: TransactionType,
    pub payload: String,
}

/// The model of a record: its kind and the characters of its payload.
pub struct TransactionRecordView {
    pub kind: TransactionType,
    pub payload: Seq<char>,
}

impl View for TransactionRecord {
    type V = TransactionRecordView;

    open spec fn view(&self) -> TransactionRecordView {
        TransactionRecordView { kind: self.kind, payload: self.payload@ }
    }
}

impl TransactionRecord {
    /// A record of the given kind whose payload is the given JSON text.
    pub fn new(kind: TransactionType, payload: String) -> (r: TransactionRecord)
        ensures
            r@ == (TransactionRecordView { kind, payload: payload@ }),
    {
        TransactionRecord { kind, payload }
    }
}

} // verus!
