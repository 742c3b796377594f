//! Reading a user's history back: the indexed heights are looked up, and the
//! blobs under the user's namespace at each height are fetched and decoded.
use vstd::prelude::*;
use crate::blob::{Blob, record_of_blob_data, revert_blob};
use crate::encoding::{lower_of, lowercase};
use crate::namespace::{AddressError, NamespaceId, address_to_namespace, namespace_of};
use crate::record::{TransactionRecord, TransactionRecordView};
use vstd::utf8::encode_utf8;

verus! {

/// Why a history could not be read.
#[derive(Debug, Clone, Copy, PartialEq, Eq, Structural)]
pub enum HistoryError {
    /// The address yields no namespace.
    InvalidAddress(AddressError),
    /// The index could not be read.
    StorageUnavailable,
    /// The blobs at some height could not be fetched or decoded.
    HistoryFetchFailed,
}

/// The models of a sequence of records.
pub open spec fn records_view(v: Seq<TransactionRecord>) -> Seq<TransactionRecordView> {
    v.map_values(|r: TransactionRecord| r@)
}

/// The records that a batch of blobs holds, in order, or `None` where one of
/// them holds no record.
pub open spec fn batch_records(blobs: Seq<Blob>) -> Option<Seq<TransactionRecordView>>
    decreases blobs.len(),
{
    if blobs.len() == 0 {
        Some(Seq::empty())
    } else {
        match (batch_records(blobs.drop_last()), record_of_blob_data(blobs.last().data@)) {
            (Some(rs), Some(r)) => Some(rs.push(r)),
            _ => None,
        }
    }
}

/// A batch in which some prefix holds no records holds none either.
proof fn lemma_batch_fails_on_prefix(blobs: Seq<Blob>, k: int)
    requires
        0 <= k <= blobs.len(),
        batch_records(blobs.subrange(0, k)) is None,
    ensures
        batch_records(blobs) is None,
    decreases blobs.len() - k,
{
    if k < blobs.len() {
        assert(blobs.subrange(0, k + 1).drop_last() =~= blobs.subrange(0, k));
        lemma_batch_fails_on_prefix(blobs, k + 1);
    } else {
        assert(blobs.subrange(0, k) =~= blobs);
    }
}

/// Decodes every blob of a batch, in order; `None` as soon as one fails.
pub fn decode_batch(blobs: &Vec<Blob>) -> (r: Option<Vec<TransactionRecord>>)
    ensures
        match r {
            Some(v) => batch_records(blobs@) == Some(records_view(v@)),
            None => batch_records(blobs@) is None,
        },
{
    let mut out: Vec<TransactionRecord> = Vec::new();
    let mut i: usize = 0;
    assert(records_view(out@) =~= Seq::<TransactionRecordView>::empty());
    assert(blobs@.subrange(0, 0) =~= Seq::<Blob>::empty());
    while i < blobs.len()
        invariant
            i <= blobs@.len(),
            batch_records(blobs@.subrange(0, i as int)) == Some(records_view(out@)),
        decreases blobs@.len() - i,
    {
        let ghost prefix = blobs@.subrange(0, i as int + 1);
        assert(prefix.drop_last() =~= blobs@.subrange(0, i as int));
        assert(prefix.last() == blobs@[i as int]);
        match revert_blob(&blobs[i]) {
            Ok(rec) => {
                let ghost before = out@;
                out.push(rec);
                assert(records_view(out@) =~= records_view(before).push(rec@));
            },
            Err(_) => {
                proof {
                    lemma_batch_fails_on_prefix(blobs@, i as int + 1);
                }
                return None;
            },
        }
        i = i + 1;
    }
    assert(blobs@.subrange(0, blobs@.len() as int) =~= blobs@);
    Some(out)
}

/// Where a history replay stands.
#[derive(Debug, Clone, Copy, PartialEq, Eq, Structural)]
pub enum ReplayStep {
    AwaitHeights,
    AwaitBlobs,
    Done,
    Failed,
}

/// The outcome of the call that a replay waits for.
#[derive(Debug, Clone, PartialEq, Eq)]
pub enum ReplayEvent {
    /// The heights recorded for the address, in any order.
    Heights(Vec<u64>),
    /// The blobs under the namespace at the requested height; `None` when
    /// there are none.
    Blobs(Option<Vec<Blob>>),
    /// The call failed.
    CallFailed,
}

/// What the caller does next for a replay.
#[derive(Debug, Clone, PartialEq, Eq)]
pub enum ReplayAction {
    /// Look up the heights recorded for this (normalized) address.
    LookupHeights { address: String },
    /// Fetch the blobs under this namespace at this height.
    FetchBlobs { height: u64, namespace: NamespaceId },
    /// The history is complete: it is in the replay's `records`.
    Finish,
    /// The replay stopped with this error.
    Fail(HistoryError),
}

/// The reconstruction of one address's history.
#[derive(Debug)]
pub struct HistoryReplay {
    pub address: String,
    pub namespace: NamespaceId,
    pub heights: Vec<u64>,
    pub next: usize,
    pub records: Vec<TransactionRecord>,
    pub stage: ReplayStep,
}

/// Whether a replay at the given step takes the given event.
pub open spec fn replay_awaits(step: ReplayStep, event: ReplayEvent) -> bool {
    match step {
        ReplayStep::AwaitHeights => event is Heights || event is CallFailed,
        ReplayStep::AwaitBlobs => event is Blobs || event is CallFailed,
        _ => false,
    }
}

impl HistoryReplay {
    pub open spec fn wf(&self) -> bool {
        self.stage == ReplayStep::AwaitBlobs ==> self.next < self.heights@.len()
    }

    /// Starts reading the history of `address`: the address is lower-cased and
    /// its namespace derived; the first call looks up its heights. An address
    /// that yields no namespace fails at once.
    pub fn begin(address: &str) -> (r: (HistoryReplay, ReplayAction))
        ensures
            r.0.wf(),
            r.0.address@ == lower_of(address@),
            r.0.records@.len() == 0,
            match namespace_of(encode_utf8(lower_of(address@))) {
                Ok(ns) => {
                    &&& r.0.namespace@ == ns
                    &&& r.0.stage == ReplayStep::AwaitHeights
                    &&& match r.1 {
                        ReplayAction::LookupHeights { address: a } => a@ == lower_of(address@),
                        _ => false,
                    }
                },
                Err(e) => r.0.stage == ReplayStep::Failed && r.1 == ReplayAction::Fail(
                    HistoryError::InvalidAddress(e),
                ),
            },
    {
        let normalized = lowercase(address);
        let derived = address_to_namespace(normalized.as_str());
        let mut replay = HistoryReplay {
            address: normalized,
            namespace: NamespaceId { id: [0u8; 8] },
            heights: Vec::new(),
            next: 0,
            records: Vec::new(),
            stage: ReplayStep::Failed,
        };
        match derived {
            Ok(ns) => {
                replay.namespace = ns;
                replay.stage = ReplayStep::AwaitHeights;
                let lookup = replay.address.clone();
                (replay, ReplayAction::LookupHeights { address: lookup })
            },
            Err(e) => (replay, ReplayAction::Fail(HistoryError::InvalidAddress(e))),
        }
    }

    /// Whether the replay is waiting for this kind of event.
    pub fn accepts(&self, event: &ReplayEvent) -> (r: bool)
        ensures
            r == replay_awaits(self.stage, *event),
    {
        match self.stage {
            ReplayStep::AwaitHeights => matches!(event, ReplayEvent::Heights(_) | ReplayEvent::CallFailed),
            ReplayStep::AwaitBlobs => matches!(event, ReplayEvent::Blobs(_) | ReplayEvent::CallFailed),
            _ => false,
        }
    }

    /// Takes the outcome of the pending call and says what to do next.
    ///
    /// The heights are visited in the order given; the records of each
    /// height's blobs are appended in the order of the blobs, and a height
    /// without blobs adds nothing. With no heights the history is empty. A
    /// failed index lookup fails with `StorageUnavailable`; a failed fetch, or
    /// a blob that does not decode, fails the whole replay with
    /// `HistoryFetchFailed`.
    pub fn step(&mut self, event: ReplayEvent) -> (r: ReplayAction)
        requires
            old(self).wf(),
            replay_awaits(old(self).stage, event),
        ensures
            final(self).wf(),
            final(self).address@ == old(self).address@,
            final(self).namespace == old(self).namespace,
            match (old(self).stage, event) {
                (ReplayStep::AwaitHeights, ReplayEvent::Heights(hs)) => {
                    &&& final(self).heights@ == hs@
                    &&& final(self).next == 0
                    &&& final(self).records@ == old(self).records@
                    &&& if hs@.len() == 0 {
                        final(self).stage == ReplayStep::Done && r == ReplayAction::Finish
                    } else {
                        final(self).stage == ReplayStep::AwaitBlobs && r
                            == ReplayAction::FetchBlobs {
                            height: hs@[0],
                            namespace: old(self).namespace,
                        }
                    }
                },
                (ReplayStep::AwaitHeights, ReplayEvent::CallFailed) => final(self).stage
                    == ReplayStep::Failed && r == ReplayAction::Fail(
                    HistoryError::StorageUnavailable,
                ),
                (ReplayStep::AwaitBlobs, ReplayEvent::Blobs(found)) => {
                    let batch = match found {
                        Some(bs) => batch_records(bs@),
                        None => Some(Seq::empty()),
                    };
                    match batch {
                        None => final(self).stage == ReplayStep::Failed && r == ReplayAction::Fail(
                            HistoryError::HistoryFetchFailed,
                        ),
                        Some(rs) => {
                            &&& records_view(final(self).records@) == records_view(
                                old(self).records@,
                            ) + rs
                            &&& final(self).heights@ == old(self).heights@
                            &&& final(self).next == old(self).next + 1
                            &&& if final(self).next < final(self).heights@.len() {
                                final(self).stage == ReplayStep::AwaitBlobs && r
                                    == ReplayAction::FetchBlobs {
                                    height: final(self).heights@[final(self).next as int],
                                    namespace: old(self).namespace,
                                }
                            } else {
                                final(self).stage == ReplayStep::Done && r == ReplayAction::Finish
                            }
                        },
                    }
                },
                (ReplayStep::AwaitBlobs, ReplayEvent::CallFailed) => final(self).stage
                    == ReplayStep::Failed && r == ReplayAction::Fail(
                    HistoryError::HistoryFetchFailed,
                ),
                _ => false,
            },
    {
        match event {
            ReplayEvent::Heights(hs) => {
                self.heights = hs;
                self.next = 0;
                if self.heights.len() == 0 {
                    self.stage = ReplayStep::Done;
                    ReplayAction::Finish
                } else {
                    self.stage = ReplayStep::AwaitBlobs;
                    ReplayAction::FetchBlobs { height: self.heights[0], namespace: self.namespace }
                }
            },
            ReplayEvent::Blobs(found) => {
                let decoded = match found {
                    Some(bs) => decode_batch(&bs),
                    None => Some(Vec::new()),
                };
                match decoded {
                    None => {
                        self.stage = ReplayStep::Failed;
                        ReplayAction::Fail(HistoryError::HistoryFetchFailed)
                    },
                    Some(mut batch) => {
                        let ghost before = self.records@;
                        let ghost added = batch@;
                        self.records.append(&mut batch);
                        assert(records_view(self.records@) =~= records_view(before)
                            + records_view(added));
                        let total = self.heights.len();
                        self.next = self.next + 1;
                        if self.next < total {
                            ReplayAction::FetchBlobs {
                                height: self.heights[self.next],
                                namespace: self.namespace,
                            }
                        } else {
                            self.stage = ReplayStep::Done;
                            ReplayAction::Finish
                        }
                    },
                }
            },
            ReplayEvent::CallFailed => {
                let e = match self.stage {
                    ReplayStep::AwaitHeights => HistoryError::StorageUnavailable,
                    _ => HistoryError::HistoryFetchFailed,
                };
                self.stage = ReplayStep::Failed;
                ReplayAction::Fail(e)
            },
        }
    }
}

} // verus!
