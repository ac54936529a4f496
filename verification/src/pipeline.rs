//! The handling of one log batch: from its lines and signature to the
//! decision to resolve it, and from the resolved transaction to an event.

use vstd::prelude::*;
use crate::classifier::{
    classification, first_kind, first_recognized, lemma_first_kind, recognized, InstructionKind,
};
use crate::error::EventError;
use crate::filter::{evaluate, is_watched, reported, watches, TargetView, WatchTarget};
use crate::scan::{is_first_match, lemma_first_match};
use crate::signature::{base58_decoded, signature_bytes, TxSignature};
use crate::text::texts;
use crate::transaction::{resolve, resolved, FetchedTransaction, TransactionView};

verus! {

/// One notification of the log subscription: the lines that one transaction
/// logged, in the order it logged them, and the signature of that
/// transaction as text.
#[derive(Clone, Debug, PartialEq, Eq)]
pub struct LogBatch {
    pub signature: String,
    pub lines: Vec<String>,
}

/// The mathematical form of a `LogBatch`.
pub struct BatchView {
    pub signature: Seq<char>,
    pub lines: Seq<Seq<char>>,
}

impl View for LogBatch {
    type V = BatchView;

    open spec fn view(&self) -> BatchView {
        BatchView { signature: self.signature@, lines: texts(self.lines@) }
    }
}

/// A detected instruction, resolved to the address it concerns.
#[derive(Clone, Debug, PartialEq, Eq)]
pub struct Event {
    pub kind: InstructionKind,
    pub signature: TxSignature,
    pub mint_address: Option<String>,
}

/// The mathematical form of an `Event`.
pub struct EventView {
    pub kind: InstructionKind,
    pub signature: Seq<u8>,
    pub mint_address: Option<Seq<char>>,
}

impl View for Event {
    type V = EventView;

    open spec fn view(&self) -> EventView {
        EventView {
            kind: self.kind,
            signature: self.signature@,
            mint_address: match self.mint_address {
                Some(address) => Some(address@),
                None => None,
            },
        }
    }
}

/// What to do with a batch before anything is fetched.
#[derive(Clone, Copy, Debug, PartialEq, Eq)]
pub enum BatchPlan {
    /// The batch holds no instruction that the target watches.
    Skip,
    /// The batch holds a watched instruction and cannot be resolved.
    Drop(EventError),
    /// The transaction behind the batch is to be fetched.
    Resolve { kind: InstructionKind, signature: TxSignature },
}

/// The mathematical form of a `BatchPlan`.
pub enum PlanView {
    Skip,
    Drop(EventError),
    Resolve { kind: InstructionKind, signature: Seq<u8> },
}

impl View for BatchPlan {
    type V = PlanView;

    open spec fn view(&self) -> PlanView {
        match self {
            BatchPlan::Skip => PlanView::Skip,
            BatchPlan::Drop(error) => PlanView::Drop(*error),
            BatchPlan::Resolve { kind, signature } => PlanView::Resolve {
                kind: *kind,
                signature: signature@,
            },
        }
    }
}

/// The outcome of a signature decoding, as the signature's bytes or the
/// error.
pub open spec fn decoding(signature: Result<TxSignature, EventError>) -> Result<Seq<u8>, EventError> {
    match signature {
        Ok(signature) => Ok(signature@),
        Err(error) => Err(error),
    }
}

/// The outcome of decoding a signature text.
pub open spec fn decoded_signature(text: Seq<char>) -> Result<Seq<u8>, EventError> {
    match signature_bytes(base58_decoded(text)) {
        Some(bytes) => Ok(bytes),
        None => Err(EventError::InvalidSignature),
    }
}

/// The plan for a batch whose first recognized kind is `kind` and whose
/// signature decoded as given.
///
/// A kind that the target does not watch is skipped, `Other` among them. A
/// watched kind is resolved where the signature is valid and dropped where it
/// is not, so that nothing is fetched for an invalid signature.
pub open spec fn planned(
    target: TargetView,
    kind: InstructionKind,
    signature: Result<Seq<u8>, EventError>,
) -> PlanView {
    if !watches(target, kind) {
        PlanView::Skip
    } else {
        match signature {
            Ok(signature) => PlanView::Resolve { kind, signature },
            Err(error) => PlanView::Drop(error),
        }
    }
}

/// The plan for a batch.
pub open spec fn batch_plan(target: TargetView, batch: BatchView) -> PlanView {
    planned(target, first_kind(batch.lines), decoded_signature(batch.signature))
}

/// Plans the handling of a batch from its first recognized kind and the
/// outcome of decoding its signature.
pub fn plan(
    target: &WatchTarget,
    kind: InstructionKind,
    signature: Result<TxSignature, EventError>,
) -> (plan: BatchPlan)
    ensures
        plan@ == planned(target@, kind, decoding(signature)),
{
    if !is_watched(target, kind) {
        BatchPlan::Skip
    } else {
        match signature {
            Ok(signature) => BatchPlan::Resolve { kind, signature },
            Err(error) => BatchPlan::Drop(error),
        }
    }
}

/// Plans the handling of a batch: scans its lines up to the first recognized
/// one and, where the target watches that kind, decodes the signature.
pub fn plan_batch(target: &WatchTarget, batch: &LogBatch) -> (plan: BatchPlan)
    ensures
        plan@ == batch_plan(target@, batch@),
{
    let kind = first_recognized(&batch.lines);
    if !is_watched(target, kind) {
        BatchPlan::Skip
    } else {
        plan(target, kind, TxSignature::decode(batch.signature.as_str()))
    }
}

/// How the handling of a batch ended once its transaction was asked for.
#[derive(Clone, Debug, PartialEq, Eq)]
pub enum Settlement {
    /// The transaction could not be had or read.
    Dropped(EventError),
    /// The transaction reports nothing for the target.
    FilteredOut,
    /// The transaction reports an address.
    Detected(Event),
}

/// The mathematical form of a `Settlement`.
pub enum SettlementView {
    Dropped(EventError),
    FilteredOut,
    Detected(EventView),
}

impl View for Settlement {
    type V = SettlementView;

    open spec fn view(&self) -> SettlementView {
        match self {
            Settlement::Dropped(error) => SettlementView::Dropped(*error),
            Settlement::FilteredOut => SettlementView::FilteredOut,
            Settlement::Detected(event) => SettlementView::Detected(event@),
        }
    }
}

/// How a batch of the given kind and signature ends on what was fetched for
/// it: filtered out where the target does not watch the kind, dropped where
/// the transaction cannot be resolved, filtered out where its account keys
/// report nothing for the target, and detected, with the reported address,
/// otherwise.
pub open spec fn settled(
    target: TargetView,
    kind: InstructionKind,
    signature: Seq<u8>,
    fetched: TransactionView,
) -> SettlementView {
    if !watches(target, kind) {
        SettlementView::FilteredOut
    } else {
        match resolved(fetched) {
            Err(error) => SettlementView::Dropped(error),
            Ok(keys) => match reported(keys, target) {
                Some(address) => SettlementView::Detected(
                    EventView { kind, signature, mint_address: Some(address) },
                ),
                None => SettlementView::FilteredOut,
            },
        }
    }
}

/// Settles a planned batch on what the transaction query returned.
pub fn settle(
    target: &WatchTarget,
    kind: InstructionKind,
    signature: TxSignature,
    fetched: FetchedTransaction,
) -> (settlement: Settlement)
    ensures
        settlement@ == settled(target@, kind, signature@, fetched@),
{
    if !is_watched(target, kind) {
        return Settlement::FilteredOut;
    }
    match resolve(fetched) {
        Err(error) => Settlement::Dropped(error),
        Ok(keys) => match evaluate(&keys, target) {
            Some(address) => Settlement::Detected(
                Event { kind, signature, mint_address: Some(address) },
            ),
            None => Settlement::FilteredOut,
        },
    }
}

/// Every event that a settlement detects is of a kind that the target
/// watches, one of create, buy and sell, and carries the address that the
/// account keys report.
pub proof fn lemma_detected_events_are_watched(
    target: TargetView,
    kind: InstructionKind,
    signature: Seq<u8>,
    fetched: TransactionView,
)
    ensures
        settled(target, kind, signature, fetched) matches SettlementView::Detected(event) ==> {
            &&& event.kind == kind
            &&& watches(target, kind)
            &&& kind != InstructionKind::Other
            &&& event.signature == signature
            &&& resolved(fetched) matches Ok(keys)
            &&& event.mint_address == reported(keys, target)
            &&& event.mint_address is Some
        },
{
}

/// The event that a batch gives rise to, if any, given what is fetched for
/// it.
pub open spec fn batch_event(
    target: TargetView,
    batch: BatchView,
    fetched: TransactionView,
) -> Option<EventView> {
    match batch_plan(target, batch) {
        PlanView::Resolve { kind, signature } => match settled(target, kind, signature, fetched) {
            SettlementView::Detected(event) => Some(event),
            _ => None,
        },
        _ => None,
    }
}

/// First match wins: the event of a batch, where there is one, has the kind
/// of the first recognized line of the batch, which the target watches, the
/// signature that the text of the batch stands for, and the address that the
/// account keys of the fetched transaction report.
pub proof fn lemma_event_kind_is_first_match(
    target: TargetView,
    batch: BatchView,
    fetched: TransactionView,
)
    ensures
        batch_event(target, batch, fetched) matches Some(event) ==> {
            &&& event.kind == first_kind(batch.lines)
            &&& event.kind != InstructionKind::Other
            &&& watches(target, event.kind)
            &&& exists|index: int|
                is_first_match(batch.lines, recognized(), index) && event.kind == classification(
                    batch.lines[index],
                )
            &&& decoded_signature(batch.signature) == Ok::<Seq<u8>, EventError>(event.signature)
            &&& resolved(fetched) matches Ok(keys)
            &&& event.mint_address == reported(keys, target)
            &&& event.mint_address is Some
        },
{
    lemma_first_kind(batch.lines);
    lemma_first_match(batch.lines, recognized());
}

/// Lines after the first recognized one are not looked at: two batches with
/// the same signature that agree up to and including the first recognized
/// line give the same event, whatever follows that line in either.
pub proof fn lemma_lines_after_first_match_have_no_say(
    target: TargetView,
    batch: BatchView,
    other: BatchView,
    fetched: TransactionView,
    index: int,
)
    requires
        is_first_match(batch.lines, recognized(), index),
        other.signature == batch.signature,
        other.lines.len() > index,
        other.lines.subrange(0, index + 1) == batch.lines.subrange(0, index + 1),
    ensures
        batch_plan(target, other) == batch_plan(target, batch),
        batch_event(target, other, fetched) == batch_event(target, batch, fetched),
{
    assert forall|j: int| 0 <= j <= index implies other.lines[j] == batch.lines[j] by {
        assert(other.lines.subrange(0, index + 1)[j] == batch.lines.subrange(0, index + 1)[j]);
    }
    assert(is_first_match(other.lines, recognized(), index));
    lemma_first_kind(batch.lines);
    lemma_first_kind(other.lines);
}

} // verus!
