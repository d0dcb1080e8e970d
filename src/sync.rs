//! Blockchain tasks submitted to a syncer and the events it reports back.
use vstd::prelude::*;

use crate::bytes::{copy_range, slices_eq};
use crate::service::ServiceId;

verus! {

/// An abstract unit of blockchain work. Each carries a caller-assigned `id`.
#[derive(Clone, Debug, PartialEq, Eq, Hash)]
pub enum Task {
    Abort { id: u32, target: u32 },
    WatchHeight { id: u32, lifetime: u64 },
    WatchAddress { id: u32, lifetime: u64, script: Vec<u8>, from_height: u64 },
    WatchTransaction { id: u32, lifetime: u64, hash: Vec<u8>, confirmations_required: u32 },
    BroadcastTransaction { id: u32, tx: Vec<u8> },
    SweepAddress { id: u32, lifetime: u64, source_secret: Vec<u8>, destination: Vec<u8> },
    GetTx { id: u32, hash: Vec<u8> },
}

/// What a task is, with its byte strings as sequences.
pub enum TaskView {
    Abort { id: u32, target: u32 },
    WatchHeight { id: u32, lifetime: u64 },
    WatchAddress { id: u32, lifetime: u64, script: Seq<u8>, from_height: u64 },
    WatchTransaction { id: u32, lifetime: u64, hash: Seq<u8>, confirmations_required: u32 },
    BroadcastTransaction { id: u32, tx: Seq<u8> },
    SweepAddress { id: u32, lifetime: u64, source_secret: Seq<u8>, destination: Seq<u8> },
    GetTx { id: u32, hash: Seq<u8> },
}

impl View for Task {
    type V = TaskView;

    open spec fn view(&self) -> TaskView {
        match self {
            Task::Abort { id, target } => TaskView::Abort { id: *id, target: *target },
            Task::WatchHeight { id, lifetime } => TaskView::WatchHeight {
                id: *id,
                lifetime: *lifetime,
            },
            Task::WatchAddress { id, lifetime, script, from_height } => TaskView::WatchAddress {
                id: *id,
                lifetime: *lifetime,
                script: script@,
                from_height: *from_height,
            },
            Task::WatchTransaction { id, lifetime, hash, confirmations_required } =>
                TaskView::WatchTransaction {
                id: *id,
                lifetime: *lifetime,
                hash: hash@,
                confirmations_required: *confirmations_required,
            },
            Task::BroadcastTransaction { id, tx } => TaskView::BroadcastTransaction {
                id: *id,
                tx: tx@,
            },
            Task::SweepAddress { id, lifetime, source_secret, destination } =>
                TaskView::SweepAddress {
                id: *id,
                lifetime: *lifetime,
                source_secret: source_secret@,
                destination: destination@,
            },
            Task::GetTx { id, hash } => TaskView::GetTx { id: *id, hash: hash@ },
        }
    }
}

/// A fresh copy of a byte string.
pub fn copy_bytes(b: &Vec<u8>) -> (r: Vec<u8>)
    ensures
        r@ == b@,
{
    let r = copy_range(b.as_slice(), 0, b.len());
    assert(r@ =~= b@);
    r
}

impl Task {
    /// A copy of the task with the same contents.
    pub fn copy(&self) -> (r: Task)
        ensures
            r@ == self@,
    {
        match self {
            Task::Abort { id, target } => Task::Abort { id: *id, target: *target },
            Task::WatchHeight { id, lifetime } => Task::WatchHeight { id: *id, lifetime: *lifetime },
            Task::WatchAddress { id, lifetime, script, from_height } => Task::WatchAddress {
                id: *id,
                lifetime: *lifetime,
                script: copy_bytes(script),
                from_height: *from_height,
            },
            Task::WatchTransaction { id, lifetime, hash, confirmations_required } =>
                Task::WatchTransaction {
                id: *id,
                lifetime: *lifetime,
                hash: copy_bytes(hash),
                confirmations_required: *confirmations_required,
            },
            Task::BroadcastTransaction { id, tx } => Task::BroadcastTransaction {
                id: *id,
                tx: copy_bytes(tx),
            },
            Task::SweepAddress { id, lifetime, source_secret, destination } => Task::SweepAddress {
                id: *id,
                lifetime: *lifetime,
                source_secret: copy_bytes(source_secret),
                destination: copy_bytes(destination),
            },
            Task::GetTx { id, hash } => Task::GetTx { id: *id, hash: copy_bytes(hash) },
        }
    }

    /// Structural comparison of two tasks.
    pub fn same_as(&self, o: &Task) -> (r: bool)
        ensures
            r == (self@ == o@),
    {
        match (self, o) {
            (Task::Abort { id: a, target: t }, Task::Abort { id: b, target: u }) => *a == *b && *t
                == *u,
            (Task::WatchHeight { id: a, lifetime: l }, Task::WatchHeight { id: b, lifetime: m }) =>
                *a == *b && *l == *m,
            (
                Task::WatchAddress { id: a, lifetime: l, script: s, from_height: h },
                Task::WatchAddress { id: b, lifetime: m, script: t, from_height: k },
            ) => *a == *b && *l == *m && *h == *k && slices_eq(s.as_slice(), t.as_slice()),
            (
                Task::WatchTransaction { id: a, lifetime: l, hash: s, confirmations_required: c },
                Task::WatchTransaction { id: b, lifetime: m, hash: t, confirmations_required: d },
            ) => *a == *b && *l == *m && *c == *d && slices_eq(s.as_slice(), t.as_slice()),
            (
                Task::BroadcastTransaction { id: a, tx: s },
                Task::BroadcastTransaction { id: b, tx: t },
            ) => *a == *b && slices_eq(s.as_slice(), t.as_slice()),
            (
                Task::SweepAddress { id: a, lifetime: l, source_secret: s, destination: d },
                Task::SweepAddress { id: b, lifetime: m, source_secret: t, destination: e },
            ) => *a == *b && *l == *m && slices_eq(s.as_slice(), t.as_slice()) && slices_eq(
                d.as_slice(),
                e.as_slice(),
            ),
            (Task::GetTx { id: a, hash: s }, Task::GetTx { id: b, hash: t }) => *a == *b
                && slices_eq(s.as_slice(), t.as_slice()),
            _ => false,
        }
    }
}

/// A task together with the service that submitted it.
#[derive(Clone, Debug, PartialEq, Eq, Hash)]
pub struct SyncerdTask {
    pub task: Task,
    pub source: ServiceId,
}

impl View for SyncerdTask {
    type V = (TaskView, ServiceId);

    open spec fn view(&self) -> (TaskView, ServiceId) {
        (self.task@, self.source)
    }
}

impl SyncerdTask {
    /// A copy with the same task and source.
    pub fn copy(&self) -> (r: SyncerdTask)
        ensures
            r@ == self@,
    {
        SyncerdTask { task: self.task.copy(), source: self.source }
    }

    /// Structural comparison of two submitted tasks.
    pub fn same_as(&self, o: &SyncerdTask) -> (r: bool)
        ensures
            r == (self@ == o@),
    {
        self.source == o.source && self.task.same_as(&o.task)
    }
}

/// What a syncer reports about a task.
#[derive(Clone, Debug, PartialEq, Eq)]
#[allow(inconsistent_fields)]
pub enum Event {
    HeightChanged { id: u32, block: Vec<u8>, height: u64 },
    AddressTransaction { id: u32, hash: Vec<u8>, amount: u64, block: Vec<u8>, tx: Vec<u8> },
    TransactionConfirmations { id: u32, block: Vec<u8>, confirmations: Option<u32> },
    TransactionBroadcasted { id: u32, tx: Vec<u8>, error: Option<String> },
    SweepSuccess { id: u32, txids: Vec<Vec<u8>> },
    TaskAborted { id: Vec<u32>, error: Option<String> },
    Failure { id: u32, error: String },
}

/// An event on its way from a synclet to the service whose task produced it.
#[derive(Clone, Debug, PartialEq, Eq)]
pub struct BridgeEvent {
    pub event: Event,
    pub source: ServiceId,
}

/// Messages of the Sync family.
#[derive(Clone, Debug, PartialEq, Eq)]
pub enum SyncMsg {
    Task(Task),
    Event(Event),
    BridgeEvent(BridgeEvent),
}

} // verus!
