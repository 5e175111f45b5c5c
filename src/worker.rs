//! The decisions of the store worker, the single consumer of the ingestion
//! channel. It takes one payload at a time: a document becomes an upsert,
//! a warning or an error becomes a log line. Whatever the store answers,
//! the worker logs it and is ready for the next payload; it never retries.

use vstd::prelude::*;

use crate::channel::{recv_model, IngestChannel, Payload};
use crate::store::{is_request_for, upsert_request, DocCreationAck, ProvideError, UpsertRequest};

verus! {

/// How loudly an outcome is logged.
#[derive(Debug, Clone, Copy, PartialEq, Eq, Structural)]
pub enum Severity {
    Info,
    Warn,
    Error,
}

/// What the worker asks its runner to do with one payload.
#[derive(Debug)]
pub enum WorkerAction {
    /// Send this upsert to the store, then report its outcome with
    /// `SyncWorker::settle`.
    Upsert(UpsertRequest),
    /// Log this text.
    Log(Severity, String),
}

/// Whether the worker may take a payload or waits for the store.
#[derive(Debug, Clone, Copy, PartialEq, Eq, Structural)]
pub enum WorkerPhase {
    Ready,
    Storing,
}

/// `action` is what the worker does with `payload`.
pub open spec fn is_action_for(payload: Payload, action: WorkerAction) -> bool {
    match payload {
        Payload::Doc(doc) => action matches WorkerAction::Upsert(req) && is_request_for(doc, req),
        Payload::Warning(w) => action == WorkerAction::Log(Severity::Warn, w),
        Payload::Error(e) => action == WorkerAction::Log(Severity::Error, e),
    }
}

/// The phase after taking `payload`: a document waits for the store.
pub open spec fn phase_after(payload: Payload) -> WorkerPhase {
    match payload {
        Payload::Doc(_) => WorkerPhase::Storing,
        _ => WorkerPhase::Ready,
    }
}

/// The phase after the store answered, whatever it answered.
pub open spec fn settled_phase(outcome: Result<DocCreationAck, ProvideError>) -> WorkerPhase {
    WorkerPhase::Ready
}

/// How an upsert's outcome is logged.
pub open spec fn severity_of(outcome: Result<DocCreationAck, ProvideError>) -> Severity {
    match outcome {
        Ok(_) => Severity::Info,
        Err(_) => Severity::Error,
    }
}

/// The action for one payload.
pub fn dispatch(payload: Payload) -> (r: WorkerAction)
    ensures
        is_action_for(payload, r),
{
    match payload {
        Payload::Doc(doc) => WorkerAction::Upsert(upsert_request(doc)),
        Payload::Warning(w) => WorkerAction::Log(Severity::Warn, w),
        Payload::Error(e) => WorkerAction::Log(Severity::Error, e),
    }
}

/// The store worker's state.
#[derive(Debug)]
pub struct SyncWorker {
    phase: WorkerPhase,
}

impl SyncWorker {
    pub closed spec fn spec_phase(&self) -> WorkerPhase {
        self.phase
    }

    pub fn new() -> (r: SyncWorker)
        ensures
            r.spec_phase() == WorkerPhase::Ready,
    {
        SyncWorker { phase: WorkerPhase::Ready }
    }

    pub fn phase(&self) -> (r: WorkerPhase)
        ensures
            r == self.spec_phase(),
    {
        self.phase
    }

    /// Takes the oldest payload from the channel and decides what to do with
    /// it; `None` where the channel is empty.
    pub fn take_next(&mut self, channel: &mut IngestChannel<Payload>) -> (r: Option<WorkerAction>)
        requires
            old(self).spec_phase() == WorkerPhase::Ready,
            old(channel).wf(),
        ensures
            final(channel).wf(),
            final(channel).spec_capacity() == old(channel).spec_capacity(),
            match recv_model(old(channel).queued()) {
                None => r is None && final(channel).queued() == old(channel).queued()
                    && final(self).spec_phase() == WorkerPhase::Ready,
                Some((payload, rest)) => r matches Some(action) && is_action_for(payload, action)
                    && final(channel).queued() == rest && final(self).spec_phase() == phase_after(
                    payload,
                ),
            },
    {
        match channel.recv() {
            None => None,
            Some(payload) => {
                let storing = matches!(payload, Payload::Doc(_));
                let action = dispatch(payload);
                if storing {
                    self.phase = WorkerPhase::Storing;
                }
                Some(action)
            },
        }
    }

    /// Takes the store's answer to the pending upsert. A failure is logged
    /// and dropped like a success is logged: either way the worker is ready
    /// for the next payload.
    pub fn settle(&mut self, outcome: &Result<DocCreationAck, ProvideError>) -> (r: Severity)
        requires
            old(self).spec_phase() == WorkerPhase::Storing,
        ensures
            final(self).spec_phase() == settled_phase(*outcome),
            r == severity_of(*outcome),
    {
        self.phase = WorkerPhase::Ready;
        match outcome {
            Ok(_) => Severity::Info,
            Err(_) => Severity::Error,
        }
    }
}

/// A failed upsert does not stall the pipeline: once the store refuses the
/// document taken first, the worker is ready again, and the next payload it
/// takes is the one that followed that document in the channel.
pub proof fn lemma_failed_upsert_does_not_block(queued: Seq<Payload>, failure: ProvideError)
    requires
        queued.len() >= 2,
        queued[0] is Doc,
    ensures
        recv_model(queued) == Some((queued[0], queued.drop_first())),
        phase_after(queued[0]) == WorkerPhase::Storing,
        settled_phase(Err(failure)) == WorkerPhase::Ready,
        recv_model(queued.drop_first()) == Some(
            (queued[1], queued.drop_first().drop_first()),
        ),
{
}

} // verus!
