//! Reporting how the sending of a snapshot ended.

use vstd::prelude::*;

use crate::message::{RaftMessage, ServerError, SnapshotStatus, SnapshotStatusMsg};
use crate::metrics::{Counter, FailureKind};

verus! {

/// The snapshot worker has stopped and takes no more tasks.
#[derive(Clone, Copy, Debug, PartialEq, Eq, Structural)]
pub struct Stopped;

/// One step of a report.
#[derive(Clone, Copy, Debug, PartialEq, Eq, Structural)]
pub enum ReportEffect {
    /// Bump a counter.
    Count(Counter),
    /// Tell the local store how the snapshot ended.
    SendStatus(SnapshotStatusMsg),
}

/// Knows whom a snapshot was for, and reports how sending it ended.
#[derive(Clone, Copy, Debug, PartialEq, Eq, Structural)]
pub struct SnapshotReporter {
    pub region_id: u64,
    pub to_peer_id: u64,
    pub to_store_id: u64,
}

impl SnapshotReporter {
    /// The reporter of a message's snapshot.
    pub open spec fn of<B>(msg: RaftMessage<B>) -> SnapshotReporter {
        SnapshotReporter {
            region_id: msg.region_id,
            to_peer_id: msg.to_peer.id,
            to_store_id: msg.to_peer.store_id,
        }
    }

    /// What the local store is told when the snapshot ended with `status`.
    pub open spec fn status_msg(self, status: SnapshotStatus) -> SnapshotStatusMsg {
        SnapshotStatusMsg { region_id: self.region_id, to_peer_id: self.to_peer_id, status }
    }

    /// A report of `status`: the local store is told, and a failure is counted before that.
    pub open spec fn report_effects(self, status: SnapshotStatus) -> Seq<ReportEffect> {
        let told = seq![ReportEffect::SendStatus(self.status_msg(status))];
        match status {
            SnapshotStatus::Finish => told,
            SnapshotStatus::Failure => seq![
                ReportEffect::Count(
                    Counter::ReportFailure {
                        kind: FailureKind::Snapshot,
                        store_id: self.to_store_id,
                    },
                ),
            ] + told,
        }
    }

    /// What is done when the snapshot worker is done with the snapshot.
    pub open spec fn finished_effects(self, result: Result<(), ServerError>) -> Seq<
        ReportEffect,
    > {
        match result {
            Ok(()) => self.report_effects(SnapshotStatus::Finish),
            Err(_) => self.report_effects(SnapshotStatus::Failure),
        }
    }

    /// What is done when the snapshot worker has answered the request to send the snapshot.
    pub open spec fn scheduled_effects(self, answer: Result<(), Stopped>) -> Seq<ReportEffect> {
        match answer {
            Ok(()) => Seq::empty(),
            Err(_) => self.report_effects(SnapshotStatus::Failure),
        }
    }

    /// Reports that sending the snapshot ended with `status`.
    pub fn report(&self, status: SnapshotStatus) -> (effects: Vec<ReportEffect>)
        ensures
            effects@ == self.report_effects(status),
            status == SnapshotStatus::Finish ==> effects@.len() == 1,
            status == SnapshotStatus::Failure ==> effects@.len() == 2 && effects@[0]
                == ReportEffect::Count(
                Counter::ReportFailure {
                    kind: FailureKind::Snapshot,
                    store_id: self.to_store_id,
                },
            ),
            effects@.last() matches ReportEffect::SendStatus(told) && told.region_id
                == self.region_id && told.to_peer_id == self.to_peer_id && told.status
                == status,
    {
        let mut effects: Vec<ReportEffect> = Vec::new();
        if status == SnapshotStatus::Failure {
            effects.push(
                ReportEffect::Count(
                    Counter::ReportFailure {
                        kind: FailureKind::Snapshot,
                        store_id: self.to_store_id,
                    },
                ),
            );
        }
        effects.push(
            ReportEffect::SendStatus(
                SnapshotStatusMsg {
                    region_id: self.region_id,
                    to_peer_id: self.to_peer_id,
                    status,
                },
            ),
        );
        effects
    }

    /// The snapshot worker is done with the snapshot.
    pub fn finished(&self, result: Result<(), ServerError>) -> (effects: Vec<ReportEffect>)
        ensures
            effects@ == self.finished_effects(result),
            result is Ok ==> effects@.len() == 1,
            result is Err ==> effects@.len() == 2 && effects@[0] == ReportEffect::Count(
                Counter::ReportFailure {
                    kind: FailureKind::Snapshot,
                    store_id: self.to_store_id,
                },
            ),
            effects@.last() matches ReportEffect::SendStatus(told) && told.region_id
                == self.region_id && told.to_peer_id == self.to_peer_id && told.status
                == (if result is Ok {
                SnapshotStatus::Finish
            } else {
                SnapshotStatus::Failure
            }),
    {
        match result {
            Ok(()) => self.report(SnapshotStatus::Finish),
            Err(_) => self.report(SnapshotStatus::Failure),
        }
    }

    /// The snapshot worker has answered the request to send the snapshot. One that took it
    /// reports later, through [`SnapshotReporter::finished`]; one that has stopped never
    /// will, so the failure is reported at once.
    pub fn scheduled(&self, answer: Result<(), Stopped>) -> (effects: Vec<ReportEffect>)
        ensures
            effects@ == self.scheduled_effects(answer),
            answer is Ok ==> effects@.len() == 0,
            answer is Err ==> effects@.len() == 2 && effects@[0] == ReportEffect::Count(
                Counter::ReportFailure {
                    kind: FailureKind::Snapshot,
                    store_id: self.to_store_id,
                },
            ),
            answer is Err ==> (effects@.last() matches ReportEffect::SendStatus(told)
                && told.region_id == self.region_id && told.to_peer_id == self.to_peer_id
                && told.status == SnapshotStatus::Failure),
    {
        match answer {
            Ok(()) => Vec::new(),
            Err(Stopped) => {
                let reason = "failed to schedule snapshot".to_owned();
                self.finished(Err(ServerError { reason }))
            },
        }
    }
}

} // verus!
