//! The shard supervisor: the long-lived retry policy wrapped around one
//! session engine. On an engine failure it decides — from the error class and
//! the force-reconnect policy — whether to resume, to reconnect afresh, to
//! keep reconnecting forever, or to publish the terminal error and stop.
//!
//! The supervisor is a state machine over plain values: the embedding program
//! runs the engine, performs the attempts (with the delays given here) and
//! feeds their outcomes back.

use vstd::prelude::*;

use crate::error::GCError;

verus! {

/// How many resume or reconnect attempts one failure is answered with before
/// the policy gives up (or, under force-reconnect, falls back to endless
/// reconnects).
pub const BOUNDED_ATTEMPTS: u64 = 5;

/// Fixed delay between consecutive attempts, in milliseconds.
pub const RETRY_DELAY_MS: u64 = 3_000;

/// How an engine error is answered.
#[derive(Debug, Clone, Copy, PartialEq, Eq, Structural)]
pub enum RetryCategory {
    /// The session is resumable: try a resume.
    Resume,
    /// Unexpected but not terminal: try a fresh connect with a full identify.
    Reconnect,
    /// Terminal: publish the error and stop the shard permanently.
    Terminal,
    /// Cooperative shutdown: publish the shutdown marker and stop.
    ShutdownStop,
}

/// The retry category of each engine error. A reconnectable close and a
/// missing heartbeat acknowledgement are answered with a resume; a terminal
/// close, an undecodable frame and an internal plumbing failure stop the
/// shard; a shutdown stops it cooperatively; everything else — an unexpected
/// close, transport-level failures — is answered with a fresh reconnect.
pub open spec fn spec_retry_category(e: GCError) -> RetryCategory {
    match e {
        GCError::ReconnectableClose(_) => RetryCategory::Resume,
        GCError::NoHeartbeat => RetryCategory::Resume,
        GCError::UnreconnectableClose(_) => RetryCategory::Terminal,
        GCError::Deserialization(_) => RetryCategory::Terminal,
        GCError::InternalChannelError(_) => RetryCategory::Terminal,
        GCError::Shutdown => RetryCategory::ShutdownStop,
        _ => RetryCategory::Reconnect,
    }
}

/// Classifies an engine error into the category the supervisor acts on.
pub fn classify_engine_error(e: &GCError) -> (r: RetryCategory)
    ensures
        r == spec_retry_category(*e),
{
    match e {
        GCError::ReconnectableClose(_) | GCError::NoHeartbeat => RetryCategory::Resume,
        GCError::UnreconnectableClose(_) | GCError::Deserialization(_)
            | GCError::InternalChannelError(_) => RetryCategory::Terminal,
        GCError::Shutdown => RetryCategory::ShutdownStop,
        _ => RetryCategory::Reconnect,
    }
}

/// Where the supervisor stands in its retry policy.
#[derive(Debug, Clone, Copy, PartialEq, Eq, Structural)]
pub enum SupervisorPhase {
    /// The engine loop is running.
    Running,
    /// A resume attempt is outstanding; this many more may follow it.
    Resuming { attempts_left: u64 },
    /// A fresh-reconnect attempt is outstanding; this many more may follow.
    Reconnecting { attempts_left: u64 },
    /// Bounded retries are exhausted under the force-reconnect policy:
    /// reconnect attempts continue at the same cadence until one succeeds.
    ForceReconnecting,
    /// The shard is permanently down; nothing follows.
    Stopped,
}

/// What the embedding program must do next.
#[derive(Debug, Clone, Copy, PartialEq, Eq, Structural)]
pub enum SupervisorAction {
    /// Run the engine loop (again) on the connection just established.
    RunEngine,
    /// Wait this long, then attempt a resume: open a transport to the
    /// captured resume URL and send the resume frame.
    AttemptResume { delay_ms: u64 },
    /// Wait this long, then attempt a fresh connect: discard the resume
    /// identity, fetch a new entry point, run the full identify flow.
    AttemptReconnect { delay_ms: u64 },
    /// Publish the terminal error on the event stream and stop: the consumer
    /// must treat the stream's end as "this shard is permanently down".
    PublishAndStop,
}

/// One shard's supervisor: the retry phase and the policy flag.
#[derive(Debug, Clone, Copy, PartialEq, Eq, Structural)]
pub struct ShardSupervisor {
    pub phase: SupervisorPhase,
    pub force_reconnect: bool,
}

/// What [`ShardSupervisor::on_engine_error`] does: the first attempt of a
/// retry series is immediate, with the rest of the bounded budget left;
/// terminal categories stop the shard at once, with no attempt.
pub open spec fn spec_on_engine_error(sup: ShardSupervisor, cat: RetryCategory) -> (
    ShardSupervisor,
    SupervisorAction,
) {
    match cat {
        RetryCategory::Resume => (
            ShardSupervisor {
                phase: SupervisorPhase::Resuming { attempts_left: (BOUNDED_ATTEMPTS - 1) as u64 },
                ..sup
            },
            SupervisorAction::AttemptResume { delay_ms: 0 },
        ),
        RetryCategory::Reconnect => (
            ShardSupervisor {
                phase: SupervisorPhase::Reconnecting {
                    attempts_left: (BOUNDED_ATTEMPTS - 1) as u64,
                },
                ..sup
            },
            SupervisorAction::AttemptReconnect { delay_ms: 0 },
        ),
        RetryCategory::Terminal | RetryCategory::ShutdownStop => (
            ShardSupervisor { phase: SupervisorPhase::Stopped, ..sup },
            SupervisorAction::PublishAndStop,
        ),
    }
}

/// What [`ShardSupervisor::on_attempt_outcome`] does: success re-enters the
/// engine loop and ends the retry series; a failure with budget left
/// schedules the next attempt after the fixed delay; an exhausted budget is
/// terminal unless the policy is force-reconnect, which falls back to
/// endless reconnect attempts at the same cadence.
pub open spec fn spec_on_attempt_outcome(sup: ShardSupervisor, success: bool) -> (
    ShardSupervisor,
    SupervisorAction,
) {
    if success {
        (ShardSupervisor { phase: SupervisorPhase::Running, ..sup }, SupervisorAction::RunEngine)
    } else {
        match sup.phase {
            SupervisorPhase::Resuming { attempts_left } => if attempts_left > 0 {
                (
                    ShardSupervisor {
                        phase: SupervisorPhase::Resuming {
                            attempts_left: (attempts_left - 1) as u64,
                        },
                        ..sup
                    },
                    SupervisorAction::AttemptResume { delay_ms: RETRY_DELAY_MS },
                )
            } else if sup.force_reconnect {
                (
                    ShardSupervisor { phase: SupervisorPhase::ForceReconnecting, ..sup },
                    SupervisorAction::AttemptReconnect { delay_ms: RETRY_DELAY_MS },
                )
            } else {
                (
                    ShardSupervisor { phase: SupervisorPhase::Stopped, ..sup },
                    SupervisorAction::PublishAndStop,
                )
            },
            SupervisorPhase::Reconnecting { attempts_left } => if attempts_left > 0 {
                (
                    ShardSupervisor {
                        phase: SupervisorPhase::Reconnecting {
                            attempts_left: (attempts_left - 1) as u64,
                        },
                        ..sup
                    },
                    SupervisorAction::AttemptReconnect { delay_ms: RETRY_DELAY_MS },
                )
            } else if sup.force_reconnect {
                (
                    ShardSupervisor { phase: SupervisorPhase::ForceReconnecting, ..sup },
                    SupervisorAction::AttemptReconnect { delay_ms: RETRY_DELAY_MS },
                )
            } else {
                (
                    ShardSupervisor { phase: SupervisorPhase::Stopped, ..sup },
                    SupervisorAction::PublishAndStop,
                )
            },
            SupervisorPhase::ForceReconnecting => (
                sup,
                SupervisorAction::AttemptReconnect { delay_ms: RETRY_DELAY_MS },
            ),
            _ => (sup, SupervisorAction::PublishAndStop),
        }
    }
}

impl ShardSupervisor {
    /// A supervisor for a freshly started shard, its engine loop running.
    pub fn new(force_reconnect: bool) -> (r: ShardSupervisor)
        ensures
            r.phase is Running,
            r.force_reconnect == force_reconnect,
    {
        ShardSupervisor { phase: SupervisorPhase::Running, force_reconnect }
    }

    /// The engine loop failed: classify the error and enter the retry series
    /// it calls for (or stop). The first attempt of a series is immediate.
    pub fn on_engine_error(&mut self, e: &GCError) -> (r: SupervisorAction)
        requires
            old(self).phase is Running,
        ensures
            (*final(self), r) == spec_on_engine_error(*old(self), spec_retry_category(*e)),
    {
        match classify_engine_error(e) {
            RetryCategory::Resume => {
                self.phase = SupervisorPhase::Resuming { attempts_left: BOUNDED_ATTEMPTS - 1 };
                SupervisorAction::AttemptResume { delay_ms: 0 }
            },
            RetryCategory::Reconnect => {
                self.phase = SupervisorPhase::Reconnecting { attempts_left: BOUNDED_ATTEMPTS - 1 };
                SupervisorAction::AttemptReconnect { delay_ms: 0 }
            },
            RetryCategory::Terminal | RetryCategory::ShutdownStop => {
                self.phase = SupervisorPhase::Stopped;
                SupervisorAction::PublishAndStop
            },
        }
    }

    /// An outstanding resume or reconnect attempt finished: on success the
    /// engine loop runs again and no further attempt of this series occurs;
    /// on failure the series continues, falls back to endless reconnects, or
    /// stops, as the budget and the policy dictate.
    pub fn on_attempt_outcome(&mut self, success: bool) -> (r: SupervisorAction)
        requires
            old(self).phase matches SupervisorPhase::Resuming { .. } || old(
                self,
            ).phase matches SupervisorPhase::Reconnecting { .. } || old(self).phase
                is ForceReconnecting,
        ensures
            (*final(self), r) == spec_on_attempt_outcome(*old(self), success),
    {
        if success {
            self.phase = SupervisorPhase::Running;
            return SupervisorAction::RunEngine;
        }
        match self.phase {
            SupervisorPhase::Resuming { attempts_left } => {
                if attempts_left > 0 {
                    self.phase = SupervisorPhase::Resuming { attempts_left: attempts_left - 1 };
                    SupervisorAction::AttemptResume { delay_ms: RETRY_DELAY_MS }
                } else if self.force_reconnect {
                    self.phase = SupervisorPhase::ForceReconnecting;
                    SupervisorAction::AttemptReconnect { delay_ms: RETRY_DELAY_MS }
                } else {
                    self.phase = SupervisorPhase::Stopped;
                    SupervisorAction::PublishAndStop
                }
            },
            SupervisorPhase::Reconnecting { attempts_left } => {
                if attempts_left > 0 {
                    self.phase = SupervisorPhase::Reconnecting {
                        attempts_left: attempts_left - 1,
                    };
                    SupervisorAction::AttemptReconnect { delay_ms: RETRY_DELAY_MS }
                } else if self.force_reconnect {
                    self.phase = SupervisorPhase::ForceReconnecting;
                    SupervisorAction::AttemptReconnect { delay_ms: RETRY_DELAY_MS }
                } else {
                    self.phase = SupervisorPhase::Stopped;
                    SupervisorAction::PublishAndStop
                }
            },
            SupervisorPhase::ForceReconnecting => SupervisorAction::AttemptReconnect {
                delay_ms: RETRY_DELAY_MS,
            },
            _ => SupervisorAction::PublishAndStop,
        }
    }
}

/// The supervisor after a series of `n` consecutive failed attempts.
pub open spec fn spec_after_failures(sup: ShardSupervisor, n: int) -> ShardSupervisor
    decreases n,
{
    if n <= 0 {
        sup
    } else {
        spec_on_attempt_outcome(spec_after_failures(sup, n - 1), false).0
    }
}

/// A close in the terminal table — code 4004 among them — stops the shard
/// permanently: the engine error it produces is classified terminal, the one
/// supervisor action is to publish the error and end the stream, and the
/// supervisor reaches its absorbing stopped phase, from which no resume or
/// reconnect attempt is ever issued (no transition leaves it).
pub proof fn lemma_unreconnectable_close_stops_shard(
    sup: ShardSupervisor,
    f: crate::error::CloseInfo,
)
    requires
        sup.phase is Running,
        crate::error::spec_unreconnectable_close(f.code),
    ensures
        crate::error::spec_close_bucket(f.code) is Unreconnectable,
        spec_retry_category(GCError::UnreconnectableClose(f)) is Terminal,
        spec_on_engine_error(sup, spec_retry_category(GCError::UnreconnectableClose(f)))
            == (ShardSupervisor { phase: SupervisorPhase::Stopped, ..sup },
        SupervisorAction::PublishAndStop),
{
}

/// A close in the resumable table — code 4000 among them — starts a series
/// of up to five resume attempts: the first immediate, each later one three
/// seconds after the failure before it. If the third attempt succeeds, the
/// engine loop resumes and no further attempt of the series occurs.
pub proof fn lemma_reconnectable_close_resume_schedule(
    sup: ShardSupervisor,
    f: crate::error::CloseInfo,
)
    requires
        sup.phase is Running,
        crate::error::spec_reconnectable_close(f.code),
    ensures
        crate::error::spec_close_bucket(f.code) is Reconnectable,
        ({
            let e = GCError::ReconnectableClose(Some(f));
            let (s1, a1) = spec_on_engine_error(sup, spec_retry_category(e));
            let (s2, a2) = spec_on_attempt_outcome(s1, false);
            let (s3, a3) = spec_on_attempt_outcome(s2, false);
            let (s4, a4) = spec_on_attempt_outcome(s3, true);
            &&& a1 == SupervisorAction::AttemptResume { delay_ms: 0 }
            &&& a2 == SupervisorAction::AttemptResume { delay_ms: RETRY_DELAY_MS }
            &&& a3 == SupervisorAction::AttemptResume { delay_ms: RETRY_DELAY_MS }
            &&& a4 == SupervisorAction::RunEngine
            &&& s4.phase is Running
        }),
{
}

/// The resume series is bounded: while failures continue, the `n`-th step
/// (counting from the immediate first attempt) still schedules a resume with
/// the fixed delay, and without the force-reconnect policy the series stops
/// for good once all five attempts — the first plus the budgeted four — have
/// failed.
pub proof fn lemma_resume_attempts_bounded(sup: ShardSupervisor, e: GCError, n: int)
    requires
        sup.phase is Running,
        spec_retry_category(e) is Resume,
        !sup.force_reconnect,
        0 <= n < BOUNDED_ATTEMPTS - 1,
    ensures
        ({
            let s1 = spec_on_engine_error(sup, spec_retry_category(e)).0;
            &&& s1.phase == (SupervisorPhase::Resuming {
                attempts_left: (BOUNDED_ATTEMPTS - 1) as u64,
            })
            &&& spec_after_failures(s1, n).phase == (SupervisorPhase::Resuming {
                attempts_left: (BOUNDED_ATTEMPTS - 1 - n) as u64,
            })
            &&& spec_on_attempt_outcome(spec_after_failures(s1, n), false).1
                == (SupervisorAction::AttemptResume { delay_ms: RETRY_DELAY_MS })
            &&& spec_after_failures(s1, BOUNDED_ATTEMPTS as int).phase is Stopped
            &&& spec_on_attempt_outcome(spec_after_failures(s1, BOUNDED_ATTEMPTS as int - 1), false).1
                is PublishAndStop
        }),
    decreases n,
{
    let s1 = spec_on_engine_error(sup, spec_retry_category(e)).0;
    lemma_failures_descend(s1, BOUNDED_ATTEMPTS as int - 1, n);
    lemma_failures_descend(s1, BOUNDED_ATTEMPTS as int - 1, BOUNDED_ATTEMPTS as int - 1);
    assert(spec_after_failures(s1, BOUNDED_ATTEMPTS as int) == spec_on_attempt_outcome(
        spec_after_failures(s1, BOUNDED_ATTEMPTS as int - 1),
        false,
    ).0);
}

/// Each failure in a resume series decrements the remaining budget by one.
proof fn lemma_failures_descend(s1: ShardSupervisor, left: int, n: int)
    requires
        0 <= n <= left,
        s1.phase == (SupervisorPhase::Resuming { attempts_left: left as u64 }),
        left <= u64::MAX,
    ensures
        spec_after_failures(s1, n).phase == (SupervisorPhase::Resuming {
            attempts_left: (left - n) as u64,
        }),
        spec_after_failures(s1, n).force_reconnect == s1.force_reconnect,
    decreases n,
{
    if n > 0 {
        lemma_failures_descend(s1, left, n - 1);
    }
}

} // verus!
