//! The per-request decision pipeline.
//!
//! One request passes through the states of [`PipelineState`] in order: the
//! re-entrancy guard is consulted first, then the should-this-request-be-
//! checked hook, then identifier extraction, then the store increment, and
//! the pipeline settles on exactly one [`Decision`]. The host performs each
//! queried step (reading the guard, evaluating hooks, calling the store) and
//! feeds the answer back as a [`PipelineEvent`]; [`RateLimit::step`] is the
//! transition function, and the store is consulted only by the host and only
//! in the [`PipelineState::StoreIncrement`] state.

use vstd::prelude::*;
use crate::store::mem_store::spec_incr_n;
use crate::store::mem_store::spec_lookup;
use crate::store::mem_store::lemma_n_increments;
use crate::store::mem_store::DateCount;

verus! {

/// What the store increment reported back to the pipeline.
#[derive(Debug, Clone, Copy, PartialEq, Eq, Structural)]
pub enum StoreOutcome {
    /// The post-increment count, and the window's expiry when the store
    /// knows it.
    Counted { count: u64, expire_date: Option<u64> },
    /// The backend failed; the failure is terminal for this request.
    Failed,
}

/// The pipeline's verdict on one request.
#[derive(Debug, Clone, Copy, PartialEq, Eq, Structural)]
pub enum Decision {
    /// Mark the re-entrancy guard and forward to the downstream handler.
    Forward,
    /// Reject with the rate-limit error hook; `until` is the window's expiry
    /// when known.
    RejectRateLimited { until: Option<u64> },
    /// Reject with the store-failure hook.
    RejectStoreError,
}

/// The states a request's evaluation passes through. Each non-terminal state
/// names the one question the host must answer next.
#[derive(Debug, Clone, Copy, PartialEq, Eq, Structural)]
pub enum PipelineState {
    /// Nothing has been asked yet.
    Start,
    /// Awaiting the re-entrancy guard: is the request already marked?
    CheckBypass,
    /// Awaiting the should-this-request-be-checked hook.
    CheckShouldLimit,
    /// Awaiting identifier extraction.
    ExtractIdentifier,
    /// Awaiting the store's post-increment snapshot for the identifier.
    StoreIncrement,
    /// The verdict is settled.
    Terminal(Decision),
}

/// The host's answer to the question a state asks.
#[derive(Debug, Clone, Copy, PartialEq, Eq, Structural)]
pub enum PipelineEvent {
    /// The request arrived.
    Begin,
    /// Whether the re-entrancy guard is already marked on the request.
    BypassMarker { present: bool },
    /// Whether the should-rate-limit hook asks for a check.
    ShouldLimit { check: bool },
    /// The identifier has been extracted: by the configured hook, or, when no
    /// hook is set, by the documented default, which always yields one.
    Identifier,
    /// The store increment's outcome.
    StoreResult { outcome: StoreOutcome },
}

/// The transition function of the pipeline: one state and one event give the
/// next state. An event that does not answer the current state's question
/// changes nothing, and a terminal state absorbs every event.
pub open spec fn spec_step(max: u64, st: PipelineState, ev: PipelineEvent) -> PipelineState {
    match st {
        PipelineState::Start => match ev {
            PipelineEvent::Begin => PipelineState::CheckBypass,
            _ => st,
        },
        PipelineState::CheckBypass => match ev {
            PipelineEvent::BypassMarker { present } => if present {
                PipelineState::Terminal(Decision::Forward)
            } else {
                PipelineState::CheckShouldLimit
            },
            _ => st,
        },
        PipelineState::CheckShouldLimit => match ev {
            PipelineEvent::ShouldLimit { check } => if check {
                PipelineState::ExtractIdentifier
            } else {
                PipelineState::Terminal(Decision::Forward)
            },
            _ => st,
        },
        PipelineState::ExtractIdentifier => match ev {
            PipelineEvent::Identifier => PipelineState::StoreIncrement,
            _ => st,
        },
        PipelineState::StoreIncrement => match ev {
            PipelineEvent::StoreResult { outcome } => match outcome {
                StoreOutcome::Counted { count, expire_date } => if count > max {
                    PipelineState::Terminal(Decision::RejectRateLimited { until: expire_date })
                } else {
                    PipelineState::Terminal(Decision::Forward)
                },
                StoreOutcome::Failed => PipelineState::Terminal(Decision::RejectStoreError),
            },
            _ => st,
        },
        PipelineState::Terminal(_) => st,
    }
}

/// The rate limiter's configuration: the highest count still forwarded.
#[derive(Debug, Clone, Copy, PartialEq, Eq, Structural)]
pub struct RateLimit {
    pub max: u64,
}

impl RateLimit {
    /// A limiter that forwards a request while its window's count stays at or
    /// under `max`.
    pub fn new(max: u64) -> (r: Self)
        ensures
            r.max == max,
    {
        RateLimit { max }
    }

    /// The state a request's evaluation begins in.
    pub fn start() -> (r: PipelineState)
        ensures
            r == PipelineState::Start,
    {
        PipelineState::Start
    }

    /// Advance the pipeline by one answered question.
    pub fn step(&self, st: PipelineState, ev: PipelineEvent) -> (r: PipelineState)
        ensures
            r == spec_step(self.max, st, ev),
    {
        match st {
            PipelineState::Start => match ev {
                PipelineEvent::Begin => PipelineState::CheckBypass,
                _ => st,
            },
            PipelineState::CheckBypass => match ev {
                PipelineEvent::BypassMarker { present } => if present {
                    PipelineState::Terminal(Decision::Forward)
                } else {
                    PipelineState::CheckShouldLimit
                },
                _ => st,
            },
            PipelineState::CheckShouldLimit => match ev {
                PipelineEvent::ShouldLimit { check } => if check {
                    PipelineState::ExtractIdentifier
                } else {
                    PipelineState::Terminal(Decision::Forward)
                },
                _ => st,
            },
            PipelineState::ExtractIdentifier => match ev {
                PipelineEvent::Identifier => PipelineState::StoreIncrement,
                _ => st,
            },
            PipelineState::StoreIncrement => match ev {
                PipelineEvent::StoreResult { outcome } => match outcome {
                    StoreOutcome::Counted { count, expire_date } => if count > self.max {
                        PipelineState::Terminal(Decision::RejectRateLimited { until: expire_date })
                    } else {
                        PipelineState::Terminal(Decision::Forward)
                    },
                    StoreOutcome::Failed => PipelineState::Terminal(Decision::RejectStoreError),
                },
                _ => st,
            },
            PipelineState::Terminal(_) => st,
        }
    }
}

/// Whether, starting from `st` and answering with `evs` in order, the
/// evaluation ever stands in the state that consults the store.
pub open spec fn spec_visits_increment(max: u64, st: PipelineState, evs: Seq<PipelineEvent>) -> bool
    decreases evs.len(),
{
    st == PipelineState::StoreIncrement || (evs.len() > 0 && spec_visits_increment(
        max,
        spec_step(max, st, evs[0]),
        evs.drop_first(),
    ))
}

/// A settled verdict absorbs every further event, so the store is never
/// consulted past it.
proof fn lemma_terminal_absorbs(max: u64, d: Decision, evs: Seq<PipelineEvent>)
    ensures
        !spec_visits_increment(max, PipelineState::Terminal(d), evs),
    decreases evs.len(),
{
    if evs.len() > 0 {
        lemma_terminal_absorbs(max, d, evs.drop_first());
    }
}

/// A request that already carries the re-entrancy guard's marker is forwarded
/// at once: whatever events follow, the pipeline never again stands in the
/// state that consults the store, so the request is counted at most once.
pub proof fn lemma_bypass_never_counts(max: u64, evs: Seq<PipelineEvent>)
    ensures
        spec_step(
            max,
            PipelineState::CheckBypass,
            PipelineEvent::BypassMarker { present: true },
        ) == PipelineState::Terminal(Decision::Forward),
        !spec_visits_increment(
            max,
            spec_step(max, PipelineState::CheckBypass, PipelineEvent::BypassMarker { present: true }),
            evs,
        ),
{
    lemma_terminal_absorbs(max, Decision::Forward, evs);
}

/// A request that is to be checked is counted: once the should-rate-limit
/// hook asks for a check, the evaluation passes through identifier extraction
/// (the documented default identifier stands in when no hook is set, so
/// extraction always yields one) and reaches the state that consults the
/// store.
pub proof fn lemma_checked_request_reaches_store(max: u64)
    ensures
        spec_step(
            max,
            PipelineState::CheckShouldLimit,
            PipelineEvent::ShouldLimit { check: true },
        ) == PipelineState::ExtractIdentifier,
        spec_step(max, PipelineState::ExtractIdentifier, PipelineEvent::Identifier)
            == PipelineState::StoreIncrement,
{
}

/// The threshold is inclusive: with `max` = N, a request whose post-increment
/// count is N is still forwarded, and one whose count is N + 1 is rejected
/// with the window's expiry.
pub proof fn lemma_threshold_boundary(max: u64, expire_date: Option<u64>)
    requires
        max < u64::MAX,
    ensures
        spec_step(
            max,
            PipelineState::StoreIncrement,
            PipelineEvent::StoreResult {
                outcome: StoreOutcome::Counted { count: max, expire_date },
            },
        ) == PipelineState::Terminal(Decision::Forward),
        spec_step(
            max,
            PipelineState::StoreIncrement,
            PipelineEvent::StoreResult {
                outcome: StoreOutcome::Counted { count: (max + 1) as u64, expire_date },
            },
        ) == PipelineState::Terminal(Decision::RejectRateLimited { until: expire_date }),
{
}

/// Store and pipeline composed: after `n` single increments of an identifier
/// fresh to the in-process store, all within one window, the store holds
/// exactly the count `n`, and a pipeline with threshold `max` forwards the
/// request precisely while `n` stays at or under `max`.
pub proof fn lemma_fresh_identifier_threshold(
    m: Map<Seq<char>, DateCount>,
    ttl: u64,
    k: Seq<char>,
    now: u64,
    max: u64,
    n: nat,
    expire_date: Option<u64>,
)
    requires
        !m.dom().contains(k),
        1 <= n <= u32::MAX,
    ensures
        spec_lookup(spec_incr_n(m, ttl, k, now, n), k) == Some(
            DateCount { create_date: now, count: n as u32 },
        ),
        spec_step(
            max,
            PipelineState::StoreIncrement,
            PipelineEvent::StoreResult {
                outcome: StoreOutcome::Counted { count: n as u64, expire_date },
            },
        ) == (if n as u64 > max {
            PipelineState::Terminal(Decision::RejectRateLimited { until: expire_date })
        } else {
            PipelineState::Terminal(Decision::Forward)
        }),
{
    lemma_n_increments(m, ttl, k, now, n);
}

} // verus!
