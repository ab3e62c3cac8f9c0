//! The cross-process print lock: a filesystem artifact whose presence
//! means "a delivery is in progress" and whose age past a timeout means
//! "its holder died without releasing it".
//!
//! The protocol is decided here and carried out by the caller, which owns
//! the filesystem: poll the artifact; when it is absent, create it and
//! proceed; when it is present but stale, remove it and poll again at
//! once; otherwise sleep one interval and poll again. Release removes the
//! artifact unconditionally, on the failure paths too.

use vstd::prelude::*;

verus! {

/// Staleness threshold for the lock artifact, in milliseconds: generous
/// enough for the slowest realistic conversion, short enough to bound how
/// long a crashed holder can block printing.
pub const LOCK_TIMEOUT_MILLIS: u64 = 300 * 1000;

/// How long to sleep between two polls of a validly held lock.
pub const POLL_INTERVAL_MILLIS: u64 = 100;

/// What one poll of the lock artifact tells the process to do.
#[derive(Clone, Copy, Debug, PartialEq, Eq, Structural)]
pub enum LockStep {
    /// The artifact is absent: create it and start the delivery.
    Acquire,
    /// The artifact is stale: remove it and poll again at once.
    RemoveStale,
    /// The artifact is validly held: sleep one interval and poll again.
    Wait,
}

/// The observable state of the lock artifact: whether it exists, and how
/// old its last-modified timestamp is.
#[derive(Clone, Copy, Debug, PartialEq, Eq, Structural)]
pub struct LockArtifact {
    /// Whether the marker file exists.
    pub present: bool,
    /// Age of its last-modified timestamp, in milliseconds.
    pub age_millis: u64,
}

/// The step one poll prescribes.
pub open spec fn poll_step_spec(present: bool, age_millis: u64, timeout_millis: u64) -> LockStep {
    if !present {
        LockStep::Acquire
    } else if age_millis > timeout_millis {
        LockStep::RemoveStale
    } else {
        LockStep::Wait
    }
}

/// What carrying a step out does to the artifact: acquiring creates it
/// fresh, removing a stale one deletes it, waiting changes nothing.
pub open spec fn apply_step_spec(a: LockArtifact, s: LockStep) -> LockArtifact {
    match s {
        LockStep::Acquire => LockArtifact { present: true, age_millis: 0 },
        LockStep::RemoveStale => LockArtifact { present: false, age_millis: 0 },
        LockStep::Wait => a,
    }
}

/// What release does to the artifact: it is deleted, whatever its state.
pub open spec fn release_spec(a: LockArtifact) -> LockArtifact {
    LockArtifact { present: false, age_millis: 0 }
}

/// Decides the step for one poll of the artifact.
pub fn poll_step(present: bool, age_millis: u64, timeout_millis: u64) -> (s: LockStep)
    ensures
        s == poll_step_spec(present, age_millis, timeout_millis),
{
    if !present {
        LockStep::Acquire
    } else if age_millis > timeout_millis {
        LockStep::RemoveStale
    } else {
        LockStep::Wait
    }
}

/// Carries a step out on the artifact model.
pub fn apply_step(a: LockArtifact, s: LockStep) -> (r: LockArtifact)
    ensures
        r == apply_step_spec(a, s),
{
    match s {
        LockStep::Acquire => LockArtifact { present: true, age_millis: 0 },
        LockStep::RemoveStale => LockArtifact { present: false, age_millis: 0 },
        LockStep::Wait => a,
    }
}

/// One poll and its effect in one call: what to do, and the artifact as
/// the step leaves it.
pub fn advance(a: LockArtifact, timeout_millis: u64) -> (r: (LockArtifact, LockStep))
    ensures
        r.1 == poll_step_spec(a.present, a.age_millis, timeout_millis),
        r.0 == apply_step_spec(a, r.1),
{
    let s = poll_step(a.present, a.age_millis, timeout_millis);
    (apply_step(a, s), s)
}

/// Releases the lock: the artifact is deleted unconditionally.
pub fn release(a: LockArtifact) -> (r: LockArtifact)
    ensures
        r == release_spec(a),
{
    LockArtifact { present: false, age_millis: 0 }
}

/// Round trip: acquiring a free lock and then releasing it leaves the
/// artifact absent, and the very next poll after the release acquires
/// again at once, with no wait step in between.
pub proof fn lemma_lock_round_trip(a: LockArtifact, timeout_millis: u64)
    requires
        !a.present,
    ensures
        ({
            let s1 = poll_step_spec(a.present, a.age_millis, timeout_millis);
            let held = apply_step_spec(a, s1);
            let freed = release_spec(held);
            let s2 = poll_step_spec(freed.present, freed.age_millis, timeout_millis);
            s1 is Acquire && held.present && !freed.present && s2 is Acquire
        }),
{
}

/// Staleness recovery: a poll of an artifact older than the timeout
/// removes it, and the very next poll acquires — neither poll waits, so a
/// dead holder delays a new delivery by no poll interval at all.
pub proof fn lemma_stale_recovery(a: LockArtifact, timeout_millis: u64)
    requires
        a.present,
        a.age_millis > timeout_millis,
    ensures
        ({
            let s1 = poll_step_spec(a.present, a.age_millis, timeout_millis);
            let removed = apply_step_spec(a, s1);
            let s2 = poll_step_spec(removed.present, removed.age_millis, timeout_millis);
            let held = apply_step_spec(removed, s2);
            s1 is RemoveStale && !removed.present && s2 is Acquire && held.present
        }),
{
}

/// A validly held lock is left alone: polling neither removes nor
/// recreates the artifact before the holder's own release.
pub proof fn lemma_valid_holder_undisturbed(a: LockArtifact, timeout_millis: u64)
    requires
        a.present,
        a.age_millis <= timeout_millis,
    ensures
        poll_step_spec(a.present, a.age_millis, timeout_millis) is Wait,
        apply_step_spec(a, poll_step_spec(a.present, a.age_millis, timeout_millis)) == a,
{
}

} // verus!
