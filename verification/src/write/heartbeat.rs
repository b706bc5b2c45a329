//! The heartbeat of a pending write: a file that its writer keeps fresh while it is alive.
use vstd::prelude::*;

use crate::time;
use crate::time::{
    millis_between, saturating_difference, saturating_product, Duration, Timestamp,
};

verus! {

/// The heartbeat file of an instant, relative to the table's base path.
pub open spec fn heartbeat_file(instant: Seq<char>) -> Seq<char> {
    ".hoodie/.heartbeat/"@ + instant
}

/// The heartbeat file of an instant, relative to the table's base path.
pub fn heartbeat_path(instant: &str) -> (r: String)
    ensures
        r@ == heartbeat_file(instant@),
{
    ".hoodie/.heartbeat/".to_owned().concat(instant)
}

/// Different instants have different heartbeat files.
pub proof fn law_heartbeat_files_differ(first: Seq<char>, second: Seq<char>)
    ensures
        heartbeat_file(first) == heartbeat_file(second) <==> first == second,
{
    let prefix = ".hoodie/.heartbeat/"@;
    assert(heartbeat_file(first).skip(prefix.len() as int) =~= first);
    assert(heartbeat_file(second).skip(prefix.len() as int) =~= second);
}

/// What a writer knows of its own heartbeat.
#[derive(Clone, Copy, Debug)]
pub struct WriterHeartbeat {
    stopped: bool,
    expired: bool,
    last_success_ms: i64,
    tolerance_ms: i64,
}

/// What a writer knows of its own heartbeat, by values.
pub struct HeartbeatModel {
    /// The heartbeat is to be refreshed no more.
    pub stopped: bool,
    /// The heartbeat was missed for too long.
    pub expired: bool,
    /// When the heartbeat was last refreshed, in milliseconds.
    pub last_success_ms: i64,
    /// How long the heartbeat may go without a refresh, in milliseconds.
    pub tolerance_ms: i64,
}

impl View for WriterHeartbeat {
    type V = HeartbeatModel;

    closed spec fn view(&self) -> HeartbeatModel {
        HeartbeatModel {
            stopped: self.stopped,
            expired: self.expired,
            last_success_ms: self.last_success_ms,
            tolerance_ms: self.tolerance_ms,
        }
    }
}

/// How long a heartbeat may go without a refresh, in milliseconds.
pub open spec fn tolerance(interval: Duration, tolerable_misses: usize) -> i64 {
    time::clamped(
        time::clamped(interval.millis() as int) * time::clamped(tolerable_misses as int),
    )
}

/// A heartbeat that was written at `now`.
pub open spec fn started(interval: Duration, tolerable_misses: usize, now: i64) -> HeartbeatModel {
    HeartbeatModel {
        stopped: false,
        expired: false,
        last_success_ms: now,
        tolerance_ms: tolerance(interval, tolerable_misses),
    }
}

/// At `now` the last refresh is longer ago than is tolerated.
pub open spec fn overdue(heartbeat: HeartbeatModel, now: i64) -> bool {
    time::clamped(now - heartbeat.last_success_ms) > heartbeat.tolerance_ms
}

/// The writer counts as dead at `now`, by its own heartbeat.
pub open spec fn dead_at(heartbeat: HeartbeatModel, now: i64) -> bool {
    heartbeat.expired || overdue(heartbeat, now)
}

/// The heartbeat after an attempt to refresh it that was over at `now`.
pub open spec fn after_beat(heartbeat: HeartbeatModel, refreshed: bool, now: i64) -> HeartbeatModel {
    if refreshed {
        HeartbeatModel { last_success_ms: now, ..heartbeat }
    } else if overdue(heartbeat, now) {
        HeartbeatModel { expired: true, ..heartbeat }
    } else {
        heartbeat
    }
}

/// The heartbeat file as found in storage is too old at `now`, or there is none.
pub open spec fn stale_in_storage(
    last_modified: Option<Timestamp>,
    now: Timestamp,
    tolerance_ms: i64,
) -> bool {
    match last_modified {
        Some(written) => time::toward_zero_millis(time::nanos_between(written, now)) > tolerance_ms,
        None => true,
    }
}

impl WriterHeartbeat {
    /// A heartbeat that was written at `now`.
    pub fn start_at(interval: Duration, tolerable_misses: usize, now: i64) -> (r: Self)
        ensures
            r@ == started(interval, tolerable_misses, now),
    {
        let misses: i64 = if tolerable_misses as u128 <= i64::MAX as u128 {
            tolerable_misses as i64
        } else {
            i64::MAX
        };
        WriterHeartbeat {
            stopped: false,
            expired: false,
            last_success_ms: now,
            tolerance_ms: saturating_product(interval.millis_i64(), misses),
        }
    }

    /// A heartbeat that was just written.
    pub fn start(interval: Duration, tolerable_misses: usize) -> (r: Self)
        ensures
            exists|now: i64| #[trigger]
                time::is_clock_millis(now) && r@ == started(interval, tolerable_misses, now),
    {
        let now: i64 = time::now_ms();
        Self::start_at(interval, tolerable_misses, now)
    }

    /// Whether the heartbeat is still to be refreshed.
    pub fn is_due(&self) -> (r: bool)
        ensures
            r == !self@.stopped,
    {
        !self.stopped
    }

    /// Take in the outcome of an attempt to refresh the heartbeat that was over at `now`. The result
    /// says whether the refreshing goes on.
    pub fn on_beat_at(&mut self, refreshed: bool, now: i64) -> (r: bool)
        ensures
            final(self)@ == after_beat(old(self)@, refreshed, now),
            r == (refreshed || !overdue(old(self)@, now)),
    {
        if refreshed {
            self.last_success_ms = now;
            return true;
        }
        let elapsed: i64 = saturating_difference(now, self.last_success_ms);
        if elapsed > self.tolerance_ms {
            self.expired = true;
            return false;
        }
        true
    }

    /// Take in the outcome of an attempt to refresh the heartbeat. The result says whether the
    /// refreshing goes on.
    pub fn on_beat(&mut self, refreshed: bool) -> (r: bool)
        ensures
            exists|now: i64| #[trigger]
                time::is_clock_millis(now) && final(self)@ == after_beat(old(self)@, refreshed, now)
                    && r == (refreshed || !overdue(old(self)@, now)),
    {
        let now: i64 = time::now_ms();
        self.on_beat_at(refreshed, now)
    }

    /// Refresh the heartbeat no more.
    pub fn stop(&mut self)
        ensures
            final(self)@ == (HeartbeatModel { stopped: true, ..old(self)@ }),
    {
        self.stopped = true;
    }

    /// Whether the writer counts as dead at `now`, by its own heartbeat.
    pub fn is_dead_at(&self, now: i64) -> (r: bool)
        ensures
            r == dead_at(self@, now),
    {
        self.expired || saturating_difference(now, self.last_success_ms) > self.tolerance_ms
    }

    /// How long the heartbeat may go without a refresh, in milliseconds.
    pub fn tolerance_ms(&self) -> (r: i64)
        ensures
            r == self@.tolerance_ms,
    {
        self.tolerance_ms
    }
}

/// Whether the heartbeat file that storage reports is too old at `now`, or missing.
pub fn is_stale_in_storage(
    last_modified: Option<Timestamp>,
    now: Timestamp,
    tolerance_ms: i64,
) -> (r: bool)
    ensures
        r == stale_in_storage(last_modified, now, tolerance_ms),
{
    match last_modified {
        Some(written) => millis_between(&written, &now) > tolerance_ms as i128,
        None => true,
    }
}

/// A heartbeat that was missed for too long stays expired: the writer counts as dead at any time
/// after that, whatever refresh succeeds later.
pub proof fn law_expired_heartbeat_stays_expired(
    heartbeat: HeartbeatModel,
    refreshed: bool,
    now: i64,
    later: i64,
)
    requires
        heartbeat.expired,
    ensures
        after_beat(heartbeat, refreshed, now).expired,
        dead_at(after_beat(heartbeat, refreshed, now), later),
{
}

/// A writer that refreshes its heartbeat in time counts as alive for the whole tolerance after it.
pub proof fn law_fresh_heartbeat_is_alive(heartbeat: HeartbeatModel, now: i64, later: i64)
    requires
        !heartbeat.expired,
        now <= later <= now + heartbeat.tolerance_ms,
    ensures
        !dead_at(after_beat(heartbeat, true, now), later),
{
}

/// A heartbeat expires only where a refresh fails after the tolerance is used up.
pub proof fn law_expiry_needs_a_cause(heartbeat: HeartbeatModel, refreshed: bool, now: i64)
    requires
        !heartbeat.expired,
    ensures
        after_beat(heartbeat, refreshed, now).expired <==> !refreshed && overdue(heartbeat, now),
{
}

} // verus!
