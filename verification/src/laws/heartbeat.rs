//! Laws of the writer heartbeat in plain milliseconds.
use vstd::prelude::*;

use crate::time;
use crate::time::{Duration, Timestamp};
use crate::write::heartbeat;
use crate::write::heartbeat::HeartbeatModel;

verus! {

/// A heartbeat that was just written is alive, and may go without a refresh for as many intervals as
/// misses are tolerated.
pub proof fn law_fresh_heartbeat(interval: Duration, misses: usize, now: i64)
    requires
        (interval@ / 1_000_000) * misses <= i64::MAX,
        interval@ / 1_000_000 <= i64::MAX,
        misses <= i64::MAX,
    ensures
        heartbeat::started(interval, misses, now) == (HeartbeatModel {
            stopped: false,
            expired: false,
            last_success_ms: now,
            tolerance_ms: ((interval@ / 1_000_000) * misses) as i64,
        }),
{
    assert(0 <= (interval@ / 1_000_000) * misses) by (nonlinear_arith);
}

/// A writer counts as dead exactly where its heartbeat has expired or its last refresh is longer ago
/// than is tolerated.
pub proof fn law_death_in_milliseconds(state: HeartbeatModel, now: i64)
    requires
        i64::MIN <= now - state.last_success_ms <= i64::MAX,
    ensures
        heartbeat::dead_at(state, now) <==> state.expired || now - state.last_success_ms
            > state.tolerance_ms,
        heartbeat::overdue(state, now) <==> now - state.last_success_ms > state.tolerance_ms,
{
}

/// A writer that counts as dead counts as dead at every later time, until a refresh.
pub proof fn law_dead_writer_stays_dead(state: HeartbeatModel, now: i64, later: i64)
    requires
        now <= later,
        heartbeat::dead_at(state, now),
    ensures
        heartbeat::dead_at(state, later),
{
}

/// A refresh sets the time of the last success and nothing else. A failed one expires the heartbeat
/// exactly where the tolerance is used up, and otherwise changes nothing.
pub proof fn law_outcome_of_a_refresh(state: HeartbeatModel, now: i64)
    requires
        i64::MIN <= now - state.last_success_ms <= i64::MAX,
    ensures
        heartbeat::after_beat(state, true, now) == (HeartbeatModel {
            last_success_ms: now,
            ..state
        }),
        now - state.last_success_ms > state.tolerance_ms ==> heartbeat::after_beat(
            state,
            false,
            now,
        ) == (HeartbeatModel { expired: true, ..state }),
        now - state.last_success_ms <= state.tolerance_ms ==> heartbeat::after_beat(
            state,
            false,
            now,
        ) == state,
{
}

/// A heartbeat file is stale exactly where it is missing or was written more whole milliseconds ago
/// than are tolerated.
pub proof fn law_stale_heartbeat_file(written: Timestamp, now: Timestamp, tolerance_ms: i64)
    requires
        written.nanos < 1_000_000_000,
        now.nanos < 1_000_000_000,
        tolerance_ms >= 0,
    ensures
        heartbeat::stale_in_storage(None, now, tolerance_ms),
        heartbeat::stale_in_storage(Some(written), now, tolerance_ms) <==> (now.secs - written.secs)
            * 1_000_000_000 + now.nanos - written.nanos >= (tolerance_ms + 1) * 1_000_000,
{
}

/// The heartbeat file of an instant lies in the heartbeat directory under the instant's name.
pub proof fn law_heartbeat_file(instant: Seq<char>)
    ensures
        heartbeat::heartbeat_file(instant) == ".hoodie/.heartbeat/"@ + instant,
{
}

/// A tolerance that does not fit is the longest there is.
pub proof fn law_longest_tolerance(interval: Duration, misses: usize, now: i64)
    requires
        misses > 0,
        (interval@ / 1_000_000) * misses > i64::MAX,
    ensures
        heartbeat::started(interval, misses, now).tolerance_ms == i64::MAX,
{
    let millis = (interval@ / 1_000_000) as int;
    if millis > i64::MAX {
        assert(i64::MAX * time::clamped(misses as int) >= i64::MAX) by (nonlinear_arith)
            requires
                time::clamped(misses as int) >= 1,
        ;
    } else if misses > i64::MAX {
        assert(millis > 0) by (nonlinear_arith)
            requires
                millis * misses > i64::MAX,
                misses > 0,
        ;
        assert(millis * i64::MAX >= i64::MAX) by (nonlinear_arith)
            requires
                millis >= 1,
        ;
    }
}

/// A last refresh that is further away than can be counted is overdue where it lies in the past, by
/// all but the longest tolerance, and not where it lies in the future.
pub proof fn law_far_away_refresh(state: HeartbeatModel, now: i64)
    requires
        state.tolerance_ms >= 0,
    ensures
        now - state.last_success_ms > i64::MAX ==> (heartbeat::dead_at(state, now)
            <==> state.expired || state.tolerance_ms < i64::MAX),
        now < state.last_success_ms ==> (heartbeat::dead_at(state, now) <==> state.expired),
{
}

/// A heartbeat file is as old as the whole milliseconds since it was written, leap seconds included.
pub proof fn law_age_of_a_heartbeat_file(written: Timestamp, now: Timestamp, tolerance_ms: i64)
    ensures
        heartbeat::stale_in_storage(Some(written), now, tolerance_ms)
            <==> time::toward_zero_millis(time::nanos_between(written, now)) > tolerance_ms,
{
}

} // verus!
