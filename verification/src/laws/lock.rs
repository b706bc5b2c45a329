//! Laws of the table lock in plain milliseconds: who may write the lock file when, and what a lease
//! is worth.
use vstd::prelude::*;

use crate::error::{CoreError, CoreErrorModel};
use crate::text;
use crate::time;
use crate::time::Duration;
use crate::write::lease;
use crate::write::lease::{LeaseCheck, LeaseCheckModel, LeaseModel};
use crate::write::lock;
use crate::write::lock::{
    AcquireStep, AcquireStepModel, LockModel, LockPlan, LockPlanModel, StorageBasedLockProvider,
    StorageLockData, VersionedLock,
};

verus! {

/// A lease that is granted at a time ends its validity later.
pub proof fn law_lease_lasts_its_validity(owner: Seq<char>, validity: Duration, now: i64)
    requires
        now + validity@ / 1_000_000 <= i64::MAX,
        validity@ / 1_000_000 <= i64::MAX,
    ensures
        lock::granted(owner, validity, now) == (LockModel {
            expired: false,
            valid_until: (now + validity@ / 1_000_000) as i64,
            owner,
        }),
        lock::lease_end(now, validity) == now + validity@ / 1_000_000,
{
}

/// The first writer creates the lock file, with a lease of its own.
pub proof fn law_missing_lock_file_is_created<V>(
    owner: Seq<char>,
    validity: Duration,
    granted_at: i64,
    checked_at: i64,
)
    requires
        granted_at + validity@ / 1_000_000 <= i64::MAX,
        validity@ / 1_000_000 <= i64::MAX,
    ensures
        lock::acquire_plan(None::<(LockModel, V)>, owner, validity, granted_at, checked_at)
            == LockPlanModel::<V>::Create(
            LockModel {
                expired: false,
                valid_until: (granted_at + validity@ / 1_000_000) as i64,
                owner,
            },
        ),
{
}

/// An abandoned lease is taken over at any time after its end and half a second more, however long
/// ago that is, by whoever asks.
pub proof fn law_abandoned_lease_is_taken_over<V>(
    expired: bool,
    valid_until: i64,
    holder: Seq<char>,
    version: V,
    owner: Seq<char>,
    validity: Duration,
    granted_at: i64,
    checked_at: i64,
)
    requires
        expired || checked_at >= valid_until + 500,
        granted_at + validity@ / 1_000_000 <= i64::MAX,
        validity@ / 1_000_000 <= i64::MAX,
    ensures
        lock::acquire_plan(
            Some((LockModel { expired, valid_until, owner: holder }, version)),
            owner,
            validity,
            granted_at,
            checked_at,
        ) == LockPlanModel::Replace(
            LockModel {
                expired: false,
                valid_until: (granted_at + validity@ / 1_000_000) as i64,
                owner,
            },
            version,
        ),
{
}

/// A lease that its owner has not given up is left alone until its end and half a second more,
/// whoever asks.
pub proof fn law_running_lease_is_left_alone<V>(
    valid_until: i64,
    holder: Seq<char>,
    version: V,
    owner: Seq<char>,
    validity: Duration,
    granted_at: i64,
    checked_at: i64,
)
    requires
        checked_at < valid_until + 500,
        checked_at < i64::MAX,
    ensures
        lock::acquire_plan(
            Some((LockModel { expired: false, valid_until, owner: holder }, version)),
            owner,
            validity,
            granted_at,
            checked_at,
        ) == LockPlanModel::<V>::Leave,
{
}

/// A lock that can be taken over can be taken over at every later time.
pub proof fn law_free_lock_stays_free<V>(
    observed: (LockModel, V),
    owner: Seq<char>,
    validity: Duration,
    granted_at: i64,
    checked_at: i64,
    later: i64,
)
    requires
        checked_at <= later,
        lock::acquire_plan(Some(observed), owner, validity, granted_at, checked_at) is Replace,
    ensures
        lock::acquire_plan(Some(observed), owner, validity, granted_at, later) is Replace,
{
}

/// A lock is definitely expired exactly where its owner gave it up or its end is half a second ago.
pub proof fn law_expiry_in_milliseconds(expired: bool, valid_until: i64, owner: Seq<char>, now: i64)
    requires
        valid_until + 500 <= i64::MAX,
    ensures
        lock::free_at(LockModel { expired, valid_until, owner }, now) <==> expired || now
            >= valid_until + 500,
        lock::takeover_time(valid_until) == valid_until + 500,
{
}

/// A holder renews its lease at any time before its end and half a second more, for a new full term,
/// and keeps its name on it.
pub proof fn law_holder_renews<V>(
    valid_until: i64,
    holder: Seq<char>,
    version: V,
    validity: Duration,
    checked_at: i64,
    granted_at: i64,
)
    requires
        checked_at < valid_until + 500,
        checked_at < i64::MAX,
        granted_at + validity@ / 1_000_000 <= i64::MAX,
        validity@ / 1_000_000 <= i64::MAX,
    ensures
        lock::renew_plan(
            Some((LockModel { expired: false, valid_until, owner: holder }, version)),
            holder,
            validity,
            checked_at,
            granted_at,
        ) == LockPlanModel::Replace(
            LockModel {
                expired: false,
                valid_until: (granted_at + validity@ / 1_000_000) as i64,
                owner: holder,
            },
            version,
        ),
{
}

/// Nobody renews a missing lock file, another writer's lease, a lease that was given up, or one that
/// is over.
pub proof fn law_only_a_running_lease_is_renewed<V>(
    observed: Option<(LockModel, V)>,
    owner: Seq<char>,
    validity: Duration,
    checked_at: i64,
    granted_at: i64,
)
    requires
        observed matches Some((lock, _)) ==> lock.owner != owner || lock.expired || checked_at
            >= lock.valid_until + 500,
    ensures
        lock::renew_plan(observed, owner, validity, checked_at, granted_at) == LockPlanModel::<
            V,
        >::Leave,
{
}

/// A holder releases its lease whatever state it is in: the lock is marked as given up, and still
/// names its holder.
pub proof fn law_holder_releases<V>(lock: LockModel, version: V, now: i64)
    ensures
        lock::release_plan(Some((lock, version)), lock.owner, now) == LockPlanModel::Replace(
            LockModel { expired: true, valid_until: now, owner: lock.owner },
            version,
        ),
{
}

/// Nobody releases a missing lock file or another writer's lease.
pub proof fn law_only_the_holder_releases<V>(
    observed: Option<(LockModel, V)>,
    owner: Seq<char>,
    now: i64,
)
    requires
        observed matches Some((lock, _)) ==> lock.owner != owner,
    ensures
        lock::release_plan(observed, owner, now) == LockPlanModel::<V>::Leave,
{
}

/// Durations are usable exactly where none is empty and a lease lasts ten seconds and ten renewals.
pub proof fn law_usable_durations(
    wait_timeout: Duration,
    retry_wait: Duration,
    validity: Duration,
    renew_interval: Duration,
)
    requires
        renew_interval@ * 10 <= time::MAX_NANOS,
    ensures
        lock::usable_durations(wait_timeout, retry_wait, validity, renew_interval) <==> wait_timeout@
            > 0 && retry_wait@ > 0 && renew_interval@ > 0 && validity@ >= 10_000_000_000
            && validity@ >= 10 * renew_interval@,
{
}

/// An acquisition is granted exactly where the attempt got the lock, even after the deadline.
pub proof fn law_acquired_lock_is_granted(
    provider: StorageBasedLockProvider,
    last_error: Option<CoreErrorModel>,
    outcome: Result<bool, CoreError>,
    elapsed: Duration,
)
    ensures
        lock::acquire_step(provider, last_error, outcome, elapsed) is Granted <==> outcome == Ok::<
            bool,
            CoreError,
        >(true),
{
}

/// An acquisition that did not get the lock tries again until its deadline and gives up from then on.
pub proof fn law_acquisition_waits_until_the_deadline(
    provider: StorageBasedLockProvider,
    last_error: Option<CoreErrorModel>,
    outcome: Result<bool, CoreError>,
    elapsed: Duration,
)
    requires
        outcome != Ok::<bool, CoreError>(true),
    ensures
        elapsed@ < provider.wait_timeout_spec()@ ==> lock::acquire_step(
            provider,
            last_error,
            outcome,
            elapsed,
        ) == AcquireStepModel::Retry(provider.retry_wait_spec()),
        elapsed@ >= provider.wait_timeout_spec()@ ==> (lock::acquire_step(
            provider,
            last_error,
            outcome,
            elapsed,
        ) matches AcquireStepModel::TimedOut(CoreErrorModel::Write(_))),
{
}

/// The timeout error names the wait in milliseconds and the lock file, and ends with the last storage
/// error where there was one. A later attempt without an error does not make it forgotten.
pub proof fn law_timeout_names_the_last_storage_error(
    wait_timeout: Duration,
    error: CoreError,
    before: Option<CoreErrorModel>,
    acquired: bool,
)
    ensures
        lock::timed_out(wait_timeout, None) == CoreErrorModel::Write(
            "timed out after "@ + text::decimal(wait_timeout@ / 1_000_000) + " ms acquiring "@
                + ".hoodie/.locks/table_lock.json"@,
        ),
        lock::timed_out(wait_timeout, Some(error@)) == CoreErrorModel::Write(
            "timed out after "@ + text::decimal(wait_timeout@ / 1_000_000) + " ms acquiring "@
                + ".hoodie/.locks/table_lock.json"@ + "; last storage error: "@ + error@.text(),
        ),
        lock::error_after(before, Err(error)) == Some(error@),
        lock::error_after(before, Ok(acquired)) == before,
{
}

/// What is read of a lock file, and what is planned, is its content and its version.
pub proof fn law_lock_file_content<V>(data: StorageLockData, version: V)
    ensures
        data@ == (LockModel {
            expired: data.expired,
            valid_until: data.valid_until,
            owner: data.owner@,
        }),
        lock::observation(Some(VersionedLock { data, version })) == Some((data@, version)),
        lock::observation(None::<VersionedLock<V>>) is None,
        LockPlan::<V>::Leave@ == LockPlanModel::<V>::Leave,
        LockPlan::<V>::Create(data)@ == LockPlanModel::<V>::Create(data@),
        LockPlan::Replace(data, version)@ == LockPlanModel::Replace(data@, version),
{
}

/// A validation holds a process-local lock to be held, refuses a lease that is lost, and asks for the
/// renewal of every other.
pub proof fn law_validation_of_a_lease(held: LeaseModel)
    ensures
        lease::check(None) == LeaseCheckModel::Valid,
        held.lost ==> (lease::check(Some(held)) matches LeaseCheckModel::Refused(
            CoreErrorModel::Write(_),
        )),
        !held.lost ==> lease::check(Some(held)) == LeaseCheckModel::Renew,
{
}

/// A validation succeeds exactly where the renewal it asked for did. The lease then ends where the
/// renewal put its end, and where the lock is gone it is lost for good.
pub proof fn law_outcome_of_a_validation(
    held: LeaseModel,
    outcome: Result<Option<i64>, CoreErrorModel>,
)
    ensures
        lease::validation_result(held, outcome) is Ok <==> outcome matches Ok(Some(_)),
        outcome matches Ok(Some(valid_until)) ==> lease::after_validation(held, outcome) == (
        LeaseModel { last_valid_until: valid_until, ..held }),
        outcome matches Ok(None) ==> lease::after_validation(held, outcome) == (LeaseModel {
            lost: true,
            ..held
        }) && lease::validation_result(held, outcome) == Err::<(), _>(
            CoreErrorModel::Write(
                "storage lock ownership was lost (expected owner "@ + held.owner + ")"@,
            ),
        ),
        outcome matches Err(error) ==> lease::after_validation(held, outcome) == held
            && lease::validation_result(held, outcome) == Err::<(), _>(error),
{
}

/// A heartbeat that renews the lease goes on with the new end. Where the lock is gone, or a renewal
/// fails half a second after the last confirmed end, the lease is lost and the heartbeat ends. Any
/// other failure changes nothing.
pub proof fn law_outcome_of_a_heartbeat(
    held: LeaseModel,
    outcome: Result<Option<i64>, CoreErrorModel>,
    now: i64,
)
    requires
        held.last_valid_until + 500 <= i64::MAX,
    ensures
        outcome matches Ok(Some(valid_until)) ==> lease::after_heartbeat(held, outcome, now) == (
        LeaseModel { last_valid_until: valid_until, ..held }) && lease::heartbeat_goes_on(
            held,
            outcome,
            now,
        ),
        outcome matches Ok(None) ==> lease::after_heartbeat(held, outcome, now) == (LeaseModel {
            lost: true,
            ..held
        }) && !lease::heartbeat_goes_on(held, outcome, now),
        outcome is Err && now >= held.last_valid_until + 500 ==> lease::after_heartbeat(
            held,
            outcome,
            now,
        ) == (LeaseModel { lost: true, ..held }) && !lease::heartbeat_goes_on(held, outcome, now),
        outcome is Err && now < held.last_valid_until + 500 ==> lease::after_heartbeat(
            held,
            outcome,
            now,
        ) == held && lease::heartbeat_goes_on(held, outcome, now),
{
}

/// The outcome of a renewal is taken over as it is.
pub proof fn law_outcomes_are_taken_over(error: CoreError, valid_until: Option<i64>)
    ensures
        lease::outcome_model(Ok(valid_until)) == Ok::<_, CoreErrorModel>(valid_until),
        lease::outcome_model(Err(error)) == Err::<Option<i64>, _>(error@),
        lock::error_model(Some(error)) == Some(error@),
        lock::error_model(None) is None,
{
}

/// A fresh lease belongs to its owner, is neither stopped nor lost, and ends the validity after it was
/// acquired.
pub proof fn law_fresh_lease(provider: StorageBasedLockProvider, owner: Seq<char>, now: i64)
    requires
        now + provider.validity_spec()@ / 1_000_000 <= i64::MAX,
        provider.validity_spec()@ / 1_000_000 <= i64::MAX,
    ensures
        provider.fresh_lease(owner, now) == (LeaseModel {
            owner,
            validity: provider.validity_spec(),
            retry_wait: provider.retry_wait_spec(),
            renew_interval: provider.renew_interval_spec(),
            stopped: false,
            lost: false,
            last_valid_until: (now + provider.validity_spec()@ / 1_000_000) as i64,
        }),
{
}

/// A process-local lock is found under its base path: the first path gets the first position, a path
/// that has one keeps it, and a new path gets the next free one.
pub proof fn law_positions_of_process_locks(
    before: Seq<Seq<char>>,
    path: Seq<char>,
    after: Seq<Seq<char>>,
)
    requires
        !before.contains(path),
    ensures
        lock::slot_of(before + seq![path] + after, path) == before.len(),
        lock::slot_of(before, path) == before.len(),
        lock::with_path(before, path) == before.push(path),
        lock::with_path(before + seq![path] + after, path) == before + seq![path] + after,
{
    let all = before + seq![path] + after;
    assert(all[before.len() as int] == path);
    assert(all.contains(path));
    all.index_of_first_ensures(path);
    before.index_of_first_ensures(path);
    let i = lock::slot_of(all, path);
    if i < before.len() {
        assert(before[i] == path);
    }
}

/// A lease whose end does not fit ends at the last moment there is, and the takeover of such a lease
/// has to wait for that moment.
pub proof fn law_longest_lease(owner: Seq<char>, validity: Duration, now: i64, valid_until: i64)
    ensures
        now + validity@ / 1_000_000 > i64::MAX && now >= 0 ==> lock::granted(
            owner,
            validity,
            now,
        ).valid_until == i64::MAX,
        valid_until + 500 > i64::MAX ==> lock::takeover_time(valid_until) == i64::MAX,
        lock::free_at(LockModel { expired: false, valid_until, owner }, now) <==> now
            >= valid_until + 500 || now == i64::MAX,
{
}

/// Where ten renewals take longer than any duration, only the longest lease covers them.
pub proof fn law_longest_renewals(
    wait_timeout: Duration,
    retry_wait: Duration,
    validity: Duration,
    renew_interval: Duration,
)
    requires
        renew_interval@ * 10 > time::MAX_NANOS,
    ensures
        lock::usable_durations(wait_timeout, retry_wait, validity, renew_interval) <==> wait_timeout@
            > 0 && retry_wait@ > 0 && validity@ >= time::MAX_NANOS,
{
}

/// The errors of the locks say what is wrong.
pub proof fn law_errors_of_the_locks(base_path: Seq<char>, wait_timeout: Duration)
    ensures
        lock::process_lock_timed_out(base_path, wait_timeout) == CoreErrorModel::Write(
            "timed out after "@ + text::decimal(wait_timeout@ / 1_000_000)
                + " ms acquiring the in-process lock of "@ + base_path,
        ),
        lock::local_storage() is Unsupported,
        lock::unusable_durations() is Write,
        lease::heartbeat_lost() == CoreErrorModel::Write("storage lock heartbeat lost ownership"@),
{
}

/// What follows an attempt, and what a validation asks for, is what it says.
pub proof fn law_steps_of_a_lock(wait: Duration, error: CoreError)
    ensures
        AcquireStep::Granted@ == AcquireStepModel::Granted,
        AcquireStep::Retry(wait)@ == AcquireStepModel::Retry(wait),
        AcquireStep::TimedOut(error)@ == AcquireStepModel::TimedOut(error@),
        LeaseCheck::Valid@ == LeaseCheckModel::Valid,
        LeaseCheck::Refused(error)@ == LeaseCheckModel::Refused(error@),
        LeaseCheck::Renew@ == LeaseCheckModel::Renew,
{
}

} // verus!
