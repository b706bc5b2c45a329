//! What the storage lock guarantees to writers that share one lock file.
//!
//! The lock file is modelled by its content and a version that every write raises.
use vstd::prelude::*;

use crate::time;
use crate::time::Duration;
use crate::write::lock;
use crate::write::lock::{LockModel, LockPlanModel};

verus! {

/// The lock file: its content and its version, `None` before it is first written.
pub type LockFile = Option<(LockModel, nat)>;

/// A conditional write finds its condition met.
pub open spec fn is_written(file: LockFile, plan: LockPlanModel<nat>) -> bool {
    match plan {
        LockPlanModel::Leave => false,
        LockPlanModel::Create(_) => file is None,
        LockPlanModel::Replace(_, version) => file matches Some((_, current)) && current == version,
    }
}

/// The lock file after a conditional write.
pub open spec fn after_put(file: LockFile, plan: LockPlanModel<nat>) -> LockFile {
    if is_written(file, plan) {
        match plan {
            LockPlanModel::Leave => file,
            LockPlanModel::Create(lock) => Some((lock, 0)),
            LockPlanModel::Replace(lock, version) => Some((lock, version + 1)),
        }
    } else {
        file
    }
}

/// A lock that is not free is granted to nobody.
pub proof fn law_held_lock_is_exclusive(
    lock: LockModel,
    version: nat,
    owner: Seq<char>,
    validity: Duration,
    granted_at: i64,
    checked_at: i64,
)
    requires
        !lock::free_at(lock, checked_at),
    ensures
        lock::acquire_plan(Some((lock, version)), owner, validity, granted_at, checked_at) is Leave,
{
}

/// A lock that nobody holds is granted to whoever asks, and the file then names them.
pub proof fn law_free_lock_is_granted(
    file: LockFile,
    owner: Seq<char>,
    validity: Duration,
    granted_at: i64,
    checked_at: i64,
)
    requires
        file matches Some((lock, _)) ==> lock::free_at(lock, checked_at),
    ensures
        ({
            let plan = lock::acquire_plan(file, owner, validity, granted_at, checked_at);
            &&& is_written(file, plan)
            &&& after_put(file, plan) matches Some((lock, _)) && lock == lock::granted(
                owner,
                validity,
                granted_at,
            )
        }),
{
}

/// A fresh lease keeps every other writer out until its end and the clock drift after it.
pub proof fn law_lease_is_exclusive_until_its_end(
    version: nat,
    holder: Seq<char>,
    validity: Duration,
    granted_at: i64,
    other: Seq<char>,
    other_validity: Duration,
    other_granted_at: i64,
    checked_at: i64,
)
    requires
        checked_at < lock::takeover_time(lock::lease_end(granted_at, validity)),
    ensures
        lock::acquire_plan(
            Some((lock::granted(holder, validity, granted_at), version)),
            other,
            other_validity,
            other_granted_at,
            checked_at,
        ) is Leave,
{
}

/// Of two writers that judge the same lock file at most one acquires the lock.
pub proof fn law_one_of_two_acquires(
    file: LockFile,
    first: Seq<char>,
    second: Seq<char>,
    first_validity: Duration,
    second_validity: Duration,
    first_granted_at: i64,
    first_checked_at: i64,
    second_granted_at: i64,
    second_checked_at: i64,
)
    ensures
        ({
            let first_plan = lock::acquire_plan(
                file,
                first,
                first_validity,
                first_granted_at,
                first_checked_at,
            );
            let second_plan = lock::acquire_plan(
                file,
                second,
                second_validity,
                second_granted_at,
                second_checked_at,
            );
            is_written(file, first_plan) ==> !is_written(after_put(file, first_plan), second_plan)
                && after_put(after_put(file, first_plan), second_plan) == after_put(
                file,
                first_plan,
            )
        }),
{
}

/// A write is conditional on the lock file as it was seen.
pub open spec fn is_fenced_by(seen: LockFile, plan: LockPlanModel<nat>) -> bool {
    match plan {
        LockPlanModel::Leave => true,
        LockPlanModel::Create(_) => seen is None,
        LockPlanModel::Replace(_, named) => seen matches Some((_, version)) && version == named,
    }
}

/// Every write to the lock file is conditional on what was read before it.
pub proof fn law_plans_are_fenced(
    seen: LockFile,
    owner: Seq<char>,
    validity: Duration,
    granted_at: i64,
    checked_at: i64,
)
    ensures
        is_fenced_by(seen, lock::acquire_plan(seen, owner, validity, granted_at, checked_at)),
        is_fenced_by(seen, lock::renew_plan(seen, owner, validity, checked_at, granted_at)),
        is_fenced_by(seen, lock::release_plan(seen, owner, granted_at)),
{
}

/// A write that was planned on another version of the lock file never takes effect.
pub proof fn law_outdated_plan_has_no_effect(
    file: LockFile,
    seen: LockFile,
    plan: LockPlanModel<nat>,
)
    requires
        is_fenced_by(seen, plan),
        seen is None ==> file is Some,
        seen matches Some((_, version)) ==> file matches Some((_, current)) && current != version,
    ensures
        !is_written(file, plan),
        after_put(file, plan) == file,
{
}

/// Every write raises the version of the lock file.
pub proof fn law_versions_grow(file: LockFile, plan: LockPlanModel<nat>)
    requires
        is_written(file, plan),
    ensures
        after_put(file, plan) is Some,
        file matches Some((_, before)) ==> after_put(file, plan) matches Some((_, after)) && after
            == before + 1,
{
}

/// A stale owner can neither renew nor release a lock that another writer holds.
pub proof fn law_stale_owner_changes_nothing(
    lock: LockModel,
    version: nat,
    stale: Seq<char>,
    validity: Duration,
    checked_at: i64,
    granted_at: i64,
)
    requires
        lock.owner != stale,
    ensures
        lock::renew_plan(Some((lock, version)), stale, validity, checked_at, granted_at) is Leave,
        lock::release_plan(Some((lock, version)), stale, granted_at) is Leave,
{
}

/// Two writers with different identities never both hold the lock: at most one of them can renew.
pub proof fn law_one_owner_can_renew(
    file: LockFile,
    first: Seq<char>,
    second: Seq<char>,
    validity: Duration,
    checked_at: i64,
    granted_at: i64,
)
    requires
        first != second,
    ensures
        lock::renew_plan(file, first, validity, checked_at, granted_at) is Leave
            || lock::renew_plan(file, second, validity, checked_at, granted_at) is Leave,
{
}

/// While a lease lasts no other writer can change the lock file, whether it judges the file as it is
/// or as it was at another version: the holder alone decides when the lock is free again.
pub proof fn law_running_lease_is_undisturbed(
    lock: LockModel,
    version: nat,
    seen: LockFile,
    other: Seq<char>,
    validity: Duration,
    granted_at: i64,
    checked_at: i64,
)
    requires
        !lock.expired,
        checked_at < lock::takeover_time(lock.valid_until),
        lock.owner != other,
        seen == Some((lock, version)) || seen is None || (seen matches Some((_, named)) && named
            != version),
    ensures
        ({
            let file: LockFile = Some((lock, version));
            &&& after_put(
                file,
                lock::acquire_plan(seen, other, validity, granted_at, checked_at),
            ) == file
            &&& after_put(file, lock::renew_plan(seen, other, validity, checked_at, granted_at))
                == file
            &&& after_put(file, lock::release_plan(seen, other, granted_at)) == file
        }),
{
}

/// What a writer does to the lock file.
pub enum LockOperation {
    Acquire,
    Renew,
    Release,
}

/// An operation of a writer, as it was planned on what the writer had read.
pub struct PlannedOperation {
    pub operation: LockOperation,
    pub writer: Seq<char>,
    pub validity: Duration,
    /// The lock file as the writer had read it.
    pub seen: LockFile,
    pub granted_at: i64,
    pub checked_at: i64,
}

/// The conditional write that an operation comes down to.
pub open spec fn plan_of(planned: PlannedOperation) -> LockPlanModel<nat> {
    match planned.operation {
        LockOperation::Acquire => lock::acquire_plan(
            planned.seen,
            planned.writer,
            planned.validity,
            planned.granted_at,
            planned.checked_at,
        ),
        LockOperation::Renew => lock::renew_plan(
            planned.seen,
            planned.writer,
            planned.validity,
            planned.checked_at,
            planned.granted_at,
        ),
        LockOperation::Release => lock::release_plan(
            planned.seen,
            planned.writer,
            planned.granted_at,
        ),
    }
}

/// The lock file after operations, one after the other.
pub open spec fn after_operations(file: LockFile, operations: Seq<PlannedOperation>) -> LockFile
    decreases operations.len(),
{
    if operations.len() == 0 {
        file
    } else {
        after_put(
            after_operations(file, operations.drop_last()),
            plan_of(operations.last()),
        )
    }
}

/// While a lease lasts the lock file stays as it is, however many other writers try to acquire,
/// renew or release the lock, in whatever order and on whatever version of the file each of them had
/// read.
pub proof fn law_lease_survives_every_interleaving(
    lock: LockModel,
    version: nat,
    operations: Seq<PlannedOperation>,
)
    requires
        !lock.expired,
        forall|i: int|
            0 <= i < operations.len() ==> {
                let planned = #[trigger] operations[i];
                &&& planned.writer != lock.owner
                &&& planned.checked_at < lock::takeover_time(lock.valid_until)
                &&& planned.seen == Some((lock, version)) || planned.seen is None || (
                planned.seen matches Some((_, named)) && named != version)
            },
    ensures
        after_operations(Some((lock, version)), operations) == Some((lock, version)),
    decreases operations.len(),
{
    if operations.len() > 0 {
        let earlier = operations.drop_last();
        assert forall|i: int| 0 <= i < earlier.len() implies {
            let planned = #[trigger] earlier[i];
            &&& planned.writer != lock.owner
            &&& planned.checked_at < lock::takeover_time(lock.valid_until)
            &&& planned.seen == Some((lock, version)) || planned.seen is None || (
            planned.seen matches Some((_, named)) && named != version)
        } by {
            assert(earlier[i] == operations[i]);
        }
        law_lease_survives_every_interleaving(lock, version, earlier);
        let last = operations[operations.len() - 1];
        law_running_lease_is_undisturbed(
            lock,
            version,
            last.seen,
            last.writer,
            last.validity,
            last.granted_at,
            last.checked_at,
        );
    }
}

/// A renewal before the lease is over keeps the lock with its owner, for a new full term.
pub proof fn law_renewal_extends_the_lease(
    lock: LockModel,
    version: nat,
    validity: Duration,
    checked_at: i64,
    granted_at: i64,
    other: Seq<char>,
    other_validity: Duration,
    other_granted_at: i64,
    other_checked_at: i64,
)
    requires
        !lock::free_at(lock, checked_at),
        other_checked_at < lock::takeover_time(lock::lease_end(granted_at, validity)),
    ensures
        ({
            let file: LockFile = Some((lock, version));
            let plan = lock::renew_plan(file, lock.owner, validity, checked_at, granted_at);
            &&& is_written(file, plan)
            &&& after_put(file, plan) == Some(
                (lock::granted(lock.owner, validity, granted_at), version + 1),
            )
            &&& lock::acquire_plan(
                after_put(file, plan),
                other,
                other_validity,
                other_granted_at,
                other_checked_at,
            ) is Leave
        }),
{
}

/// A renewal: whether the lease lasts is judged at `checked_at`, and its new term starts at
/// `granted_at`.
pub struct Renewal {
    pub checked_at: i64,
    pub granted_at: i64,
}

/// The lock file after its owner renewed the lease again and again.
pub open spec fn after_renewals(
    file: LockFile,
    owner: Seq<char>,
    validity: Duration,
    renewals: Seq<Renewal>,
) -> LockFile
    decreases renewals.len(),
{
    if renewals.len() == 0 {
        file
    } else {
        let before = after_renewals(file, owner, validity, renewals.drop_last());
        after_put(
            before,
            lock::renew_plan(
                before,
                owner,
                validity,
                renewals.last().checked_at,
                renewals.last().granted_at,
            ),
        )
    }
}

/// The end of the lease after its first `count` renewals.
pub open spec fn renewed_until(
    lock: LockModel,
    validity: Duration,
    renewals: Seq<Renewal>,
    count: int,
) -> i64 {
    if count == 0 {
        lock.valid_until
    } else {
        lock::lease_end(renewals[count - 1].granted_at, validity)
    }
}

/// For as long as every renewal comes before the lease is over, its owner keeps the lock: each
/// renewal is written, and no other writer is granted the lock before the end that the last one set.
pub proof fn law_renewals_keep_the_lease(
    lock: LockModel,
    version: nat,
    validity: Duration,
    renewals: Seq<Renewal>,
    other: Seq<char>,
    other_validity: Duration,
    other_granted_at: i64,
    other_checked_at: i64,
)
    requires
        !lock.expired,
        forall|i: int|
            0 <= i < renewals.len() ==> (#[trigger] renewals[i]).checked_at < lock::takeover_time(
                renewed_until(lock, validity, renewals, i),
            ),
        other_checked_at < lock::takeover_time(
            renewed_until(lock, validity, renewals, renewals.len() as int),
        ),
    ensures
        ({
            let file = after_renewals(Some((lock, version)), lock.owner, validity, renewals);
            &&& file == Some(
                (
                    LockModel {
                        valid_until: renewed_until(
                            lock,
                            validity,
                            renewals,
                            renewals.len() as int,
                        ),
                        ..lock
                    },
                    version + renewals.len(),
                ),
            )
            &&& lock::acquire_plan(
                file,
                other,
                other_validity,
                other_granted_at,
                other_checked_at,
            ) is Leave
        }),
    decreases renewals.len(),
{
    if renewals.len() > 0 {
        let earlier = renewals.drop_last();
        let last = renewals[renewals.len() - 1];
        assert forall|i: int| 0 <= i < earlier.len() implies (#[trigger] earlier[i]).checked_at
            < lock::takeover_time(renewed_until(lock, validity, earlier, i)) by {
            assert(earlier[i] == renewals[i]);
            if i > 0 {
                assert(earlier[i - 1] == renewals[i - 1]);
            }
        }
        assert(renewed_until(lock, validity, earlier, earlier.len() as int) == renewed_until(
            lock,
            validity,
            renewals,
            renewals.len() - 1,
        ));
        law_renewals_keep_the_lease(
            lock,
            version,
            validity,
            earlier,
            other,
            other_validity,
            other_granted_at,
            last.checked_at,
        );
    }
}

/// A released lock can be acquired at once, whatever the clocks say, and its lease cannot be
/// renewed any more.
pub proof fn law_released_lock_is_free(
    lock: LockModel,
    version: nat,
    now: i64,
    next: Seq<char>,
    validity: Duration,
    granted_at: i64,
    checked_at: i64,
)
    ensures
        ({
            let file: LockFile = Some((lock, version));
            let released = after_put(file, lock::release_plan(file, lock.owner, now));
            let plan = lock::acquire_plan(released, next, validity, granted_at, checked_at);
            &&& is_written(released, plan)
            &&& after_put(released, plan) matches Some((taken, _)) && taken == lock::granted(
                next,
                validity,
                granted_at,
            )
            &&& lock::renew_plan(released, lock.owner, validity, checked_at, granted_at) is Leave
        }),
{
}

/// A lease that is granted at a clock reading covers ten renewal intervals and at least ten
/// seconds.
pub proof fn law_lease_covers_ten_renewals(
    wait_timeout: Duration,
    retry_wait: Duration,
    validity: Duration,
    renew_interval: Duration,
    now: i64,
)
    requires
        lock::usable_durations(wait_timeout, retry_wait, validity, renew_interval),
        time::is_clock_millis(now),
    ensures
        lock::lease_end(now, validity) >= time::clamped(
            now + time::clamped(10 * renew_interval.millis() as int),
        ),
        lock::lease_end(now, validity) >= now + 10_000,
{
    assert(renew_interval@ * 10 <= validity@ ==> 10 * (renew_interval@ / 1_000_000) <= validity@
        / 1_000_000);
}

} // verus!
