//! A held table lock: when it may be relied on, how it is kept and how it is given up.
use vstd::prelude::*;

use crate::error::{CoreError, CoreErrorModel};
use crate::time;
use crate::time::{saturating_sum, Duration};
use crate::write::lock;
use crate::write::lock::{
    LockPlan, StorageBasedLockProvider, VersionedLock, CLOCK_DRIFT_BUFFER_MS,
};

verus! {

/// A lease on the storage lock and what its heartbeat knows of it.
#[derive(Debug)]
struct StorageLease {
    owner: String,
    validity: Duration,
    retry_wait: Duration,
    renew_interval: Duration,
    stopped: bool,
    lost: bool,
    last_valid_until: i64,
}

/// A lease on the storage lock by its values.
pub struct LeaseModel {
    /// The identity that the lease was granted to.
    pub owner: Seq<char>,
    /// How long a renewal extends the lease.
    pub validity: Duration,
    /// How long to wait before another attempt to release.
    pub retry_wait: Duration,
    /// How long to wait between two renewals.
    pub renew_interval: Duration,
    /// The lease is being released: no renewal may follow.
    pub stopped: bool,
    /// The lock is lost for good.
    pub lost: bool,
    /// The end of the lease as last confirmed, in milliseconds.
    pub last_valid_until: i64,
}

/// A held table lock.
///
/// Validate it immediately before publishing a timeline mutation and release it when the critical
/// section is complete.
#[derive(Debug)]
pub struct LockLease {
    storage: Option<StorageLease>,
}

impl View for LockLease {
    type V = Option<LeaseModel>;

    /// The lease on the storage lock, `None` for a process-local lock.
    closed spec fn view(&self) -> Option<LeaseModel> {
        match self.storage {
            Some(lease) => Some(
                LeaseModel {
                    owner: lease.owner@,
                    validity: lease.validity,
                    retry_wait: lease.retry_wait,
                    renew_interval: lease.renew_interval,
                    stopped: lease.stopped,
                    lost: lease.lost,
                    last_valid_until: lease.last_valid_until,
                },
            ),
            None => None,
        }
    }
}

/// What a validation asks for.
#[derive(Debug)]
pub enum LeaseCheck {
    /// The lock is held.
    Valid,
    /// The lock is lost.
    Refused(CoreError),
    /// Renew the lease, and judge by the outcome.
    Renew,
}

/// What a validation asks for, by values.
pub enum LeaseCheckModel {
    Valid,
    Refused(CoreErrorModel),
    Renew,
}

impl View for LeaseCheck {
    type V = LeaseCheckModel;

    open spec fn view(&self) -> LeaseCheckModel {
        match self {
            LeaseCheck::Valid => LeaseCheckModel::Valid,
            LeaseCheck::Refused(error) => LeaseCheckModel::Refused(error@),
            LeaseCheck::Renew => LeaseCheckModel::Renew,
        }
    }
}

/// The outcome of a renewal by its values: the new end of the lease, `None` where the lock is lost.
pub open spec fn outcome_model(outcome: Result<Option<i64>, CoreError>) -> Result<
    Option<i64>,
    CoreErrorModel,
> {
    match outcome {
        Ok(valid_until) => Ok(valid_until),
        Err(error) => Err(error@),
    }
}

/// The error for a lock that the heartbeat lost.
pub open spec fn heartbeat_lost() -> CoreErrorModel {
    CoreErrorModel::Write("storage lock heartbeat lost ownership"@)
}

/// The error for a lock that `owner` turned out not to hold any more.
pub open spec fn ownership_lost(owner: Seq<char>) -> CoreErrorModel {
    CoreErrorModel::Write(
        "storage lock ownership was lost (expected owner "@ + owner + ")"@,
    )
}

/// What a validation asks for: a process-local lock is always held, a lost lease is refused, and
/// any other must be renewed.
pub open spec fn check(lease: Option<LeaseModel>) -> LeaseCheckModel {
    match lease {
        None => LeaseCheckModel::Valid,
        Some(state) => if state.lost {
            LeaseCheckModel::Refused(heartbeat_lost())
        } else {
            LeaseCheckModel::Renew
        },
    }
}

/// The lease after a validation renewed it.
pub open spec fn after_validation(
    lease: LeaseModel,
    outcome: Result<Option<i64>, CoreErrorModel>,
) -> LeaseModel {
    match outcome {
        Ok(Some(valid_until)) => LeaseModel { last_valid_until: valid_until, ..lease },
        Ok(None) => LeaseModel { lost: true, ..lease },
        Err(_) => lease,
    }
}

/// What a validation that renewed the lease reports.
pub open spec fn validation_result(
    lease: LeaseModel,
    outcome: Result<Option<i64>, CoreErrorModel>,
) -> Result<(), CoreErrorModel> {
    match outcome {
        Ok(Some(_)) => Ok(()),
        Ok(None) => Err(ownership_lost(lease.owner)),
        Err(error) => Err(error),
    }
}

/// A failed renewal at `now` is final: the last confirmed lease is over on every clock.
pub open spec fn outlived(lease: LeaseModel, now: i64) -> bool {
    now >= lock::takeover_time(lease.last_valid_until)
}

/// The lease after its heartbeat tried to renew it at `now`.
pub open spec fn after_heartbeat(
    lease: LeaseModel,
    outcome: Result<Option<i64>, CoreErrorModel>,
    now: i64,
) -> LeaseModel {
    match outcome {
        Ok(Some(valid_until)) => LeaseModel { last_valid_until: valid_until, ..lease },
        Ok(None) => LeaseModel { lost: true, ..lease },
        Err(_) => if outlived(lease, now) {
            LeaseModel { lost: true, ..lease }
        } else {
            lease
        },
    }
}

/// The heartbeat goes on after it tried to renew the lease at `now`.
pub open spec fn heartbeat_goes_on(
    lease: LeaseModel,
    outcome: Result<Option<i64>, CoreErrorModel>,
    now: i64,
) -> bool {
    match outcome {
        Ok(Some(_)) => true,
        Ok(None) => false,
        Err(_) => !outlived(lease, now),
    }
}

impl LockLease {
    /// The lease of a process-local lock.
    pub fn in_process() -> (r: Self)
        ensures
            r@ is None,
    {
        LockLease { storage: None }
    }

    /// The lease of a storage lock that `owner` acquired and that ends at `valid_until`.
    pub fn storage(
        owner: String,
        validity: Duration,
        retry_wait: Duration,
        renew_interval: Duration,
        valid_until: i64,
    ) -> (r: Self)
        ensures
            r@ == Some(
                LeaseModel {
                    owner: owner@,
                    validity,
                    retry_wait,
                    renew_interval,
                    stopped: false,
                    lost: false,
                    last_valid_until: valid_until,
                },
            ),
    {
        LockLease {
            storage: Some(
                StorageLease {
                    owner,
                    validity,
                    retry_wait,
                    renew_interval,
                    stopped: false,
                    lost: false,
                    last_valid_until: valid_until,
                },
            ),
        }
    }

    /// Whether this is the lease of a storage lock.
    pub fn is_storage_lease(&self) -> (r: bool)
        ensures
            r == (self@ is Some),
    {
        self.storage.is_some()
    }

    /// Whether the heartbeat still has a lease to renew.
    pub fn heartbeat_due(&self) -> (r: bool)
        ensures
            r == (self@ is Some && !self@->0.stopped),
    {
        match &self.storage {
            Some(lease) => !lease.stopped,
            None => false,
        }
    }

    /// How long the heartbeat waits between two renewals, `None` for a process-local lock.
    pub fn renew_interval(&self) -> (r: Option<Duration>)
        ensures
            r == match self@ {
                Some(lease) => Some(lease.renew_interval),
                None => None,
            },
    {
        match &self.storage {
            Some(lease) => Some(lease.renew_interval),
            None => None,
        }
    }

    /// How long to wait before another attempt to release, `None` for a process-local lock.
    pub fn retry_wait(&self) -> (r: Option<Duration>)
        ensures
            r == match self@ {
                Some(lease) => Some(lease.retry_wait),
                None => None,
            },
    {
        match &self.storage {
            Some(lease) => Some(lease.retry_wait),
            None => None,
        }
    }

    /// How to renew this lease on a lock that was just read as `observed`. Leaving the file alone
    /// is a definitive loss of the lock.
    pub fn plan_renewal<V>(&self, observed: Option<VersionedLock<V>>) -> (r: LockPlan<V>)
        ensures
            self@ is None ==> r@ is Leave,
            self@ matches Some(lease) ==> exists|checked_at: i64, granted_at: i64| #[trigger]
                time::is_clock_millis(checked_at) && #[trigger] time::is_clock_millis(granted_at)
                    && r@ == lock::renew_plan(
                    lock::observation(observed),
                    lease.owner,
                    lease.validity,
                    checked_at,
                    granted_at,
                ),
    {
        match &self.storage {
            Some(lease) => StorageBasedLockProvider::renew_lease(
                &lease.owner,
                &lease.validity,
                observed,
            ),
            None => LockPlan::Leave,
        }
    }

    /// How to release this lease on a lock that was just read as `observed`.
    pub fn plan_release<V>(&self, observed: Option<VersionedLock<V>>) -> (r: LockPlan<V>)
        ensures
            self@ is None ==> r@ is Leave,
            self@ matches Some(lease) ==> exists|now: i64| #[trigger]
                time::is_clock_millis(now) && r@ == lock::release_plan(
                    lock::observation(observed),
                    lease.owner,
                    now,
                ),
    {
        match &self.storage {
            Some(lease) => StorageBasedLockProvider::release_lease(&lease.owner, observed),
            None => LockPlan::Leave,
        }
    }

    /// Take in the outcome of a renewal by the heartbeat, at `now`. The result says whether the
    /// heartbeat goes on: a storage error is transient until the last confirmed lease is over.
    pub fn on_heartbeat(&mut self, outcome: Result<Option<i64>, CoreError>, now: i64) -> (r: bool)
        ensures
            old(self)@ is None ==> final(self)@ is None && !r,
            old(self)@ matches Some(lease) ==> final(self)@ == Some(
                after_heartbeat(lease, outcome_model(outcome), now),
            ) && r == heartbeat_goes_on(lease, outcome_model(outcome), now),
    {
        match self.storage.take() {
            None => false,
            Some(mut lease) => {
                let goes_on: bool = match outcome {
                    Ok(Some(valid_until)) => {
                        lease.last_valid_until = valid_until;
                        true
                    },
                    Ok(None) => {
                        lease.lost = true;
                        false
                    },
                    Err(_) => {
                        if now >= saturating_sum(lease.last_valid_until, CLOCK_DRIFT_BUFFER_MS) {
                            lease.lost = true;
                            false
                        } else {
                            true
                        }
                    },
                };
                self.storage = Some(lease);
                goes_on
            },
        }
    }

    /// Confirm that this writer still holds the lock, as far as is known without the lock file.
    pub fn validate(&self) -> (r: LeaseCheck)
        ensures
            r@ == check(self@),
    {
        match &self.storage {
            None => LeaseCheck::Valid,
            Some(lease) => {
                if lease.lost {
                    LeaseCheck::Refused(
                        CoreError::Write("storage lock heartbeat lost ownership".to_owned()),
                    )
                } else {
                    LeaseCheck::Renew
                }
            },
        }
    }

    /// Take in the outcome of the renewal that a validation asked for.
    pub fn on_validated(&mut self, outcome: Result<Option<i64>, CoreError>) -> (r: Result<
        (),
        CoreError,
    >)
        ensures
            old(self)@ is None ==> final(self)@ is None && r is Ok,
            old(self)@ matches Some(lease) ==> {
                &&& final(self)@ == Some(after_validation(lease, outcome_model(outcome)))
                &&& match r {
                    Ok(_) => validation_result(lease, outcome_model(outcome)) is Ok,
                    Err(error) => validation_result(lease, outcome_model(outcome)) == Err::<(), _>(
                        error@,
                    ),
                }
            },
    {
        match self.storage.take() {
            None => Ok(()),
            Some(mut lease) => {
                let result: Result<(), CoreError> = match outcome {
                    Ok(Some(valid_until)) => {
                        lease.last_valid_until = valid_until;
                        Ok(())
                    },
                    Ok(None) => {
                        lease.lost = true;
                        Err(
                            CoreError::Write(
                                "storage lock ownership was lost (expected owner ".to_owned()
                                    .concat(&lease.owner)
                                    .concat(")"),
                            ),
                        )
                    },
                    Err(error) => Err(error),
                };
                self.storage = Some(lease);
                result
            },
        }
    }

    /// Start to give the lock up. The result says whether the lock file must be released; from
    /// here on no heartbeat renews the lease.
    pub fn release(&mut self) -> (r: bool)
        ensures
            r == (old(self)@ is Some),
            old(self)@ is None ==> final(self)@ is None,
            old(self)@ matches Some(lease) ==> final(self)@ == Some(
                LeaseModel { stopped: true, ..lease },
            ),
    {
        match self.storage.take() {
            None => false,
            Some(mut lease) => {
                lease.stopped = true;
                self.storage = Some(lease);
                true
            },
        }
    }
}

/// A lost lock stays lost: no later outcome makes a validation anything but a refusal.
pub proof fn law_lost_lease_is_never_valid(
    lease: LeaseModel,
    outcome: Result<Option<i64>, CoreErrorModel>,
    now: i64,
)
    requires
        lease.lost,
    ensures
        check(Some(lease)) == LeaseCheckModel::Refused(heartbeat_lost()),
        after_heartbeat(lease, outcome, now).lost,
        after_validation(lease, outcome).lost,
{
}

/// A lock is lost exactly where the heartbeat or a validation learns that it is gone, or where the
/// renewals keep failing until the last confirmed lease is over on every clock.
pub proof fn law_loss_needs_a_cause(
    lease: LeaseModel,
    outcome: Result<Option<i64>, CoreErrorModel>,
    now: i64,
)
    requires
        !lease.lost,
    ensures
        after_heartbeat(lease, outcome, now).lost <==> !heartbeat_goes_on(lease, outcome, now),
        after_heartbeat(lease, outcome, now).lost <==> outcome == Ok::<_, CoreErrorModel>(
            None::<i64>,
        ) || (outcome is Err && now >= lock::takeover_time(lease.last_valid_until)),
        after_validation(lease, outcome).lost <==> outcome == Ok::<_, CoreErrorModel>(None::<i64>),
{
}

/// A lease keeps its owner and its terms, and stays stopped once its release began.
pub proof fn law_lease_keeps_its_identity(
    lease: LeaseModel,
    outcome: Result<Option<i64>, CoreErrorModel>,
    now: i64,
)
    ensures
        after_heartbeat(lease, outcome, now).owner == lease.owner,
        after_heartbeat(lease, outcome, now).validity == lease.validity,
        after_heartbeat(lease, outcome, now).stopped == lease.stopped,
        after_validation(lease, outcome).owner == lease.owner,
        after_validation(lease, outcome).validity == lease.validity,
        after_validation(lease, outcome).stopped == lease.stopped,
{
}

/// What follows an attempt to release the lock file.
#[derive(Debug)]
pub enum ReleaseStep {
    /// The lock file is released, or was not ours to release.
    Released,
    /// Try again after the retry wait.
    Retry,
    /// The attempts are used up.
    Failed(CoreError),
}

/// How many attempts to release a lock file failed.
#[derive(Debug)]
pub struct ReleaseAttempts {
    failed: u32,
}

/// How many attempts may fail before the release is given up.
pub const RELEASE_ATTEMPTS: u32 = 3;

impl View for ReleaseAttempts {
    type V = nat;

    /// The number of failed attempts that were retried.
    closed spec fn view(&self) -> nat {
        self.failed as nat
    }
}

impl ReleaseAttempts {
    /// No attempt has been made.
    pub fn new() -> (r: Self)
        ensures
            r@ == 0,
    {
        ReleaseAttempts { failed: 0 }
    }

    /// Take in the outcome of an attempt.
    pub fn on_attempt(&mut self, outcome: Result<(), CoreError>) -> (r: ReleaseStep)
        ensures
            match outcome {
                Ok(_) => r is Released && final(self)@ == old(self)@,
                Err(error) => if old(self)@ + 1 < RELEASE_ATTEMPTS {
                    r is Retry && final(self)@ == old(self)@ + 1
                } else {
                    r matches ReleaseStep::Failed(cause) && cause@ == error@ && final(self)@
                        == old(self)@
                },
            },
    {
        match outcome {
            Ok(_) => ReleaseStep::Released,
            Err(error) => {
                if self.failed < RELEASE_ATTEMPTS - 1 {
                    self.failed = self.failed + 1;
                    ReleaseStep::Retry
                } else {
                    ReleaseStep::Failed(error)
                }
            },
        }
    }
}

} // verus!
