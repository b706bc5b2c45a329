//! Write-path locking.
//!
//! Timeline mutations happen in short critical sections. Single-writer tables use
//! [`InProcessLockProvider`]. Multi-writer tables use [`StorageBasedLockProvider`]: a lease
//! represented by `.hoodie/.locks/table_lock.json` and acquired with an atomic create or
//! compare-and-swap update.
//!
//! This module decides what is written to the lock file and what an outcome means. Reading the
//! file, writing it under a condition and waiting are the caller's part.
use vstd::prelude::*;

use crate::config::write::{WriteConcurrencyConfig, WriteLockProvider};
use crate::config::HudiConfigs;
use crate::error::{CoreError, CoreErrorModel};
use crate::text;
use crate::text::{decimal_text, same_text};
use crate::time;
use crate::time::{saturating_sum, Duration};
use crate::write::lease::{LeaseModel, LockLease};

verus! {

/// The lock file, relative to the table's base path.
pub const TABLE_LOCK_PATH: &'static str = ".hoodie/.locks/table_lock.json";

/// How far the clocks of two writers may differ.
pub const CLOCK_DRIFT_BUFFER_MS: i64 = 500;

/// The content of the lock file.
#[derive(Debug, PartialEq, Eq)]
pub struct StorageLockData {
    /// The owner has given the lock up.
    pub expired: bool,
    /// The end of the lease, in milliseconds since 1970-01-01T00:00:00Z.
    pub valid_until: i64,
    /// Who holds the lock.
    pub owner: String,
}

/// The content of the lock file by its values.
pub struct LockModel {
    pub expired: bool,
    pub valid_until: i64,
    pub owner: Seq<char>,
}

impl View for StorageLockData {
    type V = LockModel;

    open spec fn view(&self) -> LockModel {
        LockModel { expired: self.expired, valid_until: self.valid_until, owner: self.owner@ }
    }
}

/// The content of the lock file together with the version that a conditional write must name.
#[derive(Debug)]
pub struct VersionedLock<V> {
    pub data: StorageLockData,
    pub version: V,
}

/// The outcome of a conditional write.
#[derive(Clone, Copy, Debug, PartialEq, Eq, Structural)]
pub enum ConditionalPutResult {
    /// The condition held and the file was written.
    Written,
    /// The condition did not hold and the file is as it was.
    Conflict,
}

/// What to do with the lock file.
#[derive(Debug)]
pub enum LockPlan<V> {
    /// Leave the file as it is.
    Leave,
    /// Write the file if it does not exist.
    Create(StorageLockData),
    /// Write the file if it still has this version.
    Replace(StorageLockData, V),
}

/// What to do with the lock file, by values.
pub enum LockPlanModel<V> {
    Leave,
    Create(LockModel),
    Replace(LockModel, V),
}

impl<V> View for LockPlan<V> {
    type V = LockPlanModel<V>;

    open spec fn view(&self) -> LockPlanModel<V> {
        match self {
            LockPlan::Leave => LockPlanModel::Leave,
            LockPlan::Create(data) => LockPlanModel::Create(data@),
            LockPlan::Replace(data, version) => LockPlanModel::Replace(data@, *version),
        }
    }
}

/// The end of a lease that is granted at `now`, in milliseconds.
pub open spec fn lease_end(now: i64, validity: Duration) -> i64 {
    time::clamped(now + time::clamped(validity.millis() as int))
}

/// A lease that is granted to `owner` at `now`.
pub open spec fn granted(owner: Seq<char>, validity: Duration, now: i64) -> LockModel {
    LockModel { expired: false, valid_until: lease_end(now, validity), owner }
}

/// The moment from which a lease is over on every clock.
pub open spec fn takeover_time(valid_until: i64) -> i64 {
    time::clamped(valid_until + CLOCK_DRIFT_BUFFER_MS)
}

/// The lock is free at `now`: its owner gave it up, or the lease is over on every clock.
pub open spec fn free_at(lock: LockModel, now: i64) -> bool {
    lock.expired || now >= takeover_time(lock.valid_until)
}

/// What the lock file holds and its version, as they were read.
pub open spec fn observation<V>(observed: Option<VersionedLock<V>>) -> Option<(LockModel, V)> {
    match observed {
        Some(lock) => Some((lock.data@, lock.version)),
        None => None,
    }
}

/// How to acquire the lock: create the file where there is none, take a free lock over, leave a
/// held one alone.
pub open spec fn acquire_plan<V>(
    observed: Option<(LockModel, V)>,
    owner: Seq<char>,
    validity: Duration,
    granted_at: i64,
    checked_at: i64,
) -> LockPlanModel<V> {
    match observed {
        None => LockPlanModel::Create(granted(owner, validity, granted_at)),
        Some((lock, version)) => if free_at(lock, checked_at) {
            LockPlanModel::Replace(granted(owner, validity, granted_at), version)
        } else {
            LockPlanModel::Leave
        },
    }
}

/// How to renew a lease: only its owner may, and only while it lasts.
pub open spec fn renew_plan<V>(
    observed: Option<(LockModel, V)>,
    owner: Seq<char>,
    validity: Duration,
    checked_at: i64,
    granted_at: i64,
) -> LockPlanModel<V> {
    match observed {
        None => LockPlanModel::Leave,
        Some((lock, version)) => if lock.owner != owner || free_at(lock, checked_at) {
            LockPlanModel::Leave
        } else {
            LockPlanModel::Replace(
                LockModel { valid_until: lease_end(granted_at, validity), ..lock },
                version,
            )
        },
    }
}

/// How to release a lease: its owner marks it expired.
pub open spec fn release_plan<V>(
    observed: Option<(LockModel, V)>,
    owner: Seq<char>,
    now: i64,
) -> LockPlanModel<V> {
    match observed {
        None => LockPlanModel::Leave,
        Some((lock, version)) => if lock.owner != owner {
            LockPlanModel::Leave
        } else {
            LockPlanModel::Replace(
                LockModel { expired: true, valid_until: now, owner: lock.owner },
                version,
            )
        },
    }
}

/// Durations that a storage lock can work with: none is empty, and a lease lasts at least ten
/// seconds and ten renewal intervals.
pub open spec fn usable_durations(
    wait_timeout: Duration,
    retry_wait: Duration,
    validity: Duration,
    renew_interval: Duration,
) -> bool {
    let ten_renewals: nat = if renew_interval@ * 10 <= time::MAX_NANOS {
        renew_interval@ * 10
    } else {
        time::MAX_NANOS as nat
    };
    &&& wait_timeout@ > 0
    &&& retry_wait@ > 0
    &&& validity@ >= 10_000_000_000
    &&& renew_interval@ > 0
    &&& validity@ >= ten_renewals
}

/// The error for durations that a storage lock cannot work with.
pub open spec fn unusable_durations() -> CoreErrorModel {
    CoreErrorModel::Write(
        "storage lock durations must be non-zero; validity must be at least 10 seconds and 10x the renewal interval"@,
    )
}

/// Conditional-write lease stored alongside table metadata.
#[derive(Clone, Copy, Debug)]
pub struct StorageBasedLockProvider {
    wait_timeout: Duration,
    retry_wait: Duration,
    validity: Duration,
    renew_interval: Duration,
}

impl StorageBasedLockProvider {
    #[verifier::type_invariant]
    spec fn usable(self) -> bool {
        usable_durations(self.wait_timeout, self.retry_wait, self.validity, self.renew_interval)
    }

    /// How long an acquisition may wait.
    pub closed spec fn wait_timeout_spec(&self) -> Duration {
        self.wait_timeout
    }

    /// How long to wait between two attempts.
    pub closed spec fn retry_wait_spec(&self) -> Duration {
        self.retry_wait
    }

    /// How long a lease lasts.
    pub closed spec fn validity_spec(&self) -> Duration {
        self.validity
    }

    /// How long to wait between two renewals.
    pub closed spec fn renew_interval_spec(&self) -> Duration {
        self.renew_interval
    }

    /// Construct a provider.
    pub fn new(
        wait_timeout: Duration,
        retry_wait: Duration,
        validity: Duration,
        renew_interval: Duration,
    ) -> (r: Result<Self, CoreError>)
        ensures
            match r {
                Ok(provider) => {
                    &&& usable_durations(wait_timeout, retry_wait, validity, renew_interval)
                    &&& provider.wait_timeout_spec() == wait_timeout
                    &&& provider.retry_wait_spec() == retry_wait
                    &&& provider.validity_spec() == validity
                    &&& provider.renew_interval_spec() == renew_interval
                },
                Err(error) => {
                    &&& !usable_durations(wait_timeout, retry_wait, validity, renew_interval)
                    &&& error@ == unusable_durations()
                },
            },
    {
        if wait_timeout.is_zero() || retry_wait.is_zero() || validity.shorter_than(
            &Duration::from_secs(10),
        ) || renew_interval.is_zero() || validity.shorter_than(&renew_interval.saturating_mul(10)) {
            return Err(
                CoreError::Write(
                    "storage lock durations must be non-zero; validity must be at least 10 seconds and 10x the renewal interval".to_owned(),
                ),
            );
        }
        Ok(StorageBasedLockProvider { wait_timeout, retry_wait, validity, renew_interval })
    }

    /// The lease that is granted to `owner` at `now`.
    pub fn new_lock_data_at(&self, owner: &str, now: i64) -> (r: StorageLockData)
        ensures
            r@ == granted(owner@, self.validity_spec(), now),
    {
        StorageLockData {
            expired: false,
            valid_until: saturating_sum(now, self.validity.millis_i64()),
            owner: owner.to_owned(),
        }
    }

    /// The lease that is granted to `owner` now.
    pub fn new_lock_data(&self, owner: &str) -> (r: StorageLockData)
        ensures
            exists|now: i64| #[trigger]
                time::is_clock_millis(now) && r@ == granted(owner@, self.validity_spec(), now),
    {
        let now: i64 = time::now_ms();
        self.new_lock_data_at(owner, now)
    }

    /// Whether a lock is free at `now`.
    pub fn definitely_expired_at(lock: &StorageLockData, now: i64) -> (r: bool)
        ensures
            r == free_at(lock@, now),
            r <==> lock.expired || now >= lock.valid_until + 500 || now == i64::MAX,
    {
        lock.expired || now >= saturating_sum(lock.valid_until, CLOCK_DRIFT_BUFFER_MS)
    }

    /// Whether a lock is free now.
    pub fn definitely_expired(lock: &StorageLockData) -> (r: bool)
        ensures
            exists|now: i64| #[trigger] time::is_clock_millis(now) && r == free_at(lock@, now),
    {
        let now: i64 = time::now_ms();
        Self::definitely_expired_at(lock, now)
    }

    /// How to acquire a lock for `owner` that was read as `observed`: the lease is granted at
    /// `granted_at`, and whether the lock is free is judged at `checked_at`.
    pub fn try_acquire_once_at<V>(
        &self,
        owner: &str,
        observed: Option<VersionedLock<V>>,
        granted_at: i64,
        checked_at: i64,
    ) -> (r: LockPlan<V>)
        ensures
            r@ == acquire_plan(
                observation(observed),
                owner@,
                self.validity_spec(),
                granted_at,
                checked_at,
            ),
    {
        let new_lock: StorageLockData = self.new_lock_data_at(owner, granted_at);
        match observed {
            None => LockPlan::Create(new_lock),
            Some(current) => {
                if !Self::definitely_expired_at(&current.data, checked_at) {
                    return LockPlan::Leave;
                }
                LockPlan::Replace(new_lock, current.version)
            },
        }
    }

    /// How to acquire a lock for `owner` that was just read as `observed`.
    pub fn try_acquire_once<V>(&self, owner: &str, observed: Option<VersionedLock<V>>) -> (r:
        LockPlan<V>)
        ensures
            exists|granted_at: i64, checked_at: i64| #[trigger]
                time::is_clock_millis(granted_at) && #[trigger] time::is_clock_millis(checked_at)
                    && r@ == acquire_plan(
                    observation(observed),
                    owner@,
                    self.validity_spec(),
                    granted_at,
                    checked_at,
                ),
    {
        let granted_at: i64 = time::now_ms();
        let checked_at: i64 = time::now_ms();
        self.try_acquire_once_at(owner, observed, granted_at, checked_at)
    }

    /// Whether a conditional write of a new lease acquired the lock.
    pub fn acquired(put: ConditionalPutResult) -> (r: bool)
        ensures
            r == (put == ConditionalPutResult::Written),
    {
        matches!(put, ConditionalPutResult::Written)
    }

    /// How to renew the lease of `owner` on a lock that was read as `observed`: whether the lease
    /// lasts is judged at `checked_at`, and the new term starts at `granted_at`.
    pub fn renew_lease_at<V>(
        owner: &str,
        validity: &Duration,
        observed: Option<VersionedLock<V>>,
        checked_at: i64,
        granted_at: i64,
    ) -> (r: LockPlan<V>)
        ensures
            r@ == renew_plan(observation(observed), owner@, *validity, checked_at, granted_at),
    {
        match observed {
            None => LockPlan::Leave,
            Some(current) => {
                if !same_text(&current.data.owner, owner) || Self::definitely_expired_at(
                    &current.data,
                    checked_at,
                ) {
                    return LockPlan::Leave;
                }
                let data: StorageLockData = StorageLockData {
                    expired: current.data.expired,
                    valid_until: saturating_sum(granted_at, validity.millis_i64()),
                    owner: current.data.owner,
                };
                LockPlan::Replace(data, current.version)
            },
        }
    }

    /// How to renew the lease of `owner` on a lock that was just read as `observed`. Leaving the
    /// file alone is a definitive loss of the lock.
    pub fn renew_lease<V>(
        owner: &str,
        validity: &Duration,
        observed: Option<VersionedLock<V>>,
    ) -> (r: LockPlan<V>)
        ensures
            exists|checked_at: i64, granted_at: i64| #[trigger]
                time::is_clock_millis(checked_at) && #[trigger] time::is_clock_millis(granted_at)
                    && r@ == renew_plan(
                    observation(observed),
                    owner@,
                    *validity,
                    checked_at,
                    granted_at,
                ),
    {
        let checked_at: i64 = time::now_ms();
        let granted_at: i64 = time::now_ms();
        Self::renew_lease_at(owner, validity, observed, checked_at, granted_at)
    }

    /// The end of a renewed lease, `None` where another writer got in between.
    pub fn renewed(valid_until: i64, put: ConditionalPutResult) -> (r: Option<i64>)
        ensures
            r == if put == ConditionalPutResult::Written {
                Some(valid_until)
            } else {
                None
            },
    {
        match put {
            ConditionalPutResult::Written => Some(valid_until),
            ConditionalPutResult::Conflict => None,
        }
    }

    /// How to release the lease of `owner` at `now` on a lock that was read as `observed`.
    pub fn release_lease_at<V>(owner: &str, observed: Option<VersionedLock<V>>, now: i64) -> (r:
        LockPlan<V>)
        ensures
            r@ == release_plan(observation(observed), owner@, now),
    {
        match observed {
            None => LockPlan::Leave,
            Some(current) => {
                if !same_text(&current.data.owner, owner) {
                    return LockPlan::Leave;
                }
                LockPlan::Replace(
                    StorageLockData { expired: true, valid_until: now, owner: current.data.owner },
                    current.version,
                )
            },
        }
    }

    /// How to release the lease of `owner` on a lock that was just read as `observed`.
    pub fn release_lease<V>(owner: &str, observed: Option<VersionedLock<V>>) -> (r: LockPlan<V>)
        ensures
            exists|now: i64| #[trigger]
                time::is_clock_millis(now) && r@ == release_plan(observation(observed), owner@, now),
    {
        let now: i64 = time::now_ms();
        Self::release_lease_at(owner, observed, now)
    }

    /// The lease of `owner`, who acquired the lock, as it stands at `now`.
    pub fn lease_at(&self, owner: String, now: i64) -> (r: LockLease)
        ensures
            r@ == Some(self.fresh_lease(owner@, now)),
    {
        LockLease::storage(
            owner,
            self.validity,
            self.retry_wait,
            self.renew_interval,
            saturating_sum(now, self.validity.millis_i64()),
        )
    }

    /// The lease of `owner`, who just acquired the lock.
    pub fn lease(&self, owner: String) -> (r: LockLease)
        ensures
            exists|now: i64| #[trigger]
                time::is_clock_millis(now) && r@ == Some(self.fresh_lease(owner@, now)),
    {
        let now: i64 = time::now_ms();
        self.lease_at(owner, now)
    }

    /// The lease of an owner who acquired the lock at `now`.
    pub open spec fn fresh_lease(&self, owner: Seq<char>, now: i64) -> LeaseModel {
        LeaseModel {
            owner,
            validity: self.validity_spec(),
            retry_wait: self.retry_wait_spec(),
            renew_interval: self.renew_interval_spec(),
            stopped: false,
            lost: false,
            last_valid_until: lease_end(now, self.validity_spec()),
        }
    }

    /// The error for a lock file that cannot be written down.
    pub fn serialize_error(detail: &str) -> (r: CoreError)
        ensures
            r@ == CoreErrorModel::Write("serialize storage lock: "@ + detail@),
    {
        CoreError::Write("serialize storage lock: ".to_owned().concat(detail))
    }

    /// The error for a lock file that cannot be read.
    pub fn deserialize_error(detail: &str) -> (r: CoreError)
        ensures
            r@ == CoreErrorModel::Write("invalid "@ + TABLE_LOCK_PATH@ + ": "@ + detail@),
    {
        CoreError::Write("invalid ".to_owned().concat(TABLE_LOCK_PATH).concat(": ").concat(detail))
    }
}

/// `c` is a digit of a lower-case hexadecimal number.
pub open spec fn is_hex_digit(c: char) -> bool {
    '0' <= c <= '9' || 'a' <= c <= 'f'
}

/// The hyphenated form of a random UUID: 32 lower-case hexadecimal digits in groups of 8, 4, 4, 4
/// and 12, the version digit 4 and the variant digit 8, 9, a or b.
pub open spec fn is_random_uuid(id: Seq<char>) -> bool {
    &&& id.len() == 36
    &&& forall|i: int|
        0 <= i < 36 ==> if i == 8 || i == 13 || i == 18 || i == 23 {
            #[trigger] id[i] == '-'
        } else {
            is_hex_digit(id[i])
        }
    &&& id[14] == '4'
    &&& (id[19] == '8' || id[19] == '9' || id[19] == 'a' || id[19] == 'b')
}

/// `uuid::Uuid::new_v4`, in its hyphenated lower-case form: a version 4 UUID from the system's
/// source of randomness. That two identities differ is overwhelmingly likely and not claimed.
#[verifier::external_body]
fn random_identity() -> (r: String)
    ensures
        is_random_uuid(r@),
{
    uuid::Uuid::new_v4().to_string()
}

/// What follows an attempt to acquire the lock.
#[derive(Debug)]
pub enum AcquireStep {
    /// The lock is acquired.
    Granted,
    /// Try again after this wait.
    Retry(Duration),
    /// The deadline has passed.
    TimedOut(CoreError),
}

/// What follows an attempt to acquire the lock, by values.
pub enum AcquireStepModel {
    Granted,
    Retry(Duration),
    TimedOut(CoreErrorModel),
}

impl View for AcquireStep {
    type V = AcquireStepModel;

    open spec fn view(&self) -> AcquireStepModel {
        match self {
            AcquireStep::Granted => AcquireStepModel::Granted,
            AcquireStep::Retry(wait) => AcquireStepModel::Retry(*wait),
            AcquireStep::TimedOut(error) => AcquireStepModel::TimedOut(error@),
        }
    }
}

/// An acquisition of the storage lock under way.
///
/// A provider can be used again and again. Every acquisition has an identity of its own, so that a
/// stale lease from an earlier one can never renew or release a newer one.
#[derive(Debug)]
pub struct Acquisition {
    owner: String,
    last_error: Option<CoreError>,
}

/// An error by its texts, where there is one.
pub open spec fn error_model(error: Option<CoreError>) -> Option<CoreErrorModel> {
    match error {
        Some(cause) => Some(cause@),
        None => None,
    }
}

/// The error for an acquisition that ran out of time, with the last storage error that it met.
pub open spec fn timed_out(
    wait_timeout: Duration,
    last_error: Option<CoreErrorModel>,
) -> CoreErrorModel {
    let head = "timed out after "@ + text::decimal(wait_timeout.millis()) + " ms acquiring "@
        + TABLE_LOCK_PATH@;
    CoreErrorModel::Write(
        match last_error {
            Some(error) => head + "; last storage error: "@ + error.text(),
            None => head,
        },
    )
}

/// The last storage error after an attempt.
pub open spec fn error_after(
    last_error: Option<CoreErrorModel>,
    outcome: Result<bool, CoreError>,
) -> Option<CoreErrorModel> {
    match outcome {
        Err(error) => Some(error@),
        Ok(_) => last_error,
    }
}

/// What follows an attempt that was over `elapsed` after the acquisition began.
pub open spec fn acquire_step(
    provider: StorageBasedLockProvider,
    last_error: Option<CoreErrorModel>,
    outcome: Result<bool, CoreError>,
    elapsed: Duration,
) -> AcquireStepModel {
    if outcome matches Ok(true) {
        AcquireStepModel::Granted
    } else if elapsed@ >= provider.wait_timeout_spec()@ {
        AcquireStepModel::TimedOut(
            timed_out(provider.wait_timeout_spec(), error_after(last_error, outcome)),
        )
    } else {
        AcquireStepModel::Retry(provider.retry_wait_spec())
    }
}

impl Acquisition {
    /// The identity that the acquisition asks for the lock under.
    pub closed spec fn owner_spec(&self) -> Seq<char> {
        self.owner@
    }

    /// The last storage error that the acquisition met.
    pub closed spec fn last_error_spec(&self) -> Option<CoreErrorModel> {
        error_model(self.last_error)
    }

    /// Begin an acquisition under a fresh identity.
    pub fn start() -> (r: Self)
        ensures
            is_random_uuid(r.owner_spec()),
            r.last_error_spec() is None,
    {
        Acquisition { owner: random_identity(), last_error: None }
    }

    /// The identity that the acquisition asks for the lock under.
    pub fn owner(&self) -> (r: &str)
        ensures
            r@ == self.owner_spec(),
    {
        self.owner.as_str()
    }

    /// The identity that the lock was acquired under.
    pub fn into_owner(self) -> (r: String)
        ensures
            r@ == self.owner_spec(),
    {
        self.owner
    }

    /// Take in the outcome of an attempt: whether the lock was acquired, or the storage error that
    /// it met. The attempt was over `elapsed` after the acquisition began.
    pub fn on_attempt(
        &mut self,
        provider: &StorageBasedLockProvider,
        outcome: Result<bool, CoreError>,
        elapsed: Duration,
    ) -> (r: AcquireStep)
        ensures
            final(self).owner_spec() == old(self).owner_spec(),
            final(self).last_error_spec() == error_after(old(self).last_error_spec(), outcome),
            r@ == acquire_step(*provider, old(self).last_error_spec(), outcome, elapsed),
    {
        match outcome {
            Ok(true) => {
                return AcquireStep::Granted;
            },
            Ok(false) => {},
            Err(error) => {
                self.last_error = Some(error);
            },
        }
        if elapsed.shorter_than(&provider.wait_timeout) {
            return AcquireStep::Retry(provider.retry_wait);
        }
        let head: String = "timed out after ".to_owned()
            .concat(&decimal_text(provider.wait_timeout.as_millis()))
            .concat(" ms acquiring ")
            .concat(TABLE_LOCK_PATH);
        match &self.last_error {
            Some(error) => AcquireStep::TimedOut(
                CoreError::Write(head.concat("; last storage error: ").concat(&error.message())),
            ),
            None => AcquireStep::TimedOut(CoreError::Write(head)),
        }
    }
}

/// The base paths that have a process-local lock, in the order in which they got one.
#[derive(Debug)]
pub struct LockRegistry {
    paths: Vec<String>,
}

/// The position of a base path, which is that of its lock.
pub open spec fn slot_of(paths: Seq<Seq<char>>, base_path: Seq<char>) -> int {
    match paths.index_of_first(base_path) {
        Some(i) => i,
        None => paths.len() as int,
    }
}

/// The base paths after one of them was asked for.
pub open spec fn with_path(paths: Seq<Seq<char>>, base_path: Seq<char>) -> Seq<Seq<char>> {
    if paths.contains(base_path) {
        paths
    } else {
        paths.push(base_path)
    }
}

impl View for LockRegistry {
    type V = Seq<Seq<char>>;

    closed spec fn view(&self) -> Seq<Seq<char>> {
        self.paths@.map_values(|path: String| path@)
    }
}

impl LockRegistry {
    /// No base path has a lock.
    pub fn new() -> (r: Self)
        ensures
            r@.len() == 0,
    {
        LockRegistry { paths: Vec::new() }
    }

    /// The position of the lock of a base path, which gets one if it has none yet.
    pub fn slot(&mut self, base_path: &str) -> (r: usize)
        ensures
            r == slot_of(old(self)@, base_path@),
            final(self)@ == with_path(old(self)@, base_path@),
    {
        let mut i: usize = 0;
        while i < self.paths.len()
            invariant
                *self == *old(self),
                i <= self.paths.len(),
                forall|j: int| 0 <= j < i ==> #[trigger] self@[j] != base_path@,
            decreases self.paths.len() - i,
        {
            if same_text(&self.paths[i], base_path) {
                proof {
                    assert(self@[i as int] == base_path@);
                    assert(self@.contains(base_path@));
                    self@.index_of_first_ensures(base_path@);
                }
                return i;
            }
            proof {
                assert(self@[i as int] == self.paths@[i as int]@);
            }
            i = i + 1;
        }
        self.paths.push(base_path.to_owned());
        proof {
            old(self)@.index_of_first_ensures(base_path@);
            assert(self@ == old(self)@.push(base_path@));
        }
        i
    }
}

/// One lock per table base path, shared by every writer in this process.
#[derive(Debug)]
pub struct InProcessLockProvider {
    base_path: String,
    wait_timeout: Option<Duration>,
}

/// A process-local lock provider, by values.
pub struct ProcessLockModel {
    /// The base path of the table.
    pub base_path: Seq<char>,
    /// How long an acquisition may wait, where that is limited.
    pub wait_timeout: Option<Duration>,
}

impl View for InProcessLockProvider {
    type V = ProcessLockModel;

    closed spec fn view(&self) -> ProcessLockModel {
        ProcessLockModel { base_path: self.base_path@, wait_timeout: self.wait_timeout }
    }
}

/// The error for a process-local lock that was not free in time.
pub open spec fn process_lock_timed_out(
    base_path: Seq<char>,
    wait_timeout: Duration,
) -> CoreErrorModel {
    CoreErrorModel::Write(
        "timed out after "@ + text::decimal(wait_timeout.millis())
            + " ms acquiring the in-process lock of "@ + base_path,
    )
}

impl InProcessLockProvider {
    /// Create a process-local provider for `base_path` whose acquisitions wait without limit.
    pub fn new(base_path: String) -> (r: Self)
        ensures
            r@ == (ProcessLockModel { base_path: base_path@, wait_timeout: None }),
    {
        InProcessLockProvider { base_path, wait_timeout: None }
    }

    /// The provider with a limit on how long an acquisition may wait.
    pub fn with_wait_timeout(self, wait_timeout: Duration) -> (r: Self)
        ensures
            r@ == (ProcessLockModel { wait_timeout: Some(wait_timeout), ..self@ }),
    {
        InProcessLockProvider { base_path: self.base_path, wait_timeout: Some(wait_timeout) }
    }

    /// How long an acquisition may wait, where that is limited.
    pub fn wait_timeout(&self) -> (r: Option<Duration>)
        ensures
            r == self@.wait_timeout,
    {
        self.wait_timeout
    }

    /// The error for a lock that was not free within `wait_timeout`.
    pub fn timeout_error(&self, wait_timeout: Duration) -> (r: CoreError)
        ensures
            r@ == process_lock_timed_out(self@.base_path, wait_timeout),
    {
        CoreError::Write(
            "timed out after ".to_owned()
                .concat(&decimal_text(wait_timeout.as_millis()))
                .concat(" ms acquiring the in-process lock of ")
                .concat(&self.base_path),
        )
    }

    /// The position of the lock of the provider's base path.
    pub fn lock_for_base_path(&self, registry: &mut LockRegistry) -> (r: usize)
        ensures
            r == slot_of(old(registry)@, self@.base_path),
            final(registry)@ == with_path(old(registry)@, self@.base_path),
    {
        registry.slot(&self.base_path)
    }
}

/// The base paths after several of them were asked for, one after the other.
pub open spec fn with_paths(paths: Seq<Seq<char>>, asked: Seq<Seq<char>>) -> Seq<Seq<char>>
    decreases asked.len(),
{
    if asked.len() == 0 {
        paths
    } else {
        with_path(with_paths(paths, asked.drop_last()), asked.last())
    }
}

/// A base path keeps its position whatever paths are asked for later.
proof fn lemma_slot_is_kept(paths: Seq<Seq<char>>, asked: Seq<Seq<char>>, path: Seq<char>)
    requires
        paths.contains(path),
    ensures
        with_paths(paths, asked).contains(path),
        slot_of(with_paths(paths, asked), path) == slot_of(paths, path),
    decreases asked.len(),
{
    if asked.len() > 0 {
        let before = with_paths(paths, asked.drop_last());
        let after = with_paths(paths, asked);
        lemma_slot_is_kept(paths, asked.drop_last(), path);
        before.index_of_first_ensures(path);
        let i = slot_of(before, path);
        assert(after[i] == path);
        after.index_of_first_ensures(path);
    }
}

/// Writers of one base path share one lock at any two times, writers of different base paths never
/// do: whatever paths are asked for in between, a path has the position that it first got, and no
/// other path has it.
pub proof fn law_one_lock_per_base_path(
    paths: Seq<Seq<char>>,
    first: Seq<char>,
    asked: Seq<Seq<char>>,
    second: Seq<char>,
)
    ensures
        ({
            let later = with_paths(with_path(paths, first), asked);
            &&& slot_of(later, first) == slot_of(paths, first)
            &&& slot_of(paths, first) == slot_of(later, second) <==> first == second
        }),
{
    let after_first = with_path(paths, first);
    let later = with_paths(after_first, asked);
    paths.index_of_first_ensures(first);
    if !paths.contains(first) {
        assert(after_first[paths.len() as int] == first);
    }
    assert(after_first[slot_of(paths, first)] == first);
    after_first.index_of_first_ensures(first);
    lemma_slot_is_kept(after_first, asked, first);
    later.index_of_first_ensures(first);
    later.index_of_first_ensures(second);
}

/// A lock that this process can hold for a table.
#[derive(Debug)]
pub enum TableLockProvider {
    InProcess(InProcessLockProvider),
    StorageBased(StorageBasedLockProvider),
}

/// The error for a storage lock on a local file system.
pub open spec fn local_storage() -> CoreErrorModel {
    CoreErrorModel::Unsupported(
        "the RFC-91 storage lock requires an object store with atomic conditional writes; local file:// storage is not supported"@,
    )
}

/// Resolve the lock provider configured for a table with these options, base path and storage URL
/// scheme.
pub fn lock_provider_for(configs: &HudiConfigs, base_path: String, scheme: &str) -> (r: Result<
    TableLockProvider,
    CoreError,
>)
    ensures
        match crate::config::write::resolved(configs@) {
            Err(cause) => r matches Err(error) && error@ == cause,
            Ok(config) => if config.lock_provider == WriteLockProvider::InProcess {
                r matches Ok(TableLockProvider::InProcess(provider)) && {
                    &&& provider@.base_path == base_path@
                    &&& provider@.wait_timeout matches Some(wait_timeout)
                    &&& wait_timeout@ == config.lock_wait_timeout_ms * 1_000_000
                }
            } else if scheme@ == "file"@ {
                r matches Err(error) && error@ == local_storage()
            } else {
                r matches Ok(TableLockProvider::StorageBased(provider)) && {
                    &&& provider.wait_timeout_spec()@ == config.lock_wait_timeout_ms * 1_000_000
                    &&& provider.retry_wait_spec()@ == config.lock_retry_wait_ms * 1_000_000
                    &&& provider.validity_spec()@ == config.storage_lock_validity_seconds
                        * 1_000_000_000
                    &&& provider.renew_interval_spec()@
                        == config.storage_lock_renew_interval_seconds * 1_000_000_000
                }
            },
        },
{
    let config: WriteConcurrencyConfig = WriteConcurrencyConfig::from_configs(configs)?;
    match config.lock_provider {
        WriteLockProvider::InProcess => Ok(
            TableLockProvider::InProcess(
                InProcessLockProvider::new(base_path).with_wait_timeout(
                    Duration::from_millis(config.lock_wait_timeout_ms as u64),
                ),
            ),
        ),
        WriteLockProvider::StorageBased => {
            if same_text(scheme, "file") {
                return Err(
                    CoreError::Unsupported(
                        "the RFC-91 storage lock requires an object store with atomic conditional writes; local file:// storage is not supported".to_owned(),
                    ),
                );
            }
            proof {
                crate::config::write::law_resolved_counts(configs@);
            }
            let provider: StorageBasedLockProvider = StorageBasedLockProvider::new(
                Duration::from_millis(config.lock_wait_timeout_ms as u64),
                Duration::from_millis(config.lock_retry_wait_ms as u64),
                Duration::from_secs(config.storage_lock_validity_seconds as u64),
                Duration::from_secs(config.storage_lock_renew_interval_seconds as u64),
            )?;
            Ok(TableLockProvider::StorageBased(provider))
        },
    }
}

} // verus!
