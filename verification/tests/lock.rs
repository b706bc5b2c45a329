use hudi_write::error::CoreError;
use hudi_write::time::{now_ms, Duration};
use hudi_write::write::lease::{LeaseCheck, LockLease, ReleaseAttempts, ReleaseStep};
use hudi_write::write::lock::{
    AcquireStep, Acquisition, ConditionalPutResult, InProcessLockProvider, LockPlan, LockRegistry,
    StorageBasedLockProvider, StorageLockData, VersionedLock, TABLE_LOCK_PATH,
};

fn copy(data: &StorageLockData) -> StorageLockData {
    StorageLockData {
        expired: data.expired,
        valid_until: data.valid_until,
        owner: data.owner.clone(),
    }
}

/// A lock file that is written under a condition.
struct LockFile {
    content: Option<(StorageLockData, u64)>,
}

impl LockFile {
    fn new() -> Self {
        LockFile { content: None }
    }

    fn read(&self) -> Option<VersionedLock<u64>> {
        self.content.as_ref().map(|(data, version)| VersionedLock {
            data: copy(data),
            version: *version,
        })
    }

    fn owner(&self) -> &str {
        &self.content.as_ref().unwrap().0.owner
    }

    fn version(&self) -> u64 {
        self.content.as_ref().unwrap().1
    }

    /// `None` where the plan leaves the file alone.
    fn put(&mut self, plan: LockPlan<u64>) -> Option<ConditionalPutResult> {
        match plan {
            LockPlan::Leave => None,
            LockPlan::Create(data) => {
                if self.content.is_some() {
                    return Some(ConditionalPutResult::Conflict);
                }
                self.content = Some((data, 1));
                Some(ConditionalPutResult::Written)
            }
            LockPlan::Replace(data, version) => match &self.content {
                Some((_, current)) if *current == version => {
                    self.content = Some((data, version + 1));
                    Some(ConditionalPutResult::Written)
                }
                _ => Some(ConditionalPutResult::Conflict),
            },
        }
    }
}

fn provider(wait_ms: u64) -> StorageBasedLockProvider {
    StorageBasedLockProvider::new(
        Duration::from_millis(wait_ms),
        Duration::from_millis(5),
        Duration::from_secs(10),
        Duration::from_secs(1),
    )
    .unwrap()
}

/// Acquire the lock at `now`, with one attempt every five milliseconds.
fn lock(
    provider: &StorageBasedLockProvider,
    file: &mut LockFile,
    now: i64,
) -> Result<LockLease, CoreError> {
    let mut acquisition = Acquisition::start();
    let mut elapsed: u64 = 0;
    loop {
        let at = now + elapsed as i64;
        let plan = provider.try_acquire_once_at(acquisition.owner(), file.read(), at, at);
        let acquired = file
            .put(plan)
            .map(StorageBasedLockProvider::acquired)
            .unwrap_or(false);
        match acquisition.on_attempt(provider, Ok(acquired), Duration::from_millis(elapsed)) {
            AcquireStep::Granted => return Ok(provider.lease_at(acquisition.into_owner(), at)),
            AcquireStep::Retry(wait) => elapsed += wait.as_millis() as u64,
            AcquireStep::TimedOut(error) => return Err(error),
        }
    }
}

/// Renew the lease on the lock file, by the clock.
fn renew(lease: &LockLease, file: &mut LockFile) -> Option<i64> {
    match lease.plan_renewal(file.read()) {
        LockPlan::Replace(data, version) => {
            let valid_until = data.valid_until;
            let put = file.put(LockPlan::Replace(data, version)).unwrap();
            StorageBasedLockProvider::renewed(valid_until, put)
        }
        _ => None,
    }
}

fn validate(lease: &mut LockLease, file: &mut LockFile) -> Result<(), CoreError> {
    match lease.validate() {
        LeaseCheck::Valid => Ok(()),
        LeaseCheck::Refused(error) => Err(error),
        LeaseCheck::Renew => {
            let outcome = renew(lease, file);
            lease.on_validated(Ok(outcome))
        }
    }
}

fn release(lease: &mut LockLease, file: &mut LockFile) {
    if lease.release() {
        file.put(lease.plan_release(file.read()));
    }
}

#[test]
fn storage_lock_serializes_independent_providers() {
    let mut file = LockFile::new();
    let first = provider(50);
    let second = provider(20);

    let mut lease = lock(&first, &mut file, now_ms()).unwrap();
    assert!(lock(&second, &mut file, now_ms()).is_err());
    validate(&mut lease, &mut file).unwrap();
    release(&mut lease, &mut file);

    let mut second_lease = lock(&second, &mut file, now_ms()).unwrap();
    validate(&mut second_lease, &mut file).unwrap();
    release(&mut second_lease, &mut file);
}

#[test]
fn stale_lease_cannot_expire_a_new_owner() {
    let mut file = LockFile::new();
    let first = provider(50);
    let mut first_lease = lock(&first, &mut file, now_ms()).unwrap();
    let observed = file.read().unwrap();
    let mut expired = observed.data;
    expired.expired = true;
    file.put(LockPlan::Replace(expired, observed.version));

    let second = provider(50);
    let mut second_lease = lock(&second, &mut file, now_ms()).unwrap();
    release(&mut first_lease, &mut file);
    validate(&mut second_lease, &mut file).unwrap();
    release(&mut second_lease, &mut file);
}

#[test]
fn heartbeat_renews_the_storage_lease() {
    let validity = Duration::from_millis(200);
    let start: i64 = 1_000_000;
    let mut data = StorageLockData {
        expired: false,
        valid_until: start + 200,
        owner: "first".to_string(),
    };
    let mut lease = LockLease::storage(
        "first".to_string(),
        validity,
        Duration::from_millis(5),
        Duration::from_millis(20),
        start + 200,
    );
    // Longer than validity + the conservative clock-drift buffer: without
    // heartbeat renewal the second provider could take over.
    for beat in 1..38 {
        let now = start + 20 * beat;
        assert!(lease.heartbeat_due());
        let observed = Some(VersionedLock {
            data,
            version: beat,
        });
        match StorageBasedLockProvider::renew_lease_at("first", &validity, observed, now, now) {
            LockPlan::Replace(renewed, version) => {
                assert_eq!(version, beat);
                assert_eq!(renewed.valid_until, now + 200);
                assert!(lease.on_heartbeat(Ok(Some(renewed.valid_until)), now));
                data = renewed;
            }
            other => panic!("unexpected plan {other:?}"),
        }
    }
    let end = start + 750;
    assert!(!StorageBasedLockProvider::definitely_expired_at(&data, end));
    assert!(matches!(lease.validate(), LeaseCheck::Renew));
    let observed = Some(VersionedLock {
        data,
        version: 38i64,
    });
    match StorageBasedLockProvider::renew_lease_at("first", &validity, observed, end, end) {
        LockPlan::Replace(renewed, 38) => {
            let outcome = StorageBasedLockProvider::renewed(
                renewed.valid_until,
                ConditionalPutResult::Written,
            );
            assert_eq!(outcome, Some(end + 200));
            lease.on_validated(Ok(outcome)).unwrap();
            data = renewed;
        }
        other => panic!("unexpected plan {other:?}"),
    }
    let second = provider(30);
    let mut file = LockFile {
        content: Some((data, 39)),
    };
    assert_eq!(
        lock(&second, &mut file, end).unwrap_err(),
        CoreError::Write(format!("timed out after 30 ms acquiring {TABLE_LOCK_PATH}"))
    );
    assert_eq!(file.owner(), "first");
    let unrenewed = StorageLockData {
        expired: false,
        valid_until: start + 200,
        owner: "first".to_string(),
    };
    assert!(StorageBasedLockProvider::definitely_expired_at(
        &unrenewed, end
    ));
    assert!(lease.release());
    assert!(!lease.heartbeat_due());
    file.put(StorageBasedLockProvider::release_lease_at(
        "first",
        file.read(),
        end + 30,
    ));
    assert!(lock(&second, &mut file, end + 30).is_ok());
}

#[test]
fn a_free_lock_is_granted_for_the_whole_validity() {
    let provider = provider(50);
    match provider.try_acquire_once_at("me", None::<VersionedLock<u64>>, 1_000, 1_000) {
        LockPlan::Create(data) => assert_eq!(
            data,
            StorageLockData {
                expired: false,
                valid_until: 11_000,
                owner: "me".to_string()
            }
        ),
        other => panic!("unexpected plan {other:?}"),
    }
    let late = provider.new_lock_data_at("me", i64::MAX - 1);
    assert_eq!(late.valid_until, i64::MAX);
}

#[test]
fn a_lease_is_exclusive_until_its_end_and_the_drift_after_it() {
    let provider = provider(50);
    let held = provider.new_lock_data_at("holder", 1_000);
    let plan_at = |checked_at: i64| {
        provider.try_acquire_once_at(
            "other",
            Some(VersionedLock {
                data: copy(&held),
                version: 7u64,
            }),
            checked_at,
            checked_at,
        )
    };
    assert!(matches!(plan_at(1_000), LockPlan::Leave));
    assert!(matches!(plan_at(11_000), LockPlan::Leave));
    assert!(matches!(plan_at(11_499), LockPlan::Leave));
    match plan_at(11_500) {
        LockPlan::Replace(data, version) => {
            assert_eq!(version, 7);
            assert_eq!(data.owner, "other");
            assert_eq!(data.valid_until, 21_500);
            assert!(!data.expired);
        }
        other => panic!("unexpected plan {other:?}"),
    }
}

#[test]
fn of_two_writers_one_acquires() {
    let provider = provider(50);
    let mut file = LockFile::new();
    let first = provider.try_acquire_once_at("first", file.read(), 1_000, 1_000);
    let second = provider.try_acquire_once_at("second", file.read(), 1_000, 1_000);
    assert_eq!(file.put(second), Some(ConditionalPutResult::Written));
    assert_eq!(file.put(first), Some(ConditionalPutResult::Conflict));
    assert_eq!(file.owner(), "second");

    let first = provider.try_acquire_once_at("first", file.read(), 50_000, 50_000);
    let third = provider.try_acquire_once_at("third", file.read(), 50_000, 50_000);
    assert_eq!(file.put(first), Some(ConditionalPutResult::Written));
    assert_eq!(file.put(third), Some(ConditionalPutResult::Conflict));
    assert_eq!(file.owner(), "first");
    assert_eq!(file.version(), 2);
}

#[test]
fn a_stale_owner_changes_nothing() {
    let lock = || {
        Some(VersionedLock {
            data: StorageLockData {
                expired: false,
                valid_until: 10_000,
                owner: "holder".to_string(),
            },
            version: 1u64,
        })
    };
    let validity = Duration::from_secs(10);
    assert!(matches!(
        StorageBasedLockProvider::renew_lease_at("stale", &validity, lock(), 0, 0),
        LockPlan::Leave
    ));
    assert!(matches!(
        StorageBasedLockProvider::release_lease_at("stale", lock(), 0),
        LockPlan::Leave
    ));
    match StorageBasedLockProvider::renew_lease_at("holder", &validity, lock(), 10_499, 10_499) {
        LockPlan::Replace(data, 1) => assert_eq!(data.valid_until, 20_499),
        other => panic!("unexpected plan {other:?}"),
    }
    assert!(matches!(
        StorageBasedLockProvider::renew_lease_at("holder", &validity, lock(), 10_500, 10_500),
        LockPlan::Leave
    ));
    assert!(matches!(
        StorageBasedLockProvider::renew_lease_at("holder", &validity, None::<VersionedLock<u64>>, 0, 0),
        LockPlan::Leave
    ));
}

#[test]
fn an_outdated_plan_has_no_effect() {
    let provider = provider(50);
    let mut file = LockFile::new();
    file.put(provider.try_acquire_once_at("holder", file.read(), 0, 0));
    let outdated = StorageBasedLockProvider::release_lease_at("holder", file.read(), 5);
    let renewal = StorageBasedLockProvider::renew_lease_at(
        "holder",
        &Duration::from_secs(10),
        file.read(),
        6,
        6,
    );
    assert_eq!(file.put(renewal), Some(ConditionalPutResult::Written));
    assert_eq!(file.put(outdated), Some(ConditionalPutResult::Conflict));
    assert_eq!(file.content.as_ref().unwrap().0.valid_until, 10_006);
    assert!(!file.content.as_ref().unwrap().0.expired);
    assert_eq!(file.version(), 2);
}

#[test]
fn a_released_lock_is_free_at_once() {
    let provider = provider(50);
    let mut file = LockFile::new();
    file.put(provider.try_acquire_once_at("first", file.read(), 1_000, 1_000));
    file.put(StorageBasedLockProvider::release_lease_at(
        "first",
        file.read(),
        1_001,
    ));
    assert_eq!(
        file.content.as_ref().unwrap().0,
        StorageLockData {
            expired: true,
            valid_until: 1_001,
            owner: "first".to_string()
        }
    );
    assert!(matches!(
        StorageBasedLockProvider::renew_lease_at(
            "first",
            &Duration::from_secs(10),
            file.read(),
            1_001,
            1_001
        ),
        LockPlan::Leave
    ));
    file.put(provider.try_acquire_once_at("second", file.read(), 1_001, 1_001));
    assert_eq!(file.owner(), "second");
    assert!(matches!(
        StorageBasedLockProvider::release_lease_at("first", file.read(), 1_002),
        LockPlan::Leave
    ));
}

#[test]
fn an_acquisition_times_out() {
    let provider = provider(20);
    let mut acquisition = Acquisition::start();
    match acquisition.on_attempt(&provider, Ok(false), Duration::from_millis(19)) {
        AcquireStep::Retry(wait) => assert_eq!(wait, Duration::from_millis(5)),
        other => panic!("unexpected step {other:?}"),
    }
    match acquisition.on_attempt(&provider, Ok(false), Duration::from_millis(20)) {
        AcquireStep::TimedOut(error) => assert_eq!(
            error,
            CoreError::Write(format!(
                "timed out after 20 ms acquiring {TABLE_LOCK_PATH}"
            ))
        ),
        other => panic!("unexpected step {other:?}"),
    }
    let storage = CoreError::Storage("connection reset".to_string());
    assert!(matches!(
        acquisition.on_attempt(&provider, Err(storage), Duration::from_millis(0)),
        AcquireStep::Retry(_)
    ));
    match acquisition.on_attempt(&provider, Ok(false), Duration::from_secs(1)) {
        AcquireStep::TimedOut(error) => assert_eq!(
            error.message(),
            "timed out after 20 ms acquiring .hoodie/.locks/table_lock.json; last storage error: \
             connection reset"
        ),
        other => panic!("unexpected step {other:?}"),
    }
    assert!(matches!(
        acquisition.on_attempt(&provider, Ok(true), Duration::from_secs(1)),
        AcquireStep::Granted
    ));
}

#[test]
fn every_acquisition_has_an_identity_of_its_own() {
    let a = Acquisition::start();
    let b = Acquisition::start();
    assert_ne!(a.owner(), b.owner());
    for owner in [a.owner(), b.owner()] {
        assert_eq!(owner.len(), 36);
        for (i, c) in owner.chars().enumerate() {
            match i {
                8 | 13 | 18 | 23 => assert_eq!(c, '-'),
                14 => assert_eq!(c, '4'),
                19 => assert!(matches!(c, '8' | '9' | 'a' | 'b')),
                _ => assert!(matches!(c, '0'..='9' | 'a'..='f')),
            }
        }
    }
    let owner = a.owner().to_string();
    assert_eq!(a.into_owner(), owner);
}

fn storage_lease(valid_until: i64) -> LockLease {
    LockLease::storage(
        "me".to_string(),
        Duration::from_secs(10),
        Duration::from_millis(5),
        Duration::from_secs(1),
        valid_until,
    )
}

#[test]
fn a_process_local_lease_is_always_valid() {
    let mut lease = LockLease::in_process();
    assert!(!lease.is_storage_lease());
    assert!(!lease.heartbeat_due());
    assert_eq!(lease.renew_interval(), None);
    assert_eq!(lease.retry_wait(), None);
    assert!(matches!(lease.validate(), LeaseCheck::Valid));
    assert!(lease.on_validated(Ok(None)).is_ok());
    assert!(!lease.on_heartbeat(Ok(Some(1)), 1));
    assert!(matches!(
        lease.plan_renewal(None::<VersionedLock<u64>>),
        LockPlan::Leave
    ));
    assert!(matches!(
        lease.plan_release(None::<VersionedLock<u64>>),
        LockPlan::Leave
    ));
    assert!(!lease.release());
}

#[test]
fn a_lost_lease_is_never_valid_again() {
    let mut lease = storage_lease(10_000);
    assert!(lease.is_storage_lease());
    assert!(!lease.on_heartbeat(Ok(None), 1));
    for _ in 0..2 {
        match lease.validate() {
            LeaseCheck::Refused(error) => assert_eq!(
                error,
                CoreError::Write("storage lock heartbeat lost ownership".to_string())
            ),
            other => panic!("unexpected check {other:?}"),
        }
        assert!(lease.on_heartbeat(Ok(Some(99_000)), 2));
    }
}

#[test]
fn a_validation_that_finds_the_lock_gone_is_final() {
    let mut lease = storage_lease(10_000);
    assert_eq!(
        lease.on_validated(Ok(None)).unwrap_err(),
        CoreError::Write("storage lock ownership was lost (expected owner me)".to_string())
    );
    assert!(matches!(lease.validate(), LeaseCheck::Refused(_)));
}

#[test]
fn storage_errors_are_transient_until_the_lease_is_over() {
    let storage = || CoreError::Storage("connection reset".to_string());
    let mut lease = storage_lease(10_000);
    assert!(lease.on_heartbeat(Err(storage()), 10_499));
    assert!(matches!(lease.validate(), LeaseCheck::Renew));
    assert_eq!(lease.on_validated(Err(storage())).unwrap_err(), storage());
    assert!(matches!(lease.validate(), LeaseCheck::Renew));
    assert!(lease.on_heartbeat(Ok(Some(20_000)), 10_499));
    assert!(lease.on_heartbeat(Err(storage()), 20_499));
    assert!(!lease.on_heartbeat(Err(storage()), 20_500));
    assert!(matches!(lease.validate(), LeaseCheck::Refused(_)));
}

#[test]
fn a_validation_confirms_a_new_term() {
    let mut lease = storage_lease(10_000);
    assert!(lease.on_validated(Ok(Some(30_000))).is_ok());
    let storage = CoreError::Storage("connection reset".to_string());
    assert!(lease.on_heartbeat(Err(storage), 30_499));
}

#[test]
fn a_release_is_tried_three_times() {
    let storage = || CoreError::Storage("connection reset".to_string());
    let mut attempts = ReleaseAttempts::new();
    assert!(matches!(
        attempts.on_attempt(Err(storage())),
        ReleaseStep::Retry
    ));
    assert!(matches!(
        attempts.on_attempt(Err(storage())),
        ReleaseStep::Retry
    ));
    match attempts.on_attempt(Err(storage())) {
        ReleaseStep::Failed(error) => assert_eq!(error, storage()),
        other => panic!("unexpected step {other:?}"),
    }
    let mut attempts = ReleaseAttempts::new();
    assert!(matches!(
        attempts.on_attempt(Ok(())),
        ReleaseStep::Released
    ));
}

#[test]
fn a_lease_covers_ten_renewals() {
    let provider = provider(50);
    let granted_at = now_ms();
    let data = provider.new_lock_data_at("me", granted_at);
    assert!(data.valid_until >= granted_at + 10 * 1_000);
    let data = provider.new_lock_data("me");
    assert!(data.valid_until >= granted_at + 10_000);
    assert!(!StorageBasedLockProvider::definitely_expired(&data));
    assert!(matches!(
        provider.try_acquire_once("other", Some(VersionedLock { data, version: 1u64 })),
        LockPlan::Leave
    ));
    let lease = provider.lease("me".to_string());
    assert!(matches!(lease.validate(), LeaseCheck::Renew));
}

#[test]
fn one_lock_per_base_path() {
    let mut registry = LockRegistry::new();
    let first = InProcessLockProvider::new("memory:///a".to_string());
    let second = InProcessLockProvider::new("memory:///b".to_string());
    let again = InProcessLockProvider::new("memory:///a".to_string());
    assert_eq!(first.lock_for_base_path(&mut registry), 0);
    assert_eq!(second.lock_for_base_path(&mut registry), 1);
    assert_eq!(again.lock_for_base_path(&mut registry), 0);
    assert_eq!(second.lock_for_base_path(&mut registry), 1);
    assert_eq!(registry.slot("memory:///c"), 2);
    for path in ["memory:///d", "memory:///b", "memory:///e"] {
        registry.slot(path);
    }
    assert_eq!(first.lock_for_base_path(&mut registry), 0);
}

#[test]
fn a_process_local_lock_is_waited_for_until_the_deadline() {
    let unlimited = InProcessLockProvider::new("memory:///a".to_string());
    assert_eq!(unlimited.wait_timeout(), None);
    let limit = Duration::from_millis(20);
    let limited = unlimited.with_wait_timeout(limit);
    assert_eq!(limited.wait_timeout(), Some(limit));
    assert_eq!(
        limited.timeout_error(limit),
        CoreError::Write(
            "timed out after 20 ms acquiring the in-process lock of memory:///a".to_string()
        )
    );
}

#[test]
fn lock_file_errors() {
    assert_eq!(
        StorageBasedLockProvider::serialize_error("x").message(),
        "serialize storage lock: x"
    );
    assert_eq!(
        StorageBasedLockProvider::deserialize_error("x").message(),
        "invalid .hoodie/.locks/table_lock.json: x"
    );
    assert_eq!(
        StorageBasedLockProvider::renewed(5, ConditionalPutResult::Conflict),
        None
    );
    assert_eq!(
        StorageBasedLockProvider::renewed(5, ConditionalPutResult::Written),
        Some(5)
    );
}

#[test]
fn a_lease_survives_every_interleaving() {
    let provider = provider(50);
    let mut file = LockFile::new();
    let unborn = file.read();
    file.put(provider.try_acquire_once_at("old", None, 0, 0));
    let old = || {
        Some(VersionedLock {
            data: StorageLockData {
                expired: false,
                valid_until: 10_000,
                owner: "old".to_string(),
            },
            version: 1u64,
        })
    };
    file.put(provider.try_acquire_once_at("holder", file.read(), 20_000, 20_000));
    assert_eq!(file.owner(), "holder");
    let validity = Duration::from_secs(10);
    let plans = vec![
        provider.try_acquire_once_at("late", unborn, 20_001, 20_001),
        provider.try_acquire_once_at("late", old(), 20_001, 20_001),
        provider.try_acquire_once_at("late", file.read(), 30_499, 30_499),
        StorageBasedLockProvider::renew_lease_at("old", &validity, old(), 9_000, 9_000),
        StorageBasedLockProvider::renew_lease_at("old", &validity, file.read(), 20_001, 20_001),
        StorageBasedLockProvider::release_lease_at("old", old(), 20_001),
        StorageBasedLockProvider::release_lease_at("old", file.read(), 20_001),
    ];
    for plan in plans {
        assert_ne!(file.put(plan), Some(ConditionalPutResult::Written));
    }
    assert_eq!(file.owner(), "holder");
    assert_eq!(file.version(), 2);
    assert_eq!(file.content.as_ref().unwrap().0.valid_until, 30_000);
}
