use hudi_write::config::write::{
    FailedWritesCleaningPolicy, HudiWriteConfig, WriteConcurrencyConfig, WriteConcurrencyMode,
    WriteLockProvider, IN_PROCESS_LOCK_PROVIDER_CLASS, STORAGE_BASED_LOCK_PROVIDER_CLASS,
};
use hudi_write::config::{HudiConfigValue, HudiConfigs};
use hudi_write::error::{ConfigError, CoreError};
use hudi_write::time::Duration;
use hudi_write::write::lock::{
    lock_provider_for, InProcessLockProvider, LockRegistry, StorageBasedLockProvider,
    TableLockProvider,
};

fn configs(options: &[(HudiWriteConfig, &str)]) -> HudiConfigs {
    HudiConfigs::new(
        options
            .iter()
            .map(|(setting, value)| (setting.key_str().to_string(), value.to_string()))
            .collect(),
    )
}

fn occ_configs() -> HudiConfigs {
    configs(&[
        (HudiWriteConfig::ConcurrencyMode, "occ"),
        (
            HudiWriteConfig::LockProvider,
            STORAGE_BASED_LOCK_PROVIDER_CLASS,
        ),
        (HudiWriteConfig::FailedWritesCleaningPolicy, "LAZY"),
    ])
}

const ALL_SETTINGS: [HudiWriteConfig; 9] = [
    HudiWriteConfig::ConcurrencyMode,
    HudiWriteConfig::LockProvider,
    HudiWriteConfig::LockAcquireWaitTimeoutMs,
    HudiWriteConfig::LockAcquireRetryWaitMs,
    HudiWriteConfig::StorageLockValiditySeconds,
    HudiWriteConfig::StorageLockRenewIntervalSeconds,
    HudiWriteConfig::ClientHeartbeatIntervalMs,
    HudiWriteConfig::ClientHeartbeatTolerableMisses,
    HudiWriteConfig::FailedWritesCleaningPolicy,
];

const COUNTS: [HudiWriteConfig; 6] = [
    HudiWriteConfig::LockAcquireWaitTimeoutMs,
    HudiWriteConfig::LockAcquireRetryWaitMs,
    HudiWriteConfig::StorageLockValiditySeconds,
    HudiWriteConfig::StorageLockRenewIntervalSeconds,
    HudiWriteConfig::ClientHeartbeatIntervalMs,
    HudiWriteConfig::ClientHeartbeatTolerableMisses,
];

#[test]
fn test_occ_requires_storage_lock_and_lazy_cleaning() {
    let configs = configs(&[
        (
            HudiWriteConfig::ConcurrencyMode,
            "optimistic_concurrency_control",
        ),
        (
            HudiWriteConfig::LockProvider,
            STORAGE_BASED_LOCK_PROVIDER_CLASS,
        ),
        (HudiWriteConfig::FailedWritesCleaningPolicy, "LAZY"),
    ]);
    let resolved = WriteConcurrencyConfig::from_configs(&configs).unwrap();
    assert_eq!(
        resolved.mode,
        WriteConcurrencyMode::OptimisticConcurrencyControl
    );
    assert_eq!(resolved.lock_provider, WriteLockProvider::StorageBased);
}

#[test]
fn test_occ_rejects_in_process_provider() {
    let configs = configs(&[
        (HudiWriteConfig::ConcurrencyMode, "occ"),
        (
            HudiWriteConfig::LockProvider,
            IN_PROCESS_LOCK_PROVIDER_CLASS,
        ),
        (HudiWriteConfig::FailedWritesCleaningPolicy, "LAZY"),
    ]);
    let error = WriteConcurrencyConfig::from_configs(&configs).unwrap_err();
    assert!(error.message().contains("cannot coordinate"));
}

#[test]
fn test_occ_rejects_eager_cleaning() {
    let configs = configs(&[
        (HudiWriteConfig::ConcurrencyMode, "occ"),
        (
            HudiWriteConfig::LockProvider,
            STORAGE_BASED_LOCK_PROVIDER_CLASS,
        ),
    ]);
    let error = WriteConcurrencyConfig::from_configs(&configs).unwrap_err();
    assert!(error
        .message()
        .contains("requires hoodie.cleaner.policy.failed.writes=LAZY"));
}

#[test]
fn test_storage_lock_lease_must_cover_ten_renewals() {
    let configs = configs(&[
        (
            HudiWriteConfig::LockProvider,
            STORAGE_BASED_LOCK_PROVIDER_CLASS,
        ),
        (HudiWriteConfig::StorageLockValiditySeconds, "20"),
        (HudiWriteConfig::StorageLockRenewIntervalSeconds, "3"),
    ]);
    let error = WriteConcurrencyConfig::from_configs(&configs).unwrap_err();
    assert!(error.message().contains("at least 10x"));
}

#[test]
fn test_invalid_concurrency_mode_fails_closed() {
    let configs = configs(&[(HudiWriteConfig::ConcurrencyMode, "occc")]);
    let error = WriteConcurrencyConfig::from_configs(&configs).unwrap_err();
    assert!(error
        .message()
        .contains("hoodie.write.concurrency.mode=occc"));
}

#[test]
fn test_writer_heartbeat_interval_has_java_minimum() {
    let configs = configs(&[(HudiWriteConfig::ClientHeartbeatIntervalMs, "999")]);
    let error = WriteConcurrencyConfig::from_configs(&configs).unwrap_err();
    assert!(error.message().contains("at least 1000 ms"));
}

#[test]
fn an_unconfigured_table_has_a_single_writer() {
    let resolved = WriteConcurrencyConfig::from_configs(&configs(&[])).unwrap();
    assert_eq!(
        resolved,
        WriteConcurrencyConfig {
            mode: WriteConcurrencyMode::SingleWriter,
            lock_provider: WriteLockProvider::InProcess,
            lock_wait_timeout_ms: 60_000,
            lock_retry_wait_ms: 1_000,
            storage_lock_validity_seconds: 300,
            storage_lock_renew_interval_seconds: 30,
            client_heartbeat_interval_ms: 60_000,
            client_heartbeat_tolerable_misses: 10,
            failed_writes_cleaning_policy: FailedWritesCleaningPolicy::Eager,
        }
    );
    assert_eq!(resolved.mode, WriteConcurrencyMode::default());
    assert_eq!(resolved.lock_provider, WriteLockProvider::default());
    assert_eq!(
        resolved.failed_writes_cleaning_policy,
        FailedWritesCleaningPolicy::default()
    );
}

#[test]
fn given_counts_replace_the_defaults() {
    let resolved = WriteConcurrencyConfig::from_configs(&configs(&[
        (HudiWriteConfig::ConcurrencyMode, "occ"),
        (HudiWriteConfig::LockProvider, "storage-based"),
        (HudiWriteConfig::FailedWritesCleaningPolicy, "lazy"),
        (HudiWriteConfig::LockAcquireWaitTimeoutMs, "1"),
        (HudiWriteConfig::LockAcquireRetryWaitMs, "+2"),
        (HudiWriteConfig::StorageLockValiditySeconds, "30"),
        (HudiWriteConfig::StorageLockRenewIntervalSeconds, "003"),
        (HudiWriteConfig::ClientHeartbeatIntervalMs, "1000"),
        (HudiWriteConfig::ClientHeartbeatTolerableMisses, "7"),
    ]))
    .unwrap();
    assert_eq!(resolved.lock_wait_timeout_ms, 1);
    assert_eq!(resolved.lock_retry_wait_ms, 2);
    assert_eq!(resolved.storage_lock_validity_seconds, 30);
    assert_eq!(resolved.storage_lock_renew_interval_seconds, 3);
    assert_eq!(resolved.client_heartbeat_interval_ms, 1_000);
    assert_eq!(resolved.client_heartbeat_tolerable_misses, 7);
    assert_eq!(
        resolved.failed_writes_cleaning_policy,
        FailedWritesCleaningPolicy::Lazy
    );
}

#[test]
fn occ_needs_a_lock_provider() {
    let error = WriteConcurrencyConfig::from_configs(&configs(&[(
        HudiWriteConfig::ConcurrencyMode,
        "occ",
    )]))
    .unwrap_err();
    assert_eq!(
        error,
        CoreError::Write(
            "hoodie.write.concurrency.mode requires an external hoodie.write.lock.provider; \
             configure hoodie.write.lock.provider=\
             org.apache.hudi.client.transaction.lock.StorageBasedLockProvider"
                .to_string()
        )
    );
}

#[test]
fn occ_errors_name_the_settings() {
    let error = WriteConcurrencyConfig::from_configs(&configs(&[
        (HudiWriteConfig::ConcurrencyMode, "occ"),
        (HudiWriteConfig::LockProvider, "in_process"),
    ]))
    .unwrap_err();
    assert_eq!(
        error.message(),
        "org.apache.hudi.client.transaction.lock.InProcessLockProvider cannot coordinate \
         independent writers; use hoodie.write.lock.provider=\
         org.apache.hudi.client.transaction.lock.StorageBasedLockProvider for \
         hoodie.write.concurrency.mode=optimistic_concurrency_control"
    );
    let error = WriteConcurrencyConfig::from_configs(&configs(&[
        (HudiWriteConfig::ConcurrencyMode, "occ"),
        (HudiWriteConfig::LockProvider, "storage_based"),
        (HudiWriteConfig::FailedWritesCleaningPolicy, "never"),
    ]))
    .unwrap_err();
    assert_eq!(
        error.message(),
        "hoodie.write.concurrency.mode=optimistic_concurrency_control requires \
         hoodie.cleaner.policy.failed.writes=LAZY so one writer cannot roll back another active \
         writer"
    );
    let error = WriteConcurrencyConfig::from_configs(&configs(&[(
        HudiWriteConfig::ClientHeartbeatIntervalMs,
        "999",
    )]))
    .unwrap_err();
    assert_eq!(
        error.message(),
        "hoodie.client.heartbeat.interval_in_ms must be at least 1000 ms"
    );
    let error = WriteConcurrencyConfig::from_configs(&configs(&[
        (HudiWriteConfig::LockProvider, "storage_based"),
        (HudiWriteConfig::StorageLockValiditySeconds, "9"),
        (HudiWriteConfig::StorageLockRenewIntervalSeconds, "1"),
    ]))
    .unwrap_err();
    assert_eq!(
        error.message(),
        "hoodie.write.lock.storage.validity.timeout.secs must be at least 10 seconds and at least \
         10x hoodie.write.lock.storage.renew.interval.secs"
    );
}

#[test]
fn short_leases_matter_only_to_the_storage_lock() {
    let resolved = WriteConcurrencyConfig::from_configs(&configs(&[
        (HudiWriteConfig::StorageLockValiditySeconds, "1"),
        (HudiWriteConfig::StorageLockRenewIntervalSeconds, "1"),
    ]))
    .unwrap();
    assert_eq!(resolved.storage_lock_validity_seconds, 1);
    assert_eq!(resolved.lock_provider, WriteLockProvider::InProcess);
}

#[test]
fn modes_are_read_without_regard_to_case_and_white_space() {
    assert_eq!(
        WriteConcurrencyMode::from_str("  SINGLE-Writer\n").unwrap(),
        WriteConcurrencyMode::SingleWriter
    );
    assert_eq!(
        WriteConcurrencyMode::from_str("\u{2003}Occ\t").unwrap(),
        WriteConcurrencyMode::OptimisticConcurrencyControl
    );
    assert_eq!(
        WriteConcurrencyMode::from_str("OPTIMISTIC-CONCURRENCY-CONTROL").unwrap(),
        WriteConcurrencyMode::OptimisticConcurrencyControl
    );
    assert_eq!(
        WriteConcurrencyMode::from_str(" OCCC ").unwrap_err(),
        ConfigError::InvalidValue("hoodie.write.concurrency.mode=occc".to_string())
    );
    assert!(WriteConcurrencyMode::from_str("o cc").is_err());
}

#[test]
fn mode_names_round_trip() {
    for mode in [
        WriteConcurrencyMode::SingleWriter,
        WriteConcurrencyMode::OptimisticConcurrencyControl,
    ] {
        assert_eq!(WriteConcurrencyMode::from_str(mode.as_str()).unwrap(), mode);
    }
    assert_eq!(
        WriteConcurrencyMode::SingleWriter.as_str(),
        "single_writer"
    );
    assert!(!WriteConcurrencyMode::SingleWriter.supports_multi_writer());
    assert!(WriteConcurrencyMode::OptimisticConcurrencyControl.supports_multi_writer());
}

#[test]
fn provider_classes_round_trip() {
    for provider in [WriteLockProvider::InProcess, WriteLockProvider::StorageBased] {
        assert_eq!(
            WriteLockProvider::from_str(provider.class_name()).unwrap(),
            provider
        );
    }
    assert_eq!(
        WriteLockProvider::from_str(" IN-PROCESS ").unwrap(),
        WriteLockProvider::InProcess
    );
    assert_eq!(
        WriteLockProvider::from_str("Storage_Based").unwrap(),
        WriteLockProvider::StorageBased
    );
    assert_eq!(
        WriteLockProvider::from_str(" ZooKeeper ").unwrap_err(),
        ConfigError::InvalidValue(
            "hoodie.write.lock.provider=ZooKeeper (hudi-rs supports \
             org.apache.hudi.client.transaction.lock.InProcessLockProvider and \
             org.apache.hudi.client.transaction.lock.StorageBasedLockProvider)"
                .to_string()
        )
    );
}

#[test]
fn policy_names_round_trip() {
    for policy in [
        FailedWritesCleaningPolicy::Eager,
        FailedWritesCleaningPolicy::Lazy,
        FailedWritesCleaningPolicy::Never,
    ] {
        assert_eq!(
            FailedWritesCleaningPolicy::from_str(policy.as_str()).unwrap(),
            policy
        );
    }
    assert_eq!(FailedWritesCleaningPolicy::Never.as_str(), "NEVER");
    assert_eq!(
        FailedWritesCleaningPolicy::from_str("Sometimes").unwrap_err(),
        ConfigError::InvalidValue("hoodie.cleaner.policy.failed.writes=sometimes".to_string())
    );
}

#[test]
fn keys_are_those_of_the_table_format() {
    let keys: Vec<&str> = ALL_SETTINGS.iter().map(|setting| setting.key_str()).collect();
    assert_eq!(
        keys,
        vec![
            "hoodie.write.concurrency.mode",
            "hoodie.write.lock.provider",
            "hoodie.write.lock.wait_time_ms",
            "hoodie.write.lock.wait_time_ms_between_retry",
            "hoodie.write.lock.storage.validity.timeout.secs",
            "hoodie.write.lock.storage.renew.interval.secs",
            "hoodie.client.heartbeat.interval_in_ms",
            "hoodie.client.heartbeat.tolerable.misses",
            "hoodie.cleaner.policy.failed.writes",
        ]
    );
}

#[test]
fn only_the_lock_provider_has_no_default() {
    let empty = configs(&[]);
    for setting in ALL_SETTINGS {
        if setting == HudiWriteConfig::LockProvider {
            assert_eq!(setting.default_value(), None);
        } else {
            assert!(setting.default_value().is_some());
        }
        assert_eq!(empty.try_get(setting).unwrap(), setting.default_value());
        assert_eq!(
            empty.get(setting).unwrap_err(),
            ConfigError::NotFound(setting.key_str().to_string())
        );
    }
    assert_eq!(
        HudiWriteConfig::ConcurrencyMode.default_value(),
        Some(HudiConfigValue::String("single_writer".to_string()))
    );
    assert_eq!(
        HudiWriteConfig::FailedWritesCleaningPolicy.default_value(),
        Some(HudiConfigValue::String("EAGER".to_string()))
    );
    assert_eq!(
        HudiWriteConfig::StorageLockValiditySeconds.default_value(),
        Some(HudiConfigValue::UInteger(300))
    );
}

#[test]
fn the_own_key_comes_before_the_deprecated_one() {
    let setting = HudiWriteConfig::StorageLockRenewIntervalSeconds;
    let aliases = setting.aliases();
    assert_eq!(aliases.len(), 1);
    assert_eq!(
        aliases[0].key,
        "hoodie.write.lock.storage.heartbeat.poll.secs"
    );
    assert!(aliases[0].deprecated);
    assert!(HudiWriteConfig::LockProvider.aliases().is_empty());

    let deprecated = HudiConfigs::new(vec![(aliases[0].key.to_string(), "4".to_string())]);
    assert_eq!(
        deprecated.get(setting).unwrap(),
        HudiConfigValue::UInteger(4)
    );
    let both = HudiConfigs::new(vec![
        (aliases[0].key.to_string(), "4".to_string()),
        (setting.key_str().to_string(), "5".to_string()),
    ]);
    assert_eq!(both.get(setting).unwrap(), HudiConfigValue::UInteger(5));
}

#[test]
fn a_later_option_replaces_an_earlier_one() {
    let setting = HudiWriteConfig::LockAcquireRetryWaitMs;
    let configs = configs(&[(setting, "1"), (setting, "2")]);
    assert_eq!(configs.get(setting).unwrap(), HudiConfigValue::UInteger(2));
    assert_eq!(configs.raw(setting.key_str()).unwrap(), "2");
    assert!(configs.raw("hoodie.table.name").is_none());
}

#[test]
fn values_are_parsed_into_their_canonical_form() {
    let configs = configs(&[
        (HudiWriteConfig::ConcurrencyMode, " OCC "),
        (HudiWriteConfig::LockProvider, "in-process"),
        (HudiWriteConfig::FailedWritesCleaningPolicy, "never"),
    ]);
    assert_eq!(
        HudiWriteConfig::ConcurrencyMode.parse_value(&configs).unwrap(),
        HudiConfigValue::String("optimistic_concurrency_control".to_string())
    );
    assert_eq!(
        HudiWriteConfig::LockProvider.parse_value(&configs).unwrap(),
        HudiConfigValue::String(IN_PROCESS_LOCK_PROVIDER_CLASS.to_string())
    );
    assert_eq!(
        HudiWriteConfig::FailedWritesCleaningPolicy
            .parse_value(&configs)
            .unwrap(),
        HudiConfigValue::String("NEVER".to_string())
    );
}

#[test]
fn an_unreadable_count_fails_closed() {
    for setting in COUNTS {
        for bad in ["", "ten", "-1", " 5", "1.5", "99999999999999999999999"] {
            let configs = configs(&[(setting, bad)]);
            match configs.get(setting).unwrap_err() {
                ConfigError::ParseInt(key, value, error) => {
                    assert_eq!(key, setting.key_str());
                    assert_eq!(value, bad);
                    assert_eq!(error, bad.parse::<usize>().unwrap_err());
                }
                other => panic!("unexpected error {other:?}"),
            }
            assert!(matches!(
                WriteConcurrencyConfig::from_configs(&configs),
                Err(CoreError::Config(ConfigError::ParseInt(_, _, _)))
            ));
        }
        let zero = configs(&[(setting, "0")]);
        assert_eq!(
            zero.get(setting).unwrap_err(),
            ConfigError::InvalidValue(format!("{}=0 (must be > 0)", setting.key_str()))
        );
        assert!(zero.try_get(setting).is_err());
        assert!(WriteConcurrencyConfig::from_configs(&zero).is_err());
    }
}

#[test]
fn a_parse_error_is_handed_on() {
    let setting = HudiWriteConfig::LockAcquireRetryWaitMs;
    for bad in ["", "x", "99999999999999999999999"] {
        let cause = bad.parse::<usize>().unwrap_err();
        assert_eq!(
            setting.positive_count("raw", Err(cause.clone())).unwrap_err(),
            ConfigError::ParseInt(setting.key_str().to_string(), "raw".to_string(), cause)
        );
    }
    assert_eq!(
        setting.positive_count("raw", Ok(5)).unwrap(),
        HudiConfigValue::UInteger(5)
    );
    assert_eq!(
        setting.positive_count("raw", Ok(0)).unwrap_err(),
        ConfigError::InvalidValue(
            "hoodie.write.lock.wait_time_ms_between_retry=0 (must be > 0)".to_string()
        )
    );
}

#[test]
fn names_can_be_parsed() {
    assert_eq!(
        " occ ".parse::<WriteConcurrencyMode>().unwrap(),
        WriteConcurrencyMode::OptimisticConcurrencyControl
    );
    assert_eq!(
        "storage-based".parse::<WriteLockProvider>().unwrap(),
        WriteLockProvider::StorageBased
    );
    assert_eq!(
        "Lazy".parse::<FailedWritesCleaningPolicy>().unwrap(),
        FailedWritesCleaningPolicy::Lazy
    );
    assert!("occc".parse::<WriteConcurrencyMode>().is_err());
    assert!("".parse::<WriteLockProvider>().is_err());
    assert!("later".parse::<FailedWritesCleaningPolicy>().is_err());
}

#[test]
fn errors_in_words() {
    assert_eq!(
        ConfigError::NotFound("k".to_string()).message(),
        "Config 'k' not found"
    );
    assert_eq!(
        ConfigError::InvalidValue("k=v".to_string()).message(),
        "Invalid config value: k=v"
    );
    assert_eq!(
        ConfigError::ParseInt(
            "k".to_string(),
            "v".to_string(),
            "v".parse::<usize>().unwrap_err()
        )
        .message(),
        "Failed to parse integer config 'k', value: 'v'"
    );
    assert_eq!(
        CoreError::Config(ConfigError::InvalidValue("k=v".to_string())).message(),
        "Invalid config value: k=v"
    );
    for error in [
        CoreError::Write("w".to_string()),
        CoreError::WriteConflict("w".to_string()),
        CoreError::Unsupported("w".to_string()),
        CoreError::Storage("w".to_string()),
        CoreError::CommitMetadata("w".to_string()),
    ] {
        assert_eq!(error.message(), "w");
    }
}

#[test]
fn the_lock_provider_follows_the_configuration() {
    match lock_provider_for(&configs(&[]), "memory:///table".to_string(), "file").unwrap() {
        TableLockProvider::InProcess(provider) => {
            let mut registry = LockRegistry::new();
            assert_eq!(provider.lock_for_base_path(&mut registry), 0);
            assert_eq!(provider.wait_timeout(), Some(Duration::from_secs(60)));
            let same = InProcessLockProvider::new("memory:///table".to_string());
            assert_eq!(same.lock_for_base_path(&mut registry), 0);
        }
        other => panic!("unexpected provider {other:?}"),
    }
    assert!(matches!(
        lock_provider_for(&occ_configs(), "memory:///table".to_string(), "memory"),
        Ok(TableLockProvider::StorageBased(_))
    ));
    assert_eq!(
        lock_provider_for(&occ_configs(), "file:///table".to_string(), "file").unwrap_err(),
        CoreError::Unsupported(
            "the RFC-91 storage lock requires an object store with atomic conditional writes; \
             local file:// storage is not supported"
                .to_string()
        )
    );
    assert!(lock_provider_for(
        &configs(&[(HudiWriteConfig::ConcurrencyMode, "occ")]),
        "memory:///table".to_string(),
        "memory"
    )
    .is_err());
}

#[test]
fn configured_durations_reach_the_lease() {
    let configs = configs(&[
        (HudiWriteConfig::LockProvider, "storage_based"),
        (HudiWriteConfig::StorageLockValiditySeconds, "40"),
        (HudiWriteConfig::StorageLockRenewIntervalSeconds, "4"),
        (HudiWriteConfig::LockAcquireRetryWaitMs, "250"),
    ]);
    match lock_provider_for(&configs, String::new(), "s3").unwrap() {
        TableLockProvider::StorageBased(provider) => {
            assert_eq!(provider.new_lock_data_at("me", 1_000).valid_until, 41_000);
            let lease = provider.lease_at("me".to_string(), 1_000);
            assert_eq!(lease.renew_interval(), Some(Duration::from_secs(4)));
            assert_eq!(lease.retry_wait(), Some(Duration::from_millis(250)));
        }
        other => panic!("unexpected provider {other:?}"),
    }
}

#[test]
fn storage_lock_durations_must_be_usable() {
    let ms = Duration::from_millis;
    let secs = Duration::from_secs;
    assert!(StorageBasedLockProvider::new(ms(1), ms(1), secs(10), secs(1)).is_ok());
    let unusable = [
        (ms(0), ms(1), secs(10), secs(1)),
        (ms(1), ms(0), secs(10), secs(1)),
        (ms(1), ms(1), ms(9_999), ms(1)),
        (ms(1), ms(1), secs(10), ms(0)),
        (ms(1), ms(1), secs(10), ms(1_001)),
        (ms(1), ms(1), secs(u64::MAX), secs(u64::MAX)),
    ];
    for (wait, retry, validity, renew) in unusable {
        assert_eq!(
            StorageBasedLockProvider::new(wait, retry, validity, renew).unwrap_err(),
            CoreError::Write(
                "storage lock durations must be non-zero; validity must be at least 10 seconds \
                 and 10x the renewal interval"
                    .to_string()
            )
        );
    }
    assert!(StorageBasedLockProvider::new(
        ms(1),
        ms(1),
        Duration::new(u64::MAX, 999_999_999),
        secs(u64::MAX)
    )
    .is_ok());
}
