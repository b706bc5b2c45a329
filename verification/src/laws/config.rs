//! Laws of the write settings: what a name stands for, what the options resolve to, and when they do
//! not.
use vstd::prelude::*;

use crate::config::write::{
    FailedWritesCleaningPolicy, HudiWriteConfig, WriteConcurrencyConfig, WriteConcurrencyMode,
    WriteLockProvider,
};
use crate::config::{ConfigValueModel, HudiConfigValue};
use crate::error::{ConfigError, ConfigErrorModel, CoreError, CoreErrorModel};
use crate::text;

verus! {

/// The names that a mode is given by, and no others: white space around them and ASCII case do not
/// matter.
pub proof fn law_names_of_modes(given: Seq<char>)
    ensures
        ({
            let name = text::lowered(text::trimmed(given));
            let single = name == "single_writer"@ || name == "single-writer"@;
            let occ = name == "optimistic_concurrency_control"@ || name
                == "optimistic-concurrency-control"@ || name == "occ"@;
            &&& crate::config::write::mode_of(given) == Some(WriteConcurrencyMode::SingleWriter)
                <==> single
            &&& crate::config::write::mode_of(given) == Some(
                WriteConcurrencyMode::OptimisticConcurrencyControl,
            ) <==> occ
        }),
        crate::config::write::mode_name(WriteConcurrencyMode::SingleWriter) == "single_writer"@,
        crate::config::write::mode_name(WriteConcurrencyMode::OptimisticConcurrencyControl)
            == "optimistic_concurrency_control"@,
{
    reveal_strlit("single_writer");
    reveal_strlit("single-writer");
    reveal_strlit("optimistic_concurrency_control");
    reveal_strlit("optimistic-concurrency-control");
    reveal_strlit("occ");
    assert("single_writer"@.len() == 13 && "single-writer"@.len() == 13);
    assert("optimistic_concurrency_control"@.len() == 30);
    assert("optimistic-concurrency-control"@.len() == 30);
    assert("occ"@.len() == 3);
}

/// The names that a lock provider is given by, and no others: white space around them and ASCII case
/// do not matter.
pub proof fn law_names_of_providers(given: Seq<char>)
    ensures
        ({
            let name = text::lowered(text::trimmed(given));
            let local = name == text::lowered(
                "org.apache.hudi.client.transaction.lock.InProcessLockProvider"@,
            ) || name == "in_process"@ || name == "in-process"@;
            let storage = name == text::lowered(
                "org.apache.hudi.client.transaction.lock.StorageBasedLockProvider"@,
            ) || name == "storage_based"@ || name == "storage-based"@;
            &&& crate::config::write::provider_of(given) == Some(WriteLockProvider::InProcess)
                <==> local
            &&& crate::config::write::provider_of(given) == Some(WriteLockProvider::StorageBased)
                <==> storage
        }),
        crate::config::write::provider_class(WriteLockProvider::InProcess)
            == "org.apache.hudi.client.transaction.lock.InProcessLockProvider"@,
        crate::config::write::provider_class(WriteLockProvider::StorageBased)
            == "org.apache.hudi.client.transaction.lock.StorageBasedLockProvider"@,
{
    reveal_strlit("org.apache.hudi.client.transaction.lock.InProcessLockProvider");
    reveal_strlit("org.apache.hudi.client.transaction.lock.StorageBasedLockProvider");
    reveal_strlit("in_process");
    reveal_strlit("in-process");
    reveal_strlit("storage_based");
    reveal_strlit("storage-based");
    assert(text::lowered("in_process"@) =~= "in_process"@);
    assert(text::lowered("in-process"@) =~= "in-process"@);
    assert(text::lowered("storage_based"@) =~= "storage_based"@);
    assert(text::lowered("storage-based"@) =~= "storage-based"@);
    assert("in_process"@.len() == 10 && "in-process"@.len() == 10);
    assert("storage_based"@.len() == 13 && "storage-based"@.len() == 13);
    assert(text::lowered("org.apache.hudi.client.transaction.lock.InProcessLockProvider"@).len()
        == 61);
    assert(text::lowered("org.apache.hudi.client.transaction.lock.StorageBasedLockProvider"@).len()
        == 64);
}

/// The names that a cleaning policy is given by, and no others: white space around them and ASCII
/// case do not matter.
pub proof fn law_names_of_policies(given: Seq<char>)
    ensures
        ({
            let name = text::lowered(text::trimmed(given));
            let policy = crate::config::write::policy_of(given);
            &&& policy == Some(FailedWritesCleaningPolicy::Eager) <==> name == "eager"@
            &&& policy == Some(FailedWritesCleaningPolicy::Lazy) <==> name == "lazy"@
            &&& policy == Some(FailedWritesCleaningPolicy::Never) <==> name == "never"@
        }),
        crate::config::write::policy_name(FailedWritesCleaningPolicy::Eager) == "EAGER"@,
        crate::config::write::policy_name(FailedWritesCleaningPolicy::Lazy) == "LAZY"@,
        crate::config::write::policy_name(FailedWritesCleaningPolicy::Never) == "NEVER"@,
{
    reveal_strlit("eager");
    reveal_strlit("lazy");
    reveal_strlit("never");
    assert("eager"@.len() == 5 && "lazy"@.len() == 4 && "never"@.len() == 5);
    assert("eager"@[0] != "never"@[0]);
}

/// The keys that the settings are given under.
pub proof fn law_keys_of_settings(setting: HudiWriteConfig)
    ensures
        crate::config::write::key_text(setting) == match setting {
            HudiWriteConfig::ConcurrencyMode => "hoodie.write.concurrency.mode"@,
            HudiWriteConfig::LockProvider => "hoodie.write.lock.provider"@,
            HudiWriteConfig::LockAcquireWaitTimeoutMs => "hoodie.write.lock.wait_time_ms"@,
            HudiWriteConfig::LockAcquireRetryWaitMs =>
                "hoodie.write.lock.wait_time_ms_between_retry"@,
            HudiWriteConfig::StorageLockValiditySeconds =>
                "hoodie.write.lock.storage.validity.timeout.secs"@,
            HudiWriteConfig::StorageLockRenewIntervalSeconds =>
                "hoodie.write.lock.storage.renew.interval.secs"@,
            HudiWriteConfig::ClientHeartbeatIntervalMs => "hoodie.client.heartbeat.interval_in_ms"@,
            HudiWriteConfig::ClientHeartbeatTolerableMisses =>
                "hoodie.client.heartbeat.tolerable.misses"@,
            HudiWriteConfig::FailedWritesCleaningPolicy => "hoodie.cleaner.policy.failed.writes"@,
        },
        setting == HudiWriteConfig::StorageLockRenewIntervalSeconds
            ==> crate::config::write::alias_keys(setting) == seq![
            "hoodie.write.lock.storage.heartbeat.poll.secs"@,
        ],
        setting != HudiWriteConfig::StorageLockRenewIntervalSeconds
            ==> crate::config::write::alias_keys(setting).len() == 0,
{
}

/// The raw value of a setting is the one under its key. The renewal interval alone may be given under
/// another key too, which counts where its own is absent.
pub proof fn law_raw_values(options: Map<Seq<char>, Seq<char>>, setting: HudiWriteConfig)
    ensures
        ({
            let key = crate::config::write::key_text(setting);
            let alias = "hoodie.write.lock.storage.heartbeat.poll.secs"@;
            crate::config::write::raw_setting(options, setting) == if options.contains_key(key) {
                Some(options[key])
            } else if setting == HudiWriteConfig::StorageLockRenewIntervalSeconds
                && options.contains_key(alias) {
                Some(options[alias])
            } else {
                None
            }
        }),
{
    reveal_with_fuel(crate::config::write::first_value, 2);
}

/// What a setting is worth where nothing is given.
pub proof fn law_defaults(setting: HudiWriteConfig)
    ensures
        crate::config::write::default_setting(setting) == match setting {
            HudiWriteConfig::ConcurrencyMode => Some(ConfigValueModel::Text("single_writer"@)),
            HudiWriteConfig::LockProvider => None,
            HudiWriteConfig::LockAcquireWaitTimeoutMs => Some(ConfigValueModel::Count(60_000)),
            HudiWriteConfig::LockAcquireRetryWaitMs => Some(ConfigValueModel::Count(1_000)),
            HudiWriteConfig::StorageLockValiditySeconds => Some(ConfigValueModel::Count(300)),
            HudiWriteConfig::StorageLockRenewIntervalSeconds => Some(ConfigValueModel::Count(30)),
            HudiWriteConfig::ClientHeartbeatIntervalMs => Some(ConfigValueModel::Count(60_000)),
            HudiWriteConfig::ClientHeartbeatTolerableMisses => Some(ConfigValueModel::Count(10)),
            HudiWriteConfig::FailedWritesCleaningPolicy => Some(ConfigValueModel::Text("EAGER"@)),
        },
{
}

/// A given value is read as its setting asks, and never replaced by a default: a name comes back in
/// its canonical form, a positive count as that count, and anything else is an error.
pub proof fn law_given_values(
    options: Map<Seq<char>, Seq<char>>,
    setting: HudiWriteConfig,
    raw: Seq<char>,
)
    requires
        crate::config::write::raw_setting(options, setting) == Some(raw),
    ensures
        ({
            let value = crate::config::write::given_setting(options, setting);
            &&& match setting {
                HudiWriteConfig::ConcurrencyMode => match crate::config::write::mode_of(raw) {
                    Some(mode) => value == Ok::<_, ConfigErrorModel>(
                        ConfigValueModel::Text(crate::config::write::mode_name(mode)),
                    ),
                    None => value == Err::<ConfigValueModel, _>(
                        ConfigErrorModel::InvalidValue(
                            "hoodie.write.concurrency.mode="@ + text::lowered(text::trimmed(raw)),
                        ),
                    ),
                },
                HudiWriteConfig::LockProvider => match crate::config::write::provider_of(raw) {
                    Some(provider) => value == Ok::<_, ConfigErrorModel>(
                        ConfigValueModel::Text(crate::config::write::provider_class(provider)),
                    ),
                    None => value matches Err(ConfigErrorModel::InvalidValue(_)),
                },
                HudiWriteConfig::FailedWritesCleaningPolicy => {
                    match crate::config::write::policy_of(raw) {
                        Some(policy) => value == Ok::<_, ConfigErrorModel>(
                            ConfigValueModel::Text(crate::config::write::policy_name(policy)),
                        ),
                        None => value == Err::<ConfigValueModel, _>(
                            ConfigErrorModel::InvalidValue(
                                "hoodie.cleaner.policy.failed.writes="@ + text::lowered(
                                    text::trimmed(raw),
                                ),
                            ),
                        ),
                    }
                },
                _ => match text::count_value(raw) {
                    Some(count) => if count > 0 {
                        value == Ok::<_, ConfigErrorModel>(ConfigValueModel::Count(count))
                    } else {
                        value matches Err(ConfigErrorModel::InvalidValue(_))
                    },
                    None => value == Err::<ConfigValueModel, _>(
                        ConfigErrorModel::ParseInt(
                            crate::config::write::key_text(setting),
                            raw,
                            text::parse_error(raw),
                        ),
                    ),
                },
            }
            &&& match value {
                Ok(given) => crate::config::write::effective_setting(options, setting) == Ok::<
                    _,
                    ConfigErrorModel,
                >(Some(given)),
                Err(error) => crate::config::write::effective_setting(options, setting) == Err::<
                    Option<ConfigValueModel>,
                    _,
                >(error),
            }
        }),
{
}

/// A setting that is not given is not found, and is worth its default.
pub proof fn law_absent_values(options: Map<Seq<char>, Seq<char>>, setting: HudiWriteConfig)
    requires
        crate::config::write::raw_setting(options, setting) is None,
    ensures
        crate::config::write::given_setting(options, setting) == Err::<ConfigValueModel, _>(
            ConfigErrorModel::NotFound(crate::config::write::key_text(setting)),
        ),
        crate::config::write::effective_setting(options, setting) == Ok::<_, ConfigErrorModel>(
            crate::config::write::default_setting(setting),
        ),
{
}

/// Where the options resolve, every field of the result is what the options give for its setting, in
/// either mode, and what is not given is at its default.
pub proof fn law_resolved_fields_are_the_given_values(
    options: Map<Seq<char>, Seq<char>>,
    config: WriteConcurrencyConfig,
)
    requires
        crate::config::write::resolved(options) == Ok::<_, CoreErrorModel>(config),
    ensures
        ({
            let key = "hoodie.write.concurrency.mode"@;
            if options.contains_key(key) {
                crate::config::write::mode_of(options[key]) == Some(config.mode)
            } else {
                config.mode == WriteConcurrencyMode::SingleWriter
            }
        }),
        ({
            let key = "hoodie.write.lock.provider"@;
            if options.contains_key(key) {
                crate::config::write::provider_of(options[key]) == Some(config.lock_provider)
            } else {
                config.lock_provider == WriteLockProvider::InProcess
            }
        }),
        ({
            let key = "hoodie.cleaner.policy.failed.writes"@;
            if options.contains_key(key) {
                crate::config::write::policy_of(options[key]) == Some(
                    config.failed_writes_cleaning_policy,
                )
            } else {
                config.failed_writes_cleaning_policy == FailedWritesCleaningPolicy::Eager
            }
        }),
        ({
            let key = "hoodie.write.lock.wait_time_ms"@;
            if options.contains_key(key) {
                text::count_value(options[key]) == Some(config.lock_wait_timeout_ms)
            } else {
                config.lock_wait_timeout_ms == 60_000
            }
        }),
        ({
            let key = "hoodie.write.lock.wait_time_ms_between_retry"@;
            if options.contains_key(key) {
                text::count_value(options[key]) == Some(config.lock_retry_wait_ms)
            } else {
                config.lock_retry_wait_ms == 1_000
            }
        }),
        ({
            let key = "hoodie.write.lock.storage.validity.timeout.secs"@;
            if options.contains_key(key) {
                text::count_value(options[key]) == Some(config.storage_lock_validity_seconds)
            } else {
                config.storage_lock_validity_seconds == 300
            }
        }),
        ({
            let key = "hoodie.write.lock.storage.renew.interval.secs"@;
            let alias = "hoodie.write.lock.storage.heartbeat.poll.secs"@;
            if options.contains_key(key) {
                text::count_value(options[key]) == Some(config.storage_lock_renew_interval_seconds)
            } else if options.contains_key(alias) {
                text::count_value(options[alias]) == Some(
                    config.storage_lock_renew_interval_seconds,
                )
            } else {
                config.storage_lock_renew_interval_seconds == 30
            }
        }),
        ({
            let key = "hoodie.client.heartbeat.interval_in_ms"@;
            if options.contains_key(key) {
                text::count_value(options[key]) == Some(config.client_heartbeat_interval_ms)
            } else {
                config.client_heartbeat_interval_ms == 60_000
            }
        }),
        ({
            let key = "hoodie.client.heartbeat.tolerable.misses"@;
            if options.contains_key(key) {
                text::count_value(options[key]) == Some(config.client_heartbeat_tolerable_misses)
            } else {
                config.client_heartbeat_tolerable_misses == 10
            }
        }),
{
    reveal_with_fuel(crate::config::write::first_value, 2);
}

/// Options resolve exactly where every given value can be read, every count is positive, the writer
/// heartbeat takes at least a second, a storage lease lasts ten seconds and ten renewals, and
/// multiple writers have the storage lock and lazy cleaning.
pub proof fn law_options_resolve_exactly_where_they_are_safe(options: Map<Seq<char>, Seq<char>>)
    ensures
        ({
            let mode_key = "hoodie.write.concurrency.mode"@;
            let provider_key = "hoodie.write.lock.provider"@;
            let policy_key = "hoodie.cleaner.policy.failed.writes"@;
            let wait_key = "hoodie.write.lock.wait_time_ms"@;
            let retry_key = "hoodie.write.lock.wait_time_ms_between_retry"@;
            let validity_key = "hoodie.write.lock.storage.validity.timeout.secs"@;
            let renewal_key = "hoodie.write.lock.storage.renew.interval.secs"@;
            let renewal_alias = "hoodie.write.lock.storage.heartbeat.poll.secs"@;
            let interval_key = "hoodie.client.heartbeat.interval_in_ms"@;
            let misses_key = "hoodie.client.heartbeat.tolerable.misses"@;
            let mode = if options.contains_key(mode_key) {
                crate::config::write::mode_of(options[mode_key])
            } else {
                Some(WriteConcurrencyMode::SingleWriter)
            };
            let provider = if options.contains_key(provider_key) {
                crate::config::write::provider_of(options[provider_key])
            } else {
                Some(WriteLockProvider::InProcess)
            };
            let policy = if options.contains_key(policy_key) {
                crate::config::write::policy_of(options[policy_key])
            } else {
                Some(FailedWritesCleaningPolicy::Eager)
            };
            let wait = if options.contains_key(wait_key) {
                text::count_value(options[wait_key])
            } else {
                Some(60_000usize)
            };
            let retry = if options.contains_key(retry_key) {
                text::count_value(options[retry_key])
            } else {
                Some(1_000usize)
            };
            let validity = if options.contains_key(validity_key) {
                text::count_value(options[validity_key])
            } else {
                Some(300usize)
            };
            let renewal = if options.contains_key(renewal_key) {
                text::count_value(options[renewal_key])
            } else if options.contains_key(renewal_alias) {
                text::count_value(options[renewal_alias])
            } else {
                Some(30usize)
            };
            let interval = if options.contains_key(interval_key) {
                text::count_value(options[interval_key])
            } else {
                Some(60_000usize)
            };
            let misses = if options.contains_key(misses_key) {
                text::count_value(options[misses_key])
            } else {
                Some(10usize)
            };
            let readable = mode is Some && provider is Some && policy is Some && wait is Some
                && retry is Some && validity is Some && renewal is Some && interval is Some
                && misses is Some;
            let positive = wait->0 > 0 && retry->0 > 0 && validity->0 > 0 && renewal->0 > 0
                && misses->0 > 0;
            let coordinated = mode->0 == WriteConcurrencyMode::OptimisticConcurrencyControl ==> (
            provider->0 == WriteLockProvider::StorageBased && policy->0
                == FailedWritesCleaningPolicy::Lazy);
            let lasting = provider->0 == WriteLockProvider::StorageBased ==> validity->0 >= 10
                && validity->0 >= 10 * renewal->0;
            crate::config::write::resolved(options) is Ok <==> readable && positive
                && interval->0 >= 1_000 && coordinated && lasting
        }),
{
    reveal_with_fuel(crate::config::write::first_value, 2);
}

/// Multiple writers without a lock provider, with a process-local one, or with a policy by which they
/// may roll each other back, are refused with an error that says what to configure.
pub proof fn law_unsafe_multi_writer_options_are_refused(options: Map<Seq<char>, Seq<char>>)
    requires
        options.contains_key("hoodie.write.concurrency.mode"@),
        crate::config::write::mode_of(options["hoodie.write.concurrency.mode"@]) == Some(
            WriteConcurrencyMode::OptimisticConcurrencyControl,
        ),
    ensures
        ({
            let error = crate::config::write::resolved(options);
            let provider_key = "hoodie.write.lock.provider"@;
            let policy_key = "hoodie.cleaner.policy.failed.writes"@;
            let provider = crate::config::write::provider_of(options[provider_key]);
            let policy = crate::config::write::policy_of(options[policy_key]);
            &&& !options.contains_key(provider_key) ==> error == Err::<WriteConcurrencyConfig, _>(
                CoreErrorModel::Write(
                    "hoodie.write.concurrency.mode"@ + " requires an external "@
                        + "hoodie.write.lock.provider"@ + "; configure "@
                        + "hoodie.write.lock.provider"@ + "="@
                        + "org.apache.hudi.client.transaction.lock.StorageBasedLockProvider"@,
                ),
            )
            &&& options.contains_key(provider_key) && provider == Some(WriteLockProvider::InProcess)
                ==> error == Err::<WriteConcurrencyConfig, _>(
                CoreErrorModel::Write(
                    "org.apache.hudi.client.transaction.lock.InProcessLockProvider"@
                        + " cannot coordinate independent writers; use "@
                        + "hoodie.write.lock.provider"@ + "="@
                        + "org.apache.hudi.client.transaction.lock.StorageBasedLockProvider"@
                        + " for "@ + "hoodie.write.concurrency.mode"@ + "="@
                        + "optimistic_concurrency_control"@,
                ),
            )
            &&& options.contains_key(provider_key) && provider == Some(
                WriteLockProvider::StorageBased,
            ) && (!options.contains_key(policy_key) || policy == Some(
                FailedWritesCleaningPolicy::Eager,
            ) || policy == Some(FailedWritesCleaningPolicy::Never)) ==> error == Err::<
                WriteConcurrencyConfig,
                _,
            >(
                CoreErrorModel::Write(
                    "hoodie.write.concurrency.mode"@ + "="@ + "optimistic_concurrency_control"@
                        + " requires "@ + "hoodie.cleaner.policy.failed.writes"@
                        + "=LAZY so one writer cannot roll back another active writer"@,
                ),
            )
        }),
{
}

/// A mode that cannot be read is refused before anything else is looked at, and the error says what
/// was given.
pub proof fn law_unreadable_mode_is_refused_first(options: Map<Seq<char>, Seq<char>>)
    requires
        options.contains_key("hoodie.write.concurrency.mode"@),
        crate::config::write::mode_of(options["hoodie.write.concurrency.mode"@]) is None,
    ensures
        crate::config::write::resolved(options) == Err::<WriteConcurrencyConfig, _>(
            CoreErrorModel::Config(
                ConfigErrorModel::InvalidValue(
                    "hoodie.write.concurrency.mode="@ + text::lowered(
                        text::trimmed(options["hoodie.write.concurrency.mode"@]),
                    ),
                ),
            ),
        ),
{
}

/// A writer heartbeat under a second, or a storage lease that is too short, is refused with an error
/// that names the setting, where the options are otherwise those of one writer at their defaults.
pub proof fn law_short_terms_are_refused(
    options: Map<Seq<char>, Seq<char>>,
    interval: usize,
    validity: usize,
    renewal: usize,
)
    requires
        !options.contains_key("hoodie.write.concurrency.mode"@),
        !options.contains_key("hoodie.cleaner.policy.failed.writes"@),
        options.contains_key("hoodie.write.lock.provider"@),
        crate::config::write::provider_of(options["hoodie.write.lock.provider"@]) == Some(
            WriteLockProvider::StorageBased,
        ),
        options.contains_key("hoodie.client.heartbeat.interval_in_ms"@),
        text::count_value(options["hoodie.client.heartbeat.interval_in_ms"@]) == Some(interval),
        options.contains_key("hoodie.write.lock.storage.validity.timeout.secs"@),
        text::count_value(options["hoodie.write.lock.storage.validity.timeout.secs"@]) == Some(
            validity,
        ),
        options.contains_key("hoodie.write.lock.storage.renew.interval.secs"@),
        text::count_value(options["hoodie.write.lock.storage.renew.interval.secs"@]) == Some(
            renewal,
        ),
        !options.contains_key("hoodie.client.heartbeat.tolerable.misses"@),
        interval > 0,
        validity > 0,
        renewal > 0,
    ensures
        interval < 1_000 ==> crate::config::write::resolved(options) == Err::<
            WriteConcurrencyConfig,
            _,
        >(
            CoreErrorModel::Write(
                "hoodie.client.heartbeat.interval_in_ms"@ + " must be at least 1000 ms"@,
            ),
        ),
        interval >= 1_000 && (validity < 10 || validity < 10 * renewal)
            ==> crate::config::write::resolved(options) == Err::<WriteConcurrencyConfig, _>(
            CoreErrorModel::Write(
                "hoodie.write.lock.storage.validity.timeout.secs"@
                    + " must be at least 10 seconds and at least 10x "@
                    + "hoodie.write.lock.storage.renew.interval.secs"@,
            ),
        ),
{
}

/// The errors of configuration and of the write path carry their texts unchanged.
pub proof fn law_errors_carry_their_texts(error: CoreError)
    ensures
        match error {
            CoreError::Config(cause) => error@ == CoreErrorModel::Config(cause@) && error@.text()
                == cause@.text(),
            CoreError::Write(text) => error@ == CoreErrorModel::Write(text@) && error@.text()
                == text@,
            CoreError::WriteConflict(text) => error@ == CoreErrorModel::WriteConflict(text@)
                && error@.text() == text@,
            CoreError::Unsupported(text) => error@ == CoreErrorModel::Unsupported(text@)
                && error@.text() == text@,
            CoreError::Storage(text) => error@ == CoreErrorModel::Storage(text@) && error@.text()
                == text@,
            CoreError::CommitMetadata(text) => error@ == CoreErrorModel::CommitMetadata(text@)
                && error@.text() == text@,
        },
{
}

/// A configuration error is its key and its value, and its words name both.
pub proof fn law_config_errors_name_key_and_value(error: ConfigError)
    ensures
        match error {
            ConfigError::NotFound(key) => error@ == ConfigErrorModel::NotFound(key@)
                && error@.text() == "Config '"@ + key@ + "' not found"@,
            ConfigError::InvalidValue(value) => error@ == ConfigErrorModel::InvalidValue(value@)
                && error@.text() == "Invalid config value: "@ + value@,
            ConfigError::ParseInt(key, value, cause) => error@ == ConfigErrorModel::ParseInt(
                key@,
                value@,
                cause,
            ) && error@.text() == "Failed to parse integer config '"@ + key@ + "', value: '"@
                + value@ + "'"@,
        },
{
}

/// The value of a setting is its text or its number.
pub proof fn law_setting_values(value: HudiConfigValue)
    ensures
        match value {
            HudiConfigValue::String(text) => value@ == ConfigValueModel::Text(text@),
            HudiConfigValue::UInteger(count) => value@ == ConfigValueModel::Count(count),
        },
{
}

} // verus!
