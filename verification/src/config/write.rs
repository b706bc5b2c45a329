//! Write-concurrency and lock settings.
use vstd::prelude::*;

use crate::config::{ConfigAlias, ConfigValueModel, HudiConfigValue, HudiConfigs};
use crate::error::{ConfigError, ConfigErrorModel, CoreError, CoreErrorModel};
use crate::text;
use crate::text::{parse_count, same_text};

verus! {

/// Class name of the process-local lock provider.
pub const IN_PROCESS_LOCK_PROVIDER_CLASS: &'static str =
    "org.apache.hudi.client.transaction.lock.InProcessLockProvider";

/// Class name of the conditional object-store lock provider.
pub const STORAGE_BASED_LOCK_PROVIDER_CLASS: &'static str =
    "org.apache.hudi.client.transaction.lock.StorageBasedLockProvider";

/// Concurrency mode for write operations.
#[derive(Clone, Copy, Debug, PartialEq, Eq, Structural)]
pub enum WriteConcurrencyMode {
    /// One active writer. Locks coordinate table handles in this process only.
    SingleWriter,
    /// File-group-level optimistic concurrency control for independent writers.
    OptimisticConcurrencyControl,
}

impl Default for WriteConcurrencyMode {
    fn default() -> (r: Self)
        ensures
            r == WriteConcurrencyMode::SingleWriter,
    {
        WriteConcurrencyMode::SingleWriter
    }
}

/// The canonical name of a mode.
pub open spec fn mode_name(mode: WriteConcurrencyMode) -> Seq<char> {
    match mode {
        WriteConcurrencyMode::SingleWriter => "single_writer"@,
        WriteConcurrencyMode::OptimisticConcurrencyControl => "optimistic_concurrency_control"@,
    }
}

/// The mode that a text names: white space around it and ASCII case do not matter.
pub open spec fn mode_of(text: Seq<char>) -> Option<WriteConcurrencyMode> {
    let name = text::lowered(text::trimmed(text));
    if name == "single_writer"@ || name == "single-writer"@ {
        Some(WriteConcurrencyMode::SingleWriter)
    } else if name == "optimistic_concurrency_control"@ || name == "optimistic-concurrency-control"@
        || name == "occ"@ {
        Some(WriteConcurrencyMode::OptimisticConcurrencyControl)
    } else {
        None
    }
}

/// The error for a text that names no mode.
pub open spec fn bad_mode(text: Seq<char>) -> ConfigErrorModel {
    ConfigErrorModel::InvalidValue("hoodie.write.concurrency.mode="@ + text::lowered(text::trimmed(text)))
}

impl WriteConcurrencyMode {
    /// Whether this mode permits independent concurrent writers.
    pub fn supports_multi_writer(self) -> (r: bool)
        ensures
            r == (self == WriteConcurrencyMode::OptimisticConcurrencyControl),
    {
        matches!(self, WriteConcurrencyMode::OptimisticConcurrencyControl)
    }

    /// The canonical name of the mode.
    pub fn as_str(&self) -> (r: &'static str)
        ensures
            r@ == mode_name(*self),
    {
        match self {
            WriteConcurrencyMode::SingleWriter => "single_writer",
            WriteConcurrencyMode::OptimisticConcurrencyControl => "optimistic_concurrency_control",
        }
    }

    /// The mode that a text names.
    pub fn from_str(value: &str) -> (r: Result<Self, ConfigError>)
        ensures
            match r {
                Ok(mode) => mode_of(value@) == Some(mode),
                Err(error) => mode_of(value@) is None && error@ == bad_mode(value@),
            },
    {
        let name: String = value.trim().to_ascii_lowercase();
        if same_text(&name, "single_writer") || same_text(&name, "single-writer") {
            Ok(WriteConcurrencyMode::SingleWriter)
        } else if same_text(&name, "optimistic_concurrency_control") || same_text(
            &name,
            "optimistic-concurrency-control",
        ) || same_text(&name, "occ") {
            Ok(WriteConcurrencyMode::OptimisticConcurrencyControl)
        } else {
            Err(
                ConfigError::InvalidValue(
                    "hoodie.write.concurrency.mode=".to_owned().concat(&name),
                ),
            )
        }
    }
}

impl std::str::FromStr for WriteConcurrencyMode {
    type Err = ConfigError;

    fn from_str(value: &str) -> (r: Result<Self, ConfigError>)
        ensures
            match r {
                Ok(mode) => mode_of(value@) == Some(mode),
                Err(error) => mode_of(value@) is None && error@ == bad_mode(value@),
            },
    {
        WriteConcurrencyMode::from_str(value)
    }
}

/// Lock providers of the write path.
#[derive(Clone, Copy, Debug, PartialEq, Eq, Structural)]
pub enum WriteLockProvider {
    /// Process-local async mutex.
    InProcess,
    /// Conditional-write lease stored under `.hoodie/.locks`.
    StorageBased,
}

impl Default for WriteLockProvider {
    fn default() -> (r: Self)
        ensures
            r == WriteLockProvider::InProcess,
    {
        WriteLockProvider::InProcess
    }
}

/// The class name of a lock provider.
pub open spec fn provider_class(provider: WriteLockProvider) -> Seq<char> {
    match provider {
        WriteLockProvider::InProcess => IN_PROCESS_LOCK_PROVIDER_CLASS@,
        WriteLockProvider::StorageBased => STORAGE_BASED_LOCK_PROVIDER_CLASS@,
    }
}

/// Two texts are the same up to ASCII case.
pub open spec fn same_ignoring_case(a: Seq<char>, b: Seq<char>) -> bool {
    text::lowered(a) == text::lowered(b)
}

/// The lock provider that a text names, by class or by short name: white space around it and ASCII
/// case do not matter.
pub open spec fn provider_of(text: Seq<char>) -> Option<WriteLockProvider> {
    let name = text::trimmed(text);
    if same_ignoring_case(name, IN_PROCESS_LOCK_PROVIDER_CLASS@) || same_ignoring_case(
        name,
        "in_process"@,
    ) || same_ignoring_case(name, "in-process"@) {
        Some(WriteLockProvider::InProcess)
    } else if same_ignoring_case(name, STORAGE_BASED_LOCK_PROVIDER_CLASS@) || same_ignoring_case(
        name,
        "storage_based"@,
    ) || same_ignoring_case(name, "storage-based"@) {
        Some(WriteLockProvider::StorageBased)
    } else {
        None
    }
}

/// The error for a text that names no lock provider.
pub open spec fn bad_provider(text: Seq<char>) -> ConfigErrorModel {
    ConfigErrorModel::InvalidValue(
        "hoodie.write.lock.provider="@ + text::trimmed(text) + " (hudi-rs supports "@
            + IN_PROCESS_LOCK_PROVIDER_CLASS@ + " and "@ + STORAGE_BASED_LOCK_PROVIDER_CLASS@
            + ")"@,
    )
}

impl WriteLockProvider {
    /// The class name of the lock provider.
    pub fn class_name(&self) -> (r: &'static str)
        ensures
            r@ == provider_class(*self),
    {
        match self {
            WriteLockProvider::InProcess => IN_PROCESS_LOCK_PROVIDER_CLASS,
            WriteLockProvider::StorageBased => STORAGE_BASED_LOCK_PROVIDER_CLASS,
        }
    }

    /// The lock provider that a text names.
    pub fn from_str(value: &str) -> (r: Result<Self, ConfigError>)
        ensures
            match r {
                Ok(provider) => provider_of(value@) == Some(provider),
                Err(error) => provider_of(value@) is None && error@ == bad_provider(value@),
            },
    {
        let normalized: &str = value.trim();
        if normalized.eq_ignore_ascii_case(IN_PROCESS_LOCK_PROVIDER_CLASS)
            || normalized.eq_ignore_ascii_case("in_process") || normalized.eq_ignore_ascii_case(
            "in-process",
        ) {
            Ok(WriteLockProvider::InProcess)
        } else if normalized.eq_ignore_ascii_case(STORAGE_BASED_LOCK_PROVIDER_CLASS)
            || normalized.eq_ignore_ascii_case("storage_based") || normalized.eq_ignore_ascii_case(
            "storage-based",
        ) {
            Ok(WriteLockProvider::StorageBased)
        } else {
            Err(
                ConfigError::InvalidValue(
                    "hoodie.write.lock.provider=".to_owned()
                        .concat(normalized)
                        .concat(" (hudi-rs supports ")
                        .concat(IN_PROCESS_LOCK_PROVIDER_CLASS)
                        .concat(" and ")
                        .concat(STORAGE_BASED_LOCK_PROVIDER_CLASS)
                        .concat(")"),
                ),
            )
        }
    }
}

impl std::str::FromStr for WriteLockProvider {
    type Err = ConfigError;

    fn from_str(value: &str) -> (r: Result<Self, ConfigError>)
        ensures
            match r {
                Ok(provider) => provider_of(value@) == Some(provider),
                Err(error) => provider_of(value@) is None && error@ == bad_provider(value@),
            },
    {
        WriteLockProvider::from_str(value)
    }
}

/// Policy for cleaning files left by failed writes.
#[derive(Clone, Copy, Debug, PartialEq, Eq, Structural)]
pub enum FailedWritesCleaningPolicy {
    /// Roll pending instants back before the next write. Single-writer only.
    Eager,
    /// Defer cleanup until the failed writer is known to be dead.
    Lazy,
    /// Never clean failed writes automatically.
    Never,
}

impl Default for FailedWritesCleaningPolicy {
    fn default() -> (r: Self)
        ensures
            r == FailedWritesCleaningPolicy::Eager,
    {
        FailedWritesCleaningPolicy::Eager
    }
}

/// The canonical name of a cleaning policy.
pub open spec fn policy_name(policy: FailedWritesCleaningPolicy) -> Seq<char> {
    match policy {
        FailedWritesCleaningPolicy::Eager => "EAGER"@,
        FailedWritesCleaningPolicy::Lazy => "LAZY"@,
        FailedWritesCleaningPolicy::Never => "NEVER"@,
    }
}

/// The cleaning policy that a text names: white space around it and ASCII case do not matter.
pub open spec fn policy_of(text: Seq<char>) -> Option<FailedWritesCleaningPolicy> {
    let name = text::lowered(text::trimmed(text));
    if name == "eager"@ {
        Some(FailedWritesCleaningPolicy::Eager)
    } else if name == "lazy"@ {
        Some(FailedWritesCleaningPolicy::Lazy)
    } else if name == "never"@ {
        Some(FailedWritesCleaningPolicy::Never)
    } else {
        None
    }
}

/// The error for a text that names no cleaning policy.
pub open spec fn bad_policy(text: Seq<char>) -> ConfigErrorModel {
    ConfigErrorModel::InvalidValue(
        "hoodie.cleaner.policy.failed.writes="@ + text::lowered(text::trimmed(text)),
    )
}

impl FailedWritesCleaningPolicy {
    /// The canonical name of the policy.
    pub fn as_str(&self) -> (r: &'static str)
        ensures
            r@ == policy_name(*self),
    {
        match self {
            FailedWritesCleaningPolicy::Eager => "EAGER",
            FailedWritesCleaningPolicy::Lazy => "LAZY",
            FailedWritesCleaningPolicy::Never => "NEVER",
        }
    }

    /// The cleaning policy that a text names.
    pub fn from_str(value: &str) -> (r: Result<Self, ConfigError>)
        ensures
            match r {
                Ok(policy) => policy_of(value@) == Some(policy),
                Err(error) => policy_of(value@) is None && error@ == bad_policy(value@),
            },
    {
        let name: String = value.trim().to_ascii_lowercase();
        if same_text(&name, "eager") {
            Ok(FailedWritesCleaningPolicy::Eager)
        } else if same_text(&name, "lazy") {
            Ok(FailedWritesCleaningPolicy::Lazy)
        } else if same_text(&name, "never") {
            Ok(FailedWritesCleaningPolicy::Never)
        } else {
            Err(
                ConfigError::InvalidValue(
                    "hoodie.cleaner.policy.failed.writes=".to_owned().concat(&name),
                ),
            )
        }
    }
}

impl std::str::FromStr for FailedWritesCleaningPolicy {
    type Err = ConfigError;

    fn from_str(value: &str) -> (r: Result<Self, ConfigError>)
        ensures
            match r {
                Ok(policy) => policy_of(value@) == Some(policy),
                Err(error) => policy_of(value@) is None && error@ == bad_policy(value@),
            },
    {
        FailedWritesCleaningPolicy::from_str(value)
    }
}

/// The name of every mode names that mode.
pub proof fn law_mode_name_round_trip(mode: WriteConcurrencyMode)
    ensures
        mode_of(mode_name(mode)) == Some(mode),
{
    reveal_strlit("single_writer");
    reveal_strlit("single-writer");
    reveal_strlit("optimistic_concurrency_control");
    assert(text::lowered("single_writer"@) =~= "single_writer"@);
    assert(text::lowered("optimistic_concurrency_control"@) =~= "optimistic_concurrency_control"@);
    let name = mode_name(mode);
    assert(text::trimmed(name) == name);
}

/// The class name of every lock provider names that provider.
pub proof fn law_provider_class_round_trip(provider: WriteLockProvider)
    ensures
        provider_of(provider_class(provider)) == Some(provider),
{
    reveal_strlit("org.apache.hudi.client.transaction.lock.InProcessLockProvider");
    reveal_strlit("org.apache.hudi.client.transaction.lock.StorageBasedLockProvider");
    reveal_strlit("in_process");
    reveal_strlit("in-process");
    let class = provider_class(provider);
    assert(text::trimmed(class) == class);
    assert(text::lowered(class).len() == class.len());
    assert(text::lowered(IN_PROCESS_LOCK_PROVIDER_CLASS@).len() == IN_PROCESS_LOCK_PROVIDER_CLASS@.len());
    assert(text::lowered("in_process"@).len() == "in_process"@.len());
    assert(text::lowered("in-process"@).len() == "in-process"@.len());
}

/// The name of every cleaning policy names that policy.
pub proof fn law_policy_name_round_trip(policy: FailedWritesCleaningPolicy)
    ensures
        policy_of(policy_name(policy)) == Some(policy),
{
    reveal_strlit("EAGER");
    reveal_strlit("LAZY");
    reveal_strlit("NEVER");
    reveal_strlit("eager");
    reveal_strlit("lazy");
    reveal_strlit("never");
    assert(text::lowered("EAGER"@) =~= "eager"@);
    assert(text::lowered("LAZY"@) =~= "lazy"@);
    assert(text::lowered("NEVER"@) =~= "never"@);
    assert("eager"@[0] != "never"@[0]);
    let name = policy_name(policy);
    assert(text::trimmed(name) == name);
}

/// Typed write-side settings.
#[derive(Clone, Copy, Debug, PartialEq, Eq, Hash, Structural)]
pub enum HudiWriteConfig {
    /// [`WriteConcurrencyMode`].
    ConcurrencyMode,
    /// [`WriteLockProvider`].
    LockProvider,
    /// Overall lock acquisition timeout in milliseconds.
    LockAcquireWaitTimeoutMs,
    /// Delay between lock acquisition attempts in milliseconds.
    LockAcquireRetryWaitMs,
    /// Storage-lock lease lifetime in seconds.
    StorageLockValiditySeconds,
    /// Storage-lock heartbeat interval in seconds.
    StorageLockRenewIntervalSeconds,
    /// Standard writer heartbeat interval in milliseconds.
    ClientHeartbeatIntervalMs,
    /// Number of missed writer heartbeats tolerated before cleanup.
    ClientHeartbeatTolerableMisses,
    /// [`FailedWritesCleaningPolicy`].
    FailedWritesCleaningPolicy,
}

/// The configuration key of a setting.
pub open spec fn key_text(setting: HudiWriteConfig) -> Seq<char> {
    match setting {
        HudiWriteConfig::ConcurrencyMode => "hoodie.write.concurrency.mode"@,
        HudiWriteConfig::LockProvider => "hoodie.write.lock.provider"@,
        HudiWriteConfig::LockAcquireWaitTimeoutMs => "hoodie.write.lock.wait_time_ms"@,
        HudiWriteConfig::LockAcquireRetryWaitMs => "hoodie.write.lock.wait_time_ms_between_retry"@,
        HudiWriteConfig::StorageLockValiditySeconds =>
            "hoodie.write.lock.storage.validity.timeout.secs"@,
        HudiWriteConfig::StorageLockRenewIntervalSeconds =>
            "hoodie.write.lock.storage.renew.interval.secs"@,
        HudiWriteConfig::ClientHeartbeatIntervalMs => "hoodie.client.heartbeat.interval_in_ms"@,
        HudiWriteConfig::ClientHeartbeatTolerableMisses =>
            "hoodie.client.heartbeat.tolerable.misses"@,
        HudiWriteConfig::FailedWritesCleaningPolicy => "hoodie.cleaner.policy.failed.writes"@,
    }
}

/// The setting is a positive count.
pub open spec fn is_count(setting: HudiWriteConfig) -> bool {
    match setting {
        HudiWriteConfig::ConcurrencyMode => false,
        HudiWriteConfig::LockProvider => false,
        HudiWriteConfig::FailedWritesCleaningPolicy => false,
        _ => true,
    }
}

/// What a count is worth where no value is given.
pub open spec fn default_count(setting: HudiWriteConfig) -> usize
    recommends
        is_count(setting),
{
    match setting {
        HudiWriteConfig::LockAcquireWaitTimeoutMs => 60_000,
        HudiWriteConfig::LockAcquireRetryWaitMs => 1_000,
        HudiWriteConfig::StorageLockValiditySeconds => 300,
        HudiWriteConfig::StorageLockRenewIntervalSeconds => 30,
        HudiWriteConfig::ClientHeartbeatIntervalMs => 60_000,
        _ => 10,
    }
}

/// What a setting is worth where no value is given. The lock provider has no default.
pub open spec fn default_setting(setting: HudiWriteConfig) -> Option<ConfigValueModel> {
    match setting {
        HudiWriteConfig::ConcurrencyMode => Some(
            ConfigValueModel::Text(mode_name(WriteConcurrencyMode::SingleWriter)),
        ),
        HudiWriteConfig::LockProvider => None,
        HudiWriteConfig::FailedWritesCleaningPolicy => Some(
            ConfigValueModel::Text(policy_name(FailedWritesCleaningPolicy::Eager)),
        ),
        _ => Some(ConfigValueModel::Count(default_count(setting))),
    }
}

/// The keys besides its own that a setting is looked up under, in order.
pub open spec fn alias_keys(setting: HudiWriteConfig) -> Seq<Seq<char>> {
    match setting {
        HudiWriteConfig::StorageLockRenewIntervalSeconds => seq![
            "hoodie.write.lock.storage.heartbeat.poll.secs"@,
        ],
        _ => Seq::empty(),
    }
}

/// The value under the first of `keys` that has one.
pub open spec fn first_value(
    options: Map<Seq<char>, Seq<char>>,
    keys: Seq<Seq<char>>,
) -> Option<Seq<char>>
    decreases keys.len(),
{
    if keys.len() == 0 {
        None
    } else if options.contains_key(keys[0]) {
        Some(options[keys[0]])
    } else {
        first_value(options, keys.drop_first())
    }
}

/// The raw value of a setting: the one under its own key, else under its aliases.
pub open spec fn raw_setting(
    options: Map<Seq<char>, Seq<char>>,
    setting: HudiWriteConfig,
) -> Option<Seq<char>> {
    if options.contains_key(key_text(setting)) {
        Some(options[key_text(setting)])
    } else {
        first_value(options, alias_keys(setting))
    }
}

/// The positive count that a raw value stands for.
pub open spec fn count_of(setting: HudiWriteConfig, raw: Seq<char>) -> Result<
    usize,
    ConfigErrorModel,
> {
    match text::count_value(raw) {
        Some(count) => if count == 0 {
            Err(ConfigErrorModel::InvalidValue(key_text(setting) + "=0 (must be > 0)"@))
        } else {
            Ok(count)
        },
        None => Err(
            ConfigErrorModel::ParseInt(key_text(setting), raw, text::parse_error(raw)),
        ),
    }
}

/// What a raw value of a setting stands for.
pub open spec fn setting_value(setting: HudiWriteConfig, raw: Seq<char>) -> Result<
    ConfigValueModel,
    ConfigErrorModel,
> {
    match setting {
        HudiWriteConfig::ConcurrencyMode => match mode_of(raw) {
            Some(mode) => Ok(ConfigValueModel::Text(mode_name(mode))),
            None => Err(bad_mode(raw)),
        },
        HudiWriteConfig::LockProvider => match provider_of(raw) {
            Some(provider) => Ok(ConfigValueModel::Text(provider_class(provider))),
            None => Err(bad_provider(raw)),
        },
        HudiWriteConfig::FailedWritesCleaningPolicy => match policy_of(raw) {
            Some(policy) => Ok(ConfigValueModel::Text(policy_name(policy))),
            None => Err(bad_policy(raw)),
        },
        _ => match count_of(setting, raw) {
            Ok(count) => Ok(ConfigValueModel::Count(count)),
            Err(error) => Err(error),
        },
    }
}

/// The value that the options give a setting.
pub open spec fn given_setting(
    options: Map<Seq<char>, Seq<char>>,
    setting: HudiWriteConfig,
) -> Result<ConfigValueModel, ConfigErrorModel> {
    match raw_setting(options, setting) {
        Some(raw) => setting_value(setting, raw),
        None => Err(ConfigErrorModel::NotFound(key_text(setting))),
    }
}

/// The value of a setting: the given one, else its default.
pub open spec fn effective_setting(
    options: Map<Seq<char>, Seq<char>>,
    setting: HudiWriteConfig,
) -> Result<Option<ConfigValueModel>, ConfigErrorModel> {
    match raw_setting(options, setting) {
        Some(raw) => match setting_value(setting, raw) {
            Ok(value) => Ok(Some(value)),
            Err(error) => Err(error),
        },
        None => Ok(default_setting(setting)),
    }
}

impl HudiWriteConfig {
    /// The configuration key.
    pub fn key_str(&self) -> (r: &'static str)
        ensures
            r@ == key_text(*self),
    {
        match self {
            HudiWriteConfig::ConcurrencyMode => "hoodie.write.concurrency.mode",
            HudiWriteConfig::LockProvider => "hoodie.write.lock.provider",
            HudiWriteConfig::LockAcquireWaitTimeoutMs => "hoodie.write.lock.wait_time_ms",
            HudiWriteConfig::LockAcquireRetryWaitMs =>
                "hoodie.write.lock.wait_time_ms_between_retry",
            HudiWriteConfig::StorageLockValiditySeconds =>
                "hoodie.write.lock.storage.validity.timeout.secs",
            HudiWriteConfig::StorageLockRenewIntervalSeconds =>
                "hoodie.write.lock.storage.renew.interval.secs",
            HudiWriteConfig::ClientHeartbeatIntervalMs => "hoodie.client.heartbeat.interval_in_ms",
            HudiWriteConfig::ClientHeartbeatTolerableMisses =>
                "hoodie.client.heartbeat.tolerable.misses",
            HudiWriteConfig::FailedWritesCleaningPolicy => "hoodie.cleaner.policy.failed.writes",
        }
    }

    /// What the setting is worth where no value is given.
    pub fn default_value(&self) -> (r: Option<HudiConfigValue>)
        ensures
            r is Some <==> default_setting(*self) is Some,
            r matches Some(value) ==> default_setting(*self) == Some(value@),
    {
        match self {
            HudiWriteConfig::ConcurrencyMode => Some(
                HudiConfigValue::String(WriteConcurrencyMode::default().as_str().to_owned()),
            ),
            HudiWriteConfig::LockProvider => None,
            HudiWriteConfig::LockAcquireWaitTimeoutMs => Some(HudiConfigValue::UInteger(60_000)),
            HudiWriteConfig::LockAcquireRetryWaitMs => Some(HudiConfigValue::UInteger(1_000)),
            HudiWriteConfig::StorageLockValiditySeconds => Some(HudiConfigValue::UInteger(300)),
            HudiWriteConfig::StorageLockRenewIntervalSeconds => Some(HudiConfigValue::UInteger(30)),
            HudiWriteConfig::ClientHeartbeatIntervalMs => Some(HudiConfigValue::UInteger(60_000)),
            HudiWriteConfig::ClientHeartbeatTolerableMisses => Some(HudiConfigValue::UInteger(10)),
            HudiWriteConfig::FailedWritesCleaningPolicy => Some(
                HudiConfigValue::String(FailedWritesCleaningPolicy::default().as_str().to_owned()),
            ),
        }
    }

    /// The other keys that the setting is looked up under, in order.
    pub fn aliases(&self) -> (r: Vec<ConfigAlias>)
        ensures
            r@.map_values(|alias: ConfigAlias| alias.key@) == alias_keys(*self),
            forall|i: int| 0 <= i < r.len() ==> (#[trigger] r[i]).deprecated,
    {
        let mut aliases: Vec<ConfigAlias> = Vec::new();
        if let HudiWriteConfig::StorageLockRenewIntervalSeconds = self {
            aliases.push(ConfigAlias::deprecated("hoodie.write.lock.storage.heartbeat.poll.secs"));
        }
        aliases
    }

    /// The raw value of the setting.
    fn resolve_raw_value<'a>(&self, configs: &'a HudiConfigs) -> (r: Result<
        &'a String,
        ConfigError,
    >)
        ensures
            match r {
                Ok(raw) => raw_setting(configs@, *self) == Some(raw@),
                Err(error) => raw_setting(configs@, *self) is None && error@
                    == ConfigErrorModel::NotFound(key_text(*self)),
            },
    {
        if let Some(raw) = configs.raw(self.key_str()) {
            return Ok(raw);
        }
        let aliases: Vec<ConfigAlias> = self.aliases();
        let ghost keys = alias_keys(*self);
        let mut i: usize = 0;
        proof {
            assert(keys.skip(0) == keys);
            assert(keys.len() == aliases.len());
        }
        while i < aliases.len()
            invariant
                i <= aliases.len(),
                keys.len() == aliases.len(),
                keys == aliases@.map_values(|alias: ConfigAlias| alias.key@),
                keys == alias_keys(*self),
                !configs@.contains_key(key_text(*self)),
                first_value(configs@, keys) == first_value(configs@, keys.skip(i as int)),
            decreases aliases.len() - i,
        {
            proof {
                assert(keys.skip(i as int)[0] == aliases[i as int].key@);
                assert(keys.skip(i as int).drop_first() == keys.skip(i + 1));
            }
            if let Some(raw) = configs.raw(aliases[i].key) {
                return Ok(raw);
            }
            i = i + 1;
        }
        Err(ConfigError::NotFound(self.key_str().to_owned()))
    }

    /// The value that the options give the setting.
    pub fn parse_value(&self, configs: &HudiConfigs) -> (r: Result<HudiConfigValue, ConfigError>)
        ensures
            match r {
                Ok(value) => given_setting(configs@, *self) == Ok::<_, ConfigErrorModel>(value@),
                Err(error) => given_setting(configs@, *self) == Err::<ConfigValueModel, _>(error@),
            },
    {
        let raw: &String = match self.resolve_raw_value(configs) {
            Ok(raw) => raw,
            Err(error) => return Err(error),
        };
        match self {
            HudiWriteConfig::ConcurrencyMode => match WriteConcurrencyMode::from_str(raw) {
                Ok(mode) => Ok(HudiConfigValue::String(mode.as_str().to_owned())),
                Err(error) => Err(error),
            },
            HudiWriteConfig::LockProvider => match WriteLockProvider::from_str(raw) {
                Ok(provider) => Ok(HudiConfigValue::String(provider.class_name().to_owned())),
                Err(error) => Err(error),
            },
            HudiWriteConfig::FailedWritesCleaningPolicy => {
                match FailedWritesCleaningPolicy::from_str(raw) {
                    Ok(policy) => Ok(HudiConfigValue::String(policy.as_str().to_owned())),
                    Err(error) => Err(error),
                }
            },
            _ => self.positive_count(raw, parse_count(raw)),
        }
    }

    /// The count that `raw` stands for under this setting, by what came of parsing it.
    pub fn positive_count(
        &self,
        raw: &str,
        parsed: Result<usize, std::num::ParseIntError>,
    ) -> (r: Result<HudiConfigValue, ConfigError>)
        ensures
            match parsed {
                Ok(count) => if count == 0 {
                    r matches Err(error) && error@ == ConfigErrorModel::InvalidValue(
                        key_text(*self) + "=0 (must be > 0)"@,
                    )
                } else {
                    r == Ok::<_, ConfigError>(HudiConfigValue::UInteger(count))
                },
                Err(cause) => r matches Err(error) && error@ == ConfigErrorModel::ParseInt(
                    key_text(*self),
                    raw@,
                    cause,
                ),
            },
    {
        match parsed {
            Ok(count) => {
                if count == 0 {
                    Err(
                        ConfigError::InvalidValue(
                            self.key_str().to_owned().concat("=0 (must be > 0)"),
                        ),
                    )
                } else {
                    Ok(HudiConfigValue::UInteger(count))
                }
            },
            Err(cause) => Err(
                ConfigError::ParseInt(self.key_str().to_owned(), raw.to_owned(), cause),
            ),
        }
    }
}

impl HudiConfigs {
    /// The value that the options give a setting.
    pub fn get(&self, setting: HudiWriteConfig) -> (r: Result<HudiConfigValue, ConfigError>)
        ensures
            match r {
                Ok(value) => given_setting(self@, setting) == Ok::<_, ConfigErrorModel>(value@),
                Err(error) => given_setting(self@, setting) == Err::<ConfigValueModel, _>(error@),
            },
    {
        setting.parse_value(self)
    }

    /// The value of a setting: the given one, else its default.
    pub fn try_get(&self, setting: HudiWriteConfig) -> (r: Result<
        Option<HudiConfigValue>,
        ConfigError,
    >)
        ensures
            match r {
                Ok(Some(value)) => effective_setting(self@, setting) == Ok::<
                    _,
                    ConfigErrorModel,
                >(Some(value@)),
                Ok(None) => effective_setting(self@, setting) == Ok::<
                    Option<ConfigValueModel>,
                    ConfigErrorModel,
                >(None),
                Err(error) => effective_setting(self@, setting) == Err::<
                    Option<ConfigValueModel>,
                    _,
                >(error@),
            },
    {
        match setting.parse_value(self) {
            Ok(value) => Ok(Some(value)),
            Err(ConfigError::NotFound(_)) => Ok(setting.default_value()),
            Err(error) => Err(error),
        }
    }
}

/// Resolved and cross-validated settings for one table writer.
#[derive(Clone, Copy, Debug, PartialEq, Eq, Structural)]
pub struct WriteConcurrencyConfig {
    pub mode: WriteConcurrencyMode,
    pub lock_provider: WriteLockProvider,
    pub lock_wait_timeout_ms: usize,
    pub lock_retry_wait_ms: usize,
    pub storage_lock_validity_seconds: usize,
    pub storage_lock_renew_interval_seconds: usize,
    pub client_heartbeat_interval_ms: usize,
    pub client_heartbeat_tolerable_misses: usize,
    pub failed_writes_cleaning_policy: FailedWritesCleaningPolicy,
}

/// The mode that the options choose.
pub open spec fn chosen_mode(options: Map<Seq<char>, Seq<char>>) -> Result<
    WriteConcurrencyMode,
    ConfigErrorModel,
> {
    match raw_setting(options, HudiWriteConfig::ConcurrencyMode) {
        Some(raw) => match mode_of(raw) {
            Some(mode) => Ok(mode),
            None => Err(bad_mode(raw)),
        },
        None => Ok(WriteConcurrencyMode::SingleWriter),
    }
}

/// The cleaning policy that the options choose.
pub open spec fn chosen_policy(options: Map<Seq<char>, Seq<char>>) -> Result<
    FailedWritesCleaningPolicy,
    ConfigErrorModel,
> {
    match raw_setting(options, HudiWriteConfig::FailedWritesCleaningPolicy) {
        Some(raw) => match policy_of(raw) {
            Some(policy) => Ok(policy),
            None => Err(bad_policy(raw)),
        },
        None => Ok(FailedWritesCleaningPolicy::Eager),
    }
}

/// A count that the options choose.
pub open spec fn chosen_count(
    options: Map<Seq<char>, Seq<char>>,
    setting: HudiWriteConfig,
) -> Result<usize, ConfigErrorModel> {
    match raw_setting(options, setting) {
        Some(raw) => count_of(setting, raw),
        None => Ok(default_count(setting)),
    }
}

/// The lock provider for a mode: the given one, which multiple writers cannot do without.
pub open spec fn chosen_provider(
    options: Map<Seq<char>, Seq<char>>,
    mode: WriteConcurrencyMode,
) -> Result<WriteLockProvider, CoreErrorModel> {
    match raw_setting(options, HudiWriteConfig::LockProvider) {
        Some(raw) => match provider_of(raw) {
            Some(provider) => Ok(provider),
            None => Err(CoreErrorModel::Config(bad_provider(raw))),
        },
        None => if mode == WriteConcurrencyMode::SingleWriter {
            Ok(WriteLockProvider::InProcess)
        } else {
            Err(missing_provider())
        },
    }
}

/// The error for multiple writers without a lock provider.
pub open spec fn missing_provider() -> CoreErrorModel {
    CoreErrorModel::Write(
        key_text(HudiWriteConfig::ConcurrencyMode) + " requires an external "@ + key_text(
            HudiWriteConfig::LockProvider,
        ) + "; configure "@ + key_text(HudiWriteConfig::LockProvider) + "="@
            + STORAGE_BASED_LOCK_PROVIDER_CLASS@,
    )
}

/// The error for multiple writers with a process-local lock.
pub open spec fn local_provider() -> CoreErrorModel {
    CoreErrorModel::Write(
        IN_PROCESS_LOCK_PROVIDER_CLASS@ + " cannot coordinate independent writers; use "@
            + key_text(HudiWriteConfig::LockProvider) + "="@ + STORAGE_BASED_LOCK_PROVIDER_CLASS@
            + " for "@ + key_text(HudiWriteConfig::ConcurrencyMode) + "="@ + mode_name(
            WriteConcurrencyMode::OptimisticConcurrencyControl,
        ),
    )
}

/// The error for multiple writers that may roll each other back.
pub open spec fn unsafe_policy(mode: WriteConcurrencyMode) -> CoreErrorModel {
    CoreErrorModel::Write(
        key_text(HudiWriteConfig::ConcurrencyMode) + "="@ + mode_name(mode) + " requires "@
            + key_text(HudiWriteConfig::FailedWritesCleaningPolicy)
            + "=LAZY so one writer cannot roll back another active writer"@,
    )
}

/// The error for a heartbeat interval under one second.
pub open spec fn short_heartbeat() -> CoreErrorModel {
    CoreErrorModel::Write(
        key_text(HudiWriteConfig::ClientHeartbeatIntervalMs) + " must be at least 1000 ms"@,
    )
}

/// The error for a lease that does not cover ten renewals.
pub open spec fn short_lease() -> CoreErrorModel {
    CoreErrorModel::Write(
        key_text(HudiWriteConfig::StorageLockValiditySeconds)
            + " must be at least 10 seconds and at least 10x "@ + key_text(
            HudiWriteConfig::StorageLockRenewIntervalSeconds,
        ),
    )
}

/// The counts that the options choose, or the error of the first that they spoil.
pub open spec fn with_counts(
    options: Map<Seq<char>, Seq<char>>,
    mode: WriteConcurrencyMode,
    provider: WriteLockProvider,
    policy: FailedWritesCleaningPolicy,
) -> Result<WriteConcurrencyConfig, CoreErrorModel> {
    match (
        chosen_count(options, HudiWriteConfig::StorageLockValiditySeconds),
        chosen_count(options, HudiWriteConfig::StorageLockRenewIntervalSeconds),
        chosen_count(options, HudiWriteConfig::ClientHeartbeatIntervalMs),
        chosen_count(options, HudiWriteConfig::ClientHeartbeatTolerableMisses),
    ) {
        (Err(error), _, _, _) => Err(CoreErrorModel::Config(error)),
        (_, Err(error), _, _) => Err(CoreErrorModel::Config(error)),
        (_, _, Err(error), _) => Err(CoreErrorModel::Config(error)),
        (_, _, _, Err(error)) => Err(CoreErrorModel::Config(error)),
        (Ok(validity), Ok(renewal), Ok(interval), Ok(misses)) => if interval < 1000 {
            Err(short_heartbeat())
        } else if provider == WriteLockProvider::StorageBased && (validity < 10 || validity < 10
            * renewal) {
            Err(short_lease())
        } else {
            match (
                chosen_count(options, HudiWriteConfig::LockAcquireWaitTimeoutMs),
                chosen_count(options, HudiWriteConfig::LockAcquireRetryWaitMs),
            ) {
                (Err(error), _) => Err(CoreErrorModel::Config(error)),
                (_, Err(error)) => Err(CoreErrorModel::Config(error)),
                (Ok(wait), Ok(retry)) => Ok(
                    WriteConcurrencyConfig {
                        mode,
                        lock_provider: provider,
                        lock_wait_timeout_ms: wait,
                        lock_retry_wait_ms: retry,
                        storage_lock_validity_seconds: validity,
                        storage_lock_renew_interval_seconds: renewal,
                        client_heartbeat_interval_ms: interval,
                        client_heartbeat_tolerable_misses: misses,
                        failed_writes_cleaning_policy: policy,
                    },
                ),
            }
        },
    }
}

/// The settings that the options resolve to, or the first reason why they do not.
pub open spec fn resolved(options: Map<Seq<char>, Seq<char>>) -> Result<
    WriteConcurrencyConfig,
    CoreErrorModel,
> {
    match chosen_mode(options) {
        Err(error) => Err(CoreErrorModel::Config(error)),
        Ok(mode) => {
            let multi_writer = mode == WriteConcurrencyMode::OptimisticConcurrencyControl;
            match chosen_provider(options, mode) {
                Err(error) => Err(error),
                Ok(provider) => if multi_writer && provider == WriteLockProvider::InProcess {
                    Err(local_provider())
                } else {
                    match chosen_policy(options) {
                        Err(error) => Err(CoreErrorModel::Config(error)),
                        Ok(policy) => if multi_writer && policy
                            != FailedWritesCleaningPolicy::Lazy {
                            Err(unsafe_policy(mode))
                        } else {
                            with_counts(options, mode, provider, policy)
                        },
                    }
                },
            }
        },
    }
}

/// The count of a setting.
fn count_setting(configs: &HudiConfigs, setting: HudiWriteConfig) -> (r: Result<usize, CoreError>)
    requires
        is_count(setting),
    ensures
        match r {
            Ok(count) => chosen_count(configs@, setting) == Ok::<_, ConfigErrorModel>(count)
                && count > 0,
            Err(error) => exists|cause: ConfigErrorModel|
                chosen_count(configs@, setting) == Err::<usize, _>(cause) && error@
                    == CoreErrorModel::Config(cause),
        },
{
    match configs.try_get(setting) {
        Ok(Some(HudiConfigValue::UInteger(count))) => Ok(count),
        Ok(_) => Err(CoreError::Write("write config default is missing".to_owned())),
        Err(error) => Err(CoreError::Config(error)),
    }
}

impl WriteConcurrencyConfig {
    /// Resolve write settings, enforcing the invariants required for multi-writer safety.
    pub fn from_configs(configs: &HudiConfigs) -> (r: Result<Self, CoreError>)
        ensures
            match r {
                Ok(config) => resolved(configs@) == Ok::<_, CoreErrorModel>(config),
                Err(error) => resolved(configs@) == Err::<WriteConcurrencyConfig, _>(error@),
            },
    {
        proof {
            law_mode_name_round_trip(WriteConcurrencyMode::SingleWriter);
            law_mode_name_round_trip(WriteConcurrencyMode::OptimisticConcurrencyControl);
            law_provider_class_round_trip(WriteLockProvider::InProcess);
            law_provider_class_round_trip(WriteLockProvider::StorageBased);
            law_policy_name_round_trip(FailedWritesCleaningPolicy::Eager);
            law_policy_name_round_trip(FailedWritesCleaningPolicy::Lazy);
            law_policy_name_round_trip(FailedWritesCleaningPolicy::Never);
        }
        let mode: WriteConcurrencyMode = match configs.try_get(HudiWriteConfig::ConcurrencyMode) {
            Ok(Some(HudiConfigValue::String(name))) => match WriteConcurrencyMode::from_str(&name) {
                Ok(mode) => mode,
                Err(error) => return Err(CoreError::Config(error)),
            },
            Ok(_) => {
                return Err(
                    CoreError::Write("write concurrency mode default is missing".to_owned()),
                );
            },
            Err(error) => return Err(CoreError::Config(error)),
        };

        let lock_provider: WriteLockProvider = match configs.get(HudiWriteConfig::LockProvider) {
            Ok(HudiConfigValue::String(class)) => match WriteLockProvider::from_str(&class) {
                Ok(provider) => provider,
                Err(error) => return Err(CoreError::Config(error)),
            },
            Ok(HudiConfigValue::UInteger(_)) => vstd::pervasive::unreached(),
            Err(ConfigError::NotFound(_)) => {
                if mode != WriteConcurrencyMode::SingleWriter {
                    return Err(
                        CoreError::Write(
                            HudiWriteConfig::ConcurrencyMode.key_str().to_owned()
                                .concat(" requires an external ")
                                .concat(HudiWriteConfig::LockProvider.key_str())
                                .concat("; configure ")
                                .concat(HudiWriteConfig::LockProvider.key_str())
                                .concat("=")
                                .concat(STORAGE_BASED_LOCK_PROVIDER_CLASS),
                        ),
                    );
                }
                WriteLockProvider::InProcess
            },
            Err(error) => return Err(CoreError::Config(error)),
        };

        if mode.supports_multi_writer() && lock_provider == WriteLockProvider::InProcess {
            return Err(
                CoreError::Write(
                    IN_PROCESS_LOCK_PROVIDER_CLASS.to_owned()
                        .concat(" cannot coordinate independent writers; use ")
                        .concat(HudiWriteConfig::LockProvider.key_str())
                        .concat("=")
                        .concat(STORAGE_BASED_LOCK_PROVIDER_CLASS)
                        .concat(" for ")
                        .concat(HudiWriteConfig::ConcurrencyMode.key_str())
                        .concat("=")
                        .concat(WriteConcurrencyMode::OptimisticConcurrencyControl.as_str()),
                ),
            );
        }

        let policy: FailedWritesCleaningPolicy = match configs.try_get(
            HudiWriteConfig::FailedWritesCleaningPolicy,
        ) {
            Ok(Some(HudiConfigValue::String(name))) => {
                match FailedWritesCleaningPolicy::from_str(&name) {
                    Ok(policy) => policy,
                    Err(error) => return Err(CoreError::Config(error)),
                }
            },
            Ok(_) => {
                return Err(CoreError::Write("failed-writes policy default is missing".to_owned()));
            },
            Err(error) => return Err(CoreError::Config(error)),
        };
        if mode.supports_multi_writer() && policy != FailedWritesCleaningPolicy::Lazy {
            return Err(
                CoreError::Write(
                    HudiWriteConfig::ConcurrencyMode.key_str().to_owned()
                        .concat("=")
                        .concat(mode.as_str())
                        .concat(" requires ")
                        .concat(HudiWriteConfig::FailedWritesCleaningPolicy.key_str())
                        .concat("=LAZY so one writer cannot roll back another active writer"),
                ),
            );
        }

        let validity: usize = count_setting(configs, HudiWriteConfig::StorageLockValiditySeconds)?;
        let renewal: usize = count_setting(
            configs,
            HudiWriteConfig::StorageLockRenewIntervalSeconds,
        )?;
        let interval: usize = count_setting(configs, HudiWriteConfig::ClientHeartbeatIntervalMs)?;
        let misses: usize = count_setting(
            configs,
            HudiWriteConfig::ClientHeartbeatTolerableMisses,
        )?;
        if interval < 1_000 {
            return Err(
                CoreError::Write(
                    HudiWriteConfig::ClientHeartbeatIntervalMs.key_str().to_owned()
                        .concat(" must be at least 1000 ms"),
                ),
            );
        }
        if lock_provider == WriteLockProvider::StorageBased && (validity < 10 || validity / 10
            < renewal) {
            return Err(
                CoreError::Write(
                    HudiWriteConfig::StorageLockValiditySeconds.key_str().to_owned()
                        .concat(" must be at least 10 seconds and at least 10x ")
                        .concat(HudiWriteConfig::StorageLockRenewIntervalSeconds.key_str()),
                ),
            );
        }

        Ok(
            WriteConcurrencyConfig {
                mode,
                lock_provider,
                lock_wait_timeout_ms: count_setting(
                    configs,
                    HudiWriteConfig::LockAcquireWaitTimeoutMs,
                )?,
                lock_retry_wait_ms: count_setting(
                    configs,
                    HudiWriteConfig::LockAcquireRetryWaitMs,
                )?,
                storage_lock_validity_seconds: validity,
                storage_lock_renew_interval_seconds: renewal,
                client_heartbeat_interval_ms: interval,
                client_heartbeat_tolerable_misses: misses,
                failed_writes_cleaning_policy: policy,
            },
        )
    }
}

/// Multiple writers always get a lock that reaches across processes, and never roll each other
/// back eagerly.
pub proof fn law_multi_writer_is_coordinated(options: Map<Seq<char>, Seq<char>>)
    ensures
        resolved(options) matches Ok(config) ==> config.mode
            == WriteConcurrencyMode::OptimisticConcurrencyControl ==> config.lock_provider
            == WriteLockProvider::StorageBased && config.failed_writes_cleaning_policy
            == FailedWritesCleaningPolicy::Lazy,
{
}

/// Every count of resolved settings is positive, the writer heartbeat takes at least a second, and
/// a storage lease lasts at least ten seconds and covers ten renewals.
pub proof fn law_resolved_counts(options: Map<Seq<char>, Seq<char>>)
    ensures
        resolved(options) matches Ok(config) ==> {
            &&& config.lock_wait_timeout_ms > 0
            &&& config.lock_retry_wait_ms > 0
            &&& config.storage_lock_validity_seconds > 0
            &&& config.storage_lock_renew_interval_seconds > 0
            &&& config.client_heartbeat_interval_ms >= 1000
            &&& config.client_heartbeat_tolerable_misses > 0
            &&& config.lock_provider == WriteLockProvider::StorageBased
                ==> config.storage_lock_validity_seconds >= 10
                && config.storage_lock_validity_seconds >= 10
                * config.storage_lock_renew_interval_seconds
        },
{
}

/// A value that cannot be read never gives way to a default: the settings do not resolve.
pub proof fn law_unreadable_value_fails_closed(
    options: Map<Seq<char>, Seq<char>>,
    setting: HudiWriteConfig,
    raw: Seq<char>,
)
    requires
        raw_setting(options, setting) == Some(raw),
        setting_value(setting, raw) is Err,
    ensures
        resolved(options) is Err,
{
}

/// Options that give no write setting resolve to one writer, with a process-local lock and eager
/// cleaning.
pub proof fn law_default_settings(options: Map<Seq<char>, Seq<char>>)
    requires
        forall|setting: HudiWriteConfig| raw_setting(options, setting) is None,
    ensures
        resolved(options) == Ok::<_, CoreErrorModel>(
            WriteConcurrencyConfig {
                mode: WriteConcurrencyMode::SingleWriter,
                lock_provider: WriteLockProvider::InProcess,
                lock_wait_timeout_ms: 60_000,
                lock_retry_wait_ms: 1_000,
                storage_lock_validity_seconds: 300,
                storage_lock_renew_interval_seconds: 30,
                client_heartbeat_interval_ms: 60_000,
                client_heartbeat_tolerable_misses: 10,
                failed_writes_cleaning_policy: FailedWritesCleaningPolicy::Eager,
            },
        ),
{
}

/// A setting's own key comes before its aliases, and an alias counts where the own key is absent.
pub proof fn law_own_key_before_alias(options: Map<Seq<char>, Seq<char>>, setting: HudiWriteConfig)
    ensures
        options.contains_key(key_text(setting)) ==> raw_setting(options, setting) == Some(
            options[key_text(setting)],
        ),
        !options.contains_key(key_text(setting)) ==> forall|i: int|
            0 <= i < alias_keys(setting).len() && options.contains_key(#[trigger] alias_keys(setting)[i])
                ==> raw_setting(options, setting) is Some,
{
    reveal_with_fuel(first_value, 2);
}

} // verus!
