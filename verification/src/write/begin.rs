//! How a transaction begins: nothing unsupported is pending on the timeline, expired writes are
//! rolled back, the table is refreshed, and only then the snapshot is taken and the heartbeat
//! started.
//!
//! The functions here decide what comes next and what an outcome means. Listing and reading the
//! timeline, rolling back and writing the heartbeat are the caller's part.
use vstd::prelude::*;

use crate::config::write::{WriteConcurrencyConfig, WriteConcurrencyMode};
use crate::config::HudiConfigs;
use crate::error::{CoreError, CoreErrorModel};
use crate::registry::Registry;
use crate::text;
use crate::text::{contains, ends_with};
use crate::time;
use crate::time::Duration;
use crate::write::heartbeat;
use crate::write::heartbeat::WriterHeartbeat;
use crate::write::occ;
use crate::write::occ::{transaction_key, Snapshot};
use crate::write::timeline;
use crate::write::timeline::{
    archived_completion_watermark, later_watermark, timeline_completion_watermark, ArchivedRecord,
    TimelineFile,
};

verus! {

/// What a file of the timeline directory means for a write that is about to begin.
#[derive(Clone, Copy, Debug, PartialEq, Eq, Structural)]
pub enum PendingFile {
    /// It is no pending action that matters.
    Harmless,
    /// It is a pending table service that writers cannot work beside.
    Unsupported,
    /// It is a requested replacement, whose plan may hold a clustering.
    Replacement,
}

/// What a file of the timeline directory means for a write that is about to begin.
pub open spec fn pending_kind(name: Seq<char>) -> PendingFile {
    if !text::has_suffix(name, ".requested"@) && !text::has_suffix(name, ".inflight"@) {
        PendingFile::Harmless
    } else if text::has_part(name, ".compaction."@) || text::has_part(name, ".logcompaction."@) {
        PendingFile::Unsupported
    } else if text::has_suffix(name, ".replacecommit.requested"@) {
        PendingFile::Replacement
    } else {
        PendingFile::Harmless
    }
}

/// What a file of the timeline directory means for a write that is about to begin.
pub fn pending_file(name: &str) -> (r: PendingFile)
    ensures
        r == pending_kind(name@),
        r == PendingFile::Unsupported <==> (text::has_suffix(name@, ".requested"@)
            || text::has_suffix(name@, ".inflight"@)) && (text::has_part(name@, ".compaction."@)
            || text::has_part(name@, ".logcompaction."@)),
{
    if !(ends_with(name, ".requested") || ends_with(name, ".inflight")) {
        return PendingFile::Harmless;
    }
    if contains(name, ".compaction.") || contains(name, ".logcompaction.") {
        return PendingFile::Unsupported;
    }
    if ends_with(name, ".replacecommit.requested") {
        PendingFile::Replacement
    } else {
        PendingFile::Harmless
    }
}

/// The error for a pending table service.
pub open spec fn unsupported_service(name: Seq<char>) -> CoreErrorModel {
    CoreErrorModel::WriteConflict(
        "unsupported pending table service "@ + name + "; refusing to plan an OCC write"@,
    )
}

/// The error for a pending clustering.
pub open spec fn pending_clustering(name: Seq<char>) -> CoreErrorModel {
    CoreErrorModel::WriteConflict(
        "pending clustering plan "@ + name + " is not supported by the Rust OCC writer"@,
    )
}

/// What comes next in the check of pending table services.
#[derive(Debug)]
pub enum ServiceStep {
    /// Nothing is in the way of the write.
    Clear,
    /// The plan in this file is to be read.
    ReadPlan(String),
    /// The write is refused.
    Refuse(CoreError),
}

/// The check of pending table services: how far the files of the timeline directory were looked at.
#[derive(Debug)]
pub struct TableServiceCheck {
    names: Vec<String>,
    position: usize,
}

/// The check of pending table services, by values.
pub struct ServiceCheckModel {
    /// The names of the files.
    pub names: Seq<Seq<char>>,
    /// How many of them were passed.
    pub position: int,
}

impl View for TableServiceCheck {
    type V = ServiceCheckModel;

    closed spec fn view(&self) -> ServiceCheckModel {
        ServiceCheckModel {
            names: self.names@.map_values(|name: String| name@),
            position: self.position as int,
        }
    }
}

impl ServiceCheckModel {
    /// The check waits for the plan of a requested replacement.
    pub open spec fn awaits_plan(self) -> bool {
        0 <= self.position < self.names.len() && pending_kind(self.names[self.position])
            == PendingFile::Replacement
    }
}

impl TableServiceCheck {
    #[verifier::type_invariant]
    spec fn well_formed(self) -> bool {
        self.position <= self.names@.len()
    }

    /// Start with the names of the files in the timeline directory.
    pub fn new(names: Vec<String>) -> (r: Self)
        ensures
            r@.names == names@.map_values(|name: String| name@),
            r@.position == 0,
    {
        TableServiceCheck { names, position: 0 }
    }

    /// Pass over harmless files up to the next one that is not.
    pub fn next(&mut self) -> (r: ServiceStep)
        ensures
            final(self)@.names == old(self)@.names,
            old(self)@.position <= final(self)@.position <= final(self)@.names.len(),
            forall|i: int|
                old(self)@.position <= i < final(self)@.position ==> pending_kind(
                    #[trigger] final(self)@.names[i],
                ) == PendingFile::Harmless,
            final(self)@.position < final(self)@.names.len() ==> pending_kind(
                final(self)@.names[final(self)@.position],
            ) != PendingFile::Harmless,
            match r {
                ServiceStep::Clear => final(self)@.position == final(self)@.names.len(),
                ServiceStep::ReadPlan(name) => final(self)@.awaits_plan() && name@
                    == final(self)@.names[final(self)@.position],
                ServiceStep::Refuse(error) => {
                    &&& final(self)@.position < final(self)@.names.len()
                    &&& pending_kind(final(self)@.names[final(self)@.position])
                        == PendingFile::Unsupported
                    &&& error@ == unsupported_service(final(self)@.names[final(self)@.position])
                },
            },
    {
        proof {
            use_type_invariant(&*self);
        }
        let ghost all = self@.names;
        while self.position < self.names.len()
            invariant
                self.names == old(self).names,
                self@.names == all,
                old(self).position <= self.position <= self.names.len(),
                forall|i: int|
                    old(self).position <= i < self.position ==> pending_kind(#[trigger] all[i])
                        == PendingFile::Harmless,
            decreases self.names.len() - self.position,
        {
            let name: &String = &self.names[self.position];
            match pending_file(name) {
                PendingFile::Harmless => {
                    self.position = self.position + 1;
                },
                PendingFile::Unsupported => {
                    return ServiceStep::Refuse(
                        CoreError::WriteConflict(
                            "unsupported pending table service ".to_owned().concat(name).concat(
                                "; refusing to plan an OCC write",
                            ),
                        ),
                    );
                },
                PendingFile::Replacement => {
                    return ServiceStep::ReadPlan(name.clone());
                },
            }
        }
        ServiceStep::Clear
    }

    /// Take in the plan that was read: whether it holds a clustering, or why it cannot be read.
    pub fn on_plan(&mut self, clusters: Result<bool, CoreError>) -> (r: Result<(), CoreError>)
        requires
            old(self)@.awaits_plan(),
        ensures
            final(self)@.names == old(self)@.names,
            match clusters {
                Ok(true) => {
                    &&& r matches Err(error)
                    &&& error@ == pending_clustering(old(self)@.names[old(self)@.position])
                    &&& final(self)@.position == old(self)@.position
                },
                Ok(false) => r is Ok && final(self)@.position == old(self)@.position + 1,
                Err(cause) => {
                    &&& r matches Err(error)
                    &&& error@ == cause@
                    &&& final(self)@.position == old(self)@.position
                },
            },
    {
        proof {
            assert(self.position < self.names.len());
        }
        if clusters? {
            return Err(
                CoreError::WriteConflict(
                    "pending clustering plan ".to_owned().concat(
                        &self.names[self.position],
                    ).concat(" is not supported by the Rust OCC writer"),
                ),
            );
        }
        self.position = self.position + 1;
        Ok(())
    }
}

/// The first `position` files are no obstacle: none is an unsupported table service, and of the
/// requested replacements none holds a clustering, as `clusters` says.
pub open spec fn no_obstacle(
    names: Seq<Seq<char>>,
    position: int,
    clusters: spec_fn(Seq<char>) -> bool,
) -> bool {
    forall|i: int|
        0 <= i < position ==> match pending_kind(#[trigger] names[i]) {
            PendingFile::Harmless => true,
            PendingFile::Unsupported => false,
            PendingFile::Replacement => !clusters(names[i]),
        }
}

/// To pass over harmless files, and over one replacement whose plan holds no clustering, meets no
/// obstacle. So where all files are passed, neither an unsupported table service nor a clustering is
/// pending: the write is refused where one is.
pub proof fn law_pending_table_service_is_refused(
    names: Seq<Seq<char>>,
    from: int,
    to: int,
    clusters: spec_fn(Seq<char>) -> bool,
)
    requires
        0 <= from <= to <= names.len(),
        no_obstacle(names, from, clusters),
        forall|i: int|
            from <= i < to ==> pending_kind(#[trigger] names[i]) == PendingFile::Harmless,
    ensures
        no_obstacle(names, to, clusters),
        to < names.len() && pending_kind(names[to]) == PendingFile::Replacement && !clusters(
            names[to],
        ) ==> no_obstacle(names, to + 1, clusters),
        to == names.len() ==> forall|i: int|
            0 <= i < names.len() ==> pending_kind(#[trigger] names[i]) != PendingFile::Unsupported
                && (pending_kind(names[i]) == PendingFile::Replacement ==> !clusters(names[i])),
{
}

/// What is to be done next for a transaction that begins.
#[derive(Clone, Copy, Debug, PartialEq, Eq, Structural)]
pub enum BeginStep {
    /// Check that no unsupported table service is pending.
    CheckTableServices,
    /// Roll back writes whose heartbeat has expired.
    RollBackExpired,
    /// Reload the completed commits and drop what is cached of the file system.
    RefreshTable,
    /// List the timeline.
    ReadTimeline,
    /// Read the archive of the timeline.
    ReadArchive,
    /// Write the heartbeat file.
    WriteHeartbeat,
    /// Start the heartbeat and register the transaction.
    Register,
}

/// A transaction that begins.
#[derive(Debug)]
pub struct BeginTransaction {
    instant: String,
    step: BeginStep,
    completion_watermark: Option<String>,
    heartbeat_interval: Duration,
    tolerable_misses: usize,
}

/// A transaction that begins, by values.
pub struct BeginModel {
    pub instant: Seq<char>,
    pub step: BeginStep,
    /// The latest completion, as far as it was looked for.
    pub completion_watermark: Option<Seq<char>>,
    pub heartbeat_interval: Duration,
    pub tolerable_misses: usize,
}

impl View for BeginTransaction {
    type V = BeginModel;

    closed spec fn view(&self) -> BeginModel {
        BeginModel {
            instant: self.instant@,
            step: self.step,
            completion_watermark: text::text_model(self.completion_watermark),
            heartbeat_interval: self.heartbeat_interval,
            tolerable_misses: self.tolerable_misses,
        }
    }
}

/// The step after one that only has to be done.
pub open spec fn step_after(step: BeginStep) -> Option<BeginStep> {
    match step {
        BeginStep::CheckTableServices => Some(BeginStep::RollBackExpired),
        BeginStep::RollBackExpired => Some(BeginStep::RefreshTable),
        BeginStep::RefreshTable => Some(BeginStep::ReadTimeline),
        BeginStep::WriteHeartbeat => Some(BeginStep::Register),
        BeginStep::ReadTimeline | BeginStep::ReadArchive | BeginStep::Register => None,
    }
}

/// `after` is what `before` becomes when its step has succeeded.
pub open spec fn follows(before: BeginModel, after: BeginModel) -> bool {
    match step_after(before.step) {
        Some(step) => after == (BeginModel { step, ..before }),
        None => match before.step {
            BeginStep::ReadTimeline => after == (BeginModel {
                step: BeginStep::ReadArchive,
                completion_watermark: after.completion_watermark,
                ..before
            }),
            BeginStep::ReadArchive => after == (BeginModel {
                step: BeginStep::WriteHeartbeat,
                completion_watermark: after.completion_watermark,
                ..before
            }),
            _ => false,
        },
    }
}

/// Begin a transaction: where optimistic concurrency control is on, the steps to take, else `None`.
///
/// The caller holds the table lock through all steps, before it publishes the requested and inflight
/// files of the instant.
pub fn begin_transaction(configs: &HudiConfigs, instant: &str) -> (r: Result<
    Option<BeginTransaction>,
    CoreError,
>)
    ensures
        match crate::config::write::resolved(configs@) {
            Err(cause) => r matches Err(error) && error@ == cause,
            Ok(config) => if config.mode != WriteConcurrencyMode::OptimisticConcurrencyControl {
                r matches Ok(None)
            } else {
                &&& r matches Ok(Some(begun))
                &&& begun@.instant == instant@
                &&& begun@.step == BeginStep::CheckTableServices
                &&& begun@.completion_watermark is None
                &&& begun@.heartbeat_interval@ == config.client_heartbeat_interval_ms
                    * time::NANOS_PER_MILLI
                &&& begun@.tolerable_misses == config.client_heartbeat_tolerable_misses
            },
        },
{
    let config: WriteConcurrencyConfig = WriteConcurrencyConfig::from_configs(configs)?;
    if config.mode != WriteConcurrencyMode::OptimisticConcurrencyControl {
        return Ok(None);
    }
    Ok(
        Some(
            BeginTransaction {
                instant: instant.to_owned(),
                step: BeginStep::CheckTableServices,
                completion_watermark: None,
                heartbeat_interval: Duration::from_millis(
                    config.client_heartbeat_interval_ms as u64,
                ),
                tolerable_misses: config.client_heartbeat_tolerable_misses,
            },
        ),
    )
}

impl BeginTransaction {
    /// What is to be done next.
    pub fn step(&self) -> (r: BeginStep)
        ensures
            r == self@.step,
    {
        self.step
    }

    /// Take in the outcome of a step that only has to be done. Where it failed, the transaction does
    /// not begin.
    pub fn on_done(self, outcome: Result<(), CoreError>) -> (r: Result<Self, CoreError>)
        requires
            step_after(self@.step) is Some,
        ensures
            match outcome {
                Ok(_) => r matches Ok(next) && follows(self@, next@),
                Err(cause) => r matches Err(error) && error@ == cause@,
            },
    {
        outcome?;
        let step: BeginStep = match self.step {
            BeginStep::CheckTableServices => BeginStep::RollBackExpired,
            BeginStep::RollBackExpired => BeginStep::RefreshTable,
            BeginStep::RefreshTable => BeginStep::ReadTimeline,
            _ => BeginStep::Register,
        };
        Ok(BeginTransaction { step, ..self })
    }

    /// Take in the listing of the timeline, and keep the latest completion on it.
    pub fn on_timeline(self, listing: Result<Vec<TimelineFile>, CoreError>) -> (r: Result<
        Self,
        CoreError,
    >)
        requires
            self@.step == BeginStep::ReadTimeline,
        ensures
            match listing {
                Ok(files) => {
                    &&& r matches Ok(next)
                    &&& follows(self@, next@)
                    &&& timeline::is_timeline_watermark(files@, next@.completion_watermark)
                },
                Err(cause) => r matches Err(error) && error@ == cause@,
            },
    {
        let files: Vec<TimelineFile> = listing?;
        let completion_watermark: Option<String> = timeline_completion_watermark(&files);
        Ok(BeginTransaction { step: BeginStep::ReadArchive, completion_watermark, ..self })
    }

    /// Take in the records of the archive. The snapshot is the latest completion of all: the one that
    /// was found on the timeline, or a later one among the records, as an action may be archived
    /// before one that was completed earlier.
    pub fn on_archive(self, records: Result<Vec<ArchivedRecord>, CoreError>) -> (r: Result<
        Self,
        CoreError,
    >)
        requires
            self@.step == BeginStep::ReadArchive,
        ensures
            match records {
                Ok(archived) => {
                    &&& r matches Ok(next)
                    &&& follows(self@, next@)
                    &&& exists|latest: Option<Seq<char>>| #[trigger]
                        timeline::is_archive_watermark(archived@, latest)
                            && next@.completion_watermark == timeline::later_of(
                            self@.completion_watermark,
                            latest,
                        )
                },
                Err(cause) => r matches Err(error) && error@ == cause@,
            },
    {
        let archived: Vec<ArchivedRecord> = records?;
        let latest: Option<String> = archived_completion_watermark(&archived);
        let completion_watermark: Option<String> = later_watermark(
            self.completion_watermark,
            latest,
        );
        proof {
            assert(timeline::is_archive_watermark(archived@, text::text_model(latest)));
        }
        Ok(BeginTransaction { step: BeginStep::WriteHeartbeat, completion_watermark, ..self })
    }

    /// How often the heartbeat is to be refreshed.
    pub fn heartbeat_interval(&self) -> (r: Duration)
        ensures
            r == self@.heartbeat_interval,
    {
        self.heartbeat_interval
    }

    /// The heartbeat of the transaction, whose file was just written.
    pub fn start_heartbeat(&self) -> (r: WriterHeartbeat)
        requires
            self@.step == BeginStep::Register,
        ensures
            exists|now: i64| #[trigger]
                time::is_clock_millis(now) && r@ == heartbeat::started(
                    self@.heartbeat_interval,
                    self@.tolerable_misses,
                    now,
                ),
    {
        WriterHeartbeat::start(self.heartbeat_interval, self.tolerable_misses)
    }

    /// Register the transaction with a handle of its heartbeat.
    pub fn register<H>(
        self,
        transactions: &mut Registry<Snapshot<H>>,
        base_url: &str,
        heartbeat: H,
    )
        requires
            self@.step == BeginStep::Register,
        ensures
            ({
                let key = occ::key_of(base_url@, self@.instant);
                let snapshot = final(transactions)@[key];
                &&& final(transactions)@ == old(transactions)@.insert(key, snapshot)
                &&& text::text_model(snapshot.completion_watermark) == self@.completion_watermark
                &&& snapshot.heartbeat == heartbeat
            }),
    {
        let key: String = transaction_key(base_url, &self.instant);
        transactions.insert(
            key,
            Snapshot { completion_watermark: self.completion_watermark, heartbeat },
        );
    }
}

/// The snapshot is taken of the refreshed table: the table is refreshed right before the timeline is
/// listed, nothing is recorded as seen before that, the archive is always read after it, and only
/// then the transaction is registered.
pub proof fn law_snapshot_follows_refresh(trace: Seq<BeginModel>)
    requires
        trace.len() > 0,
        trace[0].step == BeginStep::CheckTableServices,
        trace[0].completion_watermark is None,
        forall|i: int| 0 < i < trace.len() ==> follows(trace[i - 1], #[trigger] trace[i]),
    ensures
        trace.len() > 3 ==> trace[2].step == BeginStep::RefreshTable && trace[3].step
            == BeginStep::ReadTimeline && trace[3].completion_watermark is None,
        trace.len() > 5 ==> trace[4].step == BeginStep::ReadArchive && trace[5].step
            == BeginStep::WriteHeartbeat,
        trace.last().step == BeginStep::Register ==> trace.len() == 7,
        forall|i: int| 0 <= i < trace.len() ==> (#[trigger] trace[i]).instant == trace[0].instant,
{
    if trace.len() > 1 {
        assert(follows(trace[0], trace[1]));
    }
    if trace.len() > 2 {
        assert(follows(trace[1], trace[2]));
    }
    if trace.len() > 3 {
        assert(follows(trace[2], trace[3]));
    }
    if trace.len() > 4 {
        assert(follows(trace[3], trace[4]));
    }
    if trace.len() > 5 {
        assert(follows(trace[4], trace[5]));
    }
    if trace.len() > 6 {
        assert(follows(trace[5], trace[6]));
    }
    if trace.len() > 7 {
        assert(follows(trace[6], trace[7]));
    }
    assert forall|i: int| 0 <= i < trace.len() implies (#[trigger] trace[i]).instant
        == trace[0].instant by {
        lemma_same_instant(trace, i);
    }
}

/// The instant stays the same.
proof fn lemma_same_instant(trace: Seq<BeginModel>, i: int)
    requires
        0 <= i < trace.len(),
        forall|j: int| 0 < j < trace.len() ==> follows(trace[j - 1], #[trigger] trace[j]),
    ensures
        trace[i].instant == trace[0].instant,
    decreases i,
{
    if i > 0 {
        lemma_same_instant(trace, i - 1);
        assert(follows(trace[i - 1], trace[i]));
    }
}

} // verus!
