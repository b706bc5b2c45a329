use hudi_write::config::write::{HudiWriteConfig, STORAGE_BASED_LOCK_PROVIDER_CLASS};
use hudi_write::config::HudiConfigs;
use hudi_write::error::CoreError;
use hudi_write::registry::Registry;
use hudi_write::text_map::TextMap;
use hudi_write::time::{now_ms, Duration, Timestamp};
use hudi_write::write::begin::{
    begin_transaction, pending_file, BeginStep, BeginTransaction, PendingFile, ServiceStep,
    TableServiceCheck,
};
use hudi_write::write::heartbeat::{heartbeat_path, is_stale_in_storage, WriterHeartbeat};
use hudi_write::write::intent::{
    comparable_schema, describe_group, describe_groups, describe_partitions, normalized_schema,
    ActionMetadata, ConflictScope, WriteIntent, WriteStat,
};
use hudi_write::write::occ::{
    abandon_transaction, enabled, finish_transaction, snapshot_of, transaction_key,
    FinishedTransaction, Snapshot,
};
use hudi_write::write::timeline::{
    archived_completion_watermark, completed_after, completed_files_after,
    later_watermark, load_completed_actions_after, load_completion_watermark,
    timeline_completion_watermark, Action, ArchivedRecord, CompletedAction, Instant, State,
    TimelineFile,
};
use hudi_write::write::validation::{
    fence_path, validate_transaction, validate_transaction_at, Candidate, Validation,
    ValidationStep, Verdict,
};

const BASE_URL: &str = "memory:///table";

fn write_stats(groups: &[(&str, &str)]) -> Vec<(String, Vec<WriteStat>)> {
    groups
        .iter()
        .map(|(partition, file_id)| {
            (
                partition.to_string(),
                vec![WriteStat {
                    file_id: Some(file_id.to_string()),
                }],
            )
        })
        .collect()
}

fn commit(groups: &[(&str, &str)]) -> ActionMetadata {
    ActionMetadata {
        partition_to_write_stats: Some(write_stats(groups)),
        ..Default::default()
    }
}

fn commit_with_operation(groups: &[(&str, &str)], operation: &str) -> ActionMetadata {
    ActionMetadata {
        operation_type: Some(operation.to_string()),
        ..commit(groups)
    }
}

fn commit_with_schema(groups: &[(&str, &str)], schema: &str) -> ActionMetadata {
    ActionMetadata {
        extra_metadata: Some(TextMap::new(vec![(
            "schema".to_string(),
            schema.to_string(),
        )])),
        ..commit(groups)
    }
}

fn replace_commit(
    operation: &str,
    writes: &[(&str, &str)],
    replaced: &[(&str, &[&str])],
) -> ActionMetadata {
    ActionMetadata {
        operation_type: Some(operation.to_string()),
        partition_to_write_stats: Some(write_stats(writes)),
        partition_to_replace_file_ids: Some(
            replaced
                .iter()
                .map(|(partition, file_ids)| {
                    (
                        partition.to_string(),
                        file_ids.iter().map(|file_id| file_id.to_string()).collect(),
                    )
                })
                .collect(),
        ),
        ..Default::default()
    }
}

fn undecodable() -> CoreError {
    CoreError::CommitMetadata("not this form".to_string())
}

/// The intent of metadata that is stored in the textual form.
fn intent(action: Action, metadata: ActionMetadata) -> WriteIntent {
    WriteIntent::from_metadata(&action, Err(undecodable()), Ok(metadata)).unwrap()
}

fn group(partition: &str, file_id: &str) -> (String, String) {
    (partition.to_string(), file_id.to_string())
}

#[test]
fn write_sets_conflict_only_on_partition_and_file_id() {
    let first = intent(Action::Commit, commit(&[("p1", "f1")]));
    let same = intent(Action::Commit, commit(&[("p1", "f1")]));
    let other_partition = intent(Action::Commit, commit(&[("p2", "f1")]));
    assert_eq!(
        first.conflict_scope(&same),
        Some(ConflictScope::FileGroups(vec![(
            "p1".to_string(),
            "f1".to_string()
        )]))
    );
    assert_eq!(first.conflict_scope(&other_partition), None);
}

#[test]
fn replace_file_ids_join_the_write_set() {
    let metadata = ActionMetadata {
        partition_to_replace_file_ids: Some(vec![("p".to_string(), vec!["old-file".to_string()])]),
        ..Default::default()
    };
    let intent = intent(Action::ReplaceCommit, metadata);
    assert!(intent
        .write_set
        .0
        .contains(&("p".to_string(), "old-file".to_string())));
}

#[test]
fn full_table_overwrite_conflicts_with_every_data_write() {
    let overwrite = intent(
        Action::ReplaceCommit,
        replace_commit(
            "insert_overwrite_table",
            &[("p1", "replacement")],
            &[("p1", &["old-file"])],
        ),
    );
    let append = intent(
        Action::Commit,
        commit_with_operation(&[("brand-new-partition", "brand-new-file")], "INSERT"),
    );
    assert_eq!(
        overwrite.conflict_scope(&append),
        Some(ConflictScope::Table)
    );
    assert_eq!(
        append.conflict_scope(&overwrite),
        Some(ConflictScope::Table)
    );
}

#[test]
fn dynamic_overwrite_conflicts_by_partition_not_only_existing_file_id() {
    let overwrite = intent(
        Action::ReplaceCommit,
        replace_commit(
            "INSERT_OVERWRITE",
            &[("target", "replacement")],
            &[("target", &["old-file"])],
        ),
    );
    let target_append = intent(
        Action::Commit,
        commit_with_operation(&[("target", "brand-new-file")], "INSERT"),
    );
    let other_append = intent(
        Action::Commit,
        commit_with_operation(&[("other", "brand-new-file")], "INSERT"),
    );
    assert_eq!(
        overwrite.conflict_scope(&target_append),
        Some(ConflictScope::Partitions(vec!["target".to_string()]))
    );
    assert_eq!(overwrite.conflict_scope(&other_append), None);
}

#[test]
fn delete_conflicts_only_with_the_same_file_group() {
    let delete = intent(
        Action::Commit,
        commit_with_operation(&[("p", "file-1")], "DELETE"),
    );
    let same_group = intent(
        Action::Commit,
        commit_with_operation(&[("p", "file-1")], "UPSERT"),
    );
    let other_group = intent(
        Action::Commit,
        commit_with_operation(&[("p", "file-2")], "UPSERT"),
    );
    assert!(matches!(
        delete.conflict_scope(&same_group),
        Some(ConflictScope::FileGroups(_))
    ));
    assert_eq!(delete.conflict_scope(&other_group), None);
}

fn occ_configs() -> HudiConfigs {
    HudiConfigs::new(
        [
            (HudiWriteConfig::ConcurrencyMode, "occ"),
            (
                HudiWriteConfig::LockProvider,
                STORAGE_BASED_LOCK_PROVIDER_CLASS,
            ),
            (HudiWriteConfig::FailedWritesCleaningPolicy, "LAZY"),
        ]
        .iter()
        .map(|(setting, value)| (setting.key_str().to_string(), value.to_string()))
        .collect(),
    )
}

/// The instant that the name of a timeline file stands for.
fn parse_name(name: &str) -> Option<Instant> {
    let parts: Vec<&str> = name.split('.').collect();
    let action = Action::from_name(parts.get(1)?)?;
    let state = match parts.get(2) {
        None => State::Completed,
        Some(&"requested") => State::Requested,
        Some(&"inflight") => State::Inflight,
        Some(_) => return None,
    };
    let (timestamp, completion_timestamp) = match parts[0].split_once('_') {
        Some((requested, completed)) => (requested, Some(completed.to_string())),
        None => (parts[0], None),
    };
    Some(Instant {
        timestamp: timestamp.to_string(),
        completion_timestamp,
        action,
        state,
    })
}

/// A table: the files of its timeline, its archive, the heartbeat files and the transactions.
struct Table {
    configs: HudiConfigs,
    timeline: Vec<(String, fn() -> ActionMetadata)>,
    archive: Vec<(String, fn() -> ActionMetadata)>,
    heartbeats: Vec<String>,
    latest_commit: Option<String>,
    transactions: Registry<Snapshot<WriterHeartbeat>>,
}

fn nothing() -> ActionMetadata {
    ActionMetadata::default()
}

impl Table {
    fn new() -> Self {
        Table {
            configs: occ_configs(),
            timeline: Vec::new(),
            archive: Vec::new(),
            heartbeats: Vec::new(),
            latest_commit: None,
            transactions: Registry::new(),
        }
    }

    fn listing(&self) -> Vec<TimelineFile> {
        self.timeline
            .iter()
            .map(|(name, _)| TimelineFile {
                name: name.clone(),
                instant: parse_name(name),
            })
            .collect()
    }

    fn archived(&self) -> Vec<ArchivedRecord> {
        self.archive
            .iter()
            .map(|(name, _)| {
                let instant = parse_name(name).unwrap();
                ArchivedRecord {
                    completion: instant.completion().clone(),
                    requested: instant.timestamp,
                    action: instant.action.as_str().to_string(),
                    metadata: name.clone().into_bytes(),
                }
            })
            .collect()
    }

    fn check_services(&self, clusters: bool) -> Result<(), CoreError> {
        let mut check =
            TableServiceCheck::new(self.timeline.iter().map(|(name, _)| name.clone()).collect());
        loop {
            match check.next() {
                ServiceStep::Clear => return Ok(()),
                ServiceStep::Refuse(error) => return Err(error),
                ServiceStep::ReadPlan(_) => check.on_plan(Ok(clusters))?,
            }
        }
    }

    fn begin(&mut self, instant: &str, clusters: bool) -> Result<(), CoreError> {
        let mut begun: BeginTransaction = begin_transaction(&self.configs, instant)?.unwrap();
        loop {
            begun = match begun.step() {
                BeginStep::CheckTableServices => begun.on_done(self.check_services(clusters))?,
                BeginStep::RollBackExpired => begun.on_done(Ok(()))?,
                BeginStep::RefreshTable => {
                    self.latest_commit = self
                        .listing()
                        .into_iter()
                        .filter_map(|file| file.instant)
                        .filter(|instant| instant.state == State::Completed)
                        .map(|instant| instant.timestamp)
                        .max();
                    begun.on_done(Ok(()))?
                }
                BeginStep::ReadTimeline => begun.on_timeline(Ok(self.listing()))?,
                BeginStep::ReadArchive => begun.on_archive(Ok(self.archived()))?,
                BeginStep::WriteHeartbeat => {
                    self.heartbeats.push(heartbeat_path(instant));
                    begun.on_done(Ok(()))?
                }
                BeginStep::Register => {
                    let heartbeat = begun.start_heartbeat();
                    begun.register(&mut self.transactions, BASE_URL, heartbeat);
                    return Ok(());
                }
            };
        }
    }

    fn begin_action(&mut self, instant: &str, action: Action) {
        self.begin(instant, false).unwrap();
        self.timeline
            .push((format!("{instant}.{}.requested", action.as_str()), nothing));
    }

    fn begin_commit(&mut self, instant: &str) {
        self.begin_action(instant, Action::Commit);
    }

    fn complete(&mut self, name: &str, metadata: fn() -> ActionMetadata) {
        self.timeline.push((name.to_string(), metadata));
    }

    fn finish(&mut self, instant: &str) {
        let finished = finish_transaction(&mut self.transactions, BASE_URL, instant);
        self.clean_up(finished);
    }

    fn clean_up(&mut self, finished: Option<FinishedTransaction<WriterHeartbeat>>) {
        if let Some(finished) = finished {
            self.heartbeats
                .retain(|path| *path != finished.heartbeat_path);
        }
    }

    fn metadata_of(&self, name: &str) -> ActionMetadata {
        let (_, metadata) = self
            .timeline
            .iter()
            .chain(self.archive.iter())
            .find(|(known, _)| known == name)
            .unwrap();
        metadata()
    }

    fn candidates(&self, watermark: Option<&str>) -> Vec<Candidate> {
        let files = self.listing();
        let live = completed_files_after(&files, watermark)
            .into_iter()
            .map(|position| {
                CompletedAction::from_instant(
                    files[position].instant.as_ref().unwrap(),
                    files[position].name.clone().into_bytes(),
                )
            })
            .collect();
        load_completed_actions_after(live, self.archived(), watermark)
            .into_iter()
            .map(|completed| {
                let name = String::from_utf8(completed.metadata.clone()).unwrap();
                let intent = WriteIntent::from_metadata(
                    &completed.action,
                    Ok(self.metadata_of(&name)),
                    Err(undecodable()),
                );
                Candidate::from_action(completed, intent)
            })
            .collect()
    }

    fn snapshot(&self, instant: &str) -> Option<Snapshot<WriterHeartbeat>> {
        snapshot_of(&self.transactions, BASE_URL, instant).map(|snapshot| Snapshot {
            completion_watermark: snapshot.completion_watermark.clone(),
            heartbeat: snapshot.heartbeat,
        })
    }

    fn validate(
        &mut self,
        instant: &str,
        action: Action,
        metadata: ActionMetadata,
    ) -> Result<(), CoreError> {
        let validation =
            validate_transaction(&self.configs, self.snapshot(instant), instant)?.unwrap();
        let now = hudi_write::time::now();
        let validation = validation.on_heartbeat_read(Ok(Some(now)))?;
        let fence = fence_path(".hoodie/timeline", instant, action);
        let fenced = self
            .timeline
            .iter()
            .any(|(name, _)| format!(".hoodie/timeline/{name}") == fence);
        let validation = validation.on_fence_read(if fenced {
            Ok(())
        } else {
            Err(CoreError::Storage("not found".to_string()))
        })?;
        let current = intent(action, metadata);
        let candidates = self.candidates(validation.completion_watermark());
        match validation.on_actions_read(&current, candidates) {
            Verdict::Valid => Ok(()),
            Verdict::Conflict(refusal) => {
                let refused = refusal.on_rolled_back(Ok(()), &mut self.transactions, BASE_URL);
                self.clean_up(refused.finished);
                Err(refused.error)
            }
            Verdict::Unreadable(error) => Err(error),
        }
    }
}

#[test]
fn later_writer_aborts_when_an_earlier_writer_commits_same_file_group() {
    let mut table = Table::new();
    let first = "20260824000000000";
    let second = "20260824000000001";
    table.begin_commit(first);
    table.begin_commit(second);

    let first_bytes = || commit(&[("p", "file-1")]);
    table
        .validate(first, Action::Commit, first_bytes())
        .unwrap();
    table.complete(&format!("{first}_20260824000000002.commit"), first_bytes);
    table.finish(first);

    let error = table
        .validate(second, Action::Commit, commit(&[("p", "file-1")]))
        .unwrap_err();
    assert!(matches!(error, CoreError::WriteConflict(_)));
    assert_eq!(
        error.message(),
        "instant 20260824000000001 (UNKNOWN) conflicts with action 20260824000000000 (UNKNOWN) \
         completed at 20260824000000002 on file groups (\"p\", file-1)"
    );
    assert!(table.snapshot(second).is_none());
    assert!(!table.heartbeats.contains(&heartbeat_path(second)));
    let again = table
        .validate(second, Action::Commit, commit(&[("q", "file-2")]))
        .unwrap_err();
    assert!(matches!(again, CoreError::Write(_)));
}

#[test]
fn concurrent_disjoint_file_groups_both_validate() {
    let mut table = Table::new();
    let first = "20260824000000100";
    let second = "20260824000000101";
    table.begin_commit(first);
    table.begin_commit(second);

    table.complete(&format!("{first}_20260824000000102.commit"), || {
        commit(&[("p", "file-1")])
    });
    table.finish(first);
    table
        .validate(second, Action::Commit, commit(&[("p", "file-2")]))
        .unwrap();
    table.finish(second);
}

#[test]
fn concurrent_full_overwrite_rejects_a_brand_new_file_group() {
    let mut table = Table::new();
    let append_instant = "20260824000000110";
    let overwrite_instant = "20260824000000111";
    table.begin_commit(append_instant);
    table.begin_action(overwrite_instant, Action::ReplaceCommit);

    table.complete(
        &format!("{append_instant}_20260824000000112.commit"),
        || commit_with_operation(&[("new-partition", "new-file")], "INSERT"),
    );
    table.finish(append_instant);

    let error = table
        .validate(
            overwrite_instant,
            Action::ReplaceCommit,
            replace_commit(
                "INSERT_OVERWRITE_TABLE",
                &[("p", "replacement")],
                &[("p", &["old-file"])],
            ),
        )
        .unwrap_err();
    assert!(matches!(error, CoreError::WriteConflict(_)));
    assert!(error.message().contains("replaces the full table"));
}

#[test]
fn concurrent_dynamic_overwrite_rejects_new_group_in_target_partition() {
    let mut table = Table::new();
    let append_instant = "20260824000000120";
    let overwrite_instant = "20260824000000121";
    table.begin_commit(append_instant);
    table.begin_action(overwrite_instant, Action::ReplaceCommit);

    table.complete(
        &format!("{append_instant}_20260824000000122.commit"),
        || commit_with_operation(&[("target", "new-file")], "INSERT"),
    );
    table.finish(append_instant);

    let error = table
        .validate(
            overwrite_instant,
            Action::ReplaceCommit,
            replace_commit(
                "INSERT_OVERWRITE",
                &[("target", "replacement")],
                &[("target", &["old-file"])],
            ),
        )
        .unwrap_err();
    assert!(matches!(error, CoreError::WriteConflict(_)));
    assert!(error.message().contains("target partition"));
}

#[test]
fn conflict_detection_follows_a_commit_into_lsm_history() {
    let mut table = Table::new();
    let first = "20260824000000200";
    let second = "20260824000000201";
    table.begin_commit(second);

    table
        .archive
        .push((format!("{first}_20260824000000202.commit"), || {
            commit(&[("p", "file-1")])
        }));

    let error = table
        .validate(second, Action::Commit, commit(&[("p", "file-1")]))
        .unwrap_err();
    assert!(matches!(error, CoreError::WriteConflict(_)));
}

#[test]
fn disjoint_file_groups_with_incompatible_schemas_conflict() {
    let mut table = Table::new();
    let first = "20260824000000300";
    let second = "20260824000000301";
    table.begin_commit(first);
    table.begin_commit(second);
    table.complete(&format!("{first}_20260824000000302.commit"), || {
        commit_with_schema(&[("p", "file-1")], r#"{"type":"record","name":"a"}"#)
    });
    table.finish(first);
    let error = table
        .validate(
            second,
            Action::Commit,
            commit_with_schema(&[("p", "file-2")], r#"{"type":"record","name":"b"}"#),
        )
        .unwrap_err();
    assert!(matches!(error, CoreError::WriteConflict(_)));
    assert_eq!(
        error.message(),
        "instant 20260824000000301 has a schema incompatible with action 20260824000000300 \
         completed at 20260824000000302"
    );
}

#[test]
fn schemas_that_differ_in_white_space_do_not_conflict() {
    let mut table = Table::new();
    let first = "20260824000000310";
    let second = "20260824000000311";
    table.begin_commit(second);
    table.complete(&format!("{first}_20260824000000312.commit"), || {
        commit_with_schema(&[("p", "file-1")], r#"{"type":"record","name":"a"}"#)
    });
    table
        .validate(
            second,
            Action::Commit,
            commit_with_schema(&[("p", "file-2")], " { \"type\" : \"record\",\n\"name\":\"a\" } "),
        )
        .unwrap();
}

#[test]
fn standard_heartbeat_lives_for_pending_transaction_and_is_deleted_on_finish() {
    let mut table = Table::new();
    let instant = "20260824000000400";
    table.begin_commit(instant);
    assert!(table.heartbeats.contains(&heartbeat_path(instant)));
    table.finish(instant);
    assert!(!table.heartbeats.contains(&heartbeat_path(instant)));
}

#[test]
fn cs1_refreshes_timeline_before_capturing_snapshot() {
    let mut table = Table::new();
    let completed = "20260824000000500";
    table.complete(&format!("{completed}_20260824000000501.commit"), || {
        commit(&[("p", "file-1")])
    });
    assert!(table.latest_commit.is_none());
    table.begin_commit("20260824000000502");
    assert_eq!(table.latest_commit.as_deref(), Some(completed));
    assert_eq!(
        table
            .snapshot("20260824000000502")
            .unwrap()
            .completion_watermark
            .as_deref(),
        Some("20260824000000501")
    );
    table.finish("20260824000000502");
}

#[test]
fn pending_clustering_plan_fails_closed() {
    let mut table = Table::new();
    table.complete("20260824000000600.replacecommit.requested", nothing);
    let error = table
        .begin("20260824000000601", true)
        .expect_err("pending clustering must reject OCC planning");
    assert!(matches!(error, CoreError::WriteConflict(_)));
    assert_eq!(
        error.message(),
        "pending clustering plan 20260824000000600.replacecommit.requested is not supported by \
         the Rust OCC writer"
    );
    assert!(table.snapshot("20260824000000601").is_none());
    assert!(table.heartbeats.is_empty());
    table.begin("20260824000000601", false).unwrap();
}

#[test]
fn pending_table_services_are_refused() {
    for (name, kind) in [
        ("1.compaction.requested", PendingFile::Unsupported),
        ("1.compaction.inflight", PendingFile::Unsupported),
        ("1.logcompaction.inflight", PendingFile::Unsupported),
        ("1.replacecommit.requested", PendingFile::Replacement),
        ("1.replacecommit.inflight", PendingFile::Harmless),
        ("1.commit.requested", PendingFile::Harmless),
        ("1_2.replacecommit", PendingFile::Harmless),
        ("1_2.compaction.done", PendingFile::Harmless),
        ("hoodie.properties", PendingFile::Harmless),
    ] {
        assert_eq!(pending_file(name), kind);
    }
    let mut table = Table::new();
    table.complete("1.commit.requested", nothing);
    table.complete("2.logcompaction.requested", nothing);
    assert_eq!(
        table.begin("3", false).unwrap_err(),
        CoreError::WriteConflict(
            "unsupported pending table service 2.logcompaction.requested; refusing to plan an OCC \
             write"
                .to_string()
        )
    );
}

#[test]
fn an_unreadable_plan_is_an_error() {
    let mut check = TableServiceCheck::new(vec![
        "1.replacecommit.requested".to_string(),
        "2.replacecommit.requested".to_string(),
    ]);
    match check.next() {
        ServiceStep::ReadPlan(name) => assert_eq!(name, "1.replacecommit.requested"),
        other => panic!("unexpected step {other:?}"),
    }
    assert!(check.on_plan(Ok(false)).is_ok());
    match check.next() {
        ServiceStep::ReadPlan(name) => assert_eq!(name, "2.replacecommit.requested"),
        other => panic!("unexpected step {other:?}"),
    }
    assert_eq!(check.on_plan(Err(undecodable())).unwrap_err(), undecodable());
}

#[test]
fn a_failed_step_ends_the_beginning() {
    let storage = || CoreError::Storage("connection reset".to_string());
    let begun = begin_transaction(&occ_configs(), "1").unwrap().unwrap();
    assert_eq!(begun.heartbeat_interval(), Duration::from_millis(60_000));
    assert_eq!(begun.on_done(Err(storage())).unwrap_err(), storage());
    let begun = begin_transaction(&occ_configs(), "1").unwrap().unwrap();
    let begun = begun.on_done(Ok(())).unwrap();
    let begun = begun.on_done(Ok(())).unwrap();
    let begun = begun.on_done(Ok(())).unwrap();
    assert_eq!(begun.step(), BeginStep::ReadTimeline);
    let begun = begun.on_timeline(Ok(vec![completed("3_9.commit")])).unwrap();
    assert_eq!(begun.step(), BeginStep::ReadArchive);
    assert_eq!(begun.on_archive(Err(storage())).unwrap_err(), storage());
    let begun = begin_transaction(&occ_configs(), "1").unwrap().unwrap();
    let begun = begun.on_done(Ok(())).unwrap();
    let begun = begun.on_done(Ok(())).unwrap();
    let begun = begun.on_done(Ok(())).unwrap();
    assert_eq!(begun.on_timeline(Err(storage())).unwrap_err(), storage());
}

#[test]
fn without_occ_nothing_is_registered_or_validated() {
    let single = HudiConfigs::new(vec![]);
    assert!(!enabled(&single).unwrap());
    assert!(enabled(&occ_configs()).unwrap());
    assert!(begin_transaction(&single, "1").unwrap().is_none());
    assert!(validate_transaction_at(&single, None, "1", 0)
        .unwrap()
        .is_none());
    let bad = HudiConfigs::new(vec![(
        HudiWriteConfig::ConcurrencyMode.key_str().to_string(),
        "occc".to_string(),
    )]);
    assert!(enabled(&bad).is_err());
    assert!(begin_transaction(&bad, "1").is_err());
    assert!(validate_transaction_at(&bad, None, "1", 0).is_err());
}

fn live_snapshot(now: i64) -> Snapshot<WriterHeartbeat> {
    Snapshot {
        completion_watermark: Some("5".to_string()),
        heartbeat: WriterHeartbeat::start_at(Duration::from_secs(1), 3, now),
    }
}

#[test]
fn an_unregistered_write_is_refused() {
    assert_eq!(
        validate_transaction_at(&occ_configs(), None, "7", 0).unwrap_err(),
        CoreError::Write(
            "missing OCC snapshot for pending instant 7; refusing an unsafe commit".to_string()
        )
    );
}

#[test]
fn a_dead_writer_is_refused() {
    let configs = occ_configs();
    let now = now_ms();
    assert!(validate_transaction_at(&configs, Some(live_snapshot(now)), "7", now + 3_000).is_ok());
    assert_eq!(
        validate_transaction_at(&configs, Some(live_snapshot(now)), "7", now + 3_001).unwrap_err(),
        CoreError::Write("writer heartbeat expired for pending instant 7".to_string())
    );
    let mut expired = live_snapshot(now);
    assert!(!expired.heartbeat.on_beat_at(false, now + 3_001));
    assert!(expired.heartbeat.on_beat_at(true, now + 3_002));
    assert_eq!(
        validate_transaction_at(&configs, Some(expired), "7", now + 3_002).unwrap_err(),
        CoreError::Write("writer heartbeat expired for pending instant 7".to_string())
    );
}

fn validation(now: i64) -> Validation {
    validate_transaction_at(&occ_configs(), Some(live_snapshot(now)), "7", now)
        .unwrap()
        .unwrap()
}

#[test]
fn a_stale_heartbeat_file_is_refused() {
    let at = |secs: i64, nanos: u32| Timestamp { secs, nanos };
    let next = validation(0)
        .on_heartbeat_read_at(Ok(Some(at(100, 0))), at(103, 999_999))
        .unwrap();
    assert_eq!(next.step(), ValidationStep::ReadFence);
    let stale = CoreError::Write(
        "writer heartbeat expired in storage for pending instant 7".to_string(),
    );
    assert_eq!(
        validation(0)
            .on_heartbeat_read_at(Ok(Some(at(100, 0))), at(103, 1_000_000))
            .unwrap_err(),
        stale
    );
    assert_eq!(
        validation(0)
            .on_heartbeat_read_at(Ok(None), at(100, 0))
            .unwrap_err(),
        stale
    );
    assert_eq!(
        validation(0)
            .on_heartbeat_read_at(Err(CoreError::Storage("gone".to_string())), at(100, 0))
            .unwrap_err()
            .message(),
        "writer heartbeat for pending instant 7 is missing or unreadable: gone"
    );
    assert!(is_stale_in_storage(None, at(0, 0), i64::MAX));
    assert!(!is_stale_in_storage(Some(at(5, 0)), at(0, 0), 0));
}

fn fenced(now: i64) -> Validation {
    let at = Timestamp { secs: 0, nanos: 0 };
    validation(now)
        .on_heartbeat_read_at(Ok(Some(at)), at)
        .unwrap()
        .on_fence_read(Ok(()))
        .unwrap()
}

#[test]
fn a_missing_fence_is_refused() {
    let at = Timestamp { secs: 0, nanos: 0 };
    let confirmed = validation(0)
        .on_heartbeat_read_at(Ok(Some(at)), at)
        .unwrap();
    assert_eq!(
        confirmed
            .on_fence_read(Err(CoreError::Storage("gone".to_string())))
            .unwrap_err(),
        CoreError::Write(
            "timeline fence for pending instant 7 is missing or unreadable: gone".to_string()
        )
    );
    assert_eq!(
        fence_path("t", "7", Action::DeltaCommit),
        "t/7.deltacommit.requested"
    );
}

fn candidate(requested: &str, completion: &str, metadata: ActionMetadata) -> Candidate {
    Candidate {
        requested: requested.to_string(),
        completion: completion.to_string(),
        intent: Ok(intent(Action::Commit, metadata)),
    }
}

#[test]
fn own_and_covered_actions_are_no_obstacle() {
    let current = intent(Action::Commit, commit(&[("p", "f")]));
    let seen = vec![
        candidate("7", "9", commit(&[("p", "f")])),
        candidate("1", "5", commit(&[("p", "f")])),
        candidate("1", "4", commit(&[("p", "f")])),
        Candidate {
            requested: "2".to_string(),
            completion: "3".to_string(),
            intent: Err(undecodable()),
        },
    ];
    assert!(matches!(
        fenced(0).on_actions_read(&current, seen),
        Verdict::Valid
    ));
}

#[test]
fn the_earliest_obstacle_counts() {
    let current = intent(Action::Commit, commit(&[("p", "f")]));
    let completed = vec![
        candidate("2", "6", commit(&[("p", "g")])),
        candidate("3", "9", commit(&[("p", "f")])),
        candidate("4", "8", commit_with_operation(&[("p", "f")], "upsert")),
        Candidate {
            requested: "6".to_string(),
            completion: "91".to_string(),
            intent: Err(undecodable()),
        },
    ];
    match fenced(0).on_actions_read(&current, completed) {
        Verdict::Conflict(refusal) => assert_eq!(
            refusal
                .on_rolled_back(Ok(()), &mut Registry::<Snapshot<u32>>::new(), BASE_URL)
                .error
                .message(),
            "instant 7 (UNKNOWN) conflicts with action 4 (upsert) completed at 8 on file groups \
             (\"p\", f)"
        ),
        other => panic!("unexpected verdict {other:?}"),
    }
}

#[test]
fn an_unreadable_action_fails_closed() {
    let current = intent(Action::Commit, commit(&[("p", "f")]));
    let completed = vec![
        candidate("3", "9", commit(&[("p", "f")])),
        Candidate {
            requested: "6".to_string(),
            completion: "8".to_string(),
            intent: Err(undecodable()),
        },
    ];
    match fenced(0).on_actions_read(&current, completed) {
        Verdict::Unreadable(error) => assert_eq!(error, undecodable()),
        other => panic!("unexpected verdict {other:?}"),
    }
}

#[test]
fn whichever_writer_comes_later_is_refused() {
    let a = || commit_with_operation(&[("p", "f")], "INSERT");
    let b = || commit_with_operation(&[("p", "f"), ("q", "g")], "UPSERT");
    let refused = |current: ActionMetadata, other: ActionMetadata| {
        matches!(
            fenced(0).on_actions_read(
                &intent(Action::Commit, current),
                vec![candidate("8", "9", other)]
            ),
            Verdict::Conflict(_)
        )
    };
    assert!(refused(a(), b()));
    assert!(refused(b(), a()));
    let c = || commit(&[("r", "f")]);
    assert!(!refused(a(), c()));
    assert!(!refused(c(), a()));
}

#[test]
fn scopes_in_words() {
    assert_eq!(describe_group("'p'", "f"), "('p', f)");
    let items = vec!["a".to_string(), "b".to_string()];
    assert_eq!(
        describe_partitions(&items),
        "in overwrite target partition(s) a, b"
    );
    assert_eq!(describe_groups(&items), "on file groups a, b");
    assert_eq!(
        ConflictScope::Table.describe(),
        "because one operation replaces the full table"
    );
    assert_eq!(
        ConflictScope::Partitions(vec!["a\"b".to_string(), "c\n".to_string()]).describe(),
        "in overwrite target partition(s) \"a\\\"b\", \"c\\n\""
    );
    assert_eq!(
        ConflictScope::FileGroups(vec![group("p", "f"), group("q\\", "g")]).describe(),
        "on file groups (\"p\", f), (\"q\\\\\", g)"
    );
}

#[test]
fn scopes_are_in_order() {
    let a = intent(
        Action::Commit,
        commit(&[("q", "1"), ("p", "2"), ("p", "1"), ("x", "1")]),
    );
    let b = intent(
        Action::DeltaCommit,
        commit(&[("p", "1"), ("q", "1"), ("p", "2"), ("y", "1")]),
    );
    let scope = Some(ConflictScope::FileGroups(vec![
        group("p", "1"),
        group("p", "2"),
        group("q", "1"),
    ]));
    assert_eq!(a.conflict_scope(&b), scope);
    assert_eq!(b.conflict_scope(&a), scope);
    let overwrite = intent(
        Action::ReplaceCommit,
        replace_commit("insert_overwrite", &[("q", "9")], &[("p", &[]), ("z", &["1"])]),
    );
    let scope = Some(ConflictScope::Partitions(vec![
        "p".to_string(),
        "q".to_string(),
    ]));
    assert_eq!(overwrite.conflict_scope(&a), scope);
    assert_eq!(a.conflict_scope(&overwrite), scope);
}

#[test]
fn empty_file_ids_name_no_group() {
    let metadata = ActionMetadata {
        partition_to_write_stats: Some(vec![(
            "p".to_string(),
            vec![
                WriteStat { file_id: None },
                WriteStat {
                    file_id: Some(String::new()),
                },
                WriteStat {
                    file_id: Some("f".to_string()),
                },
            ],
        )]),
        partition_to_replace_file_ids: Some(vec![(
            "q".to_string(),
            vec![String::new(), "g".to_string()],
        )]),
        ..Default::default()
    };
    let intent = intent(Action::ReplaceCommit, metadata);
    assert!(intent.write_set.0.contains(&group("p", "f")));
    assert!(intent.write_set.0.contains(&group("q", "g")));
    assert!(!intent.write_set.0.contains(&group("p", "")));
    assert!(!intent.write_set.0.contains(&group("q", "")));
    assert!(intent.touched_partitions.contains(&"p".to_string()));
    assert!(intent.touched_partitions.contains(&"q".to_string()));
}

#[test]
fn a_commit_ignores_replaced_file_ids() {
    let metadata = replace_commit("upsert", &[("p", "f")], &[("q", &["g"])]);
    let commit = intent(Action::Commit, metadata);
    assert!(!commit.write_set.0.contains(&group("q", "g")));
    assert!(!commit.touched_partitions.contains(&"q".to_string()));
    assert!(commit.write_set.0.contains(&group("p", "f")));
}

#[test]
fn the_binary_form_comes_before_the_textual_one() {
    let both = WriteIntent::from_metadata(
        &Action::Commit,
        Ok(commit(&[("p", "avro")])),
        Ok(commit(&[("p", "json")])),
    )
    .unwrap();
    assert!(both.write_set.0.contains(&group("p", "avro")));
    let neither = WriteIntent::from_metadata(
        &Action::Commit,
        Err(undecodable()),
        Err(CoreError::CommitMetadata("neither".to_string())),
    );
    assert_eq!(
        neither.unwrap_err(),
        CoreError::CommitMetadata("neither".to_string())
    );
}

#[test]
fn operations_are_named_without_regard_to_case() {
    let overwrite = intent(
        Action::ReplaceCommit,
        commit_with_operation(&[], "Insert_Overwrite"),
    );
    assert!(overwrite.is_operation("INSERT_OVERWRITE"));
    assert!(overwrite.is_partition_overwrite());
    assert!(!overwrite.is_table_overwrite());
    assert_eq!(overwrite.operation_name(), "Insert_Overwrite");
    let unknown = intent(Action::Commit, commit(&[]));
    assert!(!unknown.is_operation(""));
    assert_eq!(unknown.operation_name(), "UNKNOWN");
}

#[test]
fn schemas_are_compared_as_compact_json() {
    let extra = |schema: &str| {
        Some(TextMap::new(vec![(
            "schema".to_string(),
            schema.to_string(),
        )]))
    };
    assert_eq!(
        normalized_schema(&extra(" { \"type\" : [ \"null\", 1.50 ] } ")).unwrap(),
        "{\"type\":[\"null\",1.5]}"
    );
    assert_eq!(
        normalized_schema(&extra("{\"b\":1,\"a\":2}")),
        normalized_schema(&extra("{ \"a\":2, \"b\":1 }"))
    );
    assert_eq!(
        normalized_schema(&extra("\n not json \t")).unwrap(),
        "not json"
    );
    assert_eq!(normalized_schema(&None), None);
    assert_eq!(
        normalized_schema(&Some(TextMap::new(vec![(
            "other".to_string(),
            "1".to_string()
        )]))),
        None
    );
    assert_eq!(
        comparable_schema(" x ", Some("{}".to_string())),
        "{}"
    );
    assert_eq!(comparable_schema(" x ", None), "x");
}

fn completed(name: &str) -> TimelineFile {
    TimelineFile {
        name: name.to_string(),
        instant: parse_name(name),
    }
}

#[test]
fn the_watermark_is_the_latest_completion() {
    let files = vec![
        completed("3_9.commit"),
        completed("4_5.deltacommit"),
        completed("7.commit"),
        completed("99.commit.requested"),
        completed("98.commit.inflight"),
        completed("hoodie.properties"),
    ];
    assert_eq!(timeline_completion_watermark(&files).as_deref(), Some("9"));
    assert_eq!(
        load_completion_watermark(&files, &vec![]).as_deref(),
        Some("9")
    );
    for file in &files {
        if let Some(instant) = &file.instant {
            if instant.state == State::Completed {
                assert!(!completed_after(instant.completion(), Some("9")));
            }
        }
    }
    assert!(completed_files_after(&files, Some("9")).is_empty());
    assert_eq!(completed_files_after(&files, Some("6")), vec![0, 2]);
    assert_eq!(completed_files_after(&files, None), vec![0, 1, 2]);
    assert_eq!(
        load_completion_watermark(&vec![completed("99.commit.requested")], &vec![]),
        None
    );
}

#[test]
fn only_names_that_start_with_a_digit_are_instants() {
    let files = vec![TimelineFile {
        name: ".3_9.commit".to_string(),
        instant: Some(Instant {
            timestamp: "3".to_string(),
            completion_timestamp: Some("9".to_string()),
            action: Action::Commit,
            state: State::Completed,
        }),
    }];
    assert!(completed_files_after(&files, None).is_empty());
}

fn record(requested: &str, completion: &str, action: &str, metadata: u8) -> ArchivedRecord {
    ArchivedRecord {
        requested: requested.to_string(),
        completion: completion.to_string(),
        action: action.to_string(),
        metadata: vec![metadata],
    }
}

#[test]
fn a_snapshot_covers_the_archive_too() {
    let mut table = Table::new();
    table.complete("7_8.commit", || commit(&[("p", "file-8")]));
    table
        .archive
        .push(("6_9.commit".to_string(), || commit(&[("p", "file-9")])));
    assert_eq!(
        load_completion_watermark(&table.listing(), &table.archived()).as_deref(),
        Some("9")
    );
    table.begin_commit("91");
    assert_eq!(
        table.snapshot("91").unwrap().completion_watermark.as_deref(),
        Some("9")
    );
    assert!(table.candidates(Some("9")).is_empty());
    table
        .validate(
            "91",
            Action::Commit,
            commit(&[("p", "file-8"), ("p", "file-9")]),
        )
        .unwrap();
}

#[test]
fn the_later_watermark_counts() {
    let some = |text: &str| Some(text.to_string());
    assert_eq!(later_watermark(some("8"), some("9")), some("9"));
    assert_eq!(later_watermark(some("9"), some("8")), some("9"));
    assert_eq!(later_watermark(some("8"), None), some("8"));
    assert_eq!(later_watermark(None, some("8")), some("8"));
    assert_eq!(later_watermark(None, None), None);
}

#[test]
fn a_refused_write_is_forgotten() {
    for rollback in [Ok(()), Err(CoreError::Storage("connection reset".to_string()))] {
        let failed = rollback.is_err();
        let mut transactions: Registry<Snapshot<WriterHeartbeat>> = Registry::new();
        transactions.insert(transaction_key(BASE_URL, "7"), live_snapshot(0));
        transactions.insert(transaction_key(BASE_URL, "8"), live_snapshot(0));
        let current = intent(Action::Commit, commit(&[("p", "f")]));
        let completed = vec![candidate("3", "9", commit(&[("p", "f")]))];
        let refused = match fenced(0).on_actions_read(&current, completed) {
            Verdict::Conflict(refusal) => {
                refusal.on_rolled_back(rollback, &mut transactions, BASE_URL)
            }
            other => panic!("unexpected verdict {other:?}"),
        };
        assert!(matches!(refused.error, CoreError::WriteConflict(_)));
        assert_eq!(refused.rollback_error.is_some(), failed);
        assert_eq!(
            refused.finished.unwrap().heartbeat_path,
            ".hoodie/.heartbeat/7"
        );
        assert!(snapshot_of(&transactions, BASE_URL, "7").is_none());
        assert!(snapshot_of(&transactions, BASE_URL, "8").is_some());
        finish_transaction(&mut transactions, BASE_URL, "8");
        assert!(snapshot_of(&transactions, BASE_URL, "7").is_none());
        assert_eq!(
            validate_transaction_at(&occ_configs(), None, "7", 0).unwrap_err(),
            CoreError::Write(
                "missing OCC snapshot for pending instant 7; refusing an unsafe commit"
                    .to_string()
            )
        );
    }
}

#[test]
fn the_archive_gives_the_watermark_of_an_empty_timeline() {
    let records = vec![
        record("1", "4", "commit", 0),
        record("2", "6", "clean", 0),
        record("3", "5", "commit", 0),
    ];
    assert_eq!(
        archived_completion_watermark(&records).as_deref(),
        Some("6")
    );
    assert_eq!(archived_completion_watermark(&vec![]), None);

    let mut table = Table::new();
    table.archive.push(("1_4.commit".to_string(), nothing));
    table.begin("7", false).unwrap();
    assert_eq!(
        table.snapshot("7").unwrap().completion_watermark.as_deref(),
        Some("4")
    );
}

#[test]
fn archived_actions_join_those_of_the_timeline() {
    let live = |requested: &str, completion: &str, metadata: u8| {
        CompletedAction::from_instant(
            &Instant {
                timestamp: requested.to_string(),
                completion_timestamp: Some(completion.to_string()),
                action: Action::Commit,
                state: State::Completed,
            },
            vec![metadata],
        )
    };
    let loaded = load_completed_actions_after(
        vec![live("1", "6", 1), live("2", "7", 2), live("1", "6", 3)],
        vec![
            record("2", "7", "commit", 4),
            record("2", "7", "replacecommit", 5),
            record("3", "5", "commit", 6),
            record("4", "8", "clean", 7),
            record("5", "9", "deltacommit", 8),
        ],
        Some("5"),
    );
    let mut found: Vec<(String, Action, u8)> = loaded
        .into_iter()
        .map(|action| (action.requested, action.action, action.metadata[0]))
        .collect();
    found.sort_by(|left, right| left.2.cmp(&right.2));
    assert_eq!(
        found,
        vec![
            ("1".to_string(), Action::Commit, 3),
            ("2".to_string(), Action::Commit, 4),
            ("2".to_string(), Action::ReplaceCommit, 5),
            ("5".to_string(), Action::DeltaCommit, 8),
        ]
    );
}

#[test]
fn action_names_round_trip() {
    for action in [Action::Commit, Action::DeltaCommit, Action::ReplaceCommit] {
        assert_eq!(Action::from_name(action.as_str()), Some(action));
    }
    assert_eq!(Action::from_name("clean"), None);
}

#[test]
fn a_heartbeat_expires_after_the_tolerance() {
    let mut heartbeat = WriterHeartbeat::start_at(Duration::from_secs(1), 3, 10_000);
    assert_eq!(heartbeat.tolerance_ms(), 3_000);
    assert!(heartbeat.is_due());
    assert!(!heartbeat.is_dead_at(13_000));
    assert!(heartbeat.is_dead_at(13_001));
    assert!(heartbeat.on_beat_at(false, 13_000));
    assert!(heartbeat.on_beat_at(true, 12_000));
    assert!(!heartbeat.is_dead_at(15_000));
    assert!(!heartbeat.on_beat_at(false, 15_001));
    assert!(heartbeat.is_dead_at(12_000));
    heartbeat.stop();
    assert!(!heartbeat.is_due());
    let endless = WriterHeartbeat::start_at(Duration::from_secs(u64::MAX), usize::MAX, 0);
    assert_eq!(endless.tolerance_ms(), i64::MAX);
    let mut fresh = WriterHeartbeat::start(Duration::from_secs(60), 10);
    assert!(!fresh.is_dead_at(now_ms()));
    assert!(fresh.on_beat(true));
    assert!(fresh.on_beat(false));
}

#[test]
fn paths_and_keys_tell_instants_apart() {
    assert_eq!(heartbeat_path("7"), ".hoodie/.heartbeat/7");
    assert_ne!(heartbeat_path("7"), heartbeat_path("8"));
    assert_eq!(transaction_key(BASE_URL, "7"), "memory:///table#7");
    assert_ne!(
        transaction_key("memory:///table#7", "8"),
        transaction_key("memory:///table", "7")
    );
}

#[test]
fn a_valid_write_conflicts_with_no_later_action() {
    let mut table = Table::new();
    table.complete("1_2.commit", || commit(&[("p", "seen")]));
    table.begin_commit("3");
    table.complete("4_5.commit", || commit(&[("p", "live")]));
    table.archive.push(("6_7.deltacommit".to_string(), || {
        commit(&[("p", "archived")])
    }));
    for (file_id, valid) in [("seen", true), ("live", false), ("archived", false), ("own", true)] {
        let validation = validate_transaction_at(&table.configs, table.snapshot("3"), "3", now_ms())
            .unwrap()
            .unwrap();
        let at = Timestamp { secs: 0, nanos: 0 };
        let validation = validation
            .on_heartbeat_read_at(Ok(Some(at)), at)
            .unwrap()
            .on_fence_read(Ok(()))
            .unwrap();
        let candidates = table.candidates(validation.completion_watermark());
        assert_eq!(candidates.len(), 2);
        let current = intent(Action::Commit, commit(&[("p", file_id)]));
        assert_eq!(
            matches!(
                validation.on_actions_read(&current, candidates),
                Verdict::Valid
            ),
            valid
        );
    }
}

#[test]
fn instants_of_one_table_never_share_a_name() {
    assert_ne!(
        transaction_key(BASE_URL, "7#8"),
        transaction_key(BASE_URL, "7")
    );
    assert_ne!(
        transaction_key("memory:///a", "b#c"),
        transaction_key("memory:///a#x", "c")
    );
    assert_eq!(
        transaction_key("memory:///a", "b#c"),
        transaction_key("memory:///a#b", "c")
    );
}

#[test]
fn transactions_do_not_interfere() {
    let mut transactions: Registry<Snapshot<u32>> = Registry::new();
    for (i, instant) in ["1", "2", "3"].iter().enumerate() {
        transactions.insert(
            transaction_key(BASE_URL, instant),
            Snapshot {
                completion_watermark: None,
                heartbeat: i as u32,
            },
        );
    }
    let finished = finish_transaction(&mut transactions, BASE_URL, "1").unwrap();
    assert_eq!(finished.heartbeat, 0);
    assert_eq!(finished.heartbeat_path, ".hoodie/.heartbeat/1");
    assert_eq!(
        abandon_transaction(&mut transactions, BASE_URL, "2"),
        Some(1)
    );
    assert!(finish_transaction(&mut transactions, BASE_URL, "1").is_none());
    assert!(abandon_transaction(&mut transactions, BASE_URL, "2").is_none());
    assert!(abandon_transaction(&mut transactions, "memory:///other", "3").is_none());
    let left = transactions.get(&transaction_key(BASE_URL, "3")).unwrap();
    assert_eq!(left.heartbeat, 2);
}
