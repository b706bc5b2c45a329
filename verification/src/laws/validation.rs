//! Laws of validation: what keeps a pending write from being committed, told by schemas, operations,
//! partitions, file groups and the order of texts, and what becomes of a write that is refused.
use vstd::prelude::*;

use crate::config::write::{WriteConcurrencyConfig, WriteConcurrencyMode};
use crate::error::{CoreError, CoreErrorModel};
use crate::laws;
use crate::text;
use crate::time::Timestamp;
use crate::write::heartbeat::WriterHeartbeat;
use crate::write::intent;
use crate::write::intent::{Group, IntentModel, ScopeModel};
use crate::write::occ;
use crate::write::occ::{FinishedTransaction, Snapshot};
use crate::write::timeline;
use crate::write::timeline::{
    Action, ArchivedRecord, CompletedAction, CompletedModel, Instant, State, TimelineFile,
};
use crate::write::validation;
use crate::write::validation::{
    Candidate, CandidateModel, Obstacle, RefusalModel, RefusedTransaction, Validation,
    ValidationModel, ValidationStep, Verdict,
};

verus! {

/// Two writes that state different schemas never both land: the action is an obstacle wherever it is
/// another writer's and later than the snapshot, whatever partitions and file groups the two touch,
/// and the error says so.
pub proof fn law_different_schemas_never_both_land(
    instant: Seq<char>,
    watermark: Option<Seq<char>>,
    current: IntentModel,
    candidate: CandidateModel,
    other: IntentModel,
    ours: Seq<char>,
    theirs: Seq<char>,
)
    requires
        current.schema == Some(ours),
        other.schema == Some(theirs),
        ours != theirs,
        candidate.intent == Ok::<IntentModel, CoreErrorModel>(other),
        candidate.requested != instant,
        watermark is None || text::text_lt(watermark->0, candidate.completion),
    ensures
        validation::obstacle(instant, watermark, current, candidate) == Some(Obstacle::Schema),
        validation::obstacle_error(instant, current, candidate, Obstacle::Schema)
            == CoreErrorModel::WriteConflict(
            "instant "@ + instant + " has a schema incompatible with action "@ + candidate.requested
                + " completed at "@ + candidate.completion,
        ),
{
    if let Some(latest) = watermark {
        laws::timeline::law_completion_after_a_snapshot(candidate.completion, latest);
    }
}

/// Two writes that conflict never both land either: the action is an obstacle wherever it is another
/// writer's and later than the snapshot, and the error names both writes and what they share.
pub proof fn law_conflicting_writes_never_both_land(
    instant: Seq<char>,
    watermark: Option<Seq<char>>,
    current: IntentModel,
    candidate: CandidateModel,
    other: IntentModel,
    scope: ScopeModel,
)
    requires
        intent::conflict(current, other) == Some(scope),
        current.schema is None || other.schema is None || current.schema == other.schema,
        candidate.intent == Ok::<IntentModel, CoreErrorModel>(other),
        candidate.requested != instant,
        watermark is None || text::text_lt(watermark->0, candidate.completion),
    ensures
        validation::obstacle(instant, watermark, current, candidate) == Some(
            Obstacle::Overlap(other, scope),
        ),
        validation::obstacle_error(instant, current, candidate, Obstacle::Overlap(other, scope))
            == CoreErrorModel::WriteConflict(
            "instant "@ + instant + " ("@ + intent::operation_text(current)
                + ") conflicts with action "@ + candidate.requested + " ("@
                + intent::operation_text(other) + ") completed at "@ + candidate.completion + " "@
                + intent::scope_text(scope),
        ),
{
    if let Some(latest) = watermark {
        laws::timeline::law_completion_after_a_snapshot(candidate.completion, latest);
    }
}

/// An action whose metadata cannot be read keeps every other writer's unseeing write from being
/// committed, with the error of the reading.
pub proof fn law_unreadable_metadata_is_an_obstacle(
    instant: Seq<char>,
    watermark: Option<Seq<char>>,
    current: IntentModel,
    candidate: CandidateModel,
    error: CoreErrorModel,
)
    requires
        candidate.intent == Err::<IntentModel, CoreErrorModel>(error),
        candidate.requested != instant,
        watermark is None || text::text_lt(watermark->0, candidate.completion),
    ensures
        validation::obstacle(instant, watermark, current, candidate) == Some(
            Obstacle::Unreadable(error),
        ),
        validation::obstacle_error(instant, current, candidate, Obstacle::Unreadable(error))
            == error,
{
    if let Some(latest) = watermark {
        laws::timeline::law_completion_after_a_snapshot(candidate.completion, latest);
    }
}

/// Nothing else keeps a write from being committed: an action is no obstacle exactly where it is the
/// write's own, where the snapshot is as late, or where it can be read, states no other schema, and
/// shares with the write neither the table, nor a replaced partition, nor a file group.
pub proof fn law_what_is_no_obstacle(
    instant: Seq<char>,
    watermark: Option<Seq<char>>,
    current: IntentModel,
    candidate: CandidateModel,
)
    ensures
        validation::obstacle(instant, watermark, current, candidate) is None <==> {
            ||| candidate.requested == instant
            ||| watermark is Some && !text::text_lt(watermark->0, candidate.completion)
            ||| {
                &&& candidate.intent matches Ok(other)
                &&& current.schema is None || other.schema is None || current.schema == other.schema
                &&& !(current.operation_type is Some && text::lowered(current.operation_type->0)
                    == "insert_overwrite_table"@)
                &&& !(other.operation_type is Some && text::lowered(other.operation_type->0)
                    == "insert_overwrite_table"@)
                &&& (current.operation_type is Some && text::lowered(current.operation_type->0)
                    == "insert_overwrite"@) || (other.operation_type is Some && text::lowered(
                    other.operation_type->0,
                ) == "insert_overwrite"@) ==> forall|partition: Seq<char>|
                    !(#[trigger] current.touched_partitions.contains(partition)
                        && other.touched_partitions.contains(partition))
                &&& forall|group: Group|
                    !(#[trigger] current.write_set.contains(group) && other.write_set.contains(
                        group,
                    ))
            }
        },
{
    if let Some(latest) = watermark {
        laws::timeline::law_completion_after_a_snapshot(candidate.completion, latest);
    }
    if let Ok(other) = candidate.intent {
        laws::intent::law_when_two_writes_conflict(current, other);
    }
}

/// Of several obstacles the verdict is on one that was completed first.
pub proof fn law_first_obstacle_counts(
    instant: Seq<char>,
    watermark: Option<Seq<char>>,
    current: IntentModel,
    candidates: Seq<Candidate>,
    i: int,
)
    requires
        validation::is_first_obstacle(instant, watermark, current, candidates, i),
    ensures
        0 <= i < candidates.len(),
        validation::obstacle(instant, watermark, current, candidates[i]@) is Some,
        forall|j: int|
            0 <= j < candidates.len() && validation::obstacle(
                instant,
                watermark,
                current,
                (#[trigger] candidates[j])@,
            ) is Some ==> !text::text_lt(
                candidates[j].completion@,
                candidates[i].completion@,
            ),
{
    assert forall|j: int|
        0 <= j < candidates.len() && validation::obstacle(
            instant,
            watermark,
            current,
            (#[trigger] candidates[j])@,
        ) is Some implies !text::text_lt(
        candidates[j].completion@,
        candidates[i].completion@,
    ) by {
        text::law_text_lt_irreflexive(candidates[i].completion@);
        text::law_text_lt_total(candidates[j].completion@, candidates[i].completion@);
    }
}

/// A verdict on an obstacle is never that the write is valid. Where the action cannot be read the
/// verdict is the error of the reading, else it refuses the write with a conflict that names it.
pub proof fn law_verdict_on_an_obstacle(
    verdict: Verdict,
    instant: Seq<char>,
    watermark: Option<Seq<char>>,
    current: IntentModel,
    candidate: CandidateModel,
)
    requires
        validation::is_verdict(verdict, instant, watermark, current, candidate),
    ensures
        validation::obstacle(instant, watermark, current, candidate) is Some,
        match candidate.intent {
            Err(error) => verdict matches Verdict::Unreadable(cause) && cause@ == error,
            Ok(_) => {
                &&& verdict matches Verdict::Conflict(refusal)
                &&& refusal@.instant == instant
                &&& refusal@.error is WriteConflict
                &&& refusal@.error == validation::obstacle_error(
                    instant,
                    current,
                    candidate,
                    validation::obstacle(instant, watermark, current, candidate)->0,
                )
            },
        },
{
}

/// A transaction is validated where optimistic concurrency control is on, and not where it is off.
pub proof fn law_when_a_transaction_is_validated(
    options: Map<Seq<char>, Seq<char>>,
    config: WriteConcurrencyConfig,
    snapshot: Option<Snapshot<WriterHeartbeat>>,
    instant: Seq<char>,
    now: i64,
)
    requires
        crate::config::write::resolved(options) == Ok::<_, CoreErrorModel>(config),
        snapshot is Some ==> i64::MIN <= now - snapshot->0.heartbeat@.last_success_ms <= i64::MAX,
    ensures
        occ::is_enabled(options) == Ok::<bool, CoreErrorModel>(
            config.mode == WriteConcurrencyMode::OptimisticConcurrencyControl,
        ),
        ({
            let start = validation::validation_start(options, snapshot, instant, now);
            if config.mode == WriteConcurrencyMode::SingleWriter {
                start == Ok::<Option<ValidationModel>, CoreErrorModel>(None)
            } else if snapshot is None {
                start == Err::<Option<ValidationModel>, _>(
                    CoreErrorModel::Write(
                        "missing OCC snapshot for pending instant "@ + instant
                            + "; refusing an unsafe commit"@,
                    ),
                )
            } else {
                let beat = snapshot->0.heartbeat@;
                if beat.expired || now - beat.last_success_ms > beat.tolerance_ms {
                    start == Err::<Option<ValidationModel>, _>(
                        CoreErrorModel::Write(
                            "writer heartbeat expired for pending instant "@ + instant,
                        ),
                    )
                } else {
                    start == Ok::<_, CoreErrorModel>(
                        Some(
                            ValidationModel {
                                instant,
                                step: ValidationStep::ReadHeartbeat,
                                completion_watermark: match snapshot->0.completion_watermark {
                                    Some(latest) => Some(latest@),
                                    None => None,
                                },
                                tolerance_ms: beat.tolerance_ms,
                            },
                        ),
                    )
                }
            }
        }),
{
}

/// Options that do not resolve are an error of every transaction.
pub proof fn law_unsafe_options_stop_a_transaction(
    options: Map<Seq<char>, Seq<char>>,
    error: CoreErrorModel,
    snapshot: Option<Snapshot<WriterHeartbeat>>,
    instant: Seq<char>,
    now: i64,
)
    requires
        crate::config::write::resolved(options) == Err::<WriteConcurrencyConfig, _>(error),
    ensures
        occ::is_enabled(options) == Err::<bool, _>(error),
        validation::validation_start(options, snapshot, instant, now) == Err::<
            Option<ValidationModel>,
            _,
        >(error),
{
}

/// A validation goes on behind its heartbeat file exactly where that can be read and was written no
/// more whole milliseconds ago than are tolerated, and keeps all that it knows.
pub proof fn law_validation_behind_the_heartbeat_file(
    before: ValidationModel,
    last_modified: Result<Option<Timestamp>, CoreError>,
    now: Timestamp,
    outcome: Result<Validation, CoreError>,
)
    requires
        validation::after_heartbeat_read(before, last_modified, now, outcome),
        now.nanos < 1_000_000_000,
        last_modified matches Ok(Some(written)) ==> written.nanos < 1_000_000_000,
        before.tolerance_ms >= 0,
    ensures
        match last_modified {
            Err(cause) => outcome matches Err(error) && error@ == CoreErrorModel::Write(
                "writer heartbeat for pending instant "@ + before.instant
                    + " is missing or unreadable: "@ + cause@.text(),
            ),
            Ok(written) => if written is None || (now.secs - written->0.secs) * 1_000_000_000
                + now.nanos - written->0.nanos >= (before.tolerance_ms + 1) * 1_000_000 {
                outcome matches Err(error) && error@ == CoreErrorModel::Write(
                    "writer heartbeat expired in storage for pending instant "@ + before.instant,
                )
            } else {
                outcome matches Ok(next) && next@ == (ValidationModel {
                    step: ValidationStep::ReadFence,
                    ..before
                })
            },
        },
{
    if let Ok(Some(written)) = last_modified {
        laws::heartbeat::law_stale_heartbeat_file(written, now, before.tolerance_ms);
    }
}

/// A validation that goes on keeps all that it knows and takes the next step.
pub proof fn law_validation_goes_on(
    before: ValidationModel,
    step: ValidationStep,
    outcome: Result<Validation, CoreError>,
)
    requires
        validation::goes_on(before, step, outcome),
    ensures
        outcome matches Ok(next) && next@ == (ValidationModel { step, ..before }),
{
}

/// The errors of a validation name the instant and what is missing.
pub proof fn law_errors_of_a_validation(instant: Seq<char>, cause: CoreErrorModel)
    ensures
        validation::missing_snapshot(instant) == CoreErrorModel::Write(
            "missing OCC snapshot for pending instant "@ + instant + "; refusing an unsafe commit"@,
        ),
        validation::missing_fence(instant, cause) == CoreErrorModel::Write(
            "timeline fence for pending instant "@ + instant + " is missing or unreadable: "@
                + cause.text(),
        ),
{
}

/// The fence of an instant is the requested file of its action in the timeline directory.
pub proof fn law_fence_is_the_requested_file(
    timeline_dir: Seq<char>,
    instant: Seq<char>,
    action: Action,
)
    ensures
        validation::fence_file(timeline_dir, instant, action) == timeline_dir + "/"@ + instant
            + "."@ + (match action {
            Action::Commit => "commit"@,
            Action::DeltaCommit => "deltacommit"@,
            Action::ReplaceCommit => "replacecommit"@,
        }) + ".requested"@,
{
}

/// What is judged of a completed action is what it holds, and what its metadata was read as.
pub proof fn law_candidate_of_an_action(
    action: CompletedModel,
    read: Result<IntentModel, CoreErrorModel>,
    candidate: Candidate,
)
    ensures
        validation::candidate_of(action, read) == (CandidateModel {
            requested: action.requested,
            completion: action.completion,
            intent: read,
        }),
        candidate@.requested == candidate.requested@,
        candidate@.completion == candidate.completion@,
        candidate.intent matches Ok(known) ==> candidate@.intent == Ok::<_, CoreErrorModel>(known@),
        candidate.intent matches Err(error) ==> candidate@.intent == Err::<IntentModel, _>(error@),
{
}

/// A transaction is registered under the URL of its table and its instant, with a `#` between them.
/// Registering gives back the snapshot, and forgetting removes it.
pub proof fn law_registered_transactions<H>(
    transactions: Map<Seq<char>, Snapshot<H>>,
    base_url: Seq<char>,
    instant: Seq<char>,
    snapshot: Snapshot<H>,
)
    ensures
        occ::key_of(base_url, instant) == base_url + "#"@ + instant,
        occ::registered(
            transactions.insert(base_url + "#"@ + instant, snapshot),
            base_url,
            instant,
        ) == Some(snapshot),
        occ::registered(transactions.remove(base_url + "#"@ + instant), base_url, instant) is None,
{
}

/// A transaction that is forgotten leaves its heartbeat to stop and its heartbeat file to delete,
/// exactly where it was registered.
pub proof fn law_what_a_forgotten_transaction_leaves<H>(
    snapshot: Option<Snapshot<H>>,
    instant: Seq<char>,
    finished: Option<FinishedTransaction<H>>,
)
    requires
        occ::is_finish(snapshot, instant, finished),
    ensures
        finished is Some <==> snapshot is Some,
        finished is Some ==> finished->0.heartbeat == snapshot->0.heartbeat
            && finished->0.heartbeat_path@ == ".hoodie/.heartbeat/"@ + instant,
{
}

/// A refused write is forgotten and its error handed out, whether or not the rollback succeeded.
pub proof fn law_what_becomes_of_a_refused_write<H>(
    refusal: RefusalModel,
    rollback: Result<(), CoreError>,
    before: Map<Seq<char>, Snapshot<H>>,
    base_url: Seq<char>,
    after: Map<Seq<char>, Snapshot<H>>,
    refused: RefusedTransaction<H>,
)
    requires
        validation::is_refused(refusal, rollback, before, base_url, after, refused),
    ensures
        after == before.remove(base_url + "#"@ + refusal.instant),
        refused.error@ == refusal.error,
        refused.rollback_error is Some <==> rollback is Err,
        refused.finished is Some <==> before.contains_key(base_url + "#"@ + refusal.instant),
        refused.finished is Some ==> refused.finished->0.heartbeat_path@ == ".hoodie/.heartbeat/"@
            + refusal.instant,
{
}

/// A write that is judged valid is compatible with every later action on the timeline, told by the
/// fields of its file: the metadata can be read, states no other schema, and shares with the write
/// neither the table, nor a replaced partition, nor a file group. `content` is what the files hold,
/// `positions` are the files that were selected, `live` the actions read from them, `loaded` those
/// with the archived ones, `decode` how metadata reads, and `candidates` what was judged.
///
/// Another file or record of the same request time and kind holds the same, as these identify an
/// action.
pub proof fn law_valid_write_is_compatible_with_the_timeline(
    instant: Seq<char>,
    watermark: Option<Seq<char>>,
    current: IntentModel,
    files: Seq<TimelineFile>,
    content: spec_fn(TimelineFile) -> Seq<u8>,
    records: Seq<ArchivedRecord>,
    positions: Seq<usize>,
    live: Seq<CompletedAction>,
    loaded: Seq<CompletedAction>,
    decode: spec_fn(Action, Seq<u8>) -> Result<IntentModel, CoreErrorModel>,
    candidates: Seq<CandidateModel>,
    i: int,
    later: Instant,
    completion: Seq<char>,
)
    requires
        files.len() <= usize::MAX,
        timeline::are_news_positions(files, watermark, positions),
        live.len() == positions.len(),
        forall|k: int|
            0 <= k < live.len() ==> (#[trigger] live[k])@ == timeline::live_action(
                files[positions[k] as int].instant->0,
                content(files[positions[k] as int]),
            ),
        timeline::distinct_keys(loaded),
        timeline::by_key(loaded) == timeline::with_archive(
            timeline::by_key(live),
            records,
            watermark,
        ),
        candidates.len() == loaded.len(),
        forall|k: int|
            0 <= k < loaded.len() ==> #[trigger] candidates[k] == validation::candidate_of(
                loaded[k]@,
                decode(loaded[k]@.action, loaded[k]@.metadata),
            ),
        forall|k: int|
            0 <= k < candidates.len() ==> validation::obstacle(
                instant,
                watermark,
                current,
                #[trigger] candidates[k],
            ) is None,
        0 <= i < files.len(),
        files[i].name@.len() > 0 && '0' <= files[i].name@[0] <= '9',
        files[i].instant == Some(later),
        later.state == State::Completed,
        completion == match later.completion_timestamp {
            Some(known) => known@,
            None => later.timestamp@,
        },
        watermark is None || text::text_lt(watermark->0, completion),
        later.timestamp@ != instant,
        forall|j: int|
            0 <= j < files.len() && (#[trigger] files[j]).instant is Some
                && files[j].instant->0.timestamp@ == later.timestamp@ && files[j].instant->0.action
                == later.action && files[j].instant->0.state == State::Completed
                ==> timeline::completion_of(files[j].instant->0) == completion && content(files[j])
                == content(files[i]),
        forall|j: int|
            0 <= j < records.len() && (#[trigger] records[j]).requested@ == later.timestamp@
                && timeline::action_of(records[j].action@) == Some(later.action)
                ==> records[j].completion@ == completion && records[j].metadata@ == content(
                files[i],
            ),
    ensures
        ({
            &&& decode(later.action, content(files[i])) matches Ok(other)
            &&& current.schema is None || other.schema is None || current.schema == other.schema
            &&& !(current.operation_type is Some && text::lowered(current.operation_type->0)
                == "insert_overwrite_table"@)
            &&& !(other.operation_type is Some && text::lowered(other.operation_type->0)
                == "insert_overwrite_table"@)
            &&& (current.operation_type is Some && text::lowered(current.operation_type->0)
                == "insert_overwrite"@) || (other.operation_type is Some && text::lowered(
                other.operation_type->0,
            ) == "insert_overwrite"@) ==> forall|partition: Seq<char>|
                !(#[trigger] current.touched_partitions.contains(partition)
                    && other.touched_partitions.contains(partition))
            &&& forall|group: Group|
                !(#[trigger] current.write_set.contains(group) && other.write_set.contains(group))
        }),
{
    let action = CompletedModel {
        requested: later.timestamp@,
        completion,
        action: later.action,
        metadata: content(files[i]),
    };
    laws::timeline::law_news_on_the_timeline(files[i], watermark);
    assert(timeline::is_news(files[i], watermark));
    assert(timeline::live_action(files[i].instant->0, content(files[i])) == action);
    assert(validation::is_completed_after(files, content, records, watermark, action));
    assert forall|other: CompletedModel| #[trigger]
        validation::is_completed_after(files, content, records, watermark, other)
            && timeline::key_of(other) == timeline::key_of(action) implies other == action by {
        laws::timeline::law_keys_of_actions(other, action);
        if exists|j: int|
            0 <= j < files.len() && #[trigger] timeline::is_news(files[j], watermark)
                && timeline::live_action(files[j].instant->0, content(files[j])) == other {
            let j = choose|j: int|
                0 <= j < files.len() && #[trigger] timeline::is_news(files[j], watermark)
                    && timeline::live_action(files[j].instant->0, content(files[j])) == other;
            assert(files[j].instant is Some);
        } else {
            let j = choose|j: int|
                0 <= j < records.len() && timeline::archived_news(#[trigger] records[j], watermark)
                    == Some(other);
            assert(records[j].requested@ == later.timestamp@);
        }
    }
    validation::law_valid_write_conflicts_with_no_later_action(
        instant,
        watermark,
        current,
        files,
        content,
        records,
        positions,
        live,
        loaded,
        decode,
        candidates,
        action,
    );
    laws::intent::law_when_two_writes_conflict(
        current,
        decode(later.action, content(files[i]))->Ok_0,
    );
}

/// A write that is judged valid is compatible with every later action in the archive, told by the
/// fields of its record, in the same terms.
pub proof fn law_valid_write_is_compatible_with_the_archive(
    instant: Seq<char>,
    watermark: Option<Seq<char>>,
    current: IntentModel,
    files: Seq<TimelineFile>,
    content: spec_fn(TimelineFile) -> Seq<u8>,
    records: Seq<ArchivedRecord>,
    positions: Seq<usize>,
    live: Seq<CompletedAction>,
    loaded: Seq<CompletedAction>,
    decode: spec_fn(Action, Seq<u8>) -> Result<IntentModel, CoreErrorModel>,
    candidates: Seq<CandidateModel>,
    i: int,
    kind: Action,
)
    requires
        files.len() <= usize::MAX,
        timeline::are_news_positions(files, watermark, positions),
        live.len() == positions.len(),
        forall|k: int|
            0 <= k < live.len() ==> (#[trigger] live[k])@ == timeline::live_action(
                files[positions[k] as int].instant->0,
                content(files[positions[k] as int]),
            ),
        timeline::distinct_keys(loaded),
        timeline::by_key(loaded) == timeline::with_archive(
            timeline::by_key(live),
            records,
            watermark,
        ),
        candidates.len() == loaded.len(),
        forall|k: int|
            0 <= k < loaded.len() ==> #[trigger] candidates[k] == validation::candidate_of(
                loaded[k]@,
                decode(loaded[k]@.action, loaded[k]@.metadata),
            ),
        forall|k: int|
            0 <= k < candidates.len() ==> validation::obstacle(
                instant,
                watermark,
                current,
                #[trigger] candidates[k],
            ) is None,
        0 <= i < records.len(),
        records[i].action@ == match kind {
            Action::Commit => "commit"@,
            Action::DeltaCommit => "deltacommit"@,
            Action::ReplaceCommit => "replacecommit"@,
        },
        watermark is None || text::text_lt(watermark->0, records[i].completion@),
        records[i].requested@ != instant,
        forall|j: int|
            0 <= j < files.len() && (#[trigger] files[j]).instant is Some
                && files[j].instant->0.timestamp@ == records[i].requested@
                && files[j].instant->0.action == kind && files[j].instant->0.state
                == State::Completed ==> timeline::completion_of(files[j].instant->0)
                == records[i].completion@ && content(files[j]) == records[i].metadata@,
        forall|j: int|
            0 <= j < records.len() && (#[trigger] records[j]).requested@ == records[i].requested@
                && timeline::action_of(records[j].action@) == Some(kind) ==> records[j].completion@
                == records[i].completion@ && records[j].metadata@ == records[i].metadata@,
    ensures
        ({
            &&& decode(kind, records[i].metadata@) matches Ok(other)
            &&& current.schema is None || other.schema is None || current.schema == other.schema
            &&& !(current.operation_type is Some && text::lowered(current.operation_type->0)
                == "insert_overwrite_table"@)
            &&& !(other.operation_type is Some && text::lowered(other.operation_type->0)
                == "insert_overwrite_table"@)
            &&& (current.operation_type is Some && text::lowered(current.operation_type->0)
                == "insert_overwrite"@) || (other.operation_type is Some && text::lowered(
                other.operation_type->0,
            ) == "insert_overwrite"@) ==> forall|partition: Seq<char>|
                !(#[trigger] current.touched_partitions.contains(partition)
                    && other.touched_partitions.contains(partition))
            &&& forall|group: Group|
                !(#[trigger] current.write_set.contains(group) && other.write_set.contains(group))
        }),
{
    let action = CompletedModel {
        requested: records[i].requested@,
        completion: records[i].completion@,
        action: kind,
        metadata: records[i].metadata@,
    };
    laws::timeline::law_news_in_the_archive(records[i], kind, watermark);
    assert(timeline::archived_news(records[i], watermark) == Some(action));
    assert(validation::is_completed_after(files, content, records, watermark, action));
    assert forall|other: CompletedModel| #[trigger]
        validation::is_completed_after(files, content, records, watermark, other)
            && timeline::key_of(other) == timeline::key_of(action) implies other == action by {
        laws::timeline::law_keys_of_actions(other, action);
        if exists|j: int|
            0 <= j < files.len() && #[trigger] timeline::is_news(files[j], watermark)
                && timeline::live_action(files[j].instant->0, content(files[j])) == other {
            let j = choose|j: int|
                0 <= j < files.len() && #[trigger] timeline::is_news(files[j], watermark)
                    && timeline::live_action(files[j].instant->0, content(files[j])) == other;
            assert(files[j].instant is Some);
        } else {
            let j = choose|j: int|
                0 <= j < records.len() && timeline::archived_news(#[trigger] records[j], watermark)
                    == Some(other);
            assert(records[j].requested@ == action.requested);
        }
    }
    validation::law_valid_write_conflicts_with_no_later_action(
        instant,
        watermark,
        current,
        files,
        content,
        records,
        positions,
        live,
        loaded,
        decode,
        candidates,
        action,
    );
    laws::intent::law_when_two_writes_conflict(current, decode(kind, records[i].metadata@)->Ok_0);
}

/// How a validation starts is what it returns.
pub proof fn law_start_of_a_validation(started: Validation, error: CoreError)
    ensures
        validation::start_model(Ok(Some(started))) == Ok::<_, CoreErrorModel>(Some(started@)),
        validation::start_model(Ok(None)) == Ok::<Option<ValidationModel>, CoreErrorModel>(None),
        validation::start_model(Err(error)) == Err::<Option<ValidationModel>, _>(error@),
{
}

} // verus!
