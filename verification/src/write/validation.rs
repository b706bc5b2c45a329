//! Whether a pending write may be committed: its writer is alive, its instant is still fenced, and no
//! action that was completed since its snapshot gets in its way.
//!
//! The functions here decide what comes next and what an outcome means. Reading the heartbeat file,
//! the fence and the timeline, and rolling back, are the caller's part.
use vstd::prelude::*;

use crate::config::HudiConfigs;
use crate::error::{CoreError, CoreErrorModel};
use crate::registry::Registry;
use crate::text;
use crate::text::{same_text, text_less};
use crate::time;
use crate::time::Timestamp;
use crate::write::heartbeat;
use crate::write::heartbeat::{is_stale_in_storage, HeartbeatModel, WriterHeartbeat};
use crate::write::intent;
use crate::write::intent::{IntentModel, ScopeModel, WriteIntent};
use crate::write::occ;
use crate::write::occ::{
    enabled, finish_transaction, FinishedTransaction, RegistryChange, Snapshot,
};
use crate::write::timeline;
use crate::write::timeline::{
    completed_after, Action, ArchivedRecord, CompletedAction, CompletedModel, TimelineFile,
};

verus! {

/// What is to be read next for a transaction that is validated.
#[derive(Clone, Copy, Debug, PartialEq, Eq, Structural)]
pub enum ValidationStep {
    /// When the heartbeat file was last written.
    ReadHeartbeat,
    /// The requested file of the instant.
    ReadFence,
    /// The actions that were completed since the snapshot.
    ReadActions,
}

/// A transaction that is validated.
#[derive(Debug)]
pub struct Validation {
    instant: String,
    step: ValidationStep,
    completion_watermark: Option<String>,
    tolerance_ms: i64,
}

/// A transaction that is validated, by values.
pub struct ValidationModel {
    pub instant: Seq<char>,
    pub step: ValidationStep,
    /// The latest completion that the snapshot covers.
    pub completion_watermark: Option<Seq<char>>,
    /// How old the heartbeat file may be, in milliseconds.
    pub tolerance_ms: i64,
}

impl View for Validation {
    type V = ValidationModel;

    closed spec fn view(&self) -> ValidationModel {
        ValidationModel {
            instant: self.instant@,
            step: self.step,
            completion_watermark: text::text_model(self.completion_watermark),
            tolerance_ms: self.tolerance_ms,
        }
    }
}

/// The error for a transaction that is not registered.
pub open spec fn missing_snapshot(instant: Seq<char>) -> CoreErrorModel {
    CoreErrorModel::Write(
        "missing OCC snapshot for pending instant "@ + instant + "; refusing an unsafe commit"@,
    )
}

/// The error for a writer that counts as dead by its own heartbeat.
pub open spec fn dead_writer(instant: Seq<char>) -> CoreErrorModel {
    CoreErrorModel::Write("writer heartbeat expired for pending instant "@ + instant)
}

/// The error for a heartbeat file that cannot be read.
pub open spec fn unreadable_heartbeat(instant: Seq<char>, cause: CoreErrorModel) -> CoreErrorModel {
    CoreErrorModel::Write(
        "writer heartbeat for pending instant "@ + instant + " is missing or unreadable: "@
            + cause.text(),
    )
}

/// The error for a heartbeat file that is too old.
pub open spec fn stale_heartbeat(instant: Seq<char>) -> CoreErrorModel {
    CoreErrorModel::Write("writer heartbeat expired in storage for pending instant "@ + instant)
}

/// The error for an instant that is no longer fenced.
pub open spec fn missing_fence(instant: Seq<char>, cause: CoreErrorModel) -> CoreErrorModel {
    CoreErrorModel::Write(
        "timeline fence for pending instant "@ + instant + " is missing or unreadable: "@
            + cause.text(),
    )
}

/// The file whose presence fences an instant: the requested file of its action.
pub open spec fn fence_file(timeline_dir: Seq<char>, instant: Seq<char>, action: Action) -> Seq<
    char,
> {
    timeline_dir + "/"@ + instant + "."@ + timeline::action_name(action) + ".requested"@
}

/// The file whose presence fences an instant: the requested file of its action.
pub fn fence_path(timeline_dir: &str, instant: &str, action: Action) -> (r: String)
    ensures
        r@ == fence_file(timeline_dir@, instant@, action),
{
    timeline_dir.to_owned().concat("/").concat(instant).concat(".").concat(action.as_str()).concat(
        ".requested",
    )
}

/// How the validation of a pending instant starts at `now`: `None` where there is nothing to
/// validate, as optimistic concurrency control is off.
pub open spec fn validation_start(
    options: Map<Seq<char>, Seq<char>>,
    snapshot: Option<Snapshot<WriterHeartbeat>>,
    instant: Seq<char>,
    now: i64,
) -> Result<Option<ValidationModel>, CoreErrorModel> {
    match occ::is_enabled(options) {
        Err(error) => Err(error),
        Ok(false) => Ok(None),
        Ok(true) => match snapshot {
            None => Err(missing_snapshot(instant)),
            Some(taken) => if heartbeat::dead_at(taken.heartbeat@, now) {
                Err(dead_writer(instant))
            } else {
                Ok(
                    Some(
                        ValidationModel {
                            instant,
                            step: ValidationStep::ReadHeartbeat,
                            completion_watermark: text::text_model(taken.completion_watermark),
                            tolerance_ms: taken.heartbeat@.tolerance_ms,
                        },
                    ),
                )
            },
        },
    }
}

/// A started validation by its values.
pub open spec fn start_model(started: Result<Option<Validation>, CoreError>) -> Result<
    Option<ValidationModel>,
    CoreErrorModel,
> {
    match started {
        Ok(Some(validation)) => Ok(Some(validation@)),
        Ok(None) => Ok(None),
        Err(error) => Err(error@),
    }
}

/// Validate a pending instant at `now`, given the snapshot that is registered for it: the state to
/// go on from, or `None` where there is nothing to validate.
pub fn validate_transaction_at(
    configs: &HudiConfigs,
    snapshot: Option<Snapshot<WriterHeartbeat>>,
    instant: &str,
    now: i64,
) -> (r: Result<Option<Validation>, CoreError>)
    ensures
        start_model(r) == validation_start(configs@, snapshot, instant@, now),
{
    if !enabled(configs)? {
        return Ok(None);
    }
    match snapshot {
        None => Err(
            CoreError::Write(
                "missing OCC snapshot for pending instant ".to_owned().concat(instant).concat(
                    "; refusing an unsafe commit",
                ),
            ),
        ),
        Some(taken) => {
            if taken.heartbeat.is_dead_at(now) {
                return Err(
                    CoreError::Write(
                        "writer heartbeat expired for pending instant ".to_owned().concat(instant),
                    ),
                );
            }
            Ok(
                Some(
                    Validation {
                        instant: instant.to_owned(),
                        step: ValidationStep::ReadHeartbeat,
                        completion_watermark: taken.completion_watermark,
                        tolerance_ms: taken.heartbeat.tolerance_ms(),
                    },
                ),
            )
        },
    }
}

/// Validate a pending instant now, given the snapshot that is registered for it: the state to go on
/// from, or `None` where there is nothing to validate.
///
/// The caller holds and validates the table lock for the entire check and the timeline publication
/// that follows.
pub fn validate_transaction(
    configs: &HudiConfigs,
    snapshot: Option<Snapshot<WriterHeartbeat>>,
    instant: &str,
) -> (r: Result<Option<Validation>, CoreError>)
    ensures
        exists|now: i64| #[trigger]
            time::is_clock_millis(now) && start_model(r) == validation_start(
                configs@,
                snapshot,
                instant@,
                now,
            ),
{
    let now: i64 = time::now_ms();
    validate_transaction_at(configs, snapshot, instant, now)
}

/// The validation goes on as it stands, with the next step.
pub open spec fn goes_on(
    before: ValidationModel,
    step: ValidationStep,
    r: Result<Validation, CoreError>,
) -> bool {
    r matches Ok(next) && next@ == (ValidationModel { step, ..before })
}

/// What a heartbeat file that was last written at `last_modified` means at `now`.
pub open spec fn after_heartbeat_read(
    before: ValidationModel,
    last_modified: Result<Option<Timestamp>, CoreError>,
    now: Timestamp,
    r: Result<Validation, CoreError>,
) -> bool {
    match last_modified {
        Err(cause) => r matches Err(error) && error@ == unreadable_heartbeat(before.instant, cause@),
        Ok(written) => if heartbeat::stale_in_storage(written, now, before.tolerance_ms) {
            r matches Err(error) && error@ == stale_heartbeat(before.instant)
        } else {
            goes_on(before, ValidationStep::ReadFence, r)
        },
    }
}

impl Validation {
    /// What is to be read next.
    pub fn step(&self) -> (r: ValidationStep)
        ensures
            r == self@.step,
    {
        self.step
    }

    /// The latest completion that the snapshot covers.
    pub fn completion_watermark(&self) -> (r: Option<&str>)
        ensures
            timeline::str_model(r) == self@.completion_watermark,
    {
        match &self.completion_watermark {
            Some(watermark) => Some(watermark.as_str()),
            None => None,
        }
    }

    /// Take in when the heartbeat file was last written, as found at `now`.
    pub fn on_heartbeat_read_at(
        self,
        last_modified: Result<Option<Timestamp>, CoreError>,
        now: Timestamp,
    ) -> (r: Result<Self, CoreError>)
        requires
            self@.step == ValidationStep::ReadHeartbeat,
        ensures
            after_heartbeat_read(self@, last_modified, now, r),
    {
        match last_modified {
            Err(cause) => Err(
                CoreError::Write(
                    "writer heartbeat for pending instant ".to_owned().concat(
                        &self.instant,
                    ).concat(" is missing or unreadable: ").concat(&cause.message()),
                ),
            ),
            Ok(written) => {
                if is_stale_in_storage(written, now, self.tolerance_ms) {
                    return Err(
                        CoreError::Write(
                            "writer heartbeat expired in storage for pending instant ".to_owned()
                                .concat(&self.instant),
                        ),
                    );
                }
                Ok(Validation { step: ValidationStep::ReadFence, ..self })
            },
        }
    }

    /// Take in when the heartbeat file was last written.
    pub fn on_heartbeat_read(self, last_modified: Result<Option<Timestamp>, CoreError>) -> (r:
        Result<Self, CoreError>)
        requires
            self@.step == ValidationStep::ReadHeartbeat,
        ensures
            exists|now: Timestamp| #[trigger]
                now.is_clock_reading() && after_heartbeat_read(self@, last_modified, now, r),
    {
        let now: Timestamp = time::now();
        self.on_heartbeat_read_at(last_modified, now)
    }

    /// Take in whether the requested file of the instant could be read.
    pub fn on_fence_read(self, fence: Result<(), CoreError>) -> (r: Result<Self, CoreError>)
        requires
            self@.step == ValidationStep::ReadFence,
        ensures
            match fence {
                Ok(_) => goes_on(self@, ValidationStep::ReadActions, r),
                Err(cause) => r matches Err(error) && error@ == missing_fence(
                    self@.instant,
                    cause@,
                ),
            },
    {
        match fence {
            Ok(_) => Ok(Validation { step: ValidationStep::ReadActions, ..self }),
            Err(cause) => Err(
                CoreError::Write(
                    "timeline fence for pending instant ".to_owned().concat(&self.instant).concat(
                        " is missing or unreadable: ",
                    ).concat(&cause.message()),
                ),
            ),
        }
    }
}

/// A completed action, with what it does to the table or why its metadata cannot be read.
#[derive(Debug)]
pub struct Candidate {
    pub requested: String,
    pub completion: String,
    pub intent: Result<WriteIntent, CoreError>,
}

/// A completed action, by values.
pub struct CandidateModel {
    pub requested: Seq<char>,
    pub completion: Seq<char>,
    pub intent: Result<IntentModel, CoreErrorModel>,
}

impl View for Candidate {
    type V = CandidateModel;

    open spec fn view(&self) -> CandidateModel {
        CandidateModel {
            requested: self.requested@,
            completion: self.completion@,
            intent: match self.intent {
                Ok(intent) => Ok(intent@),
                Err(error) => Err(error@),
            },
        }
    }
}

/// A completed action with what it does to the table.
pub open spec fn candidate_of(
    action: CompletedModel,
    intent: Result<IntentModel, CoreErrorModel>,
) -> CandidateModel {
    CandidateModel { requested: action.requested, completion: action.completion, intent }
}

impl Candidate {
    /// A completed action with what its metadata says that it does, or why that cannot be read.
    pub fn from_action(action: CompletedAction, intent: Result<WriteIntent, CoreError>) -> (r: Self)
        ensures
            r@ == candidate_of(
                action@,
                match intent {
                    Ok(known) => Ok(known@),
                    Err(error) => Err(error@),
                },
            ),
    {
        Candidate { requested: action.requested, completion: action.completion, intent }
    }
}

/// What keeps a write from being committed.
pub enum Obstacle {
    /// A completed action cannot be read.
    Unreadable(CoreErrorModel),
    /// A completed action has another schema.
    Schema,
    /// A completed action did something to the same part of the table.
    Overlap(IntentModel, ScopeModel),
}

/// Both writes state a schema, and not the same one.
pub open spec fn schemas_clash(a: IntentModel, b: IntentModel) -> bool {
    a.schema is Some && b.schema is Some && a.schema != b.schema
}

/// A completed action has to be looked at: it is not the write's own, and its snapshot does not
/// cover it.
pub open spec fn is_relevant(
    instant: Seq<char>,
    watermark: Option<Seq<char>>,
    candidate: CandidateModel,
) -> bool {
    candidate.requested != instant && timeline::is_after(candidate.completion, watermark)
}

/// How a completed action keeps a write from being committed, if it does.
pub open spec fn obstacle(
    instant: Seq<char>,
    watermark: Option<Seq<char>>,
    current: IntentModel,
    candidate: CandidateModel,
) -> Option<Obstacle> {
    if !is_relevant(instant, watermark, candidate) {
        None
    } else {
        match candidate.intent {
            Err(error) => Some(Obstacle::Unreadable(error)),
            Ok(other) => if schemas_clash(current, other) {
                Some(Obstacle::Schema)
            } else {
                match intent::conflict(current, other) {
                    Some(scope) => Some(Obstacle::Overlap(other, scope)),
                    None => None,
                }
            },
        }
    }
}

/// The error for an obstacle.
pub open spec fn obstacle_error(
    instant: Seq<char>,
    current: IntentModel,
    candidate: CandidateModel,
    found: Obstacle,
) -> CoreErrorModel {
    match found {
        Obstacle::Unreadable(error) => error,
        Obstacle::Schema => CoreErrorModel::WriteConflict(
            "instant "@ + instant + " has a schema incompatible with action "@
                + candidate.requested + " completed at "@ + candidate.completion,
        ),
        Obstacle::Overlap(other, scope) => CoreErrorModel::WriteConflict(
            "instant "@ + instant + " ("@ + intent::operation_text(current)
                + ") conflicts with action "@ + candidate.requested + " ("@
                + intent::operation_text(other) + ") completed at "@ + candidate.completion + " "@
                + intent::scope_text(scope),
        ),
    }
}

/// A write that another writer got in before. The error to return comes out of it once a rollback of
/// the write was attempted and its transaction is forgotten.
#[derive(Debug)]
pub struct Refusal {
    instant: String,
    error: CoreError,
}

/// A write that another writer got in before, by values.
pub struct RefusalModel {
    pub instant: Seq<char>,
    pub error: CoreErrorModel,
}

impl View for Refusal {
    type V = RefusalModel;

    closed spec fn view(&self) -> RefusalModel {
        RefusalModel { instant: self.instant@, error: self.error@ }
    }
}

/// What is left to do for a write that was refused.
#[derive(Debug)]
pub struct RefusedTransaction<H> {
    /// The error to return.
    pub error: CoreError,
    /// Why the rollback failed, where it did, to be reported.
    pub rollback_error: Option<CoreError>,
    /// The heartbeat to stop and the heartbeat file to delete.
    pub finished: Option<FinishedTransaction<H>>,
}

/// `after` and `refused` are what becomes of the transactions and of a refused write. Whether its
/// rollback succeeded changes neither the error nor that it is forgotten.
pub open spec fn is_refused<H>(
    refusal: RefusalModel,
    rollback: Result<(), CoreError>,
    before: Map<Seq<char>, Snapshot<H>>,
    base_url: Seq<char>,
    after: Map<Seq<char>, Snapshot<H>>,
    refused: RefusedTransaction<H>,
) -> bool {
    &&& after == before.remove(occ::key_of(base_url, refusal.instant))
    &&& refused.error@ == refusal.error
    &&& refused.rollback_error == match rollback {
        Ok(_) => None,
        Err(cause) => Some(cause),
    }
    &&& occ::is_finish(
        occ::registered(before, base_url, refusal.instant),
        refusal.instant,
        refused.finished,
    )
}

impl Refusal {
    /// Take in the outcome of the rollback, and forget the transaction.
    pub fn on_rolled_back<H>(
        self,
        rollback: Result<(), CoreError>,
        transactions: &mut Registry<Snapshot<H>>,
        base_url: &str,
    ) -> (r: RefusedTransaction<H>)
        ensures
            is_refused(
                self@,
                rollback,
                old(transactions)@,
                base_url@,
                final(transactions)@,
                r,
            ),
    {
        let finished: Option<FinishedTransaction<H>> = finish_transaction(
            transactions,
            base_url,
            &self.instant,
        );
        RefusedTransaction {
            error: self.error,
            rollback_error: match rollback {
                Ok(_) => None,
                Err(cause) => Some(cause),
            },
            finished,
        }
    }
}

/// Whether a write may be committed.
#[derive(Debug)]
pub enum Verdict {
    /// Nothing is in the way.
    Valid,
    /// Another writer got in first: the write is to be rolled back and forgotten.
    Conflict(Refusal),
    /// A completed action cannot be read: the error is to be returned.
    Unreadable(CoreError),
}

/// The verdict says how a completed action keeps a write from being committed.
pub open spec fn is_verdict(
    verdict: Verdict,
    instant: Seq<char>,
    watermark: Option<Seq<char>>,
    current: IntentModel,
    candidate: CandidateModel,
) -> bool {
    match obstacle(instant, watermark, current, candidate) {
        None => false,
        Some(found) => {
            let error = obstacle_error(instant, current, candidate, found);
            match verdict {
                Verdict::Valid => false,
                Verdict::Conflict(refusal) => !(found is Unreadable) && refusal@ == (
                RefusalModel { instant, error }),
                Verdict::Unreadable(cause) => found is Unreadable && cause@ == error,
            }
        },
    }
}

/// The action at `i` is an obstacle, and no obstacle was completed before it.
pub open spec fn is_first_obstacle(
    instant: Seq<char>,
    watermark: Option<Seq<char>>,
    current: IntentModel,
    candidates: Seq<Candidate>,
    i: int,
) -> bool {
    &&& 0 <= i < candidates.len()
    &&& obstacle(instant, watermark, current, candidates[i]@) is Some
    &&& forall|j: int|
        0 <= j < candidates.len() && obstacle(
            instant,
            watermark,
            current,
            (#[trigger] candidates[j])@,
        ) is Some ==> text::text_le(candidates[i].completion@, candidates[j].completion@)
}

/// Whether a completed action is an obstacle.
fn is_obstacle(
    instant: &str,
    watermark: Option<&str>,
    current: &WriteIntent,
    candidate: &Candidate,
) -> (r: bool)
    ensures
        r == (obstacle(instant@, timeline::str_model(watermark), current@, candidate@) is Some),
{
    if same_text(&candidate.requested, instant) || !completed_after(
        &candidate.completion,
        watermark,
    ) {
        return false;
    }
    match &candidate.intent {
        Err(_) => true,
        Ok(other) => differs(&current.schema, &other.schema) || current.conflict_scope(
            other,
        ).is_some(),
    }
}

/// Whether both schemas are stated, and are not the same.
fn differs(a: &Option<String>, b: &Option<String>) -> (r: bool)
    ensures
        r == (a is Some && b is Some && text::text_model(*a) != text::text_model(*b)),
{
    match (a, b) {
        (Some(first), Some(second)) => !same_text(first, second),
        _ => false,
    }
}

/// The verdict on an obstacle.
fn refusal(instant: &str, current: &WriteIntent, candidate: Candidate) -> (r: Verdict)
    ensures
        forall|watermark: Option<Seq<char>>|
            (#[trigger] obstacle(instant@, watermark, current@, candidate@)) is Some ==> is_verdict(
                r,
                instant@,
                watermark,
                current@,
                candidate@,
            ),
{
    match candidate.intent {
        Err(error) => Verdict::Unreadable(error),
        Ok(other) => {
            if differs(&current.schema, &other.schema) {
                return Verdict::Conflict(
                    Refusal {
                        instant: instant.to_owned(),
                        error: CoreError::WriteConflict(
                            "instant ".to_owned().concat(instant).concat(
                                " has a schema incompatible with action ",
                            ).concat(&candidate.requested).concat(" completed at ").concat(
                                &candidate.completion,
                            ),
                        ),
                    },
                );
            }
            match current.conflict_scope(&other) {
                Some(scope) => Verdict::Conflict(
                    Refusal {
                        instant: instant.to_owned(),
                        error: CoreError::WriteConflict(
                            "instant ".to_owned().concat(instant).concat(" (").concat(
                                current.operation_name(),
                            ).concat(") conflicts with action ").concat(
                                &candidate.requested,
                            ).concat(" (").concat(other.operation_name()).concat(
                                ") completed at ",
                            ).concat(&candidate.completion).concat(" ").concat(&scope.describe()),
                        ),
                    },
                ),
                None => Verdict::Valid,
            }
        },
    }
}

impl Validation {
    /// Judge the write by what it does itself and by the actions that were completed since its
    /// snapshot. Where several are in the way, the one that was completed first counts.
    pub fn on_actions_read(self, current: &WriteIntent, completed: Vec<Candidate>) -> (r: Verdict)
        requires
            self@.step == ValidationStep::ReadActions,
        ensures
            r is Valid <==> forall|i: int|
                0 <= i < completed.len() ==> obstacle(
                    self@.instant,
                    self@.completion_watermark,
                    current@,
                    (#[trigger] completed[i])@,
                ) is None,
            !(r is Valid) ==> exists|i: int| #[trigger]
                is_first_obstacle(
                    self@.instant,
                    self@.completion_watermark,
                    current@,
                    completed@,
                    i,
                ) && is_verdict(
                    r,
                    self@.instant,
                    self@.completion_watermark,
                    current@,
                    completed@[i]@,
                ),
    {
        let ghost all = completed@;
        let watermark: Option<&str> = self.completion_watermark();
        let mut first: Option<usize> = None;
        for i in 0..completed.len()
            invariant
                completed@ == all,
                timeline::str_model(watermark) == self@.completion_watermark,
                match first {
                    None => forall|j: int|
                        0 <= j < i ==> obstacle(
                            self@.instant,
                            self@.completion_watermark,
                            current@,
                            (#[trigger] all[j])@,
                        ) is None,
                    Some(found) => found < i && is_first_obstacle(
                        self@.instant,
                        self@.completion_watermark,
                        current@,
                        all.take(i as int),
                        found as int,
                    ),
                },
        {
            let ghost done = all.take(i as int);
            let ghost next = all.take(i + 1);
            let ghost before = first;
            proof {
                assert(forall|j: int| 0 <= j < i ==> next[j] == done[j] && next[j] == all[j]);
                assert(next[i as int] == all[i as int]);
            }
            if is_obstacle(&self.instant, watermark, current, &completed[i]) {
                first =
                match first {
                    None => Some(i),
                    Some(found) => if text_less(
                        &completed[i].completion,
                        &completed[found].completion,
                    ) {
                        Some(i)
                    } else {
                        Some(found)
                    },
                };
                proof {
                    let found = first->0 as int;
                    assert forall|j: int|
                        0 <= j < next.len() && obstacle(
                            self@.instant,
                            self@.completion_watermark,
                            current@,
                            (#[trigger] next[j])@,
                        ) is Some implies text::text_le(
                        next[found].completion@,
                        next[j].completion@,
                    ) by {
                        if before is Some {
                            let was = before->0 as int;
                            text::law_text_lt_total(
                                next[i as int].completion@,
                                next[was].completion@,
                            );
                            if j < i {
                                assert(text::text_le(
                                    done[was].completion@,
                                    done[j].completion@,
                                ));
                                text::law_text_le_transitive(
                                    next[found].completion@,
                                    next[was].completion@,
                                    next[j].completion@,
                                );
                            }
                        }
                    }
                }
            } else {
                proof {
                    if first is Some {
                        let found = first->0 as int;
                        assert forall|j: int|
                            0 <= j < next.len() && obstacle(
                                self@.instant,
                                self@.completion_watermark,
                                current@,
                                (#[trigger] next[j])@,
                            ) is Some implies text::text_le(
                            next[found].completion@,
                            next[j].completion@,
                        ) by {
                            if j < i {
                                assert(text::text_le(
                                    done[found].completion@,
                                    done[j].completion@,
                                ));
                            }
                        }
                    }
                }
            }
        }
        proof {
            assert(all.take(all.len() as int) =~= all);
        }
        match first {
            None => Verdict::Valid,
            Some(found) => {
                let mut rest: Vec<Candidate> = completed;
                let candidate: Candidate = rest.swap_remove(found);
                let verdict: Verdict = refusal(&self.instant, current, candidate);
                proof {
                    assert(is_first_obstacle(
                        self@.instant,
                        self@.completion_watermark,
                        current@,
                        all,
                        found as int,
                    ));
                }
                verdict
            },
        }
    }
}

/// A write is never in its own way, and what its snapshot covers is in nobody's way.
pub proof fn law_seen_action_is_no_obstacle(
    instant: Seq<char>,
    watermark: Option<Seq<char>>,
    current: IntentModel,
    candidate: CandidateModel,
)
    requires
        candidate.requested == instant || (watermark matches Some(latest) && text::text_le(
            candidate.completion,
            latest,
        )),
    ensures
        obstacle(instant, watermark, current, candidate) is None,
{
}

/// A completed action that cannot be read is in the way of every other write that has not seen it.
pub proof fn law_unreadable_action_fails_closed(
    instant: Seq<char>,
    watermark: Option<Seq<char>>,
    current: IntentModel,
    candidate: CandidateModel,
)
    requires
        is_relevant(instant, watermark, candidate),
        candidate.intent is Err,
    ensures
        obstacle(instant, watermark, current, candidate) == Some(
            Obstacle::Unreadable(candidate.intent->Err_0),
        ),
{
}

/// A completed action of a writer, as another one finds it.
pub open spec fn committed(
    instant: Seq<char>,
    completion: Seq<char>,
    intent: IntentModel,
) -> CandidateModel {
    CandidateModel { requested: instant, completion, intent: Ok(intent) }
}

/// Of two writers whose snapshots do not cover each other's commit, the one that validates after the
/// other has committed is refused where their writes conflict or state different schemas, whichever
/// of the two comes first.
pub proof fn law_later_of_conflicting_writers_is_refused(
    first: Seq<char>,
    first_watermark: Option<Seq<char>>,
    first_completion: Seq<char>,
    a: IntentModel,
    second: Seq<char>,
    second_watermark: Option<Seq<char>>,
    second_completion: Seq<char>,
    b: IntentModel,
)
    requires
        first != second,
        timeline::is_after(first_completion, second_watermark),
        timeline::is_after(second_completion, first_watermark),
        intent::conflict(a, b) is Some || schemas_clash(a, b),
    ensures
        obstacle(second, second_watermark, b, committed(first, first_completion, a)) is Some,
        obstacle(first, first_watermark, a, committed(second, second_completion, b)) is Some,
{
    intent::law_conflict_is_symmetric(a, b);
}

/// Two writers whose writes neither conflict nor state different schemas are never in each other's
/// way, whatever their snapshots cover.
pub proof fn law_disjoint_writers_both_commit(
    first: Seq<char>,
    first_watermark: Option<Seq<char>>,
    first_completion: Seq<char>,
    a: IntentModel,
    second: Seq<char>,
    second_watermark: Option<Seq<char>>,
    second_completion: Seq<char>,
    b: IntentModel,
)
    requires
        intent::conflict(a, b) is None,
        !schemas_clash(a, b),
    ensures
        obstacle(second, second_watermark, b, committed(first, first_completion, a)) is None,
        obstacle(first, first_watermark, a, committed(second, second_completion, b)) is None,
{
    intent::law_conflict_is_symmetric(a, b);
}

/// A write that nothing is in the way of overlaps with no completed action that its snapshot does
/// not cover, and shares the schema of each.
pub proof fn law_valid_write_overlaps_no_unseen_action(
    instant: Seq<char>,
    watermark: Option<Seq<char>>,
    current: IntentModel,
    candidates: Seq<CandidateModel>,
)
    requires
        forall|i: int|
            0 <= i < candidates.len() ==> obstacle(
                instant,
                watermark,
                current,
                #[trigger] candidates[i],
            ) is None,
    ensures
        forall|i: int|
            0 <= i < candidates.len() && is_relevant(instant, watermark, #[trigger] candidates[i])
                ==> candidates[i].intent is Ok && !schemas_clash(
                current,
                candidates[i].intent->Ok_0,
            ) && intent::conflict(current, candidates[i].intent->Ok_0) is None,
{
}

/// A writer whose heartbeat has expired once never commits again: whatever refresh of the heartbeat
/// succeeds later, every validation of the write is refused.
pub proof fn law_expired_writer_never_commits(
    options: Map<Seq<char>, Seq<char>>,
    before: HeartbeatModel,
    refreshed: bool,
    beat: i64,
    snapshot: Snapshot<WriterHeartbeat>,
    instant: Seq<char>,
    now: i64,
)
    requires
        occ::is_enabled(options) == Ok::<bool, CoreErrorModel>(true),
        before.expired,
        snapshot.heartbeat@ == heartbeat::after_beat(before, refreshed, beat),
    ensures
        validation_start(options, Some(snapshot), instant, now) == Err::<Option<ValidationModel>, _>(
            dead_writer(instant),
        ),
{
    heartbeat::law_expired_heartbeat_stays_expired(before, refreshed, beat, now);
}

/// What a validation is given of a registered transaction whose heartbeat reads as `read` says.
pub open spec fn as_read<H>(
    snapshot: Option<Snapshot<H>>,
    read: spec_fn(H) -> WriterHeartbeat,
) -> Option<Snapshot<WriterHeartbeat>> {
    match snapshot {
        Some(taken) => Some(
            Snapshot {
                completion_watermark: taken.completion_watermark,
                heartbeat: read(taken.heartbeat),
            },
        ),
        None => None,
    }
}

/// A write that is refused for a conflict is forgotten, whether or not its rollback succeeded, and
/// the error is the conflict. Every later validation of it is refused for want of a snapshot,
/// whatever other transactions come and go, until it is begun anew.
pub proof fn law_refused_write_is_forgotten<H>(
    options: Map<Seq<char>, Seq<char>>,
    refusal: Refusal,
    watermark: Option<Seq<char>>,
    current: IntentModel,
    candidate: CandidateModel,
    rollback: Result<(), CoreError>,
    before: Map<Seq<char>, Snapshot<H>>,
    base_url: Seq<char>,
    after: Map<Seq<char>, Snapshot<H>>,
    refused: RefusedTransaction<H>,
    changes: Seq<RegistryChange<H>>,
    read: spec_fn(H) -> WriterHeartbeat,
    now: i64,
)
    requires
        occ::is_enabled(options) == Ok::<bool, CoreErrorModel>(true),
        is_verdict(
            Verdict::Conflict(refusal),
            refusal@.instant,
            watermark,
            current,
            candidate,
        ),
        is_refused(refusal@, rollback, before, base_url, after, refused),
        forall|i: int|
            0 <= i < changes.len() && (#[trigger] changes[i]).snapshot is Some ==> changes[i].key
                != occ::key_of(base_url, refusal@.instant),
    ensures
        refused.error@ is WriteConflict,
        occ::registered(after, base_url, refusal@.instant) is None,
        validation_start(
            options,
            as_read(
                occ::registered(
                    occ::after_changes(after, changes),
                    base_url,
                    refusal@.instant,
                ),
                read,
            ),
            refusal@.instant,
            now,
        ) == Err::<Option<ValidationModel>, _>(missing_snapshot(refusal@.instant)),
{
    occ::law_forgotten_transaction_stays_forgotten(before, base_url, refusal@.instant, changes);
}

/// The action was completed after the watermark: its file is on the timeline, where `content` is what
/// its files hold, or its record is in the archive.
pub open spec fn is_completed_after(
    files: Seq<TimelineFile>,
    content: spec_fn(TimelineFile) -> Seq<u8>,
    records: Seq<ArchivedRecord>,
    watermark: Option<Seq<char>>,
    action: CompletedModel,
) -> bool {
    ||| exists|i: int|
        0 <= i < files.len() && #[trigger] timeline::is_news(files[i], watermark)
            && timeline::live_action(files[i].instant->0, content(files[i])) == action
    ||| exists|i: int|
        0 <= i < records.len() && timeline::archived_news(#[trigger] records[i], watermark) == Some(
            action,
        )
}

/// `live` are the actions whose files are at these positions, with what the files hold.
pub open spec fn are_read(
    files: Seq<TimelineFile>,
    content: spec_fn(TimelineFile) -> Seq<u8>,
    positions: Seq<usize>,
    live: Seq<CompletedAction>,
) -> bool {
    &&& live.len() == positions.len()
    &&& forall|i: int|
        0 <= i < live.len() ==> (#[trigger] live[i])@ == timeline::live_action(
            files[positions[i] as int].instant->0,
            content(files[positions[i] as int]),
        )
}

/// `candidates` are the loaded actions with what their metadata says, as `decode` reads it.
pub open spec fn are_decoded(
    loaded: Seq<CompletedAction>,
    decode: spec_fn(Action, Seq<u8>) -> Result<IntentModel, CoreErrorModel>,
    candidates: Seq<CandidateModel>,
) -> bool {
    &&& candidates.len() == loaded.len()
    &&& forall|i: int|
        0 <= i < loaded.len() ==> #[trigger] candidates[i] == candidate_of(
            loaded[i]@,
            decode(loaded[i]@.action, loaded[i]@.metadata),
        )
}

/// A write that is judged valid gets in the way of no other action that was completed after its
/// watermark, on the timeline or in the archive: the metadata of each can be read, states no other
/// schema and conflicts in nothing. `positions` are the files that are selected, `live` the actions
/// that they hold, `loaded` those together with the archived ones, and `candidates` what is judged.
///
/// When an action was requested and what kind it is of identify it. Of two different ones with the
/// same identity only one is judged, so `action` shares its identity with no other.
pub proof fn law_valid_write_conflicts_with_no_later_action(
    instant: Seq<char>,
    watermark: Option<Seq<char>>,
    current: IntentModel,
    files: Seq<TimelineFile>,
    content: spec_fn(TimelineFile) -> Seq<u8>,
    records: Seq<ArchivedRecord>,
    positions: Seq<usize>,
    live: Seq<CompletedAction>,
    loaded: Seq<CompletedAction>,
    decode: spec_fn(Action, Seq<u8>) -> Result<IntentModel, CoreErrorModel>,
    candidates: Seq<CandidateModel>,
    action: CompletedModel,
)
    requires
        files.len() <= usize::MAX,
        timeline::are_news_positions(files, watermark, positions),
        are_read(files, content, positions, live),
        timeline::distinct_keys(loaded),
        timeline::by_key(loaded) == timeline::with_archive(
            timeline::by_key(live),
            records,
            watermark,
        ),
        are_decoded(loaded, decode, candidates),
        forall|i: int|
            0 <= i < candidates.len() ==> obstacle(
                instant,
                watermark,
                current,
                #[trigger] candidates[i],
            ) is None,
        is_completed_after(files, content, records, watermark, action),
        action.requested != instant,
        forall|other: CompletedModel| #[trigger]
            is_completed_after(files, content, records, watermark, other) && timeline::key_of(other)
                == timeline::key_of(action) ==> other == action,
    ensures
        ({
            &&& decode(action.action, action.metadata) matches Ok(other)
            &&& !schemas_clash(current, other)
            &&& intent::conflict(current, other) is None
        }),
{
    assert forall|other: CompletedModel| #[trigger]
        timeline::is_unseen(live, records, watermark, other) implies is_completed_after(
        files,
        content,
        records,
        watermark,
        other,
    ) by {
        if exists|i: int| 0 <= i < live.len() && (#[trigger] live[i])@ == other {
            let i = choose|i: int| 0 <= i < live.len() && (#[trigger] live[i])@ == other;
            assert(timeline::is_news(files[positions[i] as int], watermark));
        }
    }
    if exists|i: int|
        0 <= i < files.len() && #[trigger] timeline::is_news(files[i], watermark)
            && timeline::live_action(files[i].instant->0, content(files[i])) == action {
        let i = choose|i: int|
            0 <= i < files.len() && #[trigger] timeline::is_news(files[i], watermark)
                && timeline::live_action(files[i].instant->0, content(files[i])) == action;
        assert(positions.contains(i as usize));
        let k = choose|k: int| 0 <= k < positions.len() && positions[k] == i as usize;
        assert(live[k]@ == action);
    }
    assert(timeline::is_unseen(live, records, watermark, action));
    assert(timeline::is_after(action.completion, watermark));
    timeline::law_unseen_action_is_loaded(live, records, watermark, loaded, action);
    let i = choose|i: int| 0 <= i < loaded.len() && (#[trigger] loaded[i])@ == action;
    assert(candidates[i] == candidate_of(action, decode(action.action, action.metadata)));
    assert(obstacle(instant, watermark, current, candidates[i]) is None);
}

} // verus!
