//! The timeline: actions, instants, and what of them a writer has to look at.
use vstd::prelude::*;

use crate::text;
use crate::text::{same_text, starts_with_digit, text_at_most, text_less};

verus! {

/// What an action does to a table.
#[derive(Clone, Copy, Debug, PartialEq, Eq, Structural)]
pub enum Action {
    Commit,
    DeltaCommit,
    ReplaceCommit,
}

/// The name of an action in the file names of the timeline.
pub open spec fn action_name(action: Action) -> Seq<char> {
    match action {
        Action::Commit => "commit"@,
        Action::DeltaCommit => "deltacommit"@,
        Action::ReplaceCommit => "replacecommit"@,
    }
}

/// The action that a name stands for.
pub open spec fn action_of(name: Seq<char>) -> Option<Action> {
    if name == "commit"@ {
        Some(Action::Commit)
    } else if name == "deltacommit"@ {
        Some(Action::DeltaCommit)
    } else if name == "replacecommit"@ {
        Some(Action::ReplaceCommit)
    } else {
        None
    }
}

impl Action {
    /// The name of the action.
    pub fn as_str(&self) -> (r: &'static str)
        ensures
            r@ == action_name(*self),
    {
        match self {
            Action::Commit => "commit",
            Action::DeltaCommit => "deltacommit",
            Action::ReplaceCommit => "replacecommit",
        }
    }

    /// The action that a name stands for.
    pub fn from_name(name: &str) -> (r: Option<Self>)
        ensures
            r == action_of(name@),
    {
        if same_text(name, "commit") {
            Some(Action::Commit)
        } else if same_text(name, "deltacommit") {
            Some(Action::DeltaCommit)
        } else if same_text(name, "replacecommit") {
            Some(Action::ReplaceCommit)
        } else {
            None
        }
    }
}

/// The name of every action stands for that action, so that different actions have different names.
pub proof fn law_action_name_round_trip(action: Action)
    ensures
        action_of(action_name(action)) == Some(action),
{
    reveal_strlit("commit");
    reveal_strlit("deltacommit");
    reveal_strlit("replacecommit");
    assert("commit"@.len() == 6 && "deltacommit"@.len() == 11 && "replacecommit"@.len() == 13);
}

/// How far an action has come.
#[derive(Clone, Copy, Debug, PartialEq, Eq, Structural)]
pub enum State {
    Requested,
    Inflight,
    Completed,
}

/// An action on the timeline.
#[derive(Debug)]
pub struct Instant {
    /// When the action was requested.
    pub timestamp: String,
    /// When the action was completed, where the timeline records that.
    pub completion_timestamp: Option<String>,
    pub action: Action,
    pub state: State,
}

/// A file of the timeline directory, with the instant that its name stands for, if any.
#[derive(Debug)]
pub struct TimelineFile {
    pub name: String,
    pub instant: Option<Instant>,
}

/// A completed action in the archive.
#[derive(Debug)]
pub struct ArchivedRecord {
    pub requested: String,
    pub completion: String,
    pub action: String,
    pub metadata: Vec<u8>,
}

/// When an action was completed: its completion time, else the time of its request.
pub open spec fn completion_of(instant: Instant) -> Seq<char> {
    match instant.completion_timestamp {
        Some(completion) => completion@,
        None => instant.timestamp@,
    }
}

impl Instant {
    /// When the action was completed.
    pub fn completion(&self) -> (r: &String)
        ensures
            r@ == completion_of(*self),
    {
        match &self.completion_timestamp {
            Some(completion) => completion,
            None => &self.timestamp,
        }
    }
}

/// The file stands for an action that was completed at `completion`.
pub open spec fn is_completed_at(file: TimelineFile, completion: Seq<char>) -> bool {
    file.instant matches Some(instant) && instant.state == State::Completed && completion_of(
        instant,
    ) == completion
}

/// `latest` is the latest completion among the files: `None` where no action is completed.
pub open spec fn is_timeline_watermark(
    files: Seq<TimelineFile>,
    latest: Option<Seq<char>>,
) -> bool {
    match latest {
        Some(watermark) => {
            &&& exists|i: int| 0 <= i < files.len() && #[trigger] is_completed_at(files[i], watermark)
            &&& forall|i: int, completion: Seq<char>|
                0 <= i < files.len() && #[trigger] is_completed_at(files[i], completion)
                    ==> text::text_le(completion, watermark)
        },
        None => forall|i: int, completion: Seq<char>|
            0 <= i < files.len() ==> !#[trigger] is_completed_at(files[i], completion),
    }
}

/// `latest` is the latest completion among archived actions: `None` where there is none.
pub open spec fn is_archive_watermark(
    records: Seq<ArchivedRecord>,
    latest: Option<Seq<char>>,
) -> bool {
    match latest {
        Some(watermark) => {
            &&& exists|i: int| 0 <= i < records.len() && (#[trigger] records[i]).completion@ == watermark
            &&& forall|i: int|
                0 <= i < records.len() ==> text::text_le(
                    (#[trigger] records[i]).completion@,
                    watermark,
                )
        },
        None => records.len() == 0,
    }
}

/// The later of the latest completion so far and another one.
fn later(latest: Option<String>, completion: &String) -> (r: String)
    ensures
        match latest {
            None => r@ == completion@,
            Some(so_far) => r@ == if text::text_lt(so_far@, completion@) {
                completion@
            } else {
                so_far@
            },
        },
{
    match latest {
        None => completion.clone(),
        Some(so_far) => {
            if text_less(&so_far, completion) {
                completion.clone()
            } else {
                so_far
            }
        },
    }
}

/// The latest completion on the timeline.
pub fn timeline_completion_watermark(files: &Vec<TimelineFile>) -> (r: Option<String>)
    ensures
        is_timeline_watermark(files@, text::text_model(r)),
{
    let mut latest: Option<String> = None;
    for i in 0..files.len()
        invariant
            is_timeline_watermark(files@.take(i as int), text::text_model(latest)),
    {
        let ghost done = files@.take(i as int);
        let ghost next = files@.take(i + 1);
        let ghost before = text::text_model(latest);
        if let Some(instant) = &files[i].instant {
            if instant.state == State::Completed {
                let completion: &String = instant.completion();
                latest = Some(later(latest, completion));
            }
        }
        proof {
            let after = text::text_model(latest);
            assert(forall|j: int| 0 <= j < i ==> next[j] == done[j]);
            assert(next[i as int] == files@[i as int]);
            assert forall|j: int, completion: Seq<char>|
                0 <= j < next.len() && #[trigger] is_completed_at(next[j], completion) implies after
                is Some && text::text_le(completion, after->0) by {
                if j < i {
                    assert(is_completed_at(done[j], completion));
                    text::law_text_le_transitive(completion, before->0, after->0);
                } else {
                    if before is Some {
                        text::law_text_lt_total(before->0, completion);
                    }
                }
            }
            if let Some(watermark) = after {
                if before == after {
                    let j = choose|j: int|
                        0 <= j < done.len() && #[trigger] is_completed_at(done[j], watermark);
                    assert(is_completed_at(next[j], watermark));
                } else {
                    assert(is_completed_at(next[i as int], watermark));
                }
            }
        }
    }
    proof {
        assert(files@.take(files@.len() as int) =~= files@);
    }
    latest
}

/// The latest completion in the archive.
pub fn archived_completion_watermark(records: &Vec<ArchivedRecord>) -> (r: Option<String>)
    ensures
        is_archive_watermark(records@, text::text_model(r)),
{
    let mut latest: Option<String> = None;
    for i in 0..records.len()
        invariant
            is_archive_watermark(records@.take(i as int), text::text_model(latest)),
    {
        let ghost done = records@.take(i as int);
        let ghost next = records@.take(i + 1);
        let ghost before = text::text_model(latest);
        latest = Some(later(latest, &records[i].completion));
        proof {
            let after = text::text_model(latest);
            assert(forall|j: int| 0 <= j < i ==> next[j] == done[j]);
            assert(next[i as int] == records@[i as int]);
            assert forall|j: int| 0 <= j < next.len() implies text::text_le(
                (#[trigger] next[j]).completion@,
                after->0,
            ) by {
                if j < i {
                    assert(text::text_le(done[j].completion@, before->0));
                    text::law_text_le_transitive(done[j].completion@, before->0, after->0);
                } else {
                    if before is Some {
                        text::law_text_lt_total(before->0, next[j].completion@);
                    }
                }
            }
            if before == after {
                let j = choose|j: int|
                    0 <= j < done.len() && (#[trigger] done[j]).completion@ == before->0;
                assert(next[j].completion@ == after->0);
            } else {
                assert(next[i as int].completion@ == after->0);
            }
        }
    }
    proof {
        assert(records@.take(records@.len() as int) =~= records@);
    }
    latest
}

/// The later of two completions, where there are any.
pub open spec fn later_of(a: Option<Seq<char>>, b: Option<Seq<char>>) -> Option<Seq<char>> {
    match (a, b) {
        (Some(first), Some(second)) => if text::text_le(first, second) {
            b
        } else {
            a
        },
        (Some(_), None) => a,
        (None, _) => b,
    }
}

/// The later of two completions, where there are any.
pub fn later_watermark(a: Option<String>, b: Option<String>) -> (r: Option<String>)
    ensures
        text::text_model(r) == later_of(text::text_model(a), text::text_model(b)),
{
    match (a, b) {
        (Some(first), Some(second)) => {
            if text_at_most(&first, &second) {
                Some(second)
            } else {
                Some(first)
            }
        },
        (Some(first), None) => Some(first),
        (None, b) => b,
    }
}

/// An action of the timeline or of the archive was completed at `completion`.
pub open spec fn is_completion(
    files: Seq<TimelineFile>,
    records: Seq<ArchivedRecord>,
    completion: Seq<char>,
) -> bool {
    ||| exists|i: int| 0 <= i < files.len() && #[trigger] is_completed_at(files[i], completion)
    ||| exists|i: int| 0 <= i < records.len() && (#[trigger] records[i]).completion@ == completion
}

/// `latest` is the latest completion on the timeline and in the archive together: `None` where no
/// action is completed.
pub open spec fn is_latest_completion(
    files: Seq<TimelineFile>,
    records: Seq<ArchivedRecord>,
    latest: Option<Seq<char>>,
) -> bool {
    match latest {
        Some(watermark) => {
            &&& is_completion(files, records, watermark)
            &&& forall|completion: Seq<char>| #[trigger]
                is_completion(files, records, completion) ==> text::text_le(completion, watermark)
        },
        None => forall|completion: Seq<char>|
            !#[trigger] is_completion(files, records, completion),
    }
}

/// The later of the latest completion on the timeline and the latest in the archive is the latest of
/// all.
pub proof fn law_later_watermark_is_the_latest_completion(
    files: Seq<TimelineFile>,
    records: Seq<ArchivedRecord>,
    on_timeline: Option<Seq<char>>,
    archived: Option<Seq<char>>,
)
    requires
        is_timeline_watermark(files, on_timeline),
        is_archive_watermark(records, archived),
    ensures
        is_latest_completion(files, records, later_of(on_timeline, archived)),
{
    let latest = later_of(on_timeline, archived);
    if let (Some(a), Some(b)) = (on_timeline, archived) {
        text::law_text_lt_total(a, b);
    }
    assert forall|completion: Seq<char>| #[trigger]
        is_completion(files, records, completion) implies latest is Some && text::text_le(
        completion,
        latest->0,
    ) by {
        if exists|i: int| 0 <= i < files.len() && #[trigger] is_completed_at(files[i], completion) {
            let i = choose|i: int|
                0 <= i < files.len() && #[trigger] is_completed_at(files[i], completion);
            assert(is_completed_at(files[i], completion));
            text::law_text_le_transitive(completion, on_timeline->0, latest->0);
        } else {
            let i = choose|i: int|
                0 <= i < records.len() && (#[trigger] records[i]).completion@ == completion;
            assert(text::text_le(records[i].completion@, archived->0));
            text::law_text_le_transitive(completion, archived->0, latest->0);
        }
    }
}

/// The latest completed action, whether it is still on the timeline or already in the archive.
pub fn load_completion_watermark(
    files: &Vec<TimelineFile>,
    records: &Vec<ArchivedRecord>,
) -> (r: Option<String>)
    ensures
        is_latest_completion(files@, records@, text::text_model(r)),
{
    let on_timeline: Option<String> = timeline_completion_watermark(files);
    let archived: Option<String> = archived_completion_watermark(records);
    proof {
        law_later_watermark_is_the_latest_completion(
            files@,
            records@,
            text::text_model(on_timeline),
            text::text_model(archived),
        );
    }
    later_watermark(on_timeline, archived)
}

/// A completion is not covered by a snapshot with this watermark: it came after it, or the snapshot
/// found nothing.
pub open spec fn is_after(completion: Seq<char>, watermark: Option<Seq<char>>) -> bool {
    watermark matches Some(latest) ==> !text::text_le(completion, latest)
}

/// A text, where there is one.
pub open spec fn str_model(value: Option<&str>) -> Option<Seq<char>> {
    match value {
        Some(content) => Some(content@),
        None => None,
    }
}

/// Whether a completion is not covered by a snapshot with this watermark.
pub fn completed_after(completion: &str, watermark: Option<&str>) -> (r: bool)
    ensures
        r == is_after(completion@, str_model(watermark)),
{
    match watermark {
        Some(latest) => !text_at_most(completion, latest),
        None => true,
    }
}

/// The file stands for an action that was completed after the watermark. Its name starts with a
/// digit, as the name of every instant does.
pub open spec fn is_news(file: TimelineFile, watermark: Option<Seq<char>>) -> bool {
    &&& text::leads_with_digit(file.name@)
    &&& file.instant matches Some(instant) && instant.state == State::Completed && is_after(
        completion_of(instant),
        watermark,
    )
}

/// `positions` are those of the files of the actions that were completed after the watermark, in
/// order.
pub open spec fn are_news_positions(
    files: Seq<TimelineFile>,
    watermark: Option<Seq<char>>,
    positions: Seq<usize>,
) -> bool {
    &&& forall|i: int, j: int| 0 <= i < j < positions.len() ==> positions[i] < positions[j]
    &&& forall|i: int|
        0 <= i < positions.len() ==> (#[trigger] positions[i]) < files.len() && is_news(
            files[positions[i] as int],
            watermark,
        )
    &&& forall|i: usize|
        i < files.len() && is_news(files[i as int], watermark) ==> #[trigger] positions.contains(i)
}

/// The positions of the files whose metadata must be read: those of the actions that were
/// completed after the watermark.
pub fn completed_files_after(files: &Vec<TimelineFile>, watermark: Option<&str>) -> (r: Vec<usize>)
    ensures
        are_news_positions(files@, str_model(watermark), r@),
        forall|i: usize|
            i < files.len() && text::leads_with_digit((#[trigger] files[i as int]).name@)
                && files[i as int].instant is Some && files[i as int].instant->0.state
                == State::Completed && (watermark is None || text::text_lt(
                watermark->0@,
                completion_of(files[i as int].instant->0),
            )) ==> r@.contains(i),
{
    let mut news: Vec<usize> = Vec::new();
    for i in 0..files.len()
        invariant
            forall|a: int, b: int| 0 <= a < b < news.len() ==> news[a] < news[b],
            forall|a: int|
                0 <= a < news.len() ==> (#[trigger] news[a]) < i && is_news(
                    files[news[a] as int],
                    str_model(watermark),
                ),
            forall|a: usize|
                a < i && is_news(files[a as int], str_model(watermark)) ==> #[trigger] news@.contains(a),
    {
        let ghost before = news@;
        if starts_with_digit(&files[i].name) {
            if let Some(instant) = &files[i].instant {
                if instant.state == State::Completed && completed_after(
                    instant.completion(),
                    watermark,
                ) {
                    news.push(i);
                    proof {
                        assert(news@[before.len() as int] == i);
                    }
                }
            }
        }
        proof {
            assert forall|a: usize|
                a < i + 1 && is_news(files[a as int], str_model(watermark)) implies #[trigger] news@.contains(
                a,
            ) by {
                if a < i {
                    assert(before.contains(a));
                    let k = choose|k: int| 0 <= k < before.len() && before[k] == a;
                    assert(news@[k] == a);
                }
            }
        }
    }
    proof {
        assert forall|i: usize|
            i < files.len() && text::leads_with_digit((#[trigger] files[i as int]).name@)
                && files[i as int].instant is Some && files[i as int].instant->0.state
                == State::Completed && (watermark is None || text::text_lt(
                watermark->0@,
                completion_of(files[i as int].instant->0),
            )) implies news@.contains(i) by {
            crate::laws::timeline::law_news_on_the_timeline(
                files@[i as int],
                str_model(watermark),
            );
            assert(is_news(files@[i as int], str_model(watermark)));
        }
    }
    news
}

/// A completed action and its metadata.
#[derive(Debug)]
pub struct CompletedAction {
    pub requested: String,
    pub completion: String,
    pub action: Action,
    pub metadata: Vec<u8>,
}

/// A completed action by its values.
pub struct CompletedModel {
    pub requested: Seq<char>,
    pub completion: Seq<char>,
    pub action: Action,
    pub metadata: Seq<u8>,
}

impl View for CompletedAction {
    type V = CompletedModel;

    open spec fn view(&self) -> CompletedModel {
        CompletedModel {
            requested: self.requested@,
            completion: self.completion@,
            action: self.action,
            metadata: self.metadata@,
        }
    }
}

/// A completed action of the timeline with the metadata that was read from its file.
pub open spec fn live_action(instant: Instant, metadata: Seq<u8>) -> CompletedModel {
    CompletedModel {
        requested: instant.timestamp@,
        completion: completion_of(instant),
        action: instant.action,
        metadata,
    }
}

impl CompletedAction {
    /// A completed action of the timeline with the metadata that was read from its file.
    pub fn from_instant(instant: &Instant, metadata: Vec<u8>) -> (r: Self)
        ensures
            r@ == live_action(*instant, metadata@),
    {
        CompletedAction {
            requested: instant.timestamp.clone(),
            completion: instant.completion().clone(),
            action: instant.action,
            metadata,
        }
    }
}

/// What tells two actions apart: when they were requested and what they do.
pub type ActionKey = (Seq<char>, Action);

/// The key of an action.
pub open spec fn key_of(action: CompletedModel) -> ActionKey {
    (action.requested, action.action)
}

/// Completed actions by key. A later one replaces an earlier one of the same key.
pub open spec fn by_key(actions: Seq<CompletedAction>) -> Map<ActionKey, CompletedModel>
    decreases actions.len(),
{
    if actions.len() == 0 {
        Map::empty()
    } else {
        by_key(actions.drop_last()).insert(key_of(actions.last()@), actions.last()@)
    }
}

/// No two actions have the same key.
pub open spec fn distinct_keys(actions: Seq<CompletedAction>) -> bool {
    forall|i: int, j: int|
        0 <= i < j < actions.len() ==> key_of((#[trigger] actions[i])@) != key_of(
            (#[trigger] actions[j])@,
        )
}

/// An archived action as a completed one, where its name stands for an action and it was completed
/// after the watermark.
pub open spec fn archived_news(
    record: ArchivedRecord,
    watermark: Option<Seq<char>>,
) -> Option<CompletedModel> {
    if !is_after(record.completion@, watermark) {
        None
    } else {
        match action_of(record.action@) {
            Some(action) => Some(
                CompletedModel {
                    requested: record.requested@,
                    completion: record.completion@,
                    action,
                    metadata: record.metadata@,
                },
            ),
            None => None,
        }
    }
}

/// Completed actions by key, with those of the archive. An archived action replaces one of the same
/// key.
pub open spec fn with_archive(
    live: Map<ActionKey, CompletedModel>,
    records: Seq<ArchivedRecord>,
    watermark: Option<Seq<char>>,
) -> Map<ActionKey, CompletedModel>
    decreases records.len(),
{
    if records.len() == 0 {
        live
    } else {
        let rest = with_archive(live, records.drop_last(), watermark);
        match archived_news(records.last(), watermark) {
            Some(action) => rest.insert(key_of(action), action),
            None => rest,
        }
    }
}

/// The action of a key is found under it.
proof fn lemma_by_key(actions: Seq<CompletedAction>, i: int)
    requires
        distinct_keys(actions),
        0 <= i < actions.len(),
    ensures
        by_key(actions).contains_pair(key_of(actions[i]@), actions[i]@),
    decreases actions.len(),
{
    if i < actions.len() - 1 {
        lemma_by_key(actions.drop_last(), i);
    }
}

/// Every key is that of an action.
proof fn lemma_key_is_listed(actions: Seq<CompletedAction>, key: ActionKey)
    requires
        by_key(actions).contains_key(key),
    ensures
        exists|i: int| 0 <= i < actions.len() && key_of((#[trigger] actions[i])@) == key,
    decreases actions.len(),
{
    if actions.len() > 0 {
        if key_of(actions.last()@) == key {
            assert(key_of(actions[actions.len() - 1]@) == key);
        } else {
            lemma_key_is_listed(actions.drop_last(), key);
            let i = choose|i: int|
                0 <= i < actions.drop_last().len() && key_of((#[trigger] actions.drop_last()[i])@)
                    == key;
            assert(key_of(actions[i]@) == key);
        }
    }
}

/// To replace the action of a key is to put the new action under the key.
proof fn lemma_replace_by_key(actions: Seq<CompletedAction>, i: int, action: CompletedAction)
    requires
        distinct_keys(actions),
        0 <= i < actions.len(),
        key_of(actions[i]@) == key_of(action@),
    ensures
        distinct_keys(actions.update(i, action)),
        by_key(actions.update(i, action)) == by_key(actions).insert(key_of(action@), action@),
    decreases actions.len(),
{
    let after = actions.update(i, action);
    assert forall|a: int, b: int| 0 <= a < b < after.len() implies key_of((#[trigger] after[a])@)
        != key_of((#[trigger] after[b])@) by {
        assert(key_of(after[a]@) == key_of(actions[a]@));
        assert(key_of(after[b]@) == key_of(actions[b]@));
    }
    if i == actions.len() - 1 {
        assert(after.drop_last() =~= actions.drop_last());
        assert(by_key(after) =~= by_key(actions).insert(key_of(action@), action@));
    } else {
        assert(after.drop_last() =~= actions.drop_last().update(i, action));
        lemma_replace_by_key(actions.drop_last(), i, action);
        assert(by_key(after) =~= by_key(actions).insert(key_of(action@), action@));
    }
}

/// Put an action into a list, in place of the one with its key if there is one.
fn put_by_key(actions: &mut Vec<CompletedAction>, action: CompletedAction)
    requires
        distinct_keys(old(actions)@),
    ensures
        distinct_keys(final(actions)@),
        by_key(final(actions)@) == by_key(old(actions)@).insert(key_of(action@), action@),
{
    let mut i: usize = 0;
    while i < actions.len()
        invariant
            *actions == *old(actions),
            distinct_keys(actions@),
            i <= actions.len(),
            forall|j: int| 0 <= j < i ==> key_of((#[trigger] actions@[j])@) != key_of(action@),
        decreases actions.len() - i,
    {
        if actions[i].action == action.action && same_text(
            &actions[i].requested,
            &action.requested,
        ) {
            proof {
                lemma_replace_by_key(actions@, i as int, action);
            }
            actions.set(i, action);
            return;
        }
        i = i + 1;
    }
    actions.push(action);
    proof {
        assert(actions@.drop_last() =~= old(actions)@);
    }
}

/// The completed actions that a writer with this watermark has not seen: `live` are those of the
/// timeline, `archived` the records of the archive, which may have taken an action over since the
/// timeline was listed.
pub fn load_completed_actions_after(
    live: Vec<CompletedAction>,
    archived: Vec<ArchivedRecord>,
    watermark: Option<&str>,
) -> (r: Vec<CompletedAction>)
    ensures
        distinct_keys(r@),
        by_key(r@) == with_archive(by_key(live@), archived@, str_model(watermark)),
{
    let mut actions: Vec<CompletedAction> = Vec::new();
    proof {
        assert(live@.take(0) =~= Seq::empty());
    }
    let ghost all_live = live@;
    for action in iter: live
        invariant
            iter.seq() == all_live,
            distinct_keys(actions@),
            by_key(actions@) == by_key(all_live.take(iter.index())),
    {
        proof {
            assert(all_live.take(iter.index() + 1).drop_last() =~= all_live.take(iter.index()));
        }
        put_by_key(&mut actions, action);
    }
    proof {
        assert(all_live.take(all_live.len() as int) =~= all_live);
        assert(archived@.take(0) =~= Seq::empty());
    }
    let ghost records = archived@;
    for record in iter: archived
        invariant
            iter.seq() == records,
            distinct_keys(actions@),
            by_key(actions@) == with_archive(
                by_key(all_live),
                records.take(iter.index()),
                str_model(watermark),
            ),
    {
        proof {
            assert(records.take(iter.index() + 1).drop_last() =~= records.take(iter.index()));
        }
        if completed_after(&record.completion, watermark) {
            if let Some(action) = Action::from_name(&record.action) {
                put_by_key(
                    &mut actions,
                    CompletedAction {
                        requested: record.requested,
                        completion: record.completion,
                        action,
                        metadata: record.metadata,
                    },
                );
            }
        }
    }
    proof {
        assert(records.take(records.len() as int) =~= records);
    }
    actions
}

/// A snapshot covers the table that it was taken of: no action that was on the timeline or in the
/// archive by then counts as completed later.
pub proof fn law_snapshot_covers_every_completion(
    files: Seq<TimelineFile>,
    records: Seq<ArchivedRecord>,
    on_timeline: Option<Seq<char>>,
    archived: Option<Seq<char>>,
)
    requires
        is_timeline_watermark(files, on_timeline),
        is_archive_watermark(records, archived),
    ensures
        forall|i: int|
            0 <= i < files.len() ==> !is_news(#[trigger] files[i], later_of(on_timeline, archived)),
        forall|i: int|
            0 <= i < records.len() ==> archived_news(
                #[trigger] records[i],
                later_of(on_timeline, archived),
            ) is None,
{
    let watermark = later_of(on_timeline, archived);
    law_later_watermark_is_the_latest_completion(files, records, on_timeline, archived);
    assert forall|i: int| 0 <= i < files.len() implies !is_news(#[trigger] files[i], watermark) by {
        if let Some(instant) = files[i].instant {
            if instant.state == State::Completed {
                assert(is_completed_at(files[i], completion_of(instant)));
                assert(is_completion(files, records, completion_of(instant)));
            }
        }
    }
    assert forall|i: int| 0 <= i < records.len() implies archived_news(
        #[trigger] records[i],
        watermark,
    ) is None by {
        assert(is_completion(files, records, records[i].completion@));
    }
}

/// A table has one latest completion.
pub proof fn law_watermark_is_unique(
    files: Seq<TimelineFile>,
    records: Seq<ArchivedRecord>,
    first: Option<Seq<char>>,
    second: Option<Seq<char>>,
)
    requires
        is_latest_completion(files, records, first),
        is_latest_completion(files, records, second),
    ensures
        first == second,
{
    if let Some(a) = first {
        assert(is_completion(files, records, a));
        if let Some(b) = second {
            assert(is_completion(files, records, b));
            if a != b {
                text::law_text_lt_transitive(a, b, a);
                text::law_text_lt_irreflexive(a);
            }
        }
    } else if let Some(b) = second {
        assert(is_completion(files, records, b));
    }
}

/// No completed action is missed: what is found on the timeline stays in, and what the archive has
/// taken over since the snapshot comes in.
pub proof fn law_no_completed_action_is_missed(
    live: Map<ActionKey, CompletedModel>,
    records: Seq<ArchivedRecord>,
    watermark: Option<Seq<char>>,
)
    ensures
        forall|key: ActionKey| #[trigger]
            live.contains_key(key) ==> with_archive(live, records, watermark).contains_key(key),
        forall|i: int|
            0 <= i < records.len() && archived_news(#[trigger] records[i], watermark) is Some
                ==> with_archive(live, records, watermark).contains_key(
                key_of(archived_news(records[i], watermark)->0),
            ),
    decreases records.len(),
{
    if records.len() > 0 {
        let rest = records.drop_last();
        law_no_completed_action_is_missed(live, rest, watermark);
        assert forall|i: int|
            0 <= i < records.len() && archived_news(#[trigger] records[i], watermark) is Some implies
            with_archive(live, records, watermark).contains_key(
            key_of(archived_news(records[i], watermark)->0),
        ) by {
            if i < rest.len() {
                assert(rest[i] == records[i]);
            }
        }
    }
}

/// Nothing but completed actions that the snapshot does not cover comes in, each under its own key.
pub proof fn law_only_news_is_loaded(
    live: Map<ActionKey, CompletedModel>,
    records: Seq<ArchivedRecord>,
    watermark: Option<Seq<char>>,
)
    requires
        forall|key: ActionKey| #[trigger]
            live.contains_key(key) ==> key_of(live[key]) == key && is_after(
                live[key].completion,
                watermark,
            ),
    ensures
        forall|key: ActionKey| #[trigger]
            with_archive(live, records, watermark).contains_key(key) ==> key_of(
                with_archive(live, records, watermark)[key],
            ) == key && is_after(with_archive(live, records, watermark)[key].completion, watermark),
    decreases records.len(),
{
    if records.len() > 0 {
        law_only_news_is_loaded(live, records.drop_last(), watermark);
    }
}

/// Every action that is loaded is on the list of actions.
pub proof fn law_loaded_action_is_listed(actions: Seq<CompletedAction>, key: ActionKey)
    requires
        distinct_keys(actions),
        by_key(actions).contains_key(key),
    ensures
        exists|i: int| 0 <= i < actions.len() && (#[trigger] actions[i])@ == by_key(actions)[key],
{
    lemma_key_is_listed(actions, key);
    let i = choose|i: int| 0 <= i < actions.len() && key_of((#[trigger] actions[i])@) == key;
    lemma_by_key(actions, i);
    assert(actions[i]@ == by_key(actions)[key]);
}

/// The action is one of the live ones, or of those that the archive has taken over since the
/// snapshot.
pub open spec fn is_unseen(
    live: Seq<CompletedAction>,
    records: Seq<ArchivedRecord>,
    watermark: Option<Seq<char>>,
    action: CompletedModel,
) -> bool {
    ||| exists|i: int| 0 <= i < live.len() && (#[trigger] live[i])@ == action
    ||| exists|i: int|
        0 <= i < records.len() && archived_news(#[trigger] records[i], watermark) == Some(action)
}

/// Every live action is found under its key, or another of the same key is.
proof fn lemma_live_key_is_known(live: Seq<CompletedAction>, i: int)
    requires
        0 <= i < live.len(),
    ensures
        by_key(live).contains_key(key_of(live[i]@)),
    decreases live.len(),
{
    if i < live.len() - 1 {
        lemma_live_key_is_known(live.drop_last(), i);
    }
}

/// What is found under a key is an unseen action of that key.
proof fn lemma_known_action_is_unseen(
    live: Seq<CompletedAction>,
    records: Seq<ArchivedRecord>,
    watermark: Option<Seq<char>>,
    key: ActionKey,
)
    requires
        with_archive(by_key(live), records, watermark).contains_key(key),
    ensures
        is_unseen(live, records, watermark, with_archive(by_key(live), records, watermark)[key]),
        key_of(with_archive(by_key(live), records, watermark)[key]) == key,
    decreases records.len(), live.len(),
{
    let action = with_archive(by_key(live), records, watermark)[key];
    if records.len() > 0 {
        let rest = records.drop_last();
        let last = records[records.len() - 1];
        if archived_news(last, watermark) == Some(action) && key_of(action) == key {
            assert(archived_news(records[records.len() - 1], watermark) == Some(action));
        } else {
            lemma_known_action_is_unseen(live, rest, watermark, key);
            if exists|i: int|
                0 <= i < rest.len() && archived_news(#[trigger] rest[i], watermark) == Some(
                    action,
                ) {
                let i = choose|i: int|
                    0 <= i < rest.len() && archived_news(#[trigger] rest[i], watermark) == Some(
                        action,
                    );
                assert(archived_news(records[i], watermark) == Some(action));
            }
        }
    } else if key_of(live.last()@) == key {
        assert(live[live.len() - 1]@ == action);
    } else {
        let rest = live.drop_last();
        lemma_known_action_is_unseen(rest, records, watermark, key);
        let i = choose|i: int| 0 <= i < rest.len() && (#[trigger] rest[i])@ == action;
        assert(live[i]@ == action);
    }
}

/// An unseen action is loaded, where no other unseen action has its key.
pub proof fn law_unseen_action_is_loaded(
    live: Seq<CompletedAction>,
    records: Seq<ArchivedRecord>,
    watermark: Option<Seq<char>>,
    loaded: Seq<CompletedAction>,
    action: CompletedModel,
)
    requires
        distinct_keys(loaded),
        by_key(loaded) == with_archive(by_key(live), records, watermark),
        is_unseen(live, records, watermark, action),
        forall|other: CompletedModel| #[trigger]
            is_unseen(live, records, watermark, other) && key_of(other) == key_of(action) ==> other
                == action,
    ensures
        exists|i: int| 0 <= i < loaded.len() && (#[trigger] loaded[i])@ == action,
{
    let key = key_of(action);
    if exists|i: int| 0 <= i < live.len() && (#[trigger] live[i])@ == action {
        let i = choose|i: int| 0 <= i < live.len() && (#[trigger] live[i])@ == action;
        lemma_live_key_is_known(live, i);
    }
    law_no_completed_action_is_missed(by_key(live), records, watermark);
    lemma_known_action_is_unseen(live, records, watermark, key);
    law_loaded_action_is_listed(loaded, key);
}

} // verus!
