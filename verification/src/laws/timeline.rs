//! Laws of the timeline: which completed actions a writer has to look at, told by the fields of their
//! files and records and by the order of texts.
use vstd::prelude::*;

use crate::text;
use crate::write::timeline;
use crate::write::timeline::{
    Action, ArchivedRecord, CompletedAction, CompletedModel, Instant, State, TimelineFile,
};

verus! {

/// The names of the actions, and no others.
pub proof fn law_names_of_actions(name: Seq<char>)
    ensures
        timeline::action_of(name) == Some(Action::Commit) <==> name == "commit"@,
        timeline::action_of(name) == Some(Action::DeltaCommit) <==> name == "deltacommit"@,
        timeline::action_of(name) == Some(Action::ReplaceCommit) <==> name == "replacecommit"@,
        timeline::action_name(Action::Commit) == "commit"@,
        timeline::action_name(Action::DeltaCommit) == "deltacommit"@,
        timeline::action_name(Action::ReplaceCommit) == "replacecommit"@,
{
    reveal_strlit("commit");
    reveal_strlit("deltacommit");
    reveal_strlit("replacecommit");
    assert("commit"@.len() == 6 && "deltacommit"@.len() == 11 && "replacecommit"@.len() == 13);
}

/// An action was completed when its file says so, else when it was requested.
pub proof fn law_time_of_completion(instant: Instant)
    ensures
        instant.completion_timestamp matches Some(completion) ==> timeline::completion_of(instant)
            == completion@,
        instant.completion_timestamp is None ==> timeline::completion_of(instant)
            == instant.timestamp@,
{
}

/// The latest completion on the timeline is that of a completed action, of any kind, and no completed
/// action has a later one. Pending actions and other files do not count.
pub proof fn law_latest_completion_on_the_timeline(
    files: Seq<TimelineFile>,
    latest: Option<Seq<char>>,
)
    requires
        timeline::is_timeline_watermark(files, latest),
    ensures
        forall|i: int|
            0 <= i < files.len() && (#[trigger] files[i]).instant is Some && files[i].instant->0.state
                == State::Completed ==> latest is Some && !text::text_lt(
                latest->0,
                match files[i].instant->0.completion_timestamp {
                    Some(completion) => completion@,
                    None => files[i].instant->0.timestamp@,
                },
            ),
        latest is Some ==> exists|i: int|
            0 <= i < files.len() && (#[trigger] files[i]).instant is Some && files[i].instant->0.state
                == State::Completed && latest->0 == match files[i].instant->0.completion_timestamp {
                Some(completion) => completion@,
                None => files[i].instant->0.timestamp@,
            },
{
    assert forall|i: int|
        0 <= i < files.len() && (#[trigger] files[i]).instant is Some && files[i].instant->0.state
            == State::Completed implies latest is Some && !text::text_lt(
        latest->0,
        timeline::completion_of(files[i].instant->0),
    ) by {
        let completion = timeline::completion_of(files[i].instant->0);
        assert(timeline::is_completed_at(files[i], completion));
        text::law_text_lt_irreflexive(completion);
        text::law_text_lt_total(completion, latest->0);
    }
    if latest is Some {
        let i = choose|i: int|
            0 <= i < files.len() && #[trigger] timeline::is_completed_at(files[i], latest->0);
        assert(files[i].instant is Some);
    }
}

/// The latest completion in the archive is that of a record, of any kind, and no record has a later
/// one.
pub proof fn law_latest_completion_in_the_archive(
    records: Seq<ArchivedRecord>,
    latest: Option<Seq<char>>,
)
    requires
        timeline::is_archive_watermark(records, latest),
    ensures
        forall|i: int|
            0 <= i < records.len() ==> latest is Some && !text::text_lt(
                latest->0,
                (#[trigger] records[i]).completion@,
            ),
        latest is Some ==> exists|i: int|
            0 <= i < records.len() && (#[trigger] records[i]).completion@ == latest->0,
{
    assert forall|i: int| 0 <= i < records.len() implies latest is Some && !text::text_lt(
        latest->0,
        (#[trigger] records[i]).completion@,
    ) by {
        text::law_text_lt_irreflexive(records[i].completion@);
        text::law_text_lt_total(records[i].completion@, latest->0);
    }
}

/// The later of two completions is one of them, comes before neither, and is missing only where both
/// are.
pub proof fn law_later_of_two_completions(a: Option<Seq<char>>, b: Option<Seq<char>>)
    ensures
        timeline::later_of(a, b) == a || timeline::later_of(a, b) == b,
        timeline::later_of(a, b) is None <==> a is None && b is None,
        a is Some ==> !text::text_lt(timeline::later_of(a, b)->0, a->0),
        b is Some ==> !text::text_lt(timeline::later_of(a, b)->0, b->0),
{
    if a is Some {
        text::law_text_lt_irreflexive(a->0);
    }
    if b is Some {
        text::law_text_lt_irreflexive(b->0);
    }
    if a is Some && b is Some {
        text::law_text_lt_total(a->0, b->0);
    }
}

/// A completion is news to a writer exactly where its snapshot found nothing or something earlier.
pub proof fn law_completion_after_a_snapshot(completion: Seq<char>, watermark: Seq<char>)
    ensures
        timeline::is_after(completion, None),
        timeline::is_after(completion, Some(watermark)) <==> text::text_lt(watermark, completion),
{
    text::law_text_lt_irreflexive(completion);
    text::law_text_lt_total(completion, watermark);
}

/// A file is news exactly where its name starts with a digit and its action, of whatever kind, is
/// completed, and was so later than the snapshot.
pub proof fn law_news_on_the_timeline(file: TimelineFile, watermark: Option<Seq<char>>)
    ensures
        timeline::is_news(file, watermark) <==> {
            &&& file.name@.len() > 0
            &&& '0' <= file.name@[0] <= '9'
            &&& file.instant matches Some(instant)
            &&& instant.state == State::Completed
            &&& watermark is None || text::text_lt(
                watermark->0,
                match instant.completion_timestamp {
                    Some(completion) => completion@,
                    None => instant.timestamp@,
                },
            )
        },
{
    if let Some(instant) = file.instant {
        if let Some(latest) = watermark {
            law_completion_after_a_snapshot(timeline::completion_of(instant), latest);
        }
    }
}

/// Of the files that are selected to be read, none that holds a completed action later than the
/// snapshot is missing, whatever the action, and each is one of these, listed once.
pub proof fn law_every_later_action_is_selected(
    files: Seq<TimelineFile>,
    watermark: Option<Seq<char>>,
    positions: Seq<usize>,
)
    requires
        timeline::are_news_positions(files, watermark, positions),
    ensures
        forall|i: usize|
            i < files.len() && (#[trigger] files[i as int]).name@.len() > 0 && '0'
                <= files[i as int].name@[0] <= '9' && files[i as int].instant is Some
                && files[i as int].instant->0.state == State::Completed && (watermark is None
                || text::text_lt(
                watermark->0,
                match files[i as int].instant->0.completion_timestamp {
                    Some(completion) => completion@,
                    None => files[i as int].instant->0.timestamp@,
                },
            )) ==> positions.contains(i),
        forall|k: int|
            0 <= k < positions.len() ==> {
                &&& (#[trigger] positions[k]) < files.len()
                &&& files[positions[k] as int].instant is Some
                &&& files[positions[k] as int].instant->0.state == State::Completed
            },
        forall|k: int, l: int| 0 <= k < l < positions.len() ==> positions[k] != positions[l],
{
    assert forall|i: usize|
        i < files.len() && (#[trigger] files[i as int]).name@.len() > 0 && '0'
            <= files[i as int].name@[0] <= '9' && files[i as int].instant is Some
            && files[i as int].instant->0.state == State::Completed && (watermark is None
            || text::text_lt(
            watermark->0,
            timeline::completion_of(files[i as int].instant->0),
        )) implies positions.contains(i) by {
        law_news_on_the_timeline(files[i as int], watermark);
        assert(timeline::is_news(files[i as int], watermark));
    }
}

/// A completed action of the timeline is what its file says, with the metadata that was read.
pub proof fn law_live_action(instant: Instant, metadata: Seq<u8>)
    ensures
        timeline::live_action(instant, metadata) == (CompletedModel {
            requested: instant.timestamp@,
            completion: match instant.completion_timestamp {
                Some(completion) => completion@,
                None => instant.timestamp@,
            },
            action: instant.action,
            metadata,
        }),
{
}

/// An archived action is news exactly where its name is that of an action and it was completed later
/// than the snapshot, and it comes with all that its record holds.
pub proof fn law_news_in_the_archive(
    record: ArchivedRecord,
    action: Action,
    watermark: Option<Seq<char>>,
)
    requires
        record.action@ == match action {
            Action::Commit => "commit"@,
            Action::DeltaCommit => "deltacommit"@,
            Action::ReplaceCommit => "replacecommit"@,
        },
    ensures
        (watermark is None || text::text_lt(watermark->0, record.completion@))
            ==> timeline::archived_news(record, watermark) == Some(
            CompletedModel {
                requested: record.requested@,
                completion: record.completion@,
                action,
                metadata: record.metadata@,
            },
        ),
        !(watermark is None || text::text_lt(watermark->0, record.completion@))
            ==> timeline::archived_news(record, watermark) is None,
{
    timeline::law_action_name_round_trip(action);
    if let Some(latest) = watermark {
        law_completion_after_a_snapshot(record.completion@, latest);
    }
}

/// An archived record of anything but the three actions is passed over.
pub proof fn law_other_records_are_passed_over(
    record: ArchivedRecord,
    watermark: Option<Seq<char>>,
)
    requires
        record.action@ != "commit"@,
        record.action@ != "deltacommit"@,
        record.action@ != "replacecommit"@,
    ensures
        timeline::archived_news(record, watermark) is None,
{
}

/// Two actions have the same key exactly where they were requested at the same time and are of the
/// same kind.
pub proof fn law_keys_of_actions(a: CompletedModel, b: CompletedModel)
    ensures
        timeline::key_of(a) == timeline::key_of(b) <==> a.requested == b.requested && a.action
            == b.action,
{
}

/// Of actions with the same key the last one counts.
pub proof fn law_last_action_of_a_key_counts(
    before: Seq<CompletedAction>,
    action: CompletedAction,
    after: Seq<CompletedAction>,
)
    requires
        forall|i: int|
            0 <= i < after.len() ==> (#[trigger] after[i]).requested@ != action.requested@
                || after[i].action != action.action,
    ensures
        timeline::by_key(before + seq![action] + after).contains_pair(
            timeline::key_of(action@),
            action@,
        ),
    decreases after.len(),
{
    let all = before + seq![action] + after;
    if after.len() == 0 {
        assert(all.last() == action);
    } else {
        assert(all.drop_last() =~= before + seq![action] + after.drop_last());
        assert(all.last() == after[after.len() - 1]);
        assert forall|i: int| 0 <= i < after.drop_last().len() implies (
        #[trigger] after.drop_last()[i]).requested@ != action.requested@
            || after.drop_last()[i].action != action.action by {
            assert(after.drop_last()[i] == after[i]);
        }
        law_last_action_of_a_key_counts(before, action, after.drop_last());
        law_keys_of_actions(action@, all.last()@);
    }
}

/// What the archive holds of an action counts before what the timeline held of it, and of two records
/// of one action the last one counts.
pub proof fn law_archived_action_replaces_the_live_one(
    live: Map<timeline::ActionKey, CompletedModel>,
    before: Seq<ArchivedRecord>,
    record: ArchivedRecord,
    after: Seq<ArchivedRecord>,
    watermark: Option<Seq<char>>,
    action: Action,
)
    requires
        timeline::action_of(record.action@) == Some(action),
        watermark is None || text::text_lt(watermark->0, record.completion@),
        forall|i: int|
            0 <= i < after.len() ==> (#[trigger] after[i]).requested@ != record.requested@
                || timeline::action_of(after[i].action@) != Some(action),
    ensures
        timeline::with_archive(
            live,
            before + seq![record] + after,
            watermark,
        ).contains_pair(
            (record.requested@, action),
            CompletedModel {
                requested: record.requested@,
                completion: record.completion@,
                action,
                metadata: record.metadata@,
            },
        ),
    decreases after.len(),
{
    let all = before + seq![record] + after;
    if let Some(latest) = watermark {
        law_completion_after_a_snapshot(record.completion@, latest);
    }
    if after.len() == 0 {
        assert(all.last() == record);
    } else {
        assert(all.drop_last() =~= before + seq![record] + after.drop_last());
        assert(all.last() == after[after.len() - 1]);
        assert forall|i: int| 0 <= i < after.drop_last().len() implies (
        #[trigger] after.drop_last()[i]).requested@ != record.requested@ || timeline::action_of(
            after.drop_last()[i].action@,
        ) != Some(action) by {
            assert(after.drop_last()[i] == after[i]);
        }
        law_archived_action_replaces_the_live_one(
            live,
            before,
            record,
            after.drop_last(),
            watermark,
            action,
        );
    }
}

/// What is not archived since the snapshot stays as the timeline had it.
pub proof fn law_other_live_actions_stay(
    live: Map<timeline::ActionKey, CompletedModel>,
    records: Seq<ArchivedRecord>,
    watermark: Option<Seq<char>>,
    key: timeline::ActionKey,
)
    requires
        forall|i: int|
            0 <= i < records.len() ==> (#[trigger] records[i]).requested@ != key.0
                || timeline::action_of(records[i].action@) != Some(key.1),
    ensures
        timeline::with_archive(live, records, watermark).contains_key(key) == live.contains_key(
            key,
        ),
        live.contains_key(key) ==> timeline::with_archive(live, records, watermark)[key]
            == live[key],
    decreases records.len(),
{
    if records.len() > 0 {
        assert(records.last() == records[records.len() - 1]);
        assert forall|i: int| 0 <= i < records.drop_last().len() implies (
        #[trigger] records.drop_last()[i]).requested@ != key.0 || timeline::action_of(
            records.drop_last()[i].action@,
        ) != Some(key.1) by {
            assert(records.drop_last()[i] == records[i]);
        }
        law_other_live_actions_stay(live, records.drop_last(), watermark, key);
    }
}

/// A completed action is its four fields.
pub proof fn law_completed_action(action: CompletedAction)
    ensures
        action@ == (CompletedModel {
            requested: action.requested@,
            completion: action.completion@,
            action: action.action,
            metadata: action.metadata@,
        }),
{
}

/// The latest completion of a table is that of a completed file or of a record, and none of either is
/// later. There is none only where nothing is completed.
pub proof fn law_latest_completion_of_a_table(
    files: Seq<TimelineFile>,
    records: Seq<ArchivedRecord>,
    latest: Option<Seq<char>>,
)
    requires
        timeline::is_latest_completion(files, records, latest),
    ensures
        forall|i: int|
            0 <= i < files.len() && (#[trigger] files[i]).instant is Some && files[i].instant->0.state
                == State::Completed ==> latest is Some && !text::text_lt(
                latest->0,
                match files[i].instant->0.completion_timestamp {
                    Some(completion) => completion@,
                    None => files[i].instant->0.timestamp@,
                },
            ),
        forall|i: int|
            0 <= i < records.len() ==> latest is Some && !text::text_lt(
                latest->0,
                (#[trigger] records[i]).completion@,
            ),
        latest is Some ==> (exists|i: int|
            0 <= i < files.len() && (#[trigger] files[i]).instant is Some && files[i].instant->0.state
                == State::Completed && latest->0 == timeline::completion_of(files[i].instant->0))
            || (exists|i: int|
            0 <= i < records.len() && (#[trigger] records[i]).completion@ == latest->0),
{
    assert forall|i: int|
        0 <= i < files.len() && (#[trigger] files[i]).instant is Some && files[i].instant->0.state
            == State::Completed implies latest is Some && !text::text_lt(
        latest->0,
        timeline::completion_of(files[i].instant->0),
    ) by {
        let completion = timeline::completion_of(files[i].instant->0);
        assert(timeline::is_completed_at(files[i], completion));
        assert(timeline::is_completion(files, records, completion));
        text::law_text_lt_irreflexive(completion);
        text::law_text_lt_total(completion, latest->0);
    }
    assert forall|i: int| 0 <= i < records.len() implies latest is Some && !text::text_lt(
        latest->0,
        (#[trigger] records[i]).completion@,
    ) by {
        assert(timeline::is_completion(files, records, records[i].completion@));
        text::law_text_lt_irreflexive(records[i].completion@);
        text::law_text_lt_total(records[i].completion@, latest->0);
    }
    if latest is Some {
        assert(timeline::is_completion(files, records, latest->0));
        if exists|i: int|
            0 <= i < files.len() && #[trigger] timeline::is_completed_at(files[i], latest->0) {
            let i = choose|i: int|
                0 <= i < files.len() && #[trigger] timeline::is_completed_at(files[i], latest->0);
            assert(files[i].instant is Some);
        }
    }
}

/// Of loaded actions no two were requested at the same time and are of the same kind.
pub proof fn law_loaded_actions_are_distinct(actions: Seq<CompletedAction>, i: int, j: int)
    requires
        timeline::distinct_keys(actions),
        0 <= i < j < actions.len(),
    ensures
        actions[i].requested@ != actions[j].requested@ || actions[i].action != actions[j].action,
{
    law_keys_of_actions(actions[i]@, actions[j]@);
}

/// The model of a text that may be missing is the text.
pub proof fn law_optional_text(content: &str)
    ensures
        timeline::str_model(Some(content)) == Some(content@),
        timeline::str_model(None) is None,
{
}

} // verus!
