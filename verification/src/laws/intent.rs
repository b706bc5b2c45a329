//! Laws of what a write does, told by its metadata, and of when two writes conflict, told by their
//! operations, partitions and file groups.
use vstd::prelude::*;

use crate::error::CoreError;
use crate::ordered_set;
use crate::text;
use crate::text_map::TextMap;
use crate::write::intent;
use crate::write::intent::{
    ActionMetadata, ConflictScope, Group, IntentModel, ScopeModel, WriteIntent, WriteStat,
};
use crate::write::timeline::Action;

verus! {

/// A written file with a file id belongs to the group of its partition and that id, and no other
/// group is written to.
pub proof fn law_written_groups(stats: Seq<(String, Vec<WriteStat>)>, group: Group)
    ensures
        intent::written_groups(stats).contains(group) <==> exists|i: int, j: int|
            0 <= i < stats.len() && 0 <= j < stats[i].1@.len() && stats[i].0@ == group.0 && (
            #[trigger] stats[i].1@[j]).file_id is Some && stats[i].1@[j].file_id->0@ == group.1
                && group.1.len() > 0,
        intent::partitions_of(stats).contains(group.0) <==> exists|i: int|
            0 <= i < stats.len() && (#[trigger] stats[i]).0@ == group.0,
{
    lemma_partitions(stats, group.0);
    if intent::written_groups(stats).contains(group) {
        lemma_written(stats, group);
    }
    if exists|i: int, j: int|
        0 <= i < stats.len() && 0 <= j < stats[i].1@.len() && stats[i].0@ == group.0 && (
        #[trigger] stats[i].1@[j]).file_id is Some && stats[i].1@[j].file_id->0@ == group.1
            && group.1.len() > 0 {
        let (i, j) = choose|i: int, j: int|
            0 <= i < stats.len() && 0 <= j < stats[i].1@.len() && stats[i].0@ == group.0 && (
            #[trigger] stats[i].1@[j]).file_id is Some && stats[i].1@[j].file_id->0@ == group.1
                && group.1.len() > 0;
        intent::law_written_file_joins_the_write_set(stats, i, j);
    }
}

/// A partition is one of a list exactly where the list holds it.
proof fn lemma_partitions<T>(list: Seq<(String, T)>, partition: Seq<char>)
    ensures
        intent::partitions_of(list).contains(partition) <==> exists|i: int|
            0 <= i < list.len() && (#[trigger] list[i]).0@ == partition,
    decreases list.len(),
{
    if list.len() > 0 {
        let rest = list.drop_last();
        lemma_partitions(rest, partition);
        if list.last().0@ == partition {
            assert(list[list.len() - 1].0@ == partition);
        }
        if exists|i: int| 0 <= i < rest.len() && (#[trigger] rest[i]).0@ == partition {
            let i = choose|i: int| 0 <= i < rest.len() && (#[trigger] rest[i]).0@ == partition;
            assert(list[i].0@ == partition);
        }
        if exists|i: int| 0 <= i < list.len() && (#[trigger] list[i]).0@ == partition {
            let i = choose|i: int| 0 <= i < list.len() && (#[trigger] list[i]).0@ == partition;
            if i < rest.len() {
                assert(rest[i].0@ == partition);
            }
        }
    }
}

/// A group that is written to is that of a file.
proof fn lemma_written(stats: Seq<(String, Vec<WriteStat>)>, group: Group)
    requires
        intent::written_groups(stats).contains(group),
    ensures
        exists|i: int, j: int|
            0 <= i < stats.len() && 0 <= j < stats[i].1@.len() && stats[i].0@ == group.0 && (
            #[trigger] stats[i].1@[j]).file_id is Some && stats[i].1@[j].file_id->0@ == group.1
                && group.1.len() > 0,
    decreases stats.len(),
{
    if stats.len() > 0 {
        let rest = stats.drop_last();
        if intent::written_groups(rest).contains(group) {
            lemma_written(rest, group);
            let (i, j) = choose|i: int, j: int|
                0 <= i < rest.len() && 0 <= j < rest[i].1@.len() && rest[i].0@ == group.0 && (
                #[trigger] rest[i].1@[j]).file_id is Some && rest[i].1@[j].file_id->0@ == group.1
                    && group.1.len() > 0;
            assert(stats[i].1@[j].file_id is Some);
        } else {
            let n = stats.len() - 1;
            let j = lemma_in_partition(stats[n].0@, stats[n].1@, group);
            assert(stats[n].1@[j].file_id is Some);
        }
    }
}

/// A group of a partition is that of a file in it.
proof fn lemma_in_partition(partition: Seq<char>, files: Seq<WriteStat>, group: Group) -> (j: int)
    requires
        intent::groups_in(partition, files).contains(group),
    ensures
        0 <= j < files.len(),
        files[j].file_id is Some,
        files[j].file_id->0@ == group.1,
        group.1.len() > 0,
        group.0 == partition,
    decreases files.len(),
{
    if files.len() > 0 && intent::groups_in(partition, files.drop_last()).contains(group) {
        lemma_in_partition(partition, files.drop_last(), group)
    } else {
        files.len() - 1
    }
}

/// A replaced file id names the group of its partition and itself, and no other group is replaced.
pub proof fn law_replaced_groups(replaced: Seq<(String, Vec<String>)>, group: Group)
    ensures
        intent::replaced_groups(replaced).contains(group) <==> exists|i: int, j: int|
            0 <= i < replaced.len() && 0 <= j < replaced[i].1@.len() && replaced[i].0@ == group.0 && (
            #[trigger] replaced[i].1@[j])@ == group.1 && group.1.len() > 0,
        intent::partitions_of(replaced).contains(group.0) <==> exists|i: int|
            0 <= i < replaced.len() && (#[trigger] replaced[i]).0@ == group.0,
{
    lemma_partitions(replaced, group.0);
    if intent::replaced_groups(replaced).contains(group) {
        lemma_replaced(replaced, group);
    }
    if exists|i: int, j: int|
        0 <= i < replaced.len() && 0 <= j < replaced[i].1@.len() && replaced[i].0@ == group.0 && (
        #[trigger] replaced[i].1@[j])@ == group.1 && group.1.len() > 0 {
        let (i, j) = choose|i: int, j: int|
            0 <= i < replaced.len() && 0 <= j < replaced[i].1@.len() && replaced[i].0@ == group.0 && (
            #[trigger] replaced[i].1@[j])@ == group.1 && group.1.len() > 0;
        intent::law_replaced_file_id_joins_the_write_set(replaced, i, j);
    }
}

/// A group that is replaced is that of a file id.
proof fn lemma_replaced(replaced: Seq<(String, Vec<String>)>, group: Group)
    requires
        intent::replaced_groups(replaced).contains(group),
    ensures
        exists|i: int, j: int|
            0 <= i < replaced.len() && 0 <= j < replaced[i].1@.len() && replaced[i].0@ == group.0 && (
            #[trigger] replaced[i].1@[j])@ == group.1 && group.1.len() > 0,
    decreases replaced.len(),
{
    if replaced.len() > 0 {
        let rest = replaced.drop_last();
        if intent::replaced_groups(rest).contains(group) {
            lemma_replaced(rest, group);
            let (i, j) = choose|i: int, j: int|
                0 <= i < rest.len() && 0 <= j < rest[i].1@.len() && rest[i].0@ == group.0 && (
                #[trigger] rest[i].1@[j])@ == group.1 && group.1.len() > 0;
            assert(replaced[i].1@[j]@ == group.1);
        } else {
            let n = replaced.len() - 1;
            let j = lemma_named(replaced[n].0@, replaced[n].1@, group);
            assert(replaced[n].1@[j]@ == group.1);
        }
    }
}

/// A group that is named in a partition is that of a file id in it.
proof fn lemma_named(partition: Seq<char>, file_ids: Seq<String>, group: Group) -> (j: int)
    requires
        intent::groups_named(partition, file_ids).contains(group),
    ensures
        0 <= j < file_ids.len(),
        file_ids[j]@ == group.1,
        group.1.len() > 0,
        group.0 == partition,
    decreases file_ids.len(),
{
    if file_ids.len() > 0 && intent::groups_named(partition, file_ids.drop_last()).contains(
        group,
    ) {
        lemma_named(partition, file_ids.drop_last(), group)
    } else {
        file_ids.len() - 1
    }
}

/// An action writes to the groups of its written files, and a replacing action also to those that it
/// replaces. It touches the partitions of both.
pub proof fn law_intent_of_an_action(action: Action, metadata: ActionMetadata, group: Group)
    ensures
        ({
            let written = metadata.partition_to_write_stats is Some && intent::written_groups(
                metadata.partition_to_write_stats->0@,
            ).contains(group);
            let replaced = action == Action::ReplaceCommit
                && metadata.partition_to_replace_file_ids is Some && intent::replaced_groups(
                metadata.partition_to_replace_file_ids->0@,
            ).contains(group);
            intent::intent_of(action, metadata).write_set.contains(group) <==> written || replaced
        }),
        ({
            let written = metadata.partition_to_write_stats is Some && intent::partitions_of(
                metadata.partition_to_write_stats->0@,
            ).contains(group.0);
            let replaced = action == Action::ReplaceCommit
                && metadata.partition_to_replace_file_ids is Some && intent::partitions_of(
                metadata.partition_to_replace_file_ids->0@,
            ).contains(group.0);
            intent::intent_of(action, metadata).touched_partitions.contains(group.0) <==> written
                || replaced
        }),
        match metadata.operation_type {
            Some(operation) => intent::intent_of(action, metadata).operation_type == Some(
                operation@,
            ),
            None => intent::intent_of(action, metadata).operation_type is None,
        },
{
}

/// The schema of an action is the one that its metadata holds under `schema`, as compact JSON where it
/// is JSON and without the white space around it where it is not.
pub proof fn law_schema_of_an_action(action: Action, metadata: ActionMetadata)
    ensures
        ({
            let schema = intent::intent_of(action, metadata).schema;
            match metadata.extra_metadata {
                Some(entries) => if entries@.contains_key("schema"@) {
                    let given = entries@["schema"@];
                    match intent::compact_json(given) {
                        Some(json) => schema == Some(json),
                        None => schema == Some(text::trimmed(given)),
                    }
                } else {
                    schema is None
                },
                None => schema is None,
            }
        }),
{
}

/// The names of the two overwrites in lower case.
pub(crate) proof fn lemma_overwrite_names()
    ensures
        text::lowered("INSERT_OVERWRITE_TABLE"@) == "insert_overwrite_table"@,
        text::lowered("INSERT_OVERWRITE"@) == "insert_overwrite"@,
        "insert_overwrite_table"@ != "insert_overwrite"@,
{
    reveal_strlit("INSERT_OVERWRITE_TABLE");
    reveal_strlit("insert_overwrite_table");
    reveal_strlit("INSERT_OVERWRITE");
    reveal_strlit("insert_overwrite");
    assert(text::lowered("INSERT_OVERWRITE_TABLE"@) =~= "insert_overwrite_table"@);
    assert(text::lowered("INSERT_OVERWRITE"@) =~= "insert_overwrite"@);
    assert("insert_overwrite_table"@.len() == 22 && "insert_overwrite"@.len() == 16);
}

/// An action replaces the table or its partitions exactly where its operation is so named, in any
/// case of letters.
pub proof fn law_names_of_overwrites(write: IntentModel)
    ensures
        intent::replaces_table(write) <==> write.operation_type is Some && text::lowered(
            write.operation_type->0,
        ) == "insert_overwrite_table"@,
        intent::replaces_partitions(write) <==> write.operation_type is Some && text::lowered(
            write.operation_type->0,
        ) == "insert_overwrite"@,
        write.operation_type matches Some(name) ==> intent::operation_text(write) == name,
        write.operation_type is None ==> intent::operation_text(write) == "UNKNOWN"@,
{
    lemma_overwrite_names();
}

/// Two writes conflict exactly where one of them replaces the table, where one of them replaces
/// partitions and both touch one partition, or where both write to one file group.
pub proof fn law_when_two_writes_conflict(a: IntentModel, b: IntentModel)
    ensures
        ({
            let table_a = a.operation_type is Some && text::lowered(a.operation_type->0)
                == "insert_overwrite_table"@;
            let table_b = b.operation_type is Some && text::lowered(b.operation_type->0)
                == "insert_overwrite_table"@;
            let partitions_a = a.operation_type is Some && text::lowered(a.operation_type->0)
                == "insert_overwrite"@;
            let partitions_b = b.operation_type is Some && text::lowered(b.operation_type->0)
                == "insert_overwrite"@;
            let shared_partition = exists|partition: Seq<char>| #[trigger]
                a.touched_partitions.contains(partition) && b.touched_partitions.contains(
                    partition,
                );
            let shared_group = exists|group: Group| #[trigger]
                a.write_set.contains(group) && b.write_set.contains(group);
            &&& intent::conflict(a, b) is Some <==> table_a || table_b || ((partitions_a
                || partitions_b) && shared_partition) || shared_group
            &&& intent::conflict(a, b) == Some(ScopeModel::Table) <==> table_a || table_b
            &&& (intent::conflict(a, b) matches Some(ScopeModel::Partitions(_))) <==> !table_a
                && !table_b && (partitions_a || partitions_b) && shared_partition
        }),
{
    lemma_overwrite_names();
    let partitions = a.touched_partitions.intersect(b.touched_partitions);
    let groups = a.write_set.intersect(b.write_set);
    if exists|partition: Seq<char>| #[trigger]
        a.touched_partitions.contains(partition) && b.touched_partitions.contains(partition) {
        let partition = choose|partition: Seq<char>| #[trigger]
            a.touched_partitions.contains(partition) && b.touched_partitions.contains(partition);
        assert(partitions.contains(partition));
    } else {
        assert(partitions =~= Set::<Seq<char>>::empty());
    }
    if exists|group: Group| #[trigger] a.write_set.contains(group) && b.write_set.contains(group) {
        let group = choose|group: Group| #[trigger]
            a.write_set.contains(group) && b.write_set.contains(group);
        assert(groups.contains(group));
    } else {
        assert(groups =~= Set::<Group>::empty());
    }
}

/// A conflict in partitions lists exactly the partitions that both touch, and one in file groups
/// exactly the groups that both write to, each in ascending order.
pub proof fn law_what_a_conflict_lists(a: IntentModel, b: IntentModel)
    requires
        a.touched_partitions.finite() || b.touched_partitions.finite(),
        a.write_set.finite() || b.write_set.finite(),
    ensures
        intent::conflict(a, b) matches Some(ScopeModel::Partitions(list)) ==> {
            &&& forall|partition: Seq<char>| #[trigger]
                list.contains(partition) <==> a.touched_partitions.contains(partition)
                    && b.touched_partitions.contains(partition)
            &&& forall|i: int, j: int|
                0 <= i < j < list.len() ==> text::text_lt(#[trigger] list[i], #[trigger] list[j])
        },
        intent::conflict(a, b) matches Some(ScopeModel::FileGroups(list)) ==> {
            &&& forall|group: Group| #[trigger]
                list.contains(group) <==> a.write_set.contains(group) && b.write_set.contains(group)
            &&& forall|i: int, j: int|
                0 <= i < j < list.len() ==> ordered_set::pair_lt(
                    #[trigger] list[i],
                    #[trigger] list[j],
                )
        },
{
    intent::law_conflict_lists_the_overlap(a, b);
    match intent::conflict(a, b) {
        Some(ScopeModel::Partitions(list)) => {
            assert forall|partition: Seq<char>| #[trigger]
                list.contains(partition) <==> a.touched_partitions.contains(partition)
                    && b.touched_partitions.contains(partition) by {
                assert(list.to_set().contains(partition) <==> list.contains(partition));
            }
            assert forall|i: int, j: int| 0 <= i < j < list.len() implies text::text_lt(
                #[trigger] list[i],
                #[trigger] list[j],
            ) by {
                assert(<String as ordered_set::SetKey>::precedes(list[i], list[j]));
            }
        },
        Some(ScopeModel::FileGroups(list)) => {
            assert forall|group: Group| #[trigger]
                list.contains(group) <==> a.write_set.contains(group) && b.write_set.contains(
                    group,
                ) by {
                assert(list.to_set().contains(group) <==> list.contains(group));
            }
            assert forall|i: int, j: int| 0 <= i < j < list.len() implies ordered_set::pair_lt(
                #[trigger] list[i],
                #[trigger] list[j],
            ) by {
                assert(<(String, String) as ordered_set::SetKey>::precedes(list[i], list[j]));
            }
        },
        _ => {},
    }
}

/// A scope is described by what it covers: the whole table, each partition in quotes, or each file
/// group with its partition in quotes.
pub proof fn law_description_of_a_scope(
    partitions: Seq<Seq<char>>,
    partition: Seq<char>,
    groups: Seq<Group>,
    group: Group,
)
    ensures
        intent::scope_text(ScopeModel::Table) == "because one operation replaces the full table"@,
        intent::scope_text(ScopeModel::Partitions(seq![partition]))
            == "in overwrite target partition(s) "@ + text::debug_text(partition),
        intent::scope_text(ScopeModel::FileGroups(seq![group])) == "on file groups "@ + ("("@
            + text::debug_text(group.0) + ", "@ + group.1 + ")"@),
        partitions.len() > 0 ==> intent::scope_text(
            ScopeModel::Partitions(partitions.push(partition)),
        ) == intent::scope_text(ScopeModel::Partitions(partitions)) + ", "@ + text::debug_text(
            partition,
        ),
        groups.len() > 0 ==> intent::scope_text(ScopeModel::FileGroups(groups.push(group)))
            == intent::scope_text(ScopeModel::FileGroups(groups)) + ", "@ + ("("@
            + text::debug_text(group.0) + ", "@ + group.1 + ")"@),
{
    let quote = |p: Seq<char>| text::debug_text(p);
    let name = |g: Group| intent::group_text(text::debug_text(g.0), g.1);
    assert(seq![partition].map_values(quote) =~= seq![text::debug_text(partition)]);
    assert(seq![group].map_values(name) =~= seq![
        intent::group_text(text::debug_text(group.0), group.1),
    ]);
    let quoted = partitions.map_values(quote);
    let named = groups.map_values(name);
    assert(partitions.push(partition).map_values(quote) =~= quoted.push(
        text::debug_text(partition),
    ));
    assert(quoted.push(text::debug_text(partition)).drop_last() =~= quoted);
    assert(groups.push(group).map_values(name) =~= named.push(
        intent::group_text(text::debug_text(group.0), group.1),
    ));
    assert(named.push(intent::group_text(text::debug_text(group.0), group.1)).drop_last()
        =~= named);
    let p0 = "in overwrite target partition(s) "@;
    let g0 = "on file groups "@;
    let g1 = intent::group_text(text::debug_text(group.0), group.1);
    assert(p0 + (text::listed(quoted) + ", "@ + text::debug_text(partition)) =~= p0 + text::listed(
        quoted,
    ) + ", "@ + text::debug_text(partition));
    assert(g0 + (text::listed(named) + ", "@ + g1) =~= g0 + text::listed(named) + ", "@ + g1);
}

/// What is known of a write, and of a scope, is what its fields hold.
pub proof fn law_fields_of_intents_and_scopes(
    write: WriteIntent,
    partitions: Vec<String>,
    groups: Vec<(String, String)>,
)
    ensures
        write@.operation_type == text::text_model(write.operation_type),
        write@.schema == text::text_model(write.schema),
        write@.write_set == write.write_set.0@,
        write@.touched_partitions == write.touched_partitions@,
        ConflictScope::Table@ == ScopeModel::Table,
        ConflictScope::Partitions(partitions)@ == ScopeModel::Partitions(
            partitions@.map_values(|partition: String| partition@),
        ),
        ConflictScope::FileGroups(groups)@ == ScopeModel::FileGroups(
            groups@.map_values(|group: (String, String)| (group.0@, group.1@)),
        ),
        intent::scope_model(None) is None,
        intent::scope_model(Some(ConflictScope::Table)) == Some(ScopeModel::Table),
{
    assert(ordered_set::models(partitions@) =~= partitions@.map_values(
        |partition: String| partition@,
    ));
    assert(ordered_set::models(groups@) =~= groups@.map_values(
        |group: (String, String)| (group.0@, group.1@),
    ));
}

/// The metadata of an action is what its binary form holds, and what its textual form holds only where
/// the binary one cannot be decoded.
pub proof fn law_binary_metadata_comes_first(
    avro: Result<ActionMetadata, CoreError>,
    json: Result<ActionMetadata, CoreError>,
)
    ensures
        avro is Ok ==> intent::decoded(avro, json) == avro,
        avro is Err ==> intent::decoded(avro, json) == json,
{
}

/// A schema is compared as compact JSON where it is JSON, and without the white space around it where
/// it is not.
pub proof fn law_form_of_a_schema(schema: Seq<char>, json: Seq<char>, entries: TextMap)
    ensures
        intent::schema_form(schema, Some(json)) == json,
        intent::schema_form(schema, None) == text::trimmed(schema),
        intent::schema_of(None) is None,
        !entries@.contains_key("schema"@) ==> intent::schema_of(Some(entries)) is None,
        entries@.contains_key("schema"@) ==> intent::schema_of(Some(entries)) == Some(
            intent::schema_form(
                entries@["schema"@],
                intent::compact_json(entries@["schema"@]),
            ),
        ),
{
}

/// File groups and lists of them are written with round brackets and commas.
pub proof fn law_words_of_groups(partition: Seq<char>, file_id: Seq<char>, list: Seq<Seq<char>>)
    ensures
        intent::group_text(partition, file_id) == "("@ + partition + ", "@ + file_id + ")"@,
        intent::partitions_text(list) == "in overwrite target partition(s) "@ + text::listed(list),
        intent::groups_text(list) == "on file groups "@ + text::listed(list),
{
}

/// An action carries out the operation that it names, in any case of letters, and no other.
pub proof fn law_operation_of_a_write(write: IntentModel, operation: Seq<char>)
    ensures
        intent::carries_out(write, operation) <==> write.operation_type is Some && text::lowered(
            write.operation_type->0,
        ) == text::lowered(operation),
{
}

} // verus!
