//! What a write does to a table, and how two writes get in each other's way.
use vstd::prelude::*;

use crate::error::CoreError;
use crate::ordered_set;
use crate::ordered_set::OrderedSet;
use crate::text;
use crate::text::{list_text, quoted};
use crate::text_map::TextMap;
use crate::write::timeline::Action;

verus! {

/// What is recorded of a file that an action wrote.
#[derive(Debug)]
pub struct WriteStat {
    /// The file group that the file belongs to.
    pub file_id: Option<String>,
}

/// The metadata of a completed or pending action, as far as conflicts depend on it.
#[derive(Debug)]
pub struct ActionMetadata {
    /// The operation that the action carries out.
    pub operation_type: Option<String>,
    /// Further entries, among them the table schema.
    pub extra_metadata: Option<TextMap>,
    /// The files that the action wrote, by partition.
    pub partition_to_write_stats: Option<Vec<(String, Vec<WriteStat>)>>,
    /// The file groups that a replacing action replaces, by partition.
    pub partition_to_replace_file_ids: Option<Vec<(String, Vec<String>)>>,
}

impl Default for ActionMetadata {
    fn default() -> (r: Self)
        ensures
            r.operation_type is None,
            r.extra_metadata is None,
            r.partition_to_write_stats is None,
            r.partition_to_replace_file_ids is None,
    {
        ActionMetadata {
            operation_type: None,
            extra_metadata: None,
            partition_to_write_stats: None,
            partition_to_replace_file_ids: None,
        }
    }
}

/// A file group: a partition path and a file id.
pub type Group = (Seq<char>, Seq<char>);

/// The partitions of a list by partition.
pub open spec fn partitions_of<T>(list: Seq<(String, T)>) -> Set<Seq<char>>
    decreases list.len(),
{
    if list.len() == 0 {
        Set::empty()
    } else {
        partitions_of(list.drop_last()).insert(list.last().0@)
    }
}

/// The file groups of a partition that a list of written files belongs to. A file without a file
/// id, or with an empty one, belongs to none.
pub open spec fn groups_in(partition: Seq<char>, stats: Seq<WriteStat>) -> Set<Group>
    decreases stats.len(),
{
    if stats.len() == 0 {
        Set::empty()
    } else {
        let rest = groups_in(partition, stats.drop_last());
        match stats.last().file_id {
            Some(file_id) => if file_id@.len() > 0 {
                rest.insert((partition, file_id@))
            } else {
                rest
            },
            None => rest,
        }
    }
}

/// The file groups that written files belong to.
pub open spec fn written_groups(stats: Seq<(String, Vec<WriteStat>)>) -> Set<Group>
    decreases stats.len(),
{
    if stats.len() == 0 {
        Set::empty()
    } else {
        written_groups(stats.drop_last()).union(groups_in(stats.last().0@, stats.last().1@))
    }
}

/// The file groups of a partition with these file ids. An empty file id names no group.
pub open spec fn groups_named(partition: Seq<char>, file_ids: Seq<String>) -> Set<Group>
    decreases file_ids.len(),
{
    if file_ids.len() == 0 {
        Set::empty()
    } else {
        let rest = groups_named(partition, file_ids.drop_last());
        if file_ids.last()@.len() > 0 {
            rest.insert((partition, file_ids.last()@))
        } else {
            rest
        }
    }
}

/// The file groups that are replaced.
pub open spec fn replaced_groups(replaced: Seq<(String, Vec<String>)>) -> Set<Group>
    decreases replaced.len(),
{
    if replaced.len() == 0 {
        Set::empty()
    } else {
        replaced_groups(replaced.drop_last()).union(
            groups_named(replaced.last().0@, replaced.last().1@),
        )
    }
}

/// The compact form of a JSON document, `None` for a text that is none.
pub uninterp spec fn compact_json(document: Seq<char>) -> Option<Seq<char>>;

/// `serde_json::from_str` into a `serde_json::Value`, printed by its `Display`: the compact form of
/// a JSON document, `None` where the text is none or nests too deep. What the compact form looks
/// like is named by `compact_json` and not described further.
#[verifier::external_body]
fn reformat_json(document: &str) -> (r: Option<String>)
    ensures
        text::text_model(r) == compact_json(document@),
{
    match serde_json::from_str::<serde_json::Value>(document) {
        Ok(value) => Some(value.to_string()),
        Err(_) => None,
    }
}

/// A schema in the form in which schemas are compared: compact JSON where it is JSON, else the text
/// without the white space around it.
pub open spec fn schema_form(schema: Seq<char>, compact: Option<Seq<char>>) -> Seq<char> {
    match compact {
        Some(json) => json,
        None => text::trimmed(schema),
    }
}

/// A schema in the form in which schemas are compared, given its compact JSON form if it has one.
pub fn comparable_schema(schema: &str, compact: Option<String>) -> (r: String)
    ensures
        r@ == schema_form(schema@, text::text_model(compact)),
{
    match compact {
        Some(json) => json,
        None => schema.trim().to_owned(),
    }
}

/// The schema of an action in the form in which schemas are compared.
pub open spec fn schema_of(extra_metadata: Option<TextMap>) -> Option<Seq<char>> {
    match extra_metadata {
        Some(entries) => if entries@.contains_key("schema"@) {
            Some(schema_form(entries@["schema"@], compact_json(entries@["schema"@])))
        } else {
            None
        },
        None => None,
    }
}

/// The schema of an action in the form in which schemas are compared.
pub fn normalized_schema(extra_metadata: &Option<TextMap>) -> (r: Option<String>)
    ensures
        text::text_model(r) == schema_of(*extra_metadata),
{
    match extra_metadata {
        Some(entries) => match entries.get("schema") {
            Some(schema) => Some(comparable_schema(schema, reformat_json(schema))),
            None => None,
        },
        None => None,
    }
}

/// The file groups that an action writes or replaces.
#[derive(Debug, PartialEq, Eq)]
pub struct WriteSet(pub OrderedSet<(String, String)>);

/// What an action does to a table.
#[derive(Debug, PartialEq, Eq)]
pub struct WriteIntent {
    pub operation_type: Option<String>,
    pub write_set: WriteSet,
    pub touched_partitions: OrderedSet<String>,
    pub schema: Option<String>,
}

/// What an action does to a table, by values.
pub struct IntentModel {
    pub operation_type: Option<Seq<char>>,
    pub write_set: Set<Group>,
    pub touched_partitions: Set<Seq<char>>,
    pub schema: Option<Seq<char>>,
}

impl View for WriteIntent {
    type V = IntentModel;

    open spec fn view(&self) -> IntentModel {
        IntentModel {
            operation_type: text::text_model(self.operation_type),
            write_set: self.write_set.0@,
            touched_partitions: self.touched_partitions@,
            schema: text::text_model(self.schema),
        }
    }
}

/// What an action with this metadata does to a table: the files that it wrote, and for a replacing
/// action also the file groups that it replaces.
pub open spec fn intent_of(action: Action, metadata: ActionMetadata) -> IntentModel {
    let written = match metadata.partition_to_write_stats {
        Some(stats) => (partitions_of(stats@), written_groups(stats@)),
        None => (Set::empty(), Set::empty()),
    };
    let replaced = match metadata.partition_to_replace_file_ids {
        Some(file_ids) => if action == Action::ReplaceCommit {
            (partitions_of(file_ids@), replaced_groups(file_ids@))
        } else {
            (Set::empty(), Set::empty())
        },
        None => (Set::empty(), Set::empty()),
    };
    IntentModel {
        operation_type: text::text_model(metadata.operation_type),
        write_set: written.1.union(replaced.1),
        touched_partitions: written.0.union(replaced.0),
        schema: schema_of(metadata.extra_metadata),
    }
}

impl WriteIntent {
    /// An action that does nothing.
    fn empty() -> (r: Self)
        ensures
            r@.operation_type is None,
            r@.write_set == Set::<Group>::empty(),
            r@.touched_partitions == Set::<Seq<char>>::empty(),
            r@.schema is None,
    {
        WriteIntent {
            operation_type: None,
            write_set: WriteSet(OrderedSet::new()),
            touched_partitions: OrderedSet::new(),
            schema: None,
        }
    }

    /// Add the files that the action wrote.
    pub fn add_write_stats(&mut self, stats: &Option<Vec<(String, Vec<WriteStat>)>>)
        ensures
            final(self)@.operation_type == old(self)@.operation_type,
            final(self)@.schema == old(self)@.schema,
            match stats {
                Some(list) => {
                    &&& final(self)@.touched_partitions == old(self)@.touched_partitions.union(
                        partitions_of(list@),
                    )
                    &&& final(self)@.write_set == old(self)@.write_set.union(written_groups(list@))
                },
                None => final(self)@ == old(self)@,
            },
    {
        match stats {
            None => {},
            Some(list) => {
                let ghost start = self@;
                proof {
                    assert(list@.take(0) =~= Seq::empty());
                    assert(self@.touched_partitions =~= start.touched_partitions.union(
                        partitions_of(list@.take(0)),
                    ));
                    assert(self@.write_set =~= start.write_set.union(
                        written_groups(list@.take(0)),
                    ));
                }
                for i in 0..list.len()
                    invariant
                        self@.operation_type == start.operation_type,
                        self@.schema == start.schema,
                        self@.touched_partitions == start.touched_partitions.union(
                            partitions_of(list@.take(i as int)),
                        ),
                        self@.write_set == start.write_set.union(
                            written_groups(list@.take(i as int)),
                        ),
                {
                    let partition: &String = &list[i].0;
                    let files: &Vec<WriteStat> = &list[i].1;
                    let ghost done = list@.take(i as int);
                    proof {
                        assert(list@.take(i + 1).drop_last() =~= done);
                        assert(list@.take(i + 1).last() == list@[i as int]);
                    }
                    self.touched_partitions.insert(partition.clone());
                    proof {
                        assert(self@.touched_partitions =~= start.touched_partitions.union(
                            partitions_of(list@.take(i + 1)),
                        ));
                        assert(self@.write_set =~= start.write_set.union(written_groups(done)).union(
                            groups_in(partition@, files@.take(0)),
                        ));
                    }
                    for j in 0..files.len()
                        invariant
                            self@.operation_type == start.operation_type,
                            self@.schema == start.schema,
                            self@.touched_partitions == start.touched_partitions.union(
                                partitions_of(list@.take(i + 1)),
                            ),
                            self@.write_set == start.write_set.union(written_groups(done)).union(
                                groups_in(partition@, files@.take(j as int)),
                            ),
                    {
                        proof {
                            assert(files@.take(j + 1).drop_last() =~= files@.take(j as int));
                            assert(files@.take(j + 1).last() == files@[j as int]);
                        }
                        if let Some(file_id) = &files[j].file_id {
                            if !file_id.as_str().is_empty() {
                                self.write_set.0.insert((partition.clone(), file_id.clone()));
                            }
                        }
                        proof {
                            assert(self@.write_set =~= start.write_set.union(
                                written_groups(done),
                            ).union(groups_in(partition@, files@.take(j + 1))));
                        }
                    }
                    proof {
                        assert(files@.take(files@.len() as int) =~= files@);
                        assert(self@.write_set =~= start.write_set.union(
                            written_groups(list@.take(i + 1)),
                        ));
                    }
                }
                proof {
                    assert(list@.take(list@.len() as int) =~= list@);
                }
            },
        }
    }

    /// Add the file groups that the action replaces.
    fn add_replaced(&mut self, replaced: &Vec<(String, Vec<String>)>)
        ensures
            final(self)@.operation_type == old(self)@.operation_type,
            final(self)@.schema == old(self)@.schema,
            final(self)@.touched_partitions == old(self)@.touched_partitions.union(
                partitions_of(replaced@),
            ),
            final(self)@.write_set == old(self)@.write_set.union(replaced_groups(replaced@)),
    {
        let ghost start = self@;
        proof {
            assert(replaced@.take(0) =~= Seq::empty());
            assert(self@.touched_partitions =~= start.touched_partitions.union(
                partitions_of(replaced@.take(0)),
            ));
            assert(self@.write_set =~= start.write_set.union(replaced_groups(replaced@.take(0))));
        }
        for i in 0..replaced.len()
            invariant
                self@.operation_type == start.operation_type,
                self@.schema == start.schema,
                self@.touched_partitions == start.touched_partitions.union(
                    partitions_of(replaced@.take(i as int)),
                ),
                self@.write_set == start.write_set.union(
                    replaced_groups(replaced@.take(i as int)),
                ),
        {
            let partition: &String = &replaced[i].0;
            let file_ids: &Vec<String> = &replaced[i].1;
            let ghost done = replaced@.take(i as int);
            proof {
                assert(replaced@.take(i + 1).drop_last() =~= done);
                assert(replaced@.take(i + 1).last() == replaced@[i as int]);
            }
            self.touched_partitions.insert(partition.clone());
            proof {
                assert(self@.touched_partitions =~= start.touched_partitions.union(
                    partitions_of(replaced@.take(i + 1)),
                ));
                assert(self@.write_set =~= start.write_set.union(replaced_groups(done)).union(
                    groups_named(partition@, file_ids@.take(0)),
                ));
            }
            for j in 0..file_ids.len()
                invariant
                    self@.operation_type == start.operation_type,
                    self@.schema == start.schema,
                    self@.touched_partitions == start.touched_partitions.union(
                        partitions_of(replaced@.take(i + 1)),
                    ),
                    self@.write_set == start.write_set.union(replaced_groups(done)).union(
                        groups_named(partition@, file_ids@.take(j as int)),
                    ),
            {
                proof {
                    assert(file_ids@.take(j + 1).drop_last() =~= file_ids@.take(j as int));
                    assert(file_ids@.take(j + 1).last() == file_ids@[j as int]);
                }
                if !file_ids[j].as_str().is_empty() {
                    self.write_set.0.insert((partition.clone(), file_ids[j].clone()));
                }
                proof {
                    assert(self@.write_set =~= start.write_set.union(replaced_groups(done)).union(
                        groups_named(partition@, file_ids@.take(j + 1)),
                    ));
                }
            }
            proof {
                assert(file_ids@.take(file_ids@.len() as int) =~= file_ids@);
                assert(self@.write_set =~= start.write_set.union(
                    replaced_groups(replaced@.take(i + 1)),
                ));
            }
        }
        proof {
            assert(replaced@.take(replaced@.len() as int) =~= replaced@);
        }
    }

    /// What an action does to a table, by its metadata as it was decoded: `avro` from the binary
    /// form, and `json` from the older textual form, which counts only where the binary one cannot
    /// be decoded.
    pub fn from_metadata(
        action: &Action,
        avro: Result<ActionMetadata, CoreError>,
        json: Result<ActionMetadata, CoreError>,
    ) -> (r: Result<Self, CoreError>)
        ensures
            match decoded(avro, json) {
                Ok(metadata) => {
                    &&& r matches Ok(intent)
                    &&& intent@ == intent_of(*action, metadata)
                },
                Err(cause) => r matches Err(error) && error@ == cause@,
            },
    {
        let metadata: ActionMetadata = match avro {
            Ok(metadata) => metadata,
            Err(_) => match json {
                Ok(metadata) => metadata,
                Err(error) => return Err(error),
            },
        };
        let mut intent: WriteIntent = Self::empty();
        intent.operation_type = metadata.operation_type;
        intent.schema = normalized_schema(&metadata.extra_metadata);
        intent.add_write_stats(&metadata.partition_to_write_stats);
        match action {
            Action::Commit | Action::DeltaCommit => {},
            Action::ReplaceCommit => {
                if let Some(replaced) = &metadata.partition_to_replace_file_ids {
                    intent.add_replaced(replaced);
                }
            },
        }
        proof {
            let expected = intent_of(*action, metadata);
            assert(intent@.write_set =~= expected.write_set);
            assert(intent@.touched_partitions =~= expected.touched_partitions);
        }
        Ok(intent)
    }

    /// Whether the action carries out an operation, whatever its ASCII case.
    pub fn is_operation(&self, expected: &str) -> (r: bool)
        ensures
            r == carries_out(self@, expected@),
    {
        match &self.operation_type {
            Some(operation) => operation.eq_ignore_ascii_case(expected),
            None => false,
        }
    }

    /// Whether the action replaces the whole table.
    pub fn is_table_overwrite(&self) -> (r: bool)
        ensures
            r == replaces_table(self@),
    {
        self.is_operation("INSERT_OVERWRITE_TABLE")
    }

    /// Whether the action replaces the partitions that it touches.
    pub fn is_partition_overwrite(&self) -> (r: bool)
        ensures
            r == replaces_partitions(self@),
    {
        self.is_operation("INSERT_OVERWRITE")
    }

    /// The operation that the action carries out, `UNKNOWN` where that is not recorded.
    pub fn operation_name(&self) -> (r: &str)
        ensures
            r@ == operation_text(self@),
    {
        match &self.operation_type {
            Some(operation) => operation.as_str(),
            None => "UNKNOWN",
        }
    }

    /// The strongest overlapping scope between two writes.
    ///
    /// Ordinary writes conflict by file group. Overwrites need a wider scope: a writer can create a
    /// brand-new group after the overwrite snapshot, so that group cannot appear in the replace
    /// list.
    pub fn conflict_scope(&self, other: &Self) -> (r: Option<ConflictScope>)
        ensures
            scope_model(r) == conflict(self@, other@),
            r matches Some(scope) ==> lists_overlap(self@, other@, scope@),
    {
        if self.is_table_overwrite() || other.is_table_overwrite() {
            return Some(ConflictScope::Table);
        }
        if self.is_partition_overwrite() || other.is_partition_overwrite() {
            let shared: Vec<String> = self.touched_partitions.intersection(
                &other.touched_partitions,
            );
            proof {
                let all = ordered_set::models(shared@);
                if shared.len() > 0 {
                    assert(all.to_set().contains(all[0]));
                } else {
                    assert(all.to_set() =~= Set::empty());
                }
            }
            if shared.len() > 0 {
                return Some(ConflictScope::Partitions(shared));
            }
        }
        let shared: Vec<(String, String)> = self.write_set.0.intersection(&other.write_set.0);
        proof {
            let all = ordered_set::models(shared@);
            if shared.len() > 0 {
                assert(all.to_set().contains(all[0]));
            } else {
                assert(all.to_set() =~= Set::empty());
            }
        }
        if shared.len() == 0 {
            None
        } else {
            Some(ConflictScope::FileGroups(shared))
        }
    }
}

/// The metadata as decoded from the binary form, else from the textual form.
pub open spec fn decoded(
    avro: Result<ActionMetadata, CoreError>,
    json: Result<ActionMetadata, CoreError>,
) -> Result<ActionMetadata, CoreError> {
    if avro is Ok {
        avro
    } else {
        json
    }
}

/// An action carries out an operation, whatever its ASCII case.
pub open spec fn carries_out(intent: IntentModel, operation: Seq<char>) -> bool {
    intent.operation_type matches Some(name) && text::lowered(name) == text::lowered(operation)
}

/// An action replaces the whole table.
pub open spec fn replaces_table(intent: IntentModel) -> bool {
    carries_out(intent, "INSERT_OVERWRITE_TABLE"@)
}

/// An action replaces the partitions that it touches.
pub open spec fn replaces_partitions(intent: IntentModel) -> bool {
    carries_out(intent, "INSERT_OVERWRITE"@)
}

/// The operation that an action carries out, in words.
pub open spec fn operation_text(intent: IntentModel) -> Seq<char> {
    match intent.operation_type {
        Some(name) => name,
        None => "UNKNOWN"@,
    }
}

/// Where two writes get in each other's way.
#[derive(Debug, PartialEq, Eq)]
pub enum ConflictScope {
    /// One of them replaces the whole table.
    Table,
    /// One of them replaces partitions that the other touches.
    Partitions(Vec<String>),
    /// Both write to these file groups.
    FileGroups(Vec<(String, String)>),
}

/// Where two writes get in each other's way, by values.
pub enum ScopeModel {
    Table,
    Partitions(Seq<Seq<char>>),
    FileGroups(Seq<Group>),
}

impl View for ConflictScope {
    type V = ScopeModel;

    open spec fn view(&self) -> ScopeModel {
        match self {
            ConflictScope::Table => ScopeModel::Table,
            ConflictScope::Partitions(partitions) => ScopeModel::Partitions(
                ordered_set::models(partitions@),
            ),
            ConflictScope::FileGroups(groups) => ScopeModel::FileGroups(
                ordered_set::models(groups@),
            ),
        }
    }
}

/// A file group in words, given its partition in quotes.
pub open spec fn group_text(quoted_partition: Seq<char>, file_id: Seq<char>) -> Seq<char> {
    "("@ + quoted_partition + ", "@ + file_id + ")"@
}

/// A file group in words, given its partition in quotes.
pub fn describe_group(quoted_partition: &str, file_id: &str) -> (r: String)
    ensures
        r@ == group_text(quoted_partition@, file_id@),
{
    "(".to_owned().concat(quoted_partition).concat(", ").concat(file_id).concat(")")
}

/// Partitions in words, each given in quotes.
pub open spec fn partitions_text(quoted_partitions: Seq<Seq<char>>) -> Seq<char> {
    "in overwrite target partition(s) "@ + text::listed(quoted_partitions)
}

/// Partitions in words, each given in quotes.
pub fn describe_partitions(quoted_partitions: &Vec<String>) -> (r: String)
    ensures
        r@ == partitions_text(quoted_partitions@.map_values(|item: String| item@)),
{
    "in overwrite target partition(s) ".to_owned().concat(&list_text(quoted_partitions))
}

/// File groups in words, each given in words.
pub open spec fn groups_text(groups: Seq<Seq<char>>) -> Seq<char> {
    "on file groups "@ + text::listed(groups)
}

/// File groups in words, each given in words.
pub fn describe_groups(groups: &Vec<String>) -> (r: String)
    ensures
        r@ == groups_text(groups@.map_values(|item: String| item@)),
{
    "on file groups ".to_owned().concat(&list_text(groups))
}

/// A scope in words.
pub open spec fn scope_text(scope: ScopeModel) -> Seq<char> {
    match scope {
        ScopeModel::Table => "because one operation replaces the full table"@,
        ScopeModel::Partitions(partitions) => partitions_text(
            partitions.map_values(|partition: Seq<char>| text::debug_text(partition)),
        ),
        ScopeModel::FileGroups(groups) => groups_text(
            groups.map_values(|group: Group| group_text(text::debug_text(group.0), group.1)),
        ),
    }
}

impl ConflictScope {
    /// The scope in words.
    pub fn describe(&self) -> (r: String)
        ensures
            r@ == scope_text(self@),
    {
        match self {
            ConflictScope::Table => "because one operation replaces the full table".to_owned(),
            ConflictScope::Partitions(partitions) => {
                let mut items: Vec<String> = Vec::new();
                for i in 0..partitions.len()
                    invariant
                        items.len() == i,
                        forall|j: int|
                            0 <= j < i ==> (#[trigger] items[j])@ == text::debug_text(
                                partitions[j]@,
                            ),
                {
                    items.push(quoted(&partitions[i]));
                }
                proof {
                    assert(items@.map_values(|item: String| item@) =~= ordered_set::models(
                        partitions@,
                    ).map_values(|partition: Seq<char>| text::debug_text(partition)));
                }
                describe_partitions(&items)
            },
            ConflictScope::FileGroups(groups) => {
                let mut items: Vec<String> = Vec::new();
                for i in 0..groups.len()
                    invariant
                        items.len() == i,
                        forall|j: int|
                            0 <= j < i ==> (#[trigger] items[j])@ == group_text(
                                text::debug_text(groups[j].0@),
                                groups[j].1@,
                            ),
                {
                    items.push(describe_group(&quoted(&groups[i].0), &groups[i].1));
                }
                proof {
                    assert(items@.map_values(|item: String| item@) =~= ordered_set::models(
                        groups@,
                    ).map_values(
                        |group: Group| group_text(text::debug_text(group.0), group.1),
                    ));
                }
                describe_groups(&items)
            },
        }
    }
}

/// A scope by its values, where there is one.
pub open spec fn scope_model(scope: Option<ConflictScope>) -> Option<ScopeModel> {
    match scope {
        Some(found) => Some(found@),
        None => None,
    }
}

/// Where two writes get in each other's way: in the whole table where one of them replaces it, in
/// the partitions that both touch where one of them replaces those, else in the file groups that
/// both write to. Partitions and groups are in order.
pub open spec fn conflict(a: IntentModel, b: IntentModel) -> Option<ScopeModel> {
    let partitions = a.touched_partitions.intersect(b.touched_partitions);
    let groups = a.write_set.intersect(b.write_set);
    if replaces_table(a) || replaces_table(b) {
        Some(ScopeModel::Table)
    } else if (replaces_partitions(a) || replaces_partitions(b)) && partitions
        != Set::<Seq<char>>::empty() {
        Some(ScopeModel::Partitions(ordered_set::in_order::<String>(partitions)))
    } else if groups != Set::<Group>::empty() {
        Some(ScopeModel::FileGroups(ordered_set::in_order::<(String, String)>(groups)))
    } else {
        None
    }
}

/// The scope lists, in order, all that the two writes share and nothing else.
pub open spec fn lists_overlap(a: IntentModel, b: IntentModel, scope: ScopeModel) -> bool {
    match scope {
        ScopeModel::Table => true,
        ScopeModel::Partitions(partitions) => {
            &&& ordered_set::is_increasing::<String>(partitions)
            &&& partitions.to_set() == a.touched_partitions.intersect(b.touched_partitions)
        },
        ScopeModel::FileGroups(groups) => {
            &&& ordered_set::is_increasing::<(String, String)>(groups)
            &&& groups.to_set() == a.write_set.intersect(b.write_set)
        },
    }
}

/// What a conflict lists is sorted and complete, as one of the two writes is finite.
pub proof fn law_conflict_lists_the_overlap(a: IntentModel, b: IntentModel)
    requires
        a.touched_partitions.finite() || b.touched_partitions.finite(),
        a.write_set.finite() || b.write_set.finite(),
    ensures
        conflict(a, b) matches Some(scope) ==> lists_overlap(a, b, scope),
{
    let partitions = a.touched_partitions.intersect(b.touched_partitions);
    let groups = a.write_set.intersect(b.write_set);
    assert(partitions =~= b.touched_partitions.intersect(a.touched_partitions));
    assert(groups =~= b.write_set.intersect(a.write_set));
    ordered_set::law_finite_set_has_an_order::<String>(partitions);
    ordered_set::law_finite_set_has_an_order::<(String, String)>(groups);
}

/// What an action does to a table is finite.
pub proof fn law_intent_is_finite(action: Action, metadata: ActionMetadata)
    ensures
        intent_of(action, metadata).touched_partitions.finite(),
        intent_of(action, metadata).write_set.finite(),
{
    if let Some(stats) = metadata.partition_to_write_stats {
        lemma_partitions_finite(stats@);
        lemma_written_finite(stats@);
    }
    if let Some(replaced) = metadata.partition_to_replace_file_ids {
        lemma_partitions_finite(replaced@);
        lemma_replaced_finite(replaced@);
    }
}

/// A list has finitely many partitions.
proof fn lemma_partitions_finite<T>(list: Seq<(String, T)>)
    ensures
        partitions_of(list).finite(),
    decreases list.len(),
{
    if list.len() > 0 {
        lemma_partitions_finite(list.drop_last());
    }
}

/// Finitely many groups of a partition are written to.
proof fn lemma_groups_in_finite(partition: Seq<char>, stats: Seq<WriteStat>)
    ensures
        groups_in(partition, stats).finite(),
    decreases stats.len(),
{
    if stats.len() > 0 {
        lemma_groups_in_finite(partition, stats.drop_last());
    }
}

/// Finitely many groups are written to.
proof fn lemma_written_finite(stats: Seq<(String, Vec<WriteStat>)>)
    ensures
        written_groups(stats).finite(),
    decreases stats.len(),
{
    if stats.len() > 0 {
        lemma_written_finite(stats.drop_last());
        lemma_groups_in_finite(stats.last().0@, stats.last().1@);
    }
}

/// Finitely many groups of a partition are named.
proof fn lemma_groups_named_finite(partition: Seq<char>, file_ids: Seq<String>)
    ensures
        groups_named(partition, file_ids).finite(),
    decreases file_ids.len(),
{
    if file_ids.len() > 0 {
        lemma_groups_named_finite(partition, file_ids.drop_last());
    }
}

/// Finitely many groups are replaced.
proof fn lemma_replaced_finite(replaced: Seq<(String, Vec<String>)>)
    ensures
        replaced_groups(replaced).finite(),
    decreases replaced.len(),
{
    if replaced.len() > 0 {
        lemma_replaced_finite(replaced.drop_last());
        lemma_groups_named_finite(replaced.last().0@, replaced.last().1@);
    }
}

/// A conflict is mutual: both writers see the same scope.
pub proof fn law_conflict_is_symmetric(a: IntentModel, b: IntentModel)
    ensures
        conflict(a, b) == conflict(b, a),
{
    assert(a.touched_partitions.intersect(b.touched_partitions)
        =~= b.touched_partitions.intersect(a.touched_partitions));
    assert(a.write_set.intersect(b.write_set) =~= b.write_set.intersect(a.write_set));
}

/// A write that replaces the whole table conflicts with every write, even one into file groups and
/// partitions that it does not know of.
pub proof fn law_table_overwrite_conflicts_with_every_write(a: IntentModel, b: IntentModel)
    requires
        replaces_table(a),
    ensures
        conflict(a, b) == Some(ScopeModel::Table),
        conflict(b, a) == Some(ScopeModel::Table),
{
}

/// A write that replaces partitions conflicts with every write into one of them, even into a file
/// group that it does not know of.
pub proof fn law_partition_overwrite_conflicts_in_its_partitions(
    a: IntentModel,
    b: IntentModel,
    partition: Seq<char>,
)
    requires
        replaces_partitions(a),
        a.touched_partitions.contains(partition),
        b.touched_partitions.contains(partition),
    ensures
        conflict(a, b) is Some,
        !replaces_table(a) && !replaces_table(b) ==> conflict(a, b) == Some(
            ScopeModel::Partitions(
                ordered_set::in_order::<String>(
                    a.touched_partitions.intersect(b.touched_partitions),
                ),
            ),
        ),
{
    assert(a.touched_partitions.intersect(b.touched_partitions).contains(partition));
}

/// Writes that replace neither the table nor partitions, deletes among them, conflict exactly where
/// they share a file group.
pub proof fn law_ordinary_writes_conflict_by_file_group(a: IntentModel, b: IntentModel)
    requires
        !replaces_table(a) && !replaces_partitions(a),
        !replaces_table(b) && !replaces_partitions(b),
    ensures
        conflict(a, b) is Some <==> exists|group: Group| #[trigger]
            a.write_set.contains(group) && b.write_set.contains(group),
        conflict(a, b) is Some ==> conflict(a, b) == Some(
            ScopeModel::FileGroups(
                ordered_set::in_order::<(String, String)>(a.write_set.intersect(b.write_set)),
            ),
        ),
{
    let shared = a.write_set.intersect(b.write_set);
    if shared != Set::<Group>::empty() {
        if forall|group: Group| !shared.contains(group) {
            assert(shared =~= Set::<Group>::empty());
        }
        let group = choose|group: Group| shared.contains(group);
        assert(a.write_set.contains(group) && b.write_set.contains(group));
    } else {
        assert forall|group: Group| #[trigger] a.write_set.contains(group) implies
            !b.write_set.contains(group) by {
            assert(!shared.contains(group));
        }
    }
}

/// Every file group of the intent lies in a partition that the intent touches.
pub open spec fn groups_lie_in_partitions(intent: IntentModel) -> bool {
    forall|group: Group| #[trigger]
        intent.write_set.contains(group) ==> intent.touched_partitions.contains(group.0)
}

/// An action touches the partition of every file group that it writes or replaces.
pub proof fn law_groups_lie_in_touched_partitions(action: Action, metadata: ActionMetadata)
    ensures
        groups_lie_in_partitions(intent_of(action, metadata)),
{
    let intent = intent_of(action, metadata);
    assert forall|group: Group| #[trigger]
        intent.write_set.contains(group) implies intent.touched_partitions.contains(group.0) by {
        if let Some(stats) = metadata.partition_to_write_stats {
            if written_groups(stats@).contains(group) {
                lemma_written_partition(stats@, group);
            }
        }
        if let Some(replaced) = metadata.partition_to_replace_file_ids {
            if replaced_groups(replaced@).contains(group) {
                lemma_replaced_partition(replaced@, group);
            }
        }
    }
}

/// The groups of a partition lie in it.
proof fn lemma_group_in(partition: Seq<char>, stats: Seq<WriteStat>, group: Group)
    requires
        groups_in(partition, stats).contains(group),
    ensures
        group.0 == partition,
    decreases stats.len(),
{
    if stats.len() > 0 && groups_in(partition, stats.drop_last()).contains(group) {
        lemma_group_in(partition, stats.drop_last(), group);
    }
}

/// A written group lies in a partition that was written to.
proof fn lemma_written_partition(stats: Seq<(String, Vec<WriteStat>)>, group: Group)
    requires
        written_groups(stats).contains(group),
    ensures
        partitions_of(stats).contains(group.0),
    decreases stats.len(),
{
    if stats.len() > 0 {
        if written_groups(stats.drop_last()).contains(group) {
            lemma_written_partition(stats.drop_last(), group);
        } else {
            lemma_group_in(stats.last().0@, stats.last().1@, group);
        }
    }
}

/// The groups that are named in a partition lie in it.
proof fn lemma_group_named(partition: Seq<char>, file_ids: Seq<String>, group: Group)
    requires
        groups_named(partition, file_ids).contains(group),
    ensures
        group.0 == partition,
    decreases file_ids.len(),
{
    if file_ids.len() > 0 && groups_named(partition, file_ids.drop_last()).contains(group) {
        lemma_group_named(partition, file_ids.drop_last(), group);
    }
}

/// A replaced group lies in a partition that is replaced in.
proof fn lemma_replaced_partition(replaced: Seq<(String, Vec<String>)>, group: Group)
    requires
        replaced_groups(replaced).contains(group),
    ensures
        partitions_of(replaced).contains(group.0),
    decreases replaced.len(),
{
    if replaced.len() > 0 {
        if replaced_groups(replaced.drop_last()).contains(group) {
            lemma_replaced_partition(replaced.drop_last(), group);
        } else {
            lemma_group_named(replaced.last().0@, replaced.last().1@, group);
        }
    }
}

/// A write that replaces partitions conflicts with another that does not replace the table exactly
/// where both touch one partition.
pub proof fn law_partition_overwrite_conflicts_by_partition(a: IntentModel, b: IntentModel)
    requires
        groups_lie_in_partitions(a),
        groups_lie_in_partitions(b),
        replaces_partitions(a),
        !replaces_table(a) && !replaces_table(b),
    ensures
        conflict(a, b) is Some <==> exists|partition: Seq<char>| #[trigger]
            a.touched_partitions.contains(partition) && b.touched_partitions.contains(partition),
{
    let partitions = a.touched_partitions.intersect(b.touched_partitions);
    let groups = a.write_set.intersect(b.write_set);
    if exists|partition: Seq<char>| #[trigger]
        a.touched_partitions.contains(partition) && b.touched_partitions.contains(partition) {
        let partition = choose|partition: Seq<char>| #[trigger]
            a.touched_partitions.contains(partition) && b.touched_partitions.contains(partition);
        assert(partitions.contains(partition));
    } else {
        assert forall|group: Group| !#[trigger] groups.contains(group) by {
            if groups.contains(group) {
                assert(a.write_set.contains(group) && b.write_set.contains(group));
            }
        }
        assert(groups =~= Set::<Group>::empty());
        assert(partitions =~= Set::<Seq<char>>::empty());
    }
}

/// A file with a file id belongs to the file group of its partition and that id.
pub proof fn law_written_file_joins_the_write_set(
    stats: Seq<(String, Vec<WriteStat>)>,
    i: int,
    j: int,
)
    requires
        0 <= i < stats.len(),
        0 <= j < stats[i].1@.len(),
        stats[i].1@[j].file_id matches Some(file_id) && file_id@.len() > 0,
    ensures
        partitions_of(stats).contains(stats[i].0@),
        written_groups(stats).contains((stats[i].0@, stats[i].1@[j].file_id->0@)),
    decreases stats.len(),
{
    if i < stats.len() - 1 {
        law_written_file_joins_the_write_set(stats.drop_last(), i, j);
    } else {
        lemma_file_in_groups(stats[i].0@, stats[i].1@, j);
    }
}

/// A file with a file id belongs to its group.
proof fn lemma_file_in_groups(partition: Seq<char>, stats: Seq<WriteStat>, j: int)
    requires
        0 <= j < stats.len(),
        stats[j].file_id matches Some(file_id) && file_id@.len() > 0,
    ensures
        groups_in(partition, stats).contains((partition, stats[j].file_id->0@)),
    decreases stats.len(),
{
    if j < stats.len() - 1 {
        lemma_file_in_groups(partition, stats.drop_last(), j);
    }
}

/// A replaced file id joins the write set of a replacing action.
pub proof fn law_replaced_file_id_joins_the_write_set(
    replaced: Seq<(String, Vec<String>)>,
    i: int,
    j: int,
)
    requires
        0 <= i < replaced.len(),
        0 <= j < replaced[i].1@.len(),
        replaced[i].1@[j]@.len() > 0,
    ensures
        partitions_of(replaced).contains(replaced[i].0@),
        replaced_groups(replaced).contains((replaced[i].0@, replaced[i].1@[j]@)),
    decreases replaced.len(),
{
    if i < replaced.len() - 1 {
        law_replaced_file_id_joins_the_write_set(replaced.drop_last(), i, j);
    } else {
        lemma_file_id_named(replaced[i].0@, replaced[i].1@, j);
    }
}

/// A file id names its group.
proof fn lemma_file_id_named(partition: Seq<char>, file_ids: Seq<String>, j: int)
    requires
        0 <= j < file_ids.len(),
        file_ids[j]@.len() > 0,
    ensures
        groups_named(partition, file_ids).contains((partition, file_ids[j]@)),
    decreases file_ids.len(),
{
    if j < file_ids.len() - 1 {
        lemma_file_id_named(partition, file_ids.drop_last(), j);
    }
}

} // verus!
