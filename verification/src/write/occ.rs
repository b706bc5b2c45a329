//! File-group optimistic concurrency control.
//!
//! A writer captures the latest completed action at request time, performs its data work without
//! the table lock, then reacquires the lock and compares its `(partition path, file id)` write set
//! with every action completed after that snapshot. Deletes use those file-group conflicts. Dynamic
//! partition overwrites conflict with every write into a target partition, and full-table
//! overwrites conflict with every concurrent data write.
//!
//! This module keeps the transactions that are under way. `begin` starts one, and `validation` says
//! whether it may be committed.
use vstd::prelude::*;

use crate::config::write::{WriteConcurrencyConfig, WriteConcurrencyMode};
use crate::config::HudiConfigs;
use crate::error::{CoreError, CoreErrorModel};
use crate::registry::Registry;
use crate::write::heartbeat;
use crate::write::heartbeat::heartbeat_path;

verus! {

/// Optimistic concurrency control is on for a table with these options.
pub open spec fn is_enabled(options: Map<Seq<char>, Seq<char>>) -> Result<bool, CoreErrorModel> {
    match crate::config::write::resolved(options) {
        Ok(config) => Ok(config.mode == WriteConcurrencyMode::OptimisticConcurrencyControl),
        Err(error) => Err(error),
    }
}

/// Whether optimistic concurrency control is on for a table with these options.
pub fn enabled(configs: &HudiConfigs) -> (r: Result<bool, CoreError>)
    ensures
        match r {
            Ok(on) => is_enabled(configs@) == Ok::<_, CoreErrorModel>(on),
            Err(error) => is_enabled(configs@) == Err::<bool, _>(error@),
        },
{
    let config: WriteConcurrencyConfig = WriteConcurrencyConfig::from_configs(configs)?;
    Ok(config.mode == WriteConcurrencyMode::OptimisticConcurrencyControl)
}

/// The name under which the transaction of an instant is registered.
pub open spec fn key_of(base_url: Seq<char>, instant: Seq<char>) -> Seq<char> {
    base_url + "#"@ + instant
}

/// The name under which the transaction of an instant is registered.
pub fn transaction_key(base_url: &str, instant: &str) -> (r: String)
    ensures
        r@ == key_of(base_url@, instant@),
{
    base_url.to_owned().concat("#").concat(instant)
}

/// Two transactions cannot be mistaken for each other by their names: their URLs or their instants
/// are of one length, as for one table, or the instant that stands behind the shorter URL holds no
/// `#`.
pub open spec fn tell_apart(
    first_url: Seq<char>,
    first: Seq<char>,
    second_url: Seq<char>,
    second: Seq<char>,
) -> bool {
    ||| first_url.len() == second_url.len()
    ||| first.len() == second.len()
    ||| first_url.len() < second_url.len() && !first.contains('#')
    ||| second_url.len() < first_url.len() && !second.contains('#')
}

/// Transactions of different tables or instants have different names. Those of one table always do.
pub proof fn law_transaction_keys_differ(
    first_url: Seq<char>,
    first: Seq<char>,
    second_url: Seq<char>,
    second: Seq<char>,
)
    requires
        tell_apart(first_url, first, second_url, second),
    ensures
        key_of(first_url, first) == key_of(second_url, second) <==> first_url == second_url && first
            == second,
{
    reveal_strlit("#");
    let a = key_of(first_url, first);
    let b = key_of(second_url, second);
    if a == b {
        let n = first_url.len() as int;
        let m = second_url.len() as int;
        assert(a.len() == n + 1 + first.len());
        assert(b.len() == m + 1 + second.len());
        assert(a[n] == '#');
        assert(b[m] == '#');
        if n < m {
            assert(a[m] == first[m - n - 1]);
            assert(first.contains('#'));
        }
        if m < n {
            assert(b[n] == second[n - m - 1]);
            assert(second.contains('#'));
        }
        assert(n == m);
        assert(first_url =~= a.take(n));
        assert(second_url =~= b.take(n));
        assert(first =~= a.skip(n + 1));
        assert(second =~= b.skip(n + 1));
    }
}

/// What a writer retains of the table as it was when its write began, with a handle of its
/// heartbeat.
#[derive(Debug)]
pub struct Snapshot<H> {
    /// The latest completion at that time.
    pub completion_watermark: Option<String>,
    pub heartbeat: H,
}

/// What is left to do for a transaction that is over.
#[derive(Debug)]
pub struct FinishedTransaction<H> {
    /// The heartbeat to stop.
    pub heartbeat: H,
    /// The heartbeat file to delete.
    pub heartbeat_path: String,
}

/// What is registered for an instant, if anything is.
pub open spec fn registered<H>(
    transactions: Map<Seq<char>, Snapshot<H>>,
    base_url: Seq<char>,
    instant: Seq<char>,
) -> Option<Snapshot<H>> {
    if transactions.contains_key(key_of(base_url, instant)) {
        Some(transactions[key_of(base_url, instant)])
    } else {
        None
    }
}

/// What is registered for an instant, if anything is.
pub fn snapshot_of<'a, H>(
    transactions: &'a Registry<Snapshot<H>>,
    base_url: &str,
    instant: &str,
) -> (r: Option<&'a Snapshot<H>>)
    ensures
        match r {
            Some(snapshot) => registered(transactions@, base_url@, instant@) == Some(*snapshot),
            None => registered(transactions@, base_url@, instant@) is None,
        },
{
    transactions.get(&transaction_key(base_url, instant))
}

/// What is left to do for a transaction that was forgotten: to stop its heartbeat and to delete its
/// heartbeat file, where it was registered, else nothing.
pub open spec fn is_finish<H>(
    snapshot: Option<Snapshot<H>>,
    instant: Seq<char>,
    finished: Option<FinishedTransaction<H>>,
) -> bool {
    match snapshot {
        Some(taken) => {
            &&& finished matches Some(left)
            &&& left.heartbeat == taken.heartbeat
            &&& left.heartbeat_path@ == heartbeat::heartbeat_file(instant)
        },
        None => finished is None,
    }
}

/// Forget a completed or aborted writer transaction. Where it was registered, its heartbeat is to be
/// stopped and the heartbeat file deleted.
pub fn finish_transaction<H>(
    transactions: &mut Registry<Snapshot<H>>,
    base_url: &str,
    instant: &str,
) -> (r: Option<FinishedTransaction<H>>)
    ensures
        final(transactions)@ == old(transactions)@.remove(key_of(base_url@, instant@)),
        is_finish(registered(old(transactions)@, base_url@, instant@), instant@, r),
{
    match transactions.remove(&transaction_key(base_url, instant)) {
        Some(snapshot) => Some(
            FinishedTransaction {
                heartbeat: snapshot.heartbeat,
                heartbeat_path: heartbeat_path(instant),
            },
        ),
        None => None,
    }
}

/// Forget a transaction whose writer gave up. Where it was registered, its heartbeat is to be
/// stopped. The heartbeat file stays: its age is the grace period before the instant is rolled back.
pub fn abandon_transaction<H>(
    transactions: &mut Registry<Snapshot<H>>,
    base_url: &str,
    instant: &str,
) -> (r: Option<H>)
    ensures
        final(transactions)@ == old(transactions)@.remove(key_of(base_url@, instant@)),
        r == match registered(old(transactions)@, base_url@, instant@) {
            Some(snapshot) => Some(snapshot.heartbeat),
            None => None,
        },
{
    match transactions.remove(&transaction_key(base_url, instant)) {
        Some(snapshot) => Some(snapshot.heartbeat),
        None => None,
    }
}

/// Transactions do not interfere: to register or to forget one leaves every other one as it is. That
/// holds of any two instants of one table.
pub proof fn law_transactions_do_not_interfere<H>(
    transactions: Map<Seq<char>, Snapshot<H>>,
    base_url: Seq<char>,
    instant: Seq<char>,
    snapshot: Snapshot<H>,
    other_url: Seq<char>,
    other: Seq<char>,
)
    requires
        base_url != other_url || instant != other,
        tell_apart(base_url, instant, other_url, other),
    ensures
        ({
            let key = key_of(base_url, instant);
            let untouched = key_of(other_url, other);
            let registered = transactions.insert(key, snapshot);
            let forgotten = transactions.remove(key);
            &&& registered.contains_key(untouched) == transactions.contains_key(untouched)
            &&& forgotten.contains_key(untouched) == transactions.contains_key(untouched)
            &&& transactions.contains_key(untouched) ==> registered[untouched]
                == transactions[untouched] && forgotten[untouched] == transactions[untouched]
        }),
{
    law_transaction_keys_differ(base_url, instant, other_url, other);
}

/// A change of what is registered: a snapshot that comes under a name, or the name that goes.
pub struct RegistryChange<H> {
    pub key: Seq<char>,
    pub snapshot: Option<Snapshot<H>>,
}

/// What is registered after changes, one after the other.
pub open spec fn after_changes<H>(
    transactions: Map<Seq<char>, Snapshot<H>>,
    changes: Seq<RegistryChange<H>>,
) -> Map<Seq<char>, Snapshot<H>>
    decreases changes.len(),
{
    if changes.len() == 0 {
        transactions
    } else {
        let before = after_changes(transactions, changes.drop_last());
        match changes.last().snapshot {
            Some(snapshot) => before.insert(changes.last().key, snapshot),
            None => before.remove(changes.last().key),
        }
    }
}

/// A transaction that is forgotten stays so, whatever is registered and forgotten later, until a
/// snapshot is registered under its own name again.
pub proof fn law_forgotten_transaction_stays_forgotten<H>(
    transactions: Map<Seq<char>, Snapshot<H>>,
    base_url: Seq<char>,
    instant: Seq<char>,
    changes: Seq<RegistryChange<H>>,
)
    requires
        forall|i: int|
            0 <= i < changes.len() && (#[trigger] changes[i]).snapshot is Some ==> changes[i].key
                != key_of(base_url, instant),
    ensures
        registered(
            after_changes(transactions.remove(key_of(base_url, instant)), changes),
            base_url,
            instant,
        ) is None,
    decreases changes.len(),
{
    if changes.len() > 0 {
        let earlier = changes.drop_last();
        assert forall|i: int|
            0 <= i < earlier.len() && (#[trigger] earlier[i]).snapshot is Some implies earlier[i].key
            != key_of(base_url, instant) by {
            assert(earlier[i] == changes[i]);
        }
        law_forgotten_transaction_stays_forgotten(transactions, base_url, instant, earlier);
        assert(changes.last() == changes[changes.len() - 1]);
    }
}

} // verus!
