//! Laws of how a transaction begins: which pending files stand in its way, and in what order its
//! steps come.
use vstd::prelude::*;

use crate::error::CoreErrorModel;
use crate::text;
use crate::write::begin;
use crate::write::begin::{BeginModel, BeginStep, PendingFile, ServiceCheckModel};
use crate::write::timeline::Action;

verus! {

/// A pending file is an unsupported table service exactly where it is requested or inflight and is a
/// compaction of either kind, and holds a plan to read exactly where it is any other requested
/// replacement.
pub proof fn law_kinds_of_pending_files(name: Seq<char>)
    ensures
        ({
            let pending = text::has_suffix(name, ".requested"@) || text::has_suffix(
                name,
                ".inflight"@,
            );
            let compaction = text::has_part(name, ".compaction."@) || text::has_part(
                name,
                ".logcompaction."@,
            );
            let replacement = text::has_suffix(name, ".replacecommit.requested"@);
            &&& begin::pending_kind(name) == PendingFile::Unsupported <==> pending && compaction
            &&& begin::pending_kind(name) == PendingFile::Replacement <==> pending && !compaction
                && replacement
        }),
{
}

/// The requested and inflight compactions of every instant stand in the way of a write.
pub proof fn law_pending_compaction_is_unsupported(instant: Seq<char>, of_logs: bool, inflight: bool)
    ensures
        ({
            let service = if of_logs {
                ".logcompaction"@
            } else {
                ".compaction"@
            };
            let state = if inflight {
                ".inflight"@
            } else {
                ".requested"@
            };
            begin::pending_kind(instant + service + state) == PendingFile::Unsupported
        }),
{
    reveal_strlit(".logcompaction");
    reveal_strlit(".logcompaction.");
    reveal_strlit(".compaction");
    reveal_strlit(".compaction.");
    reveal_strlit(".inflight");
    reveal_strlit(".requested");
    let service = if of_logs {
        ".logcompaction"@
    } else {
        ".compaction"@
    };
    let part = if of_logs {
        ".logcompaction."@
    } else {
        ".compaction."@
    };
    let state = if inflight {
        ".inflight"@
    } else {
        ".requested"@
    };
    let name = instant + service + state;
    let n = instant.len() as int;
    assert(part =~= service.push('.'));
    assert(name.subrange(n, n + part.len()) =~= part);
    assert(text::stands_at(name, part, n));
    assert(name.skip(name.len() - state.len()) =~= state);
    assert(text::has_suffix(name, state));
}

/// A part that starts with a dot stands in a text only behind what holds no dot.
proof fn lemma_part_behind(head: Seq<char>, tail: Seq<char>, part: Seq<char>, at: int)
    requires
        !head.contains('.'),
        part.len() > 0,
        part[0] == '.',
        text::stands_at(head + tail, part, at),
    ensures
        text::stands_at(tail, part, at - head.len()),
{
    let all = head + tail;
    assert(all.subrange(at, at + part.len())[0] == all[at]);
    if at < head.len() {
        assert(head[at] == '.');
    }
    let from = at - head.len();
    assert(tail.subrange(from, from + part.len()) =~= all.subrange(at, at + part.len()));
}

/// The pending files of the three actions hold no compaction.
proof fn lemma_no_compaction(
    instant: Seq<char>,
    action: Seq<char>,
    state: Seq<char>,
    part: Seq<char>,
)
    requires
        !instant.contains('.'),
        action == "commit"@ || action == "deltacommit"@ || action == "replacecommit"@,
        state == "requested"@ || state == "inflight"@,
        part == ".compaction."@ || part == ".logcompaction."@,
    ensures
        !text::has_part(instant + ("."@ + (action + ("."@ + state))), part),
{
    reveal_strlit("commit");
    reveal_strlit("deltacommit");
    reveal_strlit("replacecommit");
    reveal_strlit("requested");
    reveal_strlit("inflight");
    reveal_strlit(".compaction.");
    reveal_strlit(".logcompaction.");
    reveal_strlit(".");
    let inner = action + ("."@ + state);
    let tail = "."@ + inner;
    let name = instant + tail;
    assert(!"commit"@.contains('.'));
    assert(!"deltacommit"@.contains('.'));
    assert(!"replacecommit"@.contains('.'));
    assert("requested"@.len() == 9 && "inflight"@.len() == 8);
    assert(part.len() >= 12 && part[0] == '.');
    if text::has_part(name, part) {
        let at = choose|at: int| text::stands_at(name, part, at);
        lemma_part_behind(instant, tail, part, at);
        let from = at - instant.len();
        if from == 0 {
            let shown = tail.subrange(0, part.len() as int);
            assert(shown[1] == action[0]);
            assert(shown[4] == action[3]);
            assert(part[1] == 'c' ==> part[4] == 'p');
            assert("commit"@[3] == 'm');
            assert("commit"@[0] == 'c');
            assert("deltacommit"@[0] == 'd');
            assert("replacecommit"@[0] == 'r');
        } else {
            let inside = from - 1;
            assert(inner.subrange(inside, inside + part.len()) =~= tail.subrange(
                from,
                from + part.len(),
            ));
            assert(text::stands_at(inner, part, inside));
            lemma_part_behind(action, "."@ + state, part, inside);
        }
    }
}

/// A pending ordinary write of another writer is no table service: of the requested and inflight files
/// of the three actions none is unsupported, and only a requested replacement holds a plan to read.
pub proof fn law_pending_writes_are_no_table_services(
    instant: Seq<char>,
    action: Action,
    inflight: bool,
)
    requires
        !instant.contains('.'),
    ensures
        ({
            let kind = match action {
                Action::Commit => "commit"@,
                Action::DeltaCommit => "deltacommit"@,
                Action::ReplaceCommit => "replacecommit"@,
            };
            let state = if inflight {
                "inflight"@
            } else {
                "requested"@
            };
            begin::pending_kind(instant + "."@ + kind + "."@ + state) == if action
                == Action::ReplaceCommit && !inflight {
                PendingFile::Replacement
            } else {
                PendingFile::Harmless
            }
        }),
{
    reveal_strlit("commit");
    reveal_strlit("deltacommit");
    reveal_strlit("replacecommit");
    reveal_strlit("requested");
    reveal_strlit("inflight");
    reveal_strlit(".");
    reveal_strlit(".requested");
    reveal_strlit(".inflight");
    reveal_strlit(".replacecommit.requested");
    let kind = match action {
        Action::Commit => "commit"@,
        Action::DeltaCommit => "deltacommit"@,
        Action::ReplaceCommit => "replacecommit"@,
    };
    let state = if inflight {
        "inflight"@
    } else {
        "requested"@
    };
    let name = instant + "."@ + kind + "."@ + state;
    assert(name =~= instant + ("."@ + (kind + ("."@ + state))));
    lemma_no_compaction(instant, kind, state, ".compaction."@);
    lemma_no_compaction(instant, kind, state, ".logcompaction."@);
    let ending = "."@ + state;
    assert(name.skip(name.len() - ending.len()) =~= ending);
    assert(inflight ==> ending =~= ".inflight"@);
    assert(!inflight ==> ending =~= ".requested"@);
    assert(text::has_suffix(name, ending));
    let plan = ".replacecommit.requested"@;
    assert(plan.len() == 24);
    if inflight {
        if text::has_suffix(name, plan) {
            assert(name.skip(name.len() - 24)[23] == name.last());
            assert(name.last() == state.last());
            assert(".replacecommit.requested"@[23] == 'd' && "inflight"@[7] == 't');
        }
    } else if action == Action::ReplaceCommit {
        let whole = "."@ + kind + "."@ + state;
        assert(whole =~= plan);
        assert(name.skip(name.len() - 24) =~= plan);
    } else if text::has_suffix(name, plan) {
        // The dot before the kind stands where a longer kind has a letter.
        let shown = name.skip(name.len() - 24);
        assert(name[instant.len() as int] == '.');
        if action == Action::Commit {
            assert(name.len() - 17 == instant.len());
            assert(shown[7] == '.');
            assert(plan[7] != '.');
        } else {
            assert(name.len() - 22 == instant.len());
            assert(shown[2] == '.');
            assert(plan[2] != '.');
        }
    }
}

/// The errors that refuse a write name the file that stands in its way.
pub proof fn law_refusals_name_the_file(name: Seq<char>)
    ensures
        begin::unsupported_service(name) == CoreErrorModel::WriteConflict(
            "unsupported pending table service "@ + name + "; refusing to plan an OCC write"@,
        ),
        begin::pending_clustering(name) == CoreErrorModel::WriteConflict(
            "pending clustering plan "@ + name + " is not supported by the Rust OCC writer"@,
        ),
{
}

/// A transaction begins in seven steps, always in this order: table services, rollback, refresh,
/// timeline, archive, heartbeat, registration. What the timeline and the archive gave stays as it is
/// from then on, and the heartbeat's terms do not change.
pub proof fn law_steps_of_a_beginning(trace: Seq<BeginModel>)
    requires
        trace.len() == 7,
        trace[0].step == BeginStep::CheckTableServices,
        trace[0].completion_watermark is None,
        begin::follows(trace[0], trace[1]),
        begin::follows(trace[1], trace[2]),
        begin::follows(trace[2], trace[3]),
        begin::follows(trace[3], trace[4]),
        begin::follows(trace[4], trace[5]),
        begin::follows(trace[5], trace[6]),
    ensures
        trace[1].step == BeginStep::RollBackExpired,
        trace[2].step == BeginStep::RefreshTable,
        trace[3].step == BeginStep::ReadTimeline,
        trace[3].completion_watermark is None,
        trace[4].step == BeginStep::ReadArchive,
        trace[5].step == BeginStep::WriteHeartbeat,
        trace[6].step == BeginStep::Register,
        trace[6].completion_watermark == trace[5].completion_watermark,
        forall|i: int|
            0 <= i < 7 ==> {
                &&& (#[trigger] trace[i]).instant == trace[0].instant
                &&& trace[i].heartbeat_interval == trace[0].heartbeat_interval
                &&& trace[i].tolerable_misses == trace[0].tolerable_misses
            },
{
    assert forall|i: int| 0 <= i < 7 implies {
        &&& (#[trigger] trace[i]).instant == trace[0].instant
        &&& trace[i].heartbeat_interval == trace[0].heartbeat_interval
        &&& trace[i].tolerable_misses == trace[0].tolerable_misses
    } by {
        assert(i == 0 || i == 1 || i == 2 || i == 3 || i == 4 || i == 5 || i == 6);
    }
}

/// The check of table services waits for a plan exactly where the next file is a requested
/// replacement.
pub proof fn law_when_a_plan_is_awaited(check: ServiceCheckModel)
    ensures
        check.awaits_plan() <==> 0 <= check.position < check.names.len() && begin::pending_kind(
            check.names[check.position],
        ) == PendingFile::Replacement,
{
}

} // verus!
