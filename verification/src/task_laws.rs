//! Properties of the task state machine that relate several operations or
//! several functions.

use crate::api::{
    apply_spec, finished_from, finished_ids, live_ids, restored, LiveTaskView,
    OpKindView, SnapshotView, TaskStatus,
};
use crate::habitica_integration::client::{
    is_success, request_spec, Direction, HabiticaClientView, HttpMethod, RequestBodyView, Task,
};
use crate::task_updates::{
    call_request, planned_call, snapshot_from_tasks_spec, task_done, times_out, HabiticaCallView,
    CLIENT_TIMEOUT_NANOS,
};
use crate::utils::int_decimal;
use vstd::prelude::*;

verus! {

/// Overwriting the state yields exactly the given state, whatever came before.
pub proof fn lemma_overwrite_replaces_state(s: SnapshotView, n: SnapshotView)
    ensures
        apply_spec(s, OpKindView::OverwriteState(n)) == n,
{
}

/// Finishing a live task and then restoring it puts the task, unchanged, at
/// the front of the live list, and leaves the finished list as it was.
pub proof fn lemma_finish_then_restore(s: SnapshotView, id: Seq<char>, status: TaskStatus)
    requires
        live_ids(s.live).contains(id),
    ensures
        ({
            let p = live_ids(s.live).index_of_first(id)->0;
            let s2 = apply_spec(
                apply_spec(s, OpKindView::FinishLiveTask { id, status }),
                OpKindView::RestoreFinishedTask { id },
            );
            &&& s2.finished == s.finished
            &&& s2.live == seq![s.live[p]] + s.live.remove(p)
        }),
{
    let ids = live_ids(s.live);
    ids.index_of_first_ensures(id);
    let p = ids.index_of_first(id)->0;
    let f = finished_from(s.live[p], id, status);
    let s1 = apply_spec(s, OpKindView::FinishLiveTask { id, status });
    assert(s1.finished == seq![f] + s.finished);
    let fids = finished_ids(s1.finished);
    assert(fids[0] == id);
    fids.index_of_first_ensures(id);
    assert(fids.index_of_first(id) == Some(0int));
    assert(s1.finished.remove(0) =~= s.finished);
    assert(restored(f) == s.live[p]);
}

/// Finishing the first live task and then restoring it gives back the state
/// as it was.
pub proof fn lemma_finish_first_then_restore_is_identity(
    s: SnapshotView,
    id: Seq<char>,
    status: TaskStatus,
)
    requires
        s.live.len() > 0,
        s.live[0].id == id,
    ensures
        apply_spec(
            apply_spec(s, OpKindView::FinishLiveTask { id, status }),
            OpKindView::RestoreFinishedTask { id },
        ) == s,
{
    let ids = live_ids(s.live);
    assert(ids[0] == id);
    ids.index_of_first_ensures(id);
    assert(ids.index_of_first(id) == Some(0int));
    lemma_finish_then_restore(s, id, status);
    assert(seq![s.live[0]] + s.live.remove(0) =~= s.live);
}

proof fn lemma_filter_keeps_all<A>(s: Seq<A>, p: spec_fn(A) -> bool)
    requires
        forall|i: int| 0 <= i < s.len() ==> p(s[i]),
    ensures
        s.filter(p) == s,
    decreases s.len(),
{
    reveal(Seq::filter);
    if s.len() > 0 {
        lemma_filter_keeps_all(s.drop_last(), p);
        assert(p(s.last()));
        assert(s.drop_last().push(s.last()) =~= s);
    }
}

/// Inserting a live task under an id no live task carries and then deleting
/// that id gives back the state as it was.
pub proof fn lemma_insert_then_delete_is_identity(
    s: SnapshotView,
    id: Seq<char>,
    value: Seq<char>,
    deadline: Option<u64>,
)
    requires
        !live_ids(s.live).contains(id),
    ensures
        apply_spec(
            apply_spec(s, OpKindView::InsLiveTask { id, value, deadline }),
            OpKindView::DelLiveTask { id },
        ) == s,
{
    let t = LiveTaskView { id, value, managed: None, deadline };
    let p = |x: LiveTaskView| x.id != id;
    s.live.lemma_filter_prepend(t, p);
    assert forall|i: int| 0 <= i < s.live.len() implies p(s.live[i]) by {
        assert(live_ids(s.live)[i] == s.live[i].id);
    }
    lemma_filter_keeps_all(s.live, p);
    assert(Seq::<LiveTaskView>::empty() + s.live =~= s.live);
}

/// After deleting an id no live task carries it, and deleting it again
/// changes nothing.
pub proof fn lemma_delete_is_idempotent(s: SnapshotView, id: Seq<char>)
    ensures
        !live_ids(apply_spec(s, OpKindView::DelLiveTask { id }).live).contains(id),
        apply_spec(
            apply_spec(s, OpKindView::DelLiveTask { id }),
            OpKindView::DelLiveTask { id },
        ) == apply_spec(s, OpKindView::DelLiveTask { id }),
{
    broadcast use vstd::seq_lib::group_filter_ensures;

    let p = |x: LiveTaskView| x.id != id;
    let f = s.live.filter(p);
    assert forall|i: int| 0 <= i < f.len() implies p(f[i]) by {}
    lemma_filter_keeps_all(f, p);
    if live_ids(f).contains(id) {
        let k = choose|k: int| 0 <= k < live_ids(f).len() && live_ids(f)[k] == id;
        assert(p(f[k]));
    }
}

/// Operations that move, edit, restore or finish tasks neither create nor
/// lose tasks; inserting adds exactly one.
pub proof fn lemma_task_count(s: SnapshotView, op: OpKindView)
    ensures
        ({
            let n = apply_spec(s, op);
            &&& (op is RestoreFinishedTask || op is EditLiveTask || op is MvLiveTask
                || op is RevLiveTask || op is FinishLiveTask) ==> n.live.len() + n.finished.len()
                == s.live.len() + s.finished.len()
            &&& op is InsLiveTask ==> n.live.len() == s.live.len() + 1 && n.finished == s.finished
        }),
{
    match op {
        OpKindView::RestoreFinishedTask { id } => {
            finished_ids(s.finished).index_of_first_ensures(id);
        },
        OpKindView::EditLiveTask { id, value, deadline } => {
            live_ids(s.live).index_of_first_ensures(id);
        },
        OpKindView::MvLiveTask { id_del, id_ins } => {
            live_ids(s.live).index_of_first_ensures(id_ins);
            live_ids(s.live).index_of_first_ensures(id_del);
        },
        OpKindView::FinishLiveTask { id, status } => {
            live_ids(s.live).index_of_first_ensures(id);
        },
        _ => {},
    }
}

/// Moving a task reorders the live tasks only: the same tasks remain, as
/// many times each, and the finished tasks are untouched.
pub proof fn lemma_move_permutes_live(s: SnapshotView, id_del: Seq<char>, id_ins: Seq<char>)
    ensures
        apply_spec(s, OpKindView::MvLiveTask { id_del, id_ins }).live.to_multiset()
            == s.live.to_multiset(),
        apply_spec(s, OpKindView::MvLiveTask { id_del, id_ins }).finished == s.finished,
{
    broadcast use vstd::seq_lib::group_to_multiset_ensures;
    broadcast use vstd::multiset::group_multiset_axioms;

    let ids = live_ids(s.live);
    ids.index_of_first_ensures(id_ins);
    ids.index_of_first_ensures(id_del);
    match (ids.index_of_first(id_ins), ids.index_of_first(id_del)) {
        (Some(i), Some(d)) => {
            let r = s.live.remove(d);
            assert(r.insert(i, s.live[d]).to_multiset() == r.to_multiset().insert(s.live[d]));
            assert(r.to_multiset() == s.live.to_multiset().remove(s.live[d]));
            assert(s.live.to_multiset().count(s.live[d]) > 0) by {
                assert(s.live.contains(s.live[d]));
            }
            assert(s.live.to_multiset().remove(s.live[d]).insert(s.live[d]) =~= s.live.to_multiset());
        },
        _ => {},
    }
}

/// The Habitica move that mirrors a local move targets the very position the
/// moved task takes in the local live list.
pub proof fn lemma_move_call_matches_local_move(
    s: SnapshotView,
    id_del: Seq<char>,
    id_ins: Seq<char>,
)
    requires
        live_ids(s.live).contains(id_del),
        live_ids(s.live).contains(id_ins),
    ensures
        ({
            let i = live_ids(s.live).index_of_first(id_ins)->0;
            let n = apply_spec(s, OpKindView::MvLiveTask { id_del, id_ins });
            &&& planned_call(s, OpKindView::MvLiveTask { id_del, id_ins }) == Some(
                HabiticaCallView::MoveTask { id: id_del, location: i as i64 },
            )
            &&& 0 <= i < n.live.len()
            &&& n.live[i].id == id_del
        }),
{
    let ids = live_ids(s.live);
    ids.index_of_first_ensures(id_ins);
    ids.index_of_first_ensures(id_del);
    let i = ids.index_of_first(id_ins)->0;
    let d = ids.index_of_first(id_del)->0;
    assert(ids[d] == s.live[d].id);
    s.live.remove(d).insert_ensures(i, s.live[d]);
}

/// Editing a task changes no task's id and no finished task.
pub proof fn lemma_edit_keeps_ids(s: SnapshotView, id: Seq<char>, value: Seq<char>, deadline: Option<u64>)
    ensures
        live_ids(apply_spec(s, OpKindView::EditLiveTask { id, value, deadline }).live) == live_ids(
            s.live,
        ),
        apply_spec(s, OpKindView::EditLiveTask { id, value, deadline }).finished == s.finished,
{
    let ids = live_ids(s.live);
    ids.index_of_first_ensures(id);
    let n = apply_spec(s, OpKindView::EditLiveTask { id, value, deadline });
    assert(live_ids(n.live) =~= ids);
}

/// A client heard from at `since` survives every heartbeat up to the client
/// timeout after it, and times out at any later heartbeat.
pub proof fn lemma_heartbeat_window(since: u64, now: u64)
    ensures
        now <= since + CLIENT_TIMEOUT_NANOS ==> !times_out(since, now),
        now > since + CLIENT_TIMEOUT_NANOS ==> times_out(since, now),
{
}

proof fn lemma_filter_split_len<A>(s: Seq<A>, p: spec_fn(A) -> bool, q: spec_fn(A) -> bool)
    requires
        forall|x: A| #[trigger] q(x) == !p(x),
    ensures
        s.filter(p).len() + s.filter(q).len() == s.len(),
    decreases s.len(),
{
    reveal(Seq::filter);
    if s.len() > 0 {
        lemma_filter_split_len(s.drop_last(), p, q);
        assert(q(s.last()) == !p(s.last()));
    }
}

/// Every Habitica task lands in exactly one of the two lists of the state
/// built from them.
pub proof fn lemma_snapshot_from_tasks_keeps_every_task(tasks: Seq<Task>)
    ensures
        snapshot_from_tasks_spec(tasks).live.len() + snapshot_from_tasks_spec(tasks).finished.len()
            == tasks.len(),
{
    lemma_filter_split_len(tasks, |t: Task| task_done(t), |t: Task| !task_done(t));
}

/// The ids of all tasks of a state, live ones first.
pub open spec fn all_ids(s: SnapshotView) -> Seq<Seq<char>> {
    live_ids(s.live) + finished_ids(s.finished)
}

/// Whether no two tasks of a state, live or finished, share an id.
pub open spec fn ids_distinct(s: SnapshotView) -> bool {
    all_ids(s).no_duplicates()
}

proof fn lemma_no_duplicates_by_counts(a: Seq<Seq<char>>, b: Seq<Seq<char>>)
    requires
        a.no_duplicates(),
        forall|x: Seq<char>| b.to_multiset().count(x) <= a.to_multiset().count(x),
    ensures
        b.no_duplicates(),
{
    broadcast use vstd::multiset::group_multiset_axioms;

    a.lemma_multiset_has_no_duplicates();
    assert forall|x: Seq<char>| b.to_multiset().contains(x) implies b.to_multiset().count(x)
        == 1 by {
        assert(b.to_multiset().count(x) <= a.to_multiset().count(x));
        assert(a.to_multiset().contains(x));
    }
    b.lemma_multiset_has_no_duplicates_conv();
}

proof fn lemma_all_ids_multiset(s: SnapshotView)
    ensures
        all_ids(s).to_multiset() == live_ids(s.live).to_multiset().add(
            finished_ids(s.finished).to_multiset(),
        ),
{
    vstd::seq_lib::lemma_multiset_commutative(live_ids(s.live), finished_ids(s.finished));
}

proof fn lemma_prepend_multiset(x: Seq<char>, s: Seq<Seq<char>>)
    ensures
        (seq![x] + s).to_multiset() == s.to_multiset().insert(x),
{
    broadcast use vstd::multiset::group_multiset_axioms;
    broadcast use vstd::seq_lib::group_to_multiset_ensures;

    vstd::seq_lib::lemma_multiset_commutative(seq![x], s);
    assert(seq![x] =~= Seq::<Seq<char>>::empty().push(x));
    assert(seq![x].to_multiset() =~= vstd::multiset::Multiset::<Seq<char>>::empty().insert(x));
    assert((seq![x] + s).to_multiset() =~= s.to_multiset().insert(x));
}

proof fn lemma_filter_ids_count(s: Seq<LiveTaskView>, id: Seq<char>, x: Seq<char>)
    ensures
        live_ids(s.filter(|t: LiveTaskView| t.id != id)).to_multiset().count(x) <= live_ids(
            s,
        ).to_multiset().count(x),
    decreases s.len(),
{
    broadcast use vstd::multiset::group_multiset_axioms;
    broadcast use vstd::seq_lib::group_to_multiset_ensures;

    reveal(Seq::filter);
    let p = |t: LiveTaskView| t.id != id;
    if s.len() > 0 {
        let d = s.drop_last();
        lemma_filter_ids_count(d, id, x);
        assert(live_ids(s) =~= live_ids(d).push(s.last().id));
        if p(s.last()) {
            assert(live_ids(d.filter(p).push(s.last())) =~= live_ids(d.filter(p)).push(
                s.last().id,
            ));
        }
    }
}

/// Operations keep the ids of a state distinct, unless they bring in an id
/// that is already taken: an insert under an id some task carries, or an
/// overwrite with a state whose own ids repeat.
pub proof fn lemma_ids_stay_distinct(s: SnapshotView, op: OpKindView)
    requires
        ids_distinct(s),
        op is InsLiveTask ==> !all_ids(s).contains(op->InsLiveTask_id),
        op is OverwriteState ==> ids_distinct(op->OverwriteState_0),
    ensures
        ids_distinct(apply_spec(s, op)),
{
    broadcast use vstd::multiset::group_multiset_axioms;
    broadcast use vstd::seq_lib::group_to_multiset_ensures;

    let n = apply_spec(s, op);
    let ls = live_ids(s.live);
    let fs = finished_ids(s.finished);
    lemma_all_ids_multiset(s);
    lemma_all_ids_multiset(n);
    match op {
        OpKindView::OverwriteState(t) => {},
        OpKindView::InsLiveTask { id, value, deadline } => {
            assert(all_ids(n) =~= seq![id] + all_ids(s));
            lemma_prepend_multiset(id, all_ids(s));
            all_ids(s).lemma_multiset_has_no_duplicates();
            assert forall|x: Seq<char>| all_ids(n).to_multiset().contains(x) implies all_ids(
                n,
            ).to_multiset().count(x) == 1 by {
                if x != id {
                    assert(all_ids(s).to_multiset().contains(x));
                } else {
                    assert(!all_ids(s).to_multiset().contains(id));
                }
            }
            all_ids(n).lemma_multiset_has_no_duplicates_conv();
        },
        OpKindView::RestoreFinishedTask { id } => {
            fs.index_of_first_ensures(id);
            match fs.index_of_first(id) {
                Some(p) => {
                    let fid = fs[p];
                    assert(live_ids(n.live) =~= seq![fid] + ls);
                    assert(finished_ids(n.finished) =~= fs.remove(p));
                    lemma_prepend_multiset(fid, ls);
                    assert(fs.to_multiset().contains(fid)) by {
                        assert(fs.contains(fid));
                    }
                    assert(all_ids(n).to_multiset() =~= all_ids(s).to_multiset());
                    lemma_no_duplicates_by_counts(all_ids(s), all_ids(n));
                },
                None => {},
            }
        },
        OpKindView::EditLiveTask { id, value, deadline } => {
            lemma_edit_keeps_ids(s, id, value, deadline);
            assert(all_ids(n) =~= all_ids(s));
        },
        OpKindView::DelLiveTask { id } => {
            assert forall|x: Seq<char>| all_ids(n).to_multiset().count(x) <= all_ids(
                s,
            ).to_multiset().count(x) by {
                lemma_filter_ids_count(s.live, id, x);
            }
            lemma_no_duplicates_by_counts(all_ids(s), all_ids(n));
        },
        OpKindView::MvLiveTask { id_del, id_ins } => {
            ls.index_of_first_ensures(id_ins);
            ls.index_of_first_ensures(id_del);
            match (ls.index_of_first(id_ins), ls.index_of_first(id_del)) {
                (Some(i), Some(d)) => {
                    let r = s.live.remove(d);
                    s.live.remove_ensures(d);
                    r.insert_ensures(i, s.live[d]);
                    ls.remove_ensures(d);
                    ls.remove(d).insert_ensures(i, ls[d]);
                    assert(live_ids(n.live) =~= ls.remove(d).insert(i, ls[d]));
                    assert(ls.to_multiset().contains(ls[d])) by {
                        assert(ls.contains(ls[d]));
                    }
                    assert(live_ids(n.live).to_multiset() =~= ls.to_multiset());
                    assert(all_ids(n).to_multiset() =~= all_ids(s).to_multiset());
                    lemma_no_duplicates_by_counts(all_ids(s), all_ids(n));
                },
                _ => {},
            }
        },
        OpKindView::RevLiveTask { id1, id2 } => {},
        OpKindView::FinishLiveTask { id, status } => {
            ls.index_of_first_ensures(id);
            match ls.index_of_first(id) {
                Some(p) => {
                    assert(finished_ids(n.finished) =~= seq![id] + fs);
                    assert(live_ids(n.live) =~= ls.remove(p));
                    lemma_prepend_multiset(id, fs);
                    assert(ls.to_multiset().contains(id)) by {
                        assert(ls.contains(ls[p]));
                    }
                    assert(all_ids(n).to_multiset() =~= all_ids(s).to_multiset());
                    lemma_no_duplicates_by_counts(all_ids(s), all_ids(n));
                },
                None => {},
            }
        },
    }
}

/// Finishing a live task moves it to the front of the finished list with the
/// operation's own status and the task's text, takes it out of the live list,
/// and keeps the other finished tasks behind it.
pub proof fn lemma_finish_records_status(s: SnapshotView, id: Seq<char>, status: TaskStatus)
    requires
        live_ids(s.live).contains(id),
    ensures
        ({
            let p = live_ids(s.live).index_of_first(id)->0;
            let n = apply_spec(s, OpKindView::FinishLiveTask { id, status });
            &&& 0 <= p < s.live.len()
            &&& s.live[p].id == id
            &&& n.finished.len() == s.finished.len() + 1
            &&& n.finished[0].status == status
            &&& n.finished[0].id == id
            &&& n.finished[0].value == s.live[p].value
            &&& n.finished[0].managed == s.live[p].managed
            &&& n.finished[0].deadline == s.live[p].deadline
            &&& n.finished.subrange(1, n.finished.len() as int) == s.finished
            &&& n.live == s.live.remove(p)
        }),
{
    let ids = live_ids(s.live);
    ids.index_of_first_ensures(id);
    let p = ids.index_of_first(id)->0;
    assert(ids[p] == s.live[p].id);
    let n = apply_spec(s, OpKindView::FinishLiveTask { id, status });
    assert(n.finished.subrange(1, n.finished.len() as int) =~= s.finished);
}

/// Inserting puts a new live task with the given id, text and deadline and no
/// managing service in front of the live tasks, which follow unchanged.
pub proof fn lemma_insert_fields(
    s: SnapshotView,
    id: Seq<char>,
    value: Seq<char>,
    deadline: Option<u64>,
)
    ensures
        ({
            let n = apply_spec(s, OpKindView::InsLiveTask { id, value, deadline });
            &&& n.live.len() == s.live.len() + 1
            &&& n.live[0].id == id
            &&& n.live[0].value == value
            &&& n.live[0].managed is None
            &&& n.live[0].deadline == deadline
            &&& n.live.subrange(1, n.live.len() as int) == s.live
            &&& n.finished == s.finished
        }),
{
    let n = apply_spec(s, OpKindView::InsLiveTask { id, value, deadline });
    assert(n.live.subrange(1, n.live.len() as int) =~= s.live);
}

/// Editing changes the text of the first live task with the id and nothing
/// else: its id, managing service and deadline stay, every other task stays.
pub proof fn lemma_edit_fields(
    s: SnapshotView,
    id: Seq<char>,
    value: Seq<char>,
    deadline: Option<u64>,
)
    requires
        live_ids(s.live).contains(id),
    ensures
        ({
            let p = live_ids(s.live).index_of_first(id)->0;
            let n = apply_spec(s, OpKindView::EditLiveTask { id, value, deadline });
            &&& 0 <= p < s.live.len()
            &&& s.live[p].id == id
            &&& forall|k: int| 0 <= k < p ==> s.live[k].id != id
            &&& n.live.len() == s.live.len()
            &&& n.live[p].value == value
            &&& n.live[p].id == s.live[p].id
            &&& n.live[p].managed == s.live[p].managed
            &&& n.live[p].deadline == s.live[p].deadline
            &&& forall|k: int| 0 <= k < s.live.len() && k != p ==> n.live[k] == s.live[k]
            &&& n.finished == s.finished
        }),
{
    let ids = live_ids(s.live);
    ids.index_of_first_ensures(id);
    let p = ids.index_of_first(id)->0;
    assert(ids[p] == s.live[p].id);
    assert forall|k: int| 0 <= k < p implies s.live[k].id != id by {
        assert(ids[k] == s.live[k].id);
    }
}

/// Restoring takes the first finished task with the id out of the finished
/// list and puts it, with its text, managing service and deadline, in front of
/// the live tasks.
pub proof fn lemma_restore_fields(s: SnapshotView, id: Seq<char>)
    requires
        finished_ids(s.finished).contains(id),
    ensures
        ({
            let p = finished_ids(s.finished).index_of_first(id)->0;
            let n = apply_spec(s, OpKindView::RestoreFinishedTask { id });
            &&& 0 <= p < s.finished.len()
            &&& s.finished[p].id == id
            &&& n.live.len() == s.live.len() + 1
            &&& n.live[0].id == id
            &&& n.live[0].value == s.finished[p].value
            &&& n.live[0].managed == s.finished[p].managed
            &&& n.live[0].deadline == s.finished[p].deadline
            &&& n.live.subrange(1, n.live.len() as int) == s.live
            &&& n.finished == s.finished.remove(p)
        }),
{
    let ids = finished_ids(s.finished);
    ids.index_of_first_ensures(id);
    let p = ids.index_of_first(id)->0;
    assert(ids[p] == s.finished[p].id);
    let n = apply_spec(s, OpKindView::RestoreFinishedTask { id });
    assert(n.live.subrange(1, n.live.len() as int) =~= s.live);
}

/// Deleting keeps exactly the live tasks whose id differs: none with the id
/// remains, every other live task remains, and nothing is added.
pub proof fn lemma_delete_fields(s: SnapshotView, id: Seq<char>)
    ensures
        ({
            let n = apply_spec(s, OpKindView::DelLiveTask { id });
            &&& forall|k: int| 0 <= k < n.live.len() ==> #[trigger] n.live[k].id != id
                && s.live.contains(n.live[k])
            &&& forall|k: int| 0 <= k < s.live.len() && #[trigger] s.live[k].id != id
                ==> n.live.contains(s.live[k])
            &&& n.live.len() <= s.live.len()
            &&& n.finished == s.finished
        }),
{
    broadcast use vstd::seq_lib::group_filter_ensures;

    let p = |t: LiveTaskView| t.id != id;
    let n = apply_spec(s, OpKindView::DelLiveTask { id });
    assert forall|k: int| 0 <= k < n.live.len() implies #[trigger] n.live[k].id != id
        && s.live.contains(n.live[k]) by {
        assert(p(n.live[k]));
        assert(n.live.contains(n.live[k]));
        s.live.lemma_filter_contains_rev(p, n.live[k]);
    }
    assert forall|k: int| 0 <= k < s.live.len() && #[trigger] s.live[k].id != id implies n.live.contains(
        s.live[k],
    ) by {
        s.live.lemma_filter_contains(p, k);
    }
}

/// An operation whose task cannot be found changes nothing: editing or
/// finishing an id no live task carries, restoring an id no finished task
/// carries, or moving when either id is missing.
pub proof fn lemma_missing_task_changes_nothing(
    s: SnapshotView,
    id: Seq<char>,
    other: Seq<char>,
    value: Seq<char>,
    deadline: Option<u64>,
    status: TaskStatus,
)
    ensures
        !live_ids(s.live).contains(id) ==> apply_spec(
            s,
            OpKindView::EditLiveTask { id, value, deadline },
        ) == s,
        !live_ids(s.live).contains(id) ==> apply_spec(s, OpKindView::FinishLiveTask { id, status })
            == s,
        !finished_ids(s.finished).contains(id) ==> apply_spec(
            s,
            OpKindView::RestoreFinishedTask { id },
        ) == s,
        !live_ids(s.live).contains(id) ==> apply_spec(
            s,
            OpKindView::MvLiveTask { id_del: id, id_ins: other },
        ) == s,
        !live_ids(s.live).contains(id) ==> apply_spec(
            s,
            OpKindView::MvLiveTask { id_del: other, id_ins: id },
        ) == s,
{
    live_ids(s.live).index_of_first_ensures(id);
    live_ids(s.live).index_of_first_ensures(other);
    finished_ids(s.finished).index_of_first_ensures(id);
}

/// The Habitica call that mirrors each operation, whatever the state: an
/// insert creates a to-do with the task's text, a restore scores the task
/// down, an edit sends the new text, a delete deletes, and a finish scores the
/// task up whatever status it was finished with.
pub proof fn lemma_planned_calls(
    s: SnapshotView,
    id: Seq<char>,
    value: Seq<char>,
    deadline: Option<u64>,
    status: TaskStatus,
)
    ensures
        planned_call(s, OpKindView::FinishLiveTask { id, status }) == Some(
            HabiticaCallView::ScoreTask { id, direction: Direction::Up },
        ),
        planned_call(s, OpKindView::RestoreFinishedTask { id }) == Some(
            HabiticaCallView::ScoreTask { id, direction: Direction::Down },
        ),
        planned_call(s, OpKindView::InsLiveTask { id, value, deadline }) == Some(
            HabiticaCallView::InsertTodo { id, text: value },
        ),
        planned_call(s, OpKindView::EditLiveTask { id, value, deadline }) == Some(
            HabiticaCallView::UpdateTask { id, text: value },
        ),
        planned_call(s, OpKindView::DelLiveTask { id }) == Some(
            HabiticaCallView::DeleteTask { id },
        ),
        planned_call(s, OpKindView::MvLiveTask { id_del: id, id_ins: value }) is None
            <==> !live_ids(s.live).contains(value),
{
    live_ids(s.live).index_of_first_ensures(value);
}

/// Whether some live task of `s` carries `id`.
pub open spec fn live_has_id(s: SnapshotView, id: Seq<char>) -> bool {
    exists|j: int| 0 <= j < s.live.len() && #[trigger] s.live[j].id == id
}

/// Whether some finished task of `s` carries `id` and has succeeded.
pub open spec fn finished_has_succeeded_id(s: SnapshotView, id: Seq<char>) -> bool {
    exists|j: int|
        0 <= j < s.finished.len() && #[trigger] s.finished[j].id == id && s.finished[j].status
            == TaskStatus::Succeeded
}

/// Whether some task of `tasks` that is not completed carries `id`.
pub open spec fn open_task_has_id(tasks: Seq<Task>, id: Seq<char>) -> bool {
    exists|i: int|
        0 <= i < tasks.len() && tasks[i].completed != Some(true) && #[trigger] tasks[i].id@ == id
}

/// Whether some completed task of `tasks` carries `id`.
pub open spec fn done_task_has_id(tasks: Seq<Task>, id: Seq<char>) -> bool {
    exists|i: int|
        0 <= i < tasks.len() && tasks[i].completed == Some(true) && #[trigger] tasks[i].id@ == id
}

proof fn lemma_live_from_open_tasks(tasks: Seq<Task>)
    ensures
        forall|i: int|
            0 <= i < tasks.len() && tasks[i].completed != Some(true) ==> live_has_id(
                snapshot_from_tasks_spec(tasks),
                #[trigger] tasks[i].id@,
            ),
        forall|j: int|
            0 <= j < snapshot_from_tasks_spec(tasks).live.len() ==> open_task_has_id(
                tasks,
                #[trigger] snapshot_from_tasks_spec(tasks).live[j].id,
            ),
{
    let n = snapshot_from_tasks_spec(tasks);
    let nd = |t: Task| !task_done(t);
    let lf = tasks.filter(nd);
    assert forall|i: int| 0 <= i < tasks.len() && tasks[i].completed != Some(true) implies live_has_id(
        n,
        #[trigger] tasks[i].id@,
    ) by {
        assert(nd(tasks[i]));
        tasks.lemma_filter_contains(nd, i);
        let j = choose|j: int| 0 <= j < lf.len() && lf[j] == tasks[i];
        assert(n.live[j].id == tasks[i].id@);
    }
    assert forall|j: int| 0 <= j < n.live.len() implies open_task_has_id(
        tasks,
        #[trigger] n.live[j].id,
    ) by {
        tasks.lemma_filter_pred(nd, j);
        assert(lf.contains(lf[j]));
        tasks.lemma_filter_contains_rev(nd, lf[j]);
        let i = choose|i: int| 0 <= i < tasks.len() && tasks[i] == lf[j];
        assert(tasks[i].id@ == n.live[j].id);
    }
}

proof fn lemma_finished_from_done_tasks(tasks: Seq<Task>)
    ensures
        forall|i: int|
            0 <= i < tasks.len() && tasks[i].completed == Some(true) ==> finished_has_succeeded_id(
                snapshot_from_tasks_spec(tasks),
                #[trigger] tasks[i].id@,
            ),
        forall|j: int|
            0 <= j < snapshot_from_tasks_spec(tasks).finished.len() ==> done_task_has_id(
                tasks,
                #[trigger] snapshot_from_tasks_spec(tasks).finished[j].id,
            ) && snapshot_from_tasks_spec(tasks).finished[j].status == TaskStatus::Succeeded,
{
    let n = snapshot_from_tasks_spec(tasks);
    let dn = |t: Task| task_done(t);
    let ff = tasks.filter(dn);
    assert forall|i: int| 0 <= i < tasks.len() && tasks[i].completed == Some(true) implies finished_has_succeeded_id(
        n,
        #[trigger] tasks[i].id@,
    ) by {
        assert(dn(tasks[i]));
        tasks.lemma_filter_contains(dn, i);
        let j = choose|j: int| 0 <= j < ff.len() && ff[j] == tasks[i];
        assert(n.finished[j].id == tasks[i].id@);
    }
    assert forall|j: int| 0 <= j < n.finished.len() implies done_task_has_id(
        tasks,
        #[trigger] n.finished[j].id,
    ) && n.finished[j].status == TaskStatus::Succeeded by {
        tasks.lemma_filter_pred(dn, j);
        assert(ff.contains(ff[j]));
        tasks.lemma_filter_contains_rev(dn, ff[j]);
        let i = choose|i: int| 0 <= i < tasks.len() && tasks[i] == ff[j];
        assert(tasks[i].id@ == n.finished[j].id);
    }
}

/// A Habitica task is live in the state built from the tasks exactly when
/// its `completed` field is not `Some(true)`, and finished (as succeeded)
/// exactly when it is; nothing else about the task matters, and no entry
/// comes from anywhere but a task of the right kind.
pub proof fn lemma_snapshot_split_by_completed(tasks: Seq<Task>)
    ensures
        forall|i: int|
            0 <= i < tasks.len() && tasks[i].completed != Some(true) ==> live_has_id(
                snapshot_from_tasks_spec(tasks),
                #[trigger] tasks[i].id@,
            ),
        forall|i: int|
            0 <= i < tasks.len() && tasks[i].completed == Some(true) ==> finished_has_succeeded_id(
                snapshot_from_tasks_spec(tasks),
                #[trigger] tasks[i].id@,
            ),
        forall|j: int|
            0 <= j < snapshot_from_tasks_spec(tasks).live.len() ==> open_task_has_id(
                tasks,
                #[trigger] snapshot_from_tasks_spec(tasks).live[j].id,
            ),
        forall|j: int|
            0 <= j < snapshot_from_tasks_spec(tasks).finished.len() ==> done_task_has_id(
                tasks,
                #[trigger] snapshot_from_tasks_spec(tasks).finished[j].id,
            ) && snapshot_from_tasks_spec(tasks).finished[j].status == TaskStatus::Succeeded,
{
    lemma_live_from_open_tasks(tasks);
    lemma_finished_from_done_tasks(tasks);
}

/// Every request a client builds, whatever its method, address and body,
/// carries exactly the three identification headers: `x-client` with the
/// author and script joined by `-`, `x-api-user` and `x-api-key`.
pub proof fn lemma_requests_carry_credentials(
    c: HabiticaClientView,
    method: HttpMethod,
    url: Seq<char>,
    body: RequestBodyView,
)
    ensures
        request_spec(c, method, url, body).headers == seq![
            ("x-client"@, c.author_id + "-"@ + c.script_name),
            ("x-api-user"@, c.api_user_id),
            ("x-api-key"@, c.api_key),
        ],
        request_spec(c, method, url, body).method == method,
        request_spec(c, method, url, body).url == url,
        request_spec(c, method, url, body).body == body,
{
}

/// The method and address of the request that carries out each call.
pub proof fn lemma_call_addresses(
    c: HabiticaClientView,
    id: Seq<char>,
    text: Seq<char>,
    location: i64,
)
    ensures
        call_request(c, HabiticaCallView::ScoreTask { id, direction: Direction::Up }).url
            == "https://habitica.com/api/v3/tasks/"@ + id + "/score/up"@,
        call_request(c, HabiticaCallView::ScoreTask { id, direction: Direction::Down }).url
            == "https://habitica.com/api/v3/tasks/"@ + id + "/score/down"@,
        call_request(c, HabiticaCallView::ScoreTask { id, direction: Direction::Up }).method
            == HttpMethod::Post,
        call_request(c, HabiticaCallView::UpdateTask { id, text }).url
            == "https://habitica.com/api/v3/tasks/"@ + id,
        call_request(c, HabiticaCallView::UpdateTask { id, text }).method == HttpMethod::Put,
        call_request(c, HabiticaCallView::UpdateTask { id, text }).body
            == RequestBodyView::TaskText(text),
        call_request(c, HabiticaCallView::DeleteTask { id }).url
            == "https://habitica.com/api/v3/tasks/"@ + id,
        call_request(c, HabiticaCallView::DeleteTask { id }).method == HttpMethod::Delete,
        call_request(c, HabiticaCallView::MoveTask { id, location }).url
            == "https://habitica.com/api/v3/tasks/"@ + id + "/move/to/"@ + int_decimal(
            location as int,
        ),
        call_request(c, HabiticaCallView::MoveTask { id, location }).method == HttpMethod::Post,
        call_request(c, HabiticaCallView::InsertTodo { id, text }).url
            == "https://habitica.com/api/v3/tasks/user"@,
        call_request(c, HabiticaCallView::InsertTodo { id, text }).method == HttpMethod::Post,
{
    assert("https://habitica.com/api/v3/tasks/"@ + id + "/score/"@ + "up"@
        =~= "https://habitica.com/api/v3/tasks/"@ + id + "/score/up"@) by {
        reveal_strlit("/score/");
        reveal_strlit("up");
        reveal_strlit("/score/up");
    }
    assert("https://habitica.com/api/v3/tasks/"@ + id + "/score/"@ + "down"@
        =~= "https://habitica.com/api/v3/tasks/"@ + id + "/score/down"@) by {
        reveal_strlit("/score/");
        reveal_strlit("down");
        reveal_strlit("/score/down");
    }
}

/// An answer is a success exactly when its status is 200.
pub proof fn lemma_only_200_succeeds(status: u16)
    ensures
        is_success(status) <==> status == 200,
{
}

} // verus!
