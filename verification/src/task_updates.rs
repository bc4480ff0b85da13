//! How the task state of a user evolves under client operations, which
//! Habitica calls mirror each operation, and the decisions of a websocket
//! session.

use crate::api::{
    apply_spec, finished_from, finished_ids, finished_view, live_ids, live_view, opt_string_view,
    restored, FinishedTask, FinishedTaskView, LiveTask, LiveTaskView, OpKindView, SnapshotView,
    StateSnapshot, TaskStatus, WebsocketOp, WebsocketOpKind,
};
use crate::db_types::HabiticaIntegration;
use crate::habitica_integration::client::{
    direction_text, request_spec, task_url, user_tasks_url, Direction, HabiticaClient,
    HabiticaClientView, HabiticaError, HabiticaRequest, HabiticaRequestView, HttpMethod,
    RequestBodyView, Task,
};
use crate::handlers::{app_error_text, report_habitica_err, AppError, SERVICE};
use crate::utils::int_decimal;
use std::collections::VecDeque;
use vstd::prelude::*;

verus! {

/// Position of the first live task carrying `id`.
pub fn live_position(live: &VecDeque<LiveTask>, id: &String) -> (r: Option<usize>)
    ensures
        match r {
            Some(p) => p < live@.len() && live_ids(live_view(live@)).index_of_first(id@) == Some(
                p as int,
            ),
            None => live_ids(live_view(live@)).index_of_first(id@) is None,
        },
{
    let ghost ids = live_ids(live_view(live@));
    let n = live.len();
    let mut i: usize = 0;
    while i < n
        invariant
            n == live@.len(),
            ids == live_ids(live_view(live@)),
            0 <= i <= n,
            forall|j: int| 0 <= j < i ==> ids[j] != id@,
        decreases n - i,
    {
        if live[i].id == *id {
            proof {
                assert(ids[i as int] == id@);
                ids.index_of_first_ensures(id@);
            }
            return Some(i);
        }
        assert(ids[i as int] != id@);
        i = i + 1;
    }
    proof {
        ids.index_of_first_ensures(id@);
        if ids.contains(id@) {
            let k = choose|k: int| 0 <= k < ids.len() && ids[k] == id@;
            assert(ids[k] != id@);
        }
    }
    None
}

/// Position of the first finished task carrying `id`.
pub fn finished_position(finished: &VecDeque<FinishedTask>, id: &String) -> (r: Option<usize>)
    ensures
        match r {
            Some(p) => p < finished@.len() && finished_ids(finished_view(finished@)).index_of_first(
                id@,
            ) == Some(p as int),
            None => finished_ids(finished_view(finished@)).index_of_first(id@) is None,
        },
{
    let ghost ids = finished_ids(finished_view(finished@));
    let n = finished.len();
    let mut i: usize = 0;
    while i < n
        invariant
            n == finished@.len(),
            ids == finished_ids(finished_view(finished@)),
            0 <= i <= n,
            forall|j: int| 0 <= j < i ==> ids[j] != id@,
        decreases n - i,
    {
        if finished[i].id == *id {
            proof {
                assert(ids[i as int] == id@);
                ids.index_of_first_ensures(id@);
            }
            return Some(i);
        }
        assert(ids[i as int] != id@);
        i = i + 1;
    }
    proof {
        ids.index_of_first_ensures(id@);
        if ids.contains(id@) {
            let k = choose|k: int| 0 <= k < ids.len() && ids[k] == id@;
            assert(ids[k] != id@);
        }
    }
    None
}

/// Removes every live task that carries `id`, keeping the others in order.
fn remove_live_with_id(live: &mut VecDeque<LiveTask>, id: &String)
    ensures
        live_view(final(live)@) == live_view(old(live)@).filter(|t: LiveTaskView| t.id != id@),
{
    let ghost orig = live_view(live@);
    let ghost pred = |t: LiveTaskView| t.id != id@;
    let mut rest: VecDeque<LiveTask> = VecDeque::new();
    std::mem::swap(&mut rest, live);
    let n = rest.len();
    let mut k: usize = 0;
    proof {
        assert(orig.take(0) =~= Seq::<LiveTaskView>::empty());
        reveal(Seq::filter);
        assert(live_view(live@) =~= orig.take(0).filter(pred));
        assert(live_view(rest@) =~= orig.subrange(0, orig.len() as int));
    }
    while k < n
        invariant
            n == orig.len(),
            pred == (|t: LiveTaskView| t.id != id@),
            0 <= k <= n,
            live_view(rest@) == orig.subrange(k as int, n as int),
            live_view(live@) == orig.take(k as int).filter(pred),
        decreases n - k,
    {
        let ghost rest_before = rest@;
        assert(live_view(rest_before).len() == n - k);
        let t = rest.pop_front();
        proof {
            assert(live_view(rest_before)[0] == orig[k as int]);
            assert forall|i: int| 0 <= i < live_view(rest@).len() implies live_view(rest@)[i]
                == orig.subrange(k as int + 1, n as int)[i] by {
                assert(rest@[i] == rest_before[i + 1]);
                assert(live_view(rest_before)[i + 1] == orig.subrange(k as int, n as int)[i + 1]);
            }
            assert(live_view(rest@) =~= orig.subrange(k as int + 1, n as int));
        }
        match t {
            Some(t) => {
                let ghost before = live@;
                assert(t@ == orig[k as int]);
                proof {
                    orig.take(k as int).lemma_filter_push(orig[k as int], pred);
                    assert(orig.take(k as int).push(orig[k as int]) =~= orig.take(k as int + 1));
                }
                if !(t.id == *id) {
                    assert(pred(orig[k as int]));
                    live.push_back(t);
                    assert(live_view(live@) =~= live_view(before).push(orig[k as int]));
                    assert(live_view(live@) == orig.take(k as int + 1).filter(pred));
                } else {
                    assert(!pred(orig[k as int]));
                    assert(live_view(live@) == orig.take(k as int + 1).filter(pred));
                }
            },
            None => {
                assert(false);
            },
        }
        k = k + 1;
    }
    assert(orig.take(n as int) =~= orig);
}

/// Applies one client operation to the task state.
///
/// Tasks are found by the first task that carries the operation's id; an
/// operation whose task is not found leaves the state as it was.
pub fn apply_operation(snapshot: &mut StateSnapshot, op: WebsocketOpKind)
    ensures
        final(snapshot)@ == apply_spec(old(snapshot)@, op@),
{
    let ghost s = snapshot@;
    match op {
        WebsocketOpKind::OverwriteState(n) => {
            snapshot.live = n.live;
            snapshot.finished = n.finished;
        },
        WebsocketOpKind::InsLiveTask { id, value, deadline } => {
            let t = LiveTask { id, value, managed: None, deadline };
            let ghost tv = t@;
            let ghost old_live = snapshot.live@;
            snapshot.live.push_front(t);
            assert(live_view(snapshot.live@) =~= seq![tv] + live_view(old_live));
        },
        WebsocketOpKind::RestoreFinishedTask { id } => {
            match finished_position(&snapshot.finished, &id) {
                Some(p) => {
                    let ghost old_fin = snapshot.finished@;
                    let ghost old_live = snapshot.live@;
                    let removed = snapshot.finished.remove(p);
                    match removed {
                        Some(f) => {
                            let t = LiveTask {
                                id: f.id,
                                value: f.value,
                                managed: f.managed,
                                deadline: f.deadline,
                            };
                            let ghost tv = t@;
                            snapshot.live.push_front(t);
                            assert(finished_view(snapshot.finished@) =~= finished_view(
                                old_fin,
                            ).remove(p as int));
                            assert(tv == restored(finished_view(old_fin)[p as int]));
                            assert(live_view(snapshot.live@) =~= seq![tv] + live_view(old_live));
                        },
                        None => {
                            assert(false);
                        },
                    }
                },
                None => {},
            }
        },
        WebsocketOpKind::EditLiveTask { id, value, deadline } => {
            match live_position(&snapshot.live, &id) {
                Some(p) => {
                    let ghost old_live = snapshot.live@;
                    let removed = snapshot.live.remove(p);
                    match removed {
                        Some(x) => {
                            let t = LiveTask {
                                id: x.id,
                                value,
                                managed: x.managed,
                                deadline: x.deadline,
                            };
                            snapshot.live.insert(p, t);
                            assert(live_view(snapshot.live@) =~= live_view(old_live).update(
                                p as int,
                                LiveTaskView { value: value@, ..live_view(old_live)[p as int] },
                            ));
                        },
                        None => {
                            assert(false);
                        },
                    }
                },
                None => {},
            }
        },
        WebsocketOpKind::DelLiveTask { id } => {
            remove_live_with_id(&mut snapshot.live, &id);
        },
        WebsocketOpKind::MvLiveTask { id_del, id_ins } => {
            let ins_pos = live_position(&snapshot.live, &id_ins);
            let del_pos = live_position(&snapshot.live, &id_del);
            match (ins_pos, del_pos) {
                (Some(i), Some(d)) => {
                    let ghost old_live = snapshot.live@;
                    let removed = snapshot.live.remove(d);
                    match removed {
                        Some(x) => {
                            let ghost xv = x@;
                            snapshot.live.insert(i, x);
                            assert(live_view(snapshot.live@) =~= live_view(old_live).remove(
                                d as int,
                            ).insert(i as int, xv));
                        },
                        None => {
                            assert(false);
                        },
                    }
                },
                _ => {},
            }
        },
        WebsocketOpKind::RevLiveTask { id1, id2 } => {},
        WebsocketOpKind::FinishLiveTask { id, status } => {
            match live_position(&snapshot.live, &id) {
                Some(p) => {
                    let ghost old_live = snapshot.live@;
                    let ghost old_fin = snapshot.finished@;
                    let ghost idv = id@;
                    let removed = snapshot.live.remove(p);
                    match removed {
                        Some(x) => {
                            let f = FinishedTask {
                                id,
                                value: x.value,
                                managed: x.managed,
                                status,
                                deadline: x.deadline,
                            };
                            let ghost fv = f@;
                            snapshot.finished.push_front(f);
                            assert(fv == finished_from(live_view(old_live)[p as int], idv, status));
                            assert(live_view(snapshot.live@) =~= live_view(old_live).remove(
                                p as int,
                            ));
                            assert(finished_view(snapshot.finished@) =~= seq![fv] + finished_view(
                                old_fin,
                            ));
                        },
                        None => {
                            assert(false);
                        },
                    }
                },
                None => {},
            }
        },
    }
}


// ---------------------------------------------------------------------------
// Mirroring operations on Habitica
// ---------------------------------------------------------------------------

/// A call to the Habitica service that mirrors a client operation.
#[derive(Clone, Debug)]
pub enum HabiticaCall {
    InsertTodo { id: String, text: String },
    ScoreTask { id: String, direction: Direction },
    UpdateTask { id: String, text: String },
    DeleteTask { id: String },
    MoveTask { id: String, location: i64 },
}

pub enum HabiticaCallView {
    InsertTodo { id: Seq<char>, text: Seq<char> },
    ScoreTask { id: Seq<char>, direction: Direction },
    UpdateTask { id: Seq<char>, text: Seq<char> },
    DeleteTask { id: Seq<char> },
    MoveTask { id: Seq<char>, location: i64 },
}

impl View for HabiticaCall {
    type V = HabiticaCallView;

    open spec fn view(&self) -> HabiticaCallView {
        match self {
            HabiticaCall::InsertTodo { id, text } => HabiticaCallView::InsertTodo {
                id: id@,
                text: text@,
            },
            HabiticaCall::ScoreTask { id, direction } => HabiticaCallView::ScoreTask {
                id: id@,
                direction: *direction,
            },
            HabiticaCall::UpdateTask { id, text } => HabiticaCallView::UpdateTask {
                id: id@,
                text: text@,
            },
            HabiticaCall::DeleteTask { id } => HabiticaCallView::DeleteTask { id: id@ },
            HabiticaCall::MoveTask { id, location } => HabiticaCallView::MoveTask {
                id: id@,
                location: *location,
            },
        }
    }
}

pub open spec fn opt_call_view(c: Option<HabiticaCall>) -> Option<HabiticaCallView> {
    match c {
        Some(x) => Some(x@),
        None => None,
    }
}

/// The Habitica call that mirrors `op` on the state `s` it is applied to, if
/// any: a move goes to the position of the task it is moved onto.
pub open spec fn planned_call(s: SnapshotView, op: OpKindView) -> Option<HabiticaCallView> {
    match op {
        OpKindView::OverwriteState(_) => None,
        OpKindView::InsLiveTask { id, value, deadline } => Some(
            HabiticaCallView::InsertTodo { id, text: value },
        ),
        OpKindView::RestoreFinishedTask { id } => Some(
            HabiticaCallView::ScoreTask { id, direction: Direction::Down },
        ),
        OpKindView::EditLiveTask { id, value, deadline } => Some(
            HabiticaCallView::UpdateTask { id, text: value },
        ),
        OpKindView::DelLiveTask { id } => Some(HabiticaCallView::DeleteTask { id }),
        OpKindView::MvLiveTask { id_del, id_ins } => match live_ids(s.live).index_of_first(id_ins) {
            Some(p) => Some(HabiticaCallView::MoveTask { id: id_del, location: p as i64 }),
            None => None,
        },
        OpKindView::RevLiveTask { id1, id2 } => None,
        OpKindView::FinishLiveTask { id, status } => Some(
            HabiticaCallView::ScoreTask { id, direction: Direction::Up },
        ),
    }
}

/// The request that carries out a call.
pub open spec fn call_request(c: HabiticaClientView, call: HabiticaCallView) -> HabiticaRequestView {
    match call {
        HabiticaCallView::InsertTodo { id, text } => request_spec(
            c,
            HttpMethod::Post,
            user_tasks_url(),
            RequestBodyView::NewTodo { text, alias: id },
        ),
        HabiticaCallView::ScoreTask { id, direction } => request_spec(
            c,
            HttpMethod::Post,
            task_url(id) + "/score/"@ + direction_text(direction),
            RequestBodyView::Empty,
        ),
        HabiticaCallView::UpdateTask { id, text } => request_spec(
            c,
            HttpMethod::Put,
            task_url(id),
            RequestBodyView::TaskText(text),
        ),
        HabiticaCallView::DeleteTask { id } => request_spec(
            c,
            HttpMethod::Delete,
            task_url(id),
            RequestBodyView::Empty,
        ),
        HabiticaCallView::MoveTask { id, location } => request_spec(
            c,
            HttpMethod::Post,
            task_url(id) + "/move/to/"@ + int_decimal(location as int),
            RequestBodyView::Empty,
        ),
    }
}

impl HabiticaCall {
    /// The request that carries out this call for the given client.
    pub fn to_request(self, client: &HabiticaClient) -> (r: HabiticaRequest)
        ensures
            r@ == call_request(client@, self@),
    {
        match self {
            HabiticaCall::InsertTodo { id, text } => client.insert_todo_request(id, text),
            HabiticaCall::ScoreTask { id, direction } => client.score_task_request(id, direction),
            HabiticaCall::UpdateTask { id, text } => client.update_task_request(id, text),
            HabiticaCall::DeleteTask { id } => client.delete_task_request(id),
            HabiticaCall::MoveTask { id, location } => client.move_task_request(id, location),
        }
    }
}

/// The Habitica call that mirrors a client operation on the current state.
/// Overwriting the whole state has no counterpart and is not accepted.
pub fn post_operation(snapshot: &StateSnapshot, op: &WebsocketOpKind) -> (r: Option<HabiticaCall>)
    requires
        !(op is OverwriteState),
    ensures
        opt_call_view(r) == planned_call(snapshot@, op@),
{
    match op {
        WebsocketOpKind::OverwriteState(_) => None,
        WebsocketOpKind::InsLiveTask { id, value, deadline } => Some(
            HabiticaCall::InsertTodo { id: id.clone(), text: value.clone() },
        ),
        WebsocketOpKind::RestoreFinishedTask { id } => Some(
            HabiticaCall::ScoreTask { id: id.clone(), direction: Direction::Down },
        ),
        WebsocketOpKind::EditLiveTask { id, value, deadline } => Some(
            HabiticaCall::UpdateTask { id: id.clone(), text: value.clone() },
        ),
        WebsocketOpKind::DelLiveTask { id } => Some(HabiticaCall::DeleteTask { id: id.clone() }),
        WebsocketOpKind::MvLiveTask { id_del, id_ins } => {
            match live_position(&snapshot.live, id_ins) {
                Some(ins_pos) => Some(
                    HabiticaCall::MoveTask { id: id_del.clone(), location: ins_pos as i64 },
                ),
                None => None,
            }
        },
        WebsocketOpKind::RevLiveTask { id1, id2 } => None,
        WebsocketOpKind::FinishLiveTask { id, status } => Some(
            HabiticaCall::ScoreTask { id: id.clone(), direction: Direction::Up },
        ),
    }
}

fn copy_opt_string(s: &Option<String>) -> (r: Option<String>)
    ensures
        opt_string_view(r) == opt_string_view(*s),
{
    match s {
        Some(x) => Some(x.clone()),
        None => None,
    }
}

fn copy_live_tasks(v: &VecDeque<LiveTask>) -> (r: VecDeque<LiveTask>)
    ensures
        live_view(r@) == live_view(v@),
{
    let mut r: VecDeque<LiveTask> = VecDeque::new();
    let n = v.len();
    let mut i: usize = 0;
    while i < n
        invariant
            n == v@.len(),
            0 <= i <= n,
            live_view(r@) == live_view(v@).take(i as int),
        decreases n - i,
    {
        let t = &v[i];
        let c = LiveTask {
            id: t.id.clone(),
            value: t.value.clone(),
            managed: copy_opt_string(&t.managed),
            deadline: t.deadline,
        };
        let ghost before = r@;
        r.push_back(c);
        assert(live_view(r@) =~= live_view(v@).take(i as int + 1)) by {
            assert(live_view(r@) =~= live_view(before).push(v@[i as int]@));
        }
        i = i + 1;
    }
    assert(live_view(v@).take(n as int) =~= live_view(v@));
    r
}

fn copy_finished_tasks(v: &VecDeque<FinishedTask>) -> (r: VecDeque<FinishedTask>)
    ensures
        finished_view(r@) == finished_view(v@),
{
    let mut r: VecDeque<FinishedTask> = VecDeque::new();
    let n = v.len();
    let mut i: usize = 0;
    while i < n
        invariant
            n == v@.len(),
            0 <= i <= n,
            finished_view(r@) == finished_view(v@).take(i as int),
        decreases n - i,
    {
        let t = &v[i];
        let c = FinishedTask {
            id: t.id.clone(),
            value: t.value.clone(),
            managed: copy_opt_string(&t.managed),
            status: t.status,
            deadline: t.deadline,
        };
        let ghost before = r@;
        r.push_back(c);
        assert(finished_view(r@) =~= finished_view(v@).take(i as int + 1)) by {
            assert(finished_view(r@) =~= finished_view(before).push(v@[i as int]@));
        }
        i = i + 1;
    }
    assert(finished_view(v@).take(n as int) =~= finished_view(v@));
    r
}

/// A copy of an operation with the same contents.
fn copy_op_kind(k: &WebsocketOpKind) -> (r: WebsocketOpKind)
    ensures
        r@ == k@,
{
    match k {
        WebsocketOpKind::OverwriteState(s) => WebsocketOpKind::OverwriteState(
            StateSnapshot { live: copy_live_tasks(&s.live), finished: copy_finished_tasks(&s.finished) },
        ),
        WebsocketOpKind::InsLiveTask { id, value, deadline } => WebsocketOpKind::InsLiveTask {
            id: id.clone(),
            value: value.clone(),
            deadline: *deadline,
        },
        WebsocketOpKind::RestoreFinishedTask { id } => WebsocketOpKind::RestoreFinishedTask {
            id: id.clone(),
        },
        WebsocketOpKind::EditLiveTask { id, value, deadline } => WebsocketOpKind::EditLiveTask {
            id: id.clone(),
            value: value.clone(),
            deadline: *deadline,
        },
        WebsocketOpKind::DelLiveTask { id } => WebsocketOpKind::DelLiveTask { id: id.clone() },
        WebsocketOpKind::MvLiveTask { id_del, id_ins } => WebsocketOpKind::MvLiveTask {
            id_del: id_del.clone(),
            id_ins: id_ins.clone(),
        },
        WebsocketOpKind::RevLiveTask { id1, id2 } => WebsocketOpKind::RevLiveTask {
            id1: id1.clone(),
            id2: id2.clone(),
        },
        WebsocketOpKind::FinishLiveTask { id, status } => WebsocketOpKind::FinishLiveTask {
            id: id.clone(),
            status: *status,
        },
    }
}

/// Handles one decoded operation of a client: plans the Habitica call that
/// mirrors it on the state as it was, applies it to the user's state, and
/// hands back the operation to broadcast to every session of the user.
pub fn handle_ws_client_op(snapshot: &mut StateSnapshot, op: WebsocketOp) -> (r: (
    Option<HabiticaCall>,
    WebsocketOp,
))
    requires
        !(op.kind is OverwriteState),
    ensures
        opt_call_view(r.0) == planned_call(old(snapshot)@, op.kind@),
        final(snapshot)@ == apply_spec(old(snapshot)@, op.kind@),
        r.1@ == op@,
{
    let call = post_operation(snapshot, &op.kind);
    let kind = copy_op_kind(&op.kind);
    apply_operation(snapshot, kind);
    (call, op)
}

// ---------------------------------------------------------------------------
// Starting a user's state
// ---------------------------------------------------------------------------

/// Whether Habitica reports a task as completed.
pub open spec fn task_done(t: Task) -> bool {
    t.completed == Some(true)
}

pub open spec fn task_text(t: Task) -> Seq<char> {
    match t.text {
        Some(x) => x@,
        None => Seq::<char>::empty(),
    }
}

pub open spec fn live_from_task(t: Task) -> LiveTaskView {
    LiveTaskView { id: t.id@, value: task_text(t), managed: None, deadline: None }
}

pub open spec fn finished_from_task(t: Task) -> FinishedTaskView {
    FinishedTaskView {
        id: t.id@,
        value: task_text(t),
        managed: None,
        status: TaskStatus::Succeeded,
        deadline: None,
    }
}

/// The state built from a user's Habitica tasks: tasks not completed become
/// live tasks and completed ones finished tasks, each in Habitica's order.
pub open spec fn snapshot_from_tasks_spec(tasks: Seq<Task>) -> SnapshotView {
    SnapshotView {
        live: tasks.filter(|t: Task| !task_done(t)).map_values(|t: Task| live_from_task(t)),
        finished: tasks.filter(|t: Task| task_done(t)).map_values(|t: Task| finished_from_task(t)),
    }
}

fn task_text_of(t: &Task) -> (r: String)
    ensures
        r@ == task_text(*t),
{
    match &t.text {
        Some(x) => x.clone(),
        None => String::new(),
    }
}

/// The state built from a user's Habitica tasks.
pub fn snapshot_from_tasks(tasks: Vec<Task>) -> (r: StateSnapshot)
    ensures
        r@ == snapshot_from_tasks_spec(tasks@),
{
    let ghost not_done = |t: Task| !task_done(t);
    let ghost done = |t: Task| task_done(t);
    let ghost to_live = |t: Task| live_from_task(t);
    let ghost to_fin = |t: Task| finished_from_task(t);
    let mut live: VecDeque<LiveTask> = VecDeque::new();
    let mut finished: VecDeque<FinishedTask> = VecDeque::new();
    let n = tasks.len();
    let mut i: usize = 0;
    proof {
        reveal(Seq::filter);
        assert(tasks@.take(0) =~= Seq::<Task>::empty());
        assert(live_view(live@) =~= tasks@.take(0).filter(not_done).map_values(to_live));
        assert(finished_view(finished@) =~= tasks@.take(0).filter(done).map_values(to_fin));
    }
    while i < n
        invariant
            n == tasks@.len(),
            0 <= i <= n,
            not_done == (|t: Task| !task_done(t)),
            done == (|t: Task| task_done(t)),
            to_live == (|t: Task| live_from_task(t)),
            to_fin == (|t: Task| finished_from_task(t)),
            live_view(live@) == tasks@.take(i as int).filter(not_done).map_values(to_live),
            finished_view(finished@) == tasks@.take(i as int).filter(done).map_values(to_fin),
        decreases n - i,
    {
        let task = &tasks[i];
        let ghost tv = tasks@[i as int];
        let ghost prefix = tasks@.take(i as int);
        proof {
            assert(prefix.push(tv) =~= tasks@.take(i as int + 1));
            prefix.lemma_filter_push(tv, not_done);
            prefix.lemma_filter_push(tv, done);
        }
        let ghost live_before = live@;
        let ghost fin_before = finished@;
        let completed = match task.completed {
            Some(c) => c,
            None => false,
        };
        if !completed {
            let t = LiveTask {
                id: task.id.clone(),
                value: task_text_of(task),
                managed: None,
                deadline: None,
            };
            live.push_back(t);
            proof {
                assert(live_view(live@) =~= live_view(live_before).push(to_live(tv)));
                assert(prefix.filter(not_done).push(tv).map_values(to_live) =~= prefix.filter(
                    not_done,
                ).map_values(to_live).push(to_live(tv)));
            }
        } else {
            let t = FinishedTask {
                id: task.id.clone(),
                value: task_text_of(task),
                managed: None,
                status: TaskStatus::Succeeded,
                deadline: None,
            };
            finished.push_back(t);
            proof {
                assert(finished_view(finished@) =~= finished_view(fin_before).push(to_fin(tv)));
                assert(prefix.filter(done).push(tv).map_values(to_fin) =~= prefix.filter(
                    done,
                ).map_values(to_fin).push(to_fin(tv)));
            }
        }
        i = i + 1;
    }
    assert(tasks@.take(n as int) =~= tasks@);
    StateSnapshot { live, finished }
}

/// The state a user starts with, from the outcome of fetching their Habitica
/// tasks: a failed fetch is an internal error.
pub fn initial_snapshot(tasks: Result<Vec<Task>, HabiticaError>) -> (r: Result<
    StateSnapshot,
    AppError,
>)
    ensures
        match tasks {
            Ok(t) => r is Ok && r->Ok_0@ == snapshot_from_tasks_spec(t@),
            Err(_) => r == Err::<StateSnapshot, AppError>(AppError::InternalServerError),
        },
{
    match tasks {
        Ok(t) => Ok(snapshot_from_tasks(t)),
        Err(e) => Err(report_habitica_err(e)),
    }
}

/// The Habitica client of a user, from the user's most recent integration;
/// a user without one cannot connect.
pub fn worker_client(author_id: String, integration: Option<HabiticaIntegration>) -> (r: Result<
    HabiticaClient,
    AppError,
>)
    ensures
        match integration {
            Some(i) => r is Ok && r->Ok_0@ == (HabiticaClientView {
                author_id: author_id@,
                script_name: SERVICE@,
                api_user_id: i.user_id@,
                api_key: i.api_key@,
            }),
            None => r == Err::<HabiticaClient, AppError>(AppError::IntegrationNotFound),
        },
{
    match integration {
        Some(i) => Ok(HabiticaClient::new(author_id, String::from_str(SERVICE), i.user_id, i.api_key)),
        None => Err(AppError::IntegrationNotFound),
    }
}

/// The first update a session sends: the user's whole state.
pub fn initial_update(snapshot: StateSnapshot, alleged_time: i64) -> (r: WebsocketOp)
    ensures
        r@.alleged_time == alleged_time,
        r@.kind == OpKindView::OverwriteState(snapshot@),
{
    WebsocketOp { alleged_time, kind: WebsocketOpKind::OverwriteState(snapshot) }
}


// ---------------------------------------------------------------------------
// A websocket session
// ---------------------------------------------------------------------------

/// How often heartbeat pings are sent, in nanoseconds.
///
/// Should be half (or less) of the acceptable client timeout.
pub const HEARTBEAT_INTERVAL_NANOS: u64 = 5_000_000_000;

/// How long a client may stay silent before the session ends, in nanoseconds.
pub const CLIENT_TIMEOUT_NANOS: u64 = 10_000_000_000;

/// Why a session is closed.
#[derive(Clone, Copy, Debug, PartialEq, Eq, Structural)]
pub enum CloseCode {
    Error,
    Unsupported,
}

/// The close frame a session ends with.
#[derive(Clone, Debug)]
pub struct CloseReason {
    pub code: CloseCode,
    pub description: Option<String>,
}

/// A message received from the client.
#[derive(Clone, Debug)]
pub enum ClientMessage {
    Text(String),
    Binary(Vec<u8>),
    Close,
    Ping(Vec<u8>),
    Pong(Vec<u8>),
    Continuation,
    Nop,
}

/// Something that happened to a session.
#[derive(Clone, Debug)]
pub enum SessionEvent {
    /// The client sent a message.
    ClientMessage(ClientMessage),
    /// The client's stream failed.
    ClientStreamError,
    /// The heartbeat interval ticked.
    HeartbeatDue,
    /// An operation of the user was broadcast.
    ServerUpdate(WebsocketOp),
    /// Broadcast operations were missed because the session lagged behind.
    ServerLagged,
    /// Handling the client's last operation failed.
    ClientOpFailed(AppError),
    /// Sending an update to the client failed.
    SendFailed,
}

/// What the session does next.
#[derive(Clone, Debug)]
pub enum SessionAction {
    /// Nothing; wait for the next event.
    Continue,
    /// Decode and handle the client's operation.
    HandleClientOp(String),
    /// Answer a ping with these bytes.
    Pong(Vec<u8>),
    /// Send a heartbeat ping.
    Ping,
    /// Send this operation to the client.
    SendUpdate(WebsocketOp),
    /// Close the session, with or without a reason.
    Close(Option<CloseReason>),
}

/// The state of a session: when the client was last heard from, in
/// nanoseconds on the session's monotonic clock.
#[derive(Clone, Copy, Debug)]
pub struct SessionState {
    pub last_heartbeat: u64,
}

/// Time elapsed from `since` to `now`, zero when `now` is earlier.
pub open spec fn elapsed(since: u64, now: u64) -> int {
    if now >= since {
        now - since
    } else {
        0
    }
}

/// Whether a client last heard from at `since` has been silent for longer
/// than the client timeout at `now`.
pub open spec fn times_out(since: u64, now: u64) -> bool {
    elapsed(since, now) > CLIENT_TIMEOUT_NANOS
}

/// Whether `r` closes the session with `code` and a description `text`.
pub open spec fn closes_with(r: SessionAction, code: CloseCode, text: Seq<char>) -> bool {
    match r {
        SessionAction::Close(Some(reason)) => reason.code == code && reason.description is Some
            && reason.description->0@ == text,
        _ => false,
    }
}

/// The close frame that ends a session whose start failed with `e`.
pub fn init_failure_reason(e: AppError) -> (r: CloseReason)
    ensures
        r.code == CloseCode::Error,
        r.description is Some,
        r.description->0@ == app_error_text(e),
{
    CloseReason { code: CloseCode::Error, description: Some(e.to_string()) }
}

impl SessionState {
    /// A session whose client was last heard from at `now`.
    pub fn new(now: u64) -> (r: SessionState)
        ensures
            r.last_heartbeat == now,
    {
        SessionState { last_heartbeat: now }
    }

    /// Decides what the session does when `event` happens at time `now`.
    ///
    /// Text messages are handled as operations; binary and continuation
    /// frames close the session as unsupported; a close frame or a broken
    /// stream ends it; pings and pongs count as signs of life; a heartbeat
    /// tick ends a session silent for longer than the client timeout and
    /// otherwise pings; broadcast operations are forwarded; a failed operation
    /// closes the session with the error's text; a failed send ends it.
    pub fn step(&mut self, event: SessionEvent, now: u64) -> (r: SessionAction)
        ensures
            match event {
                SessionEvent::ClientMessage(ClientMessage::Ping(_)) => final(self).last_heartbeat
                    == now,
                SessionEvent::ClientMessage(ClientMessage::Pong(_)) => final(self).last_heartbeat
                    == now,
                _ => final(self).last_heartbeat == old(self).last_heartbeat,
            },
            match event {
                SessionEvent::ClientMessage(ClientMessage::Text(t)) => r
                    == SessionAction::HandleClientOp(t),
                SessionEvent::ClientMessage(ClientMessage::Binary(_)) => closes_with(
                    r,
                    CloseCode::Unsupported,
                    "Only text supported"@,
                ),
                SessionEvent::ClientMessage(ClientMessage::Close) => r == SessionAction::Close(
                    None,
                ),
                SessionEvent::ClientMessage(ClientMessage::Ping(b)) => r == SessionAction::Pong(b),
                SessionEvent::ClientMessage(ClientMessage::Pong(_)) => r == SessionAction::Continue,
                SessionEvent::ClientMessage(ClientMessage::Continuation) => closes_with(
                    r,
                    CloseCode::Unsupported,
                    "No support for continuation frame."@,
                ),
                SessionEvent::ClientMessage(ClientMessage::Nop) => r == SessionAction::Continue,
                SessionEvent::ClientStreamError => r == SessionAction::Close(None),
                SessionEvent::HeartbeatDue => if times_out(old(self).last_heartbeat, now) {
                    r == SessionAction::Close(None)
                } else {
                    r == SessionAction::Ping
                },
                SessionEvent::ServerUpdate(op) => r == SessionAction::SendUpdate(op),
                SessionEvent::ServerLagged => r == SessionAction::Continue,
                SessionEvent::ClientOpFailed(e) => closes_with(
                    r,
                    CloseCode::Error,
                    app_error_text(e),
                ),
                SessionEvent::SendFailed => r == SessionAction::Close(None),
            },
    {
        match event {
            SessionEvent::ClientMessage(msg) => match msg {
                ClientMessage::Text(text) => SessionAction::HandleClientOp(text),
                ClientMessage::Binary(_) => SessionAction::Close(
                    Some(
                        CloseReason {
                            code: CloseCode::Unsupported,
                            description: Some(String::from_str("Only text supported")),
                        },
                    ),
                ),
                ClientMessage::Close => SessionAction::Close(None),
                ClientMessage::Ping(bytes) => {
                    self.last_heartbeat = now;
                    SessionAction::Pong(bytes)
                },
                ClientMessage::Pong(_) => {
                    self.last_heartbeat = now;
                    SessionAction::Continue
                },
                ClientMessage::Continuation => SessionAction::Close(
                    Some(
                        CloseReason {
                            code: CloseCode::Unsupported,
                            description: Some(
                                String::from_str("No support for continuation frame."),
                            ),
                        },
                    ),
                ),
                ClientMessage::Nop => SessionAction::Continue,
            },
            SessionEvent::ClientStreamError => SessionAction::Close(None),
            SessionEvent::HeartbeatDue => {
                let silent: u64 = if now >= self.last_heartbeat {
                    now - self.last_heartbeat
                } else {
                    0
                };
                if silent > CLIENT_TIMEOUT_NANOS {
                    SessionAction::Close(None)
                } else {
                    SessionAction::Ping
                }
            },
            SessionEvent::ServerUpdate(op) => SessionAction::SendUpdate(op),
            SessionEvent::ServerLagged => SessionAction::Continue,
            SessionEvent::ClientOpFailed(e) => SessionAction::Close(
                Some(CloseReason { code: CloseCode::Error, description: Some(e.to_string()) }),
            ),
            SessionEvent::SendFailed => SessionAction::Close(None),
        }
    }
}

} // verus!
