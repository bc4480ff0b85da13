//! Wire types of the task protocol and the abstract model of a task snapshot.

pub mod request;
pub mod response;

use std::collections::VecDeque;
use vstd::prelude::*;

verus! {

/// How a finished task ended.
#[derive(Clone, Copy, Debug, PartialEq, Eq, Structural)]
pub enum TaskStatus {
    Obsoleted,
    Succeeded,
    Failed,
}

impl TaskStatus {
    /// The status with the given discriminant (0, 1, 2 in declaration order).
    pub fn from_i64(n: i64) -> (r: Option<TaskStatus>)
        ensures
            r == (if n == 0 {
                Some(TaskStatus::Obsoleted)
            } else if n == 1 {
                Some(TaskStatus::Succeeded)
            } else if n == 2 {
                Some(TaskStatus::Failed)
            } else {
                None::<TaskStatus>
            }),
    {
        if n == 0 {
            Some(TaskStatus::Obsoleted)
        } else if n == 1 {
            Some(TaskStatus::Succeeded)
        } else if n == 2 {
            Some(TaskStatus::Failed)
        } else {
            None
        }
    }

    /// The status with the given unsigned discriminant.
    pub fn from_u64(n: u64) -> (r: Option<TaskStatus>)
        ensures
            r == (if n == 0 {
                Some(TaskStatus::Obsoleted)
            } else if n == 1 {
                Some(TaskStatus::Succeeded)
            } else if n == 2 {
                Some(TaskStatus::Failed)
            } else {
                None::<TaskStatus>
            }),
    {
        if n == 0 {
            Some(TaskStatus::Obsoleted)
        } else if n == 1 {
            Some(TaskStatus::Succeeded)
        } else if n == 2 {
            Some(TaskStatus::Failed)
        } else {
            None
        }
    }
}

/// A task that is still to be done.
#[derive(Clone, Debug)]
pub struct LiveTask {
    pub id: String,
    pub value: String,
    pub managed: Option<String>,
    pub deadline: Option<u64>,
}

/// A task that has been finished with some status.
#[derive(Clone, Debug)]
pub struct FinishedTask {
    pub id: String,
    pub value: String,
    pub managed: Option<String>,
    pub status: TaskStatus,
    pub deadline: Option<u64>,
}

/// The whole task state of one user: live tasks first-to-last, then finished
/// tasks, most recently finished first.
#[derive(Clone, Debug)]
pub struct StateSnapshot {
    pub live: VecDeque<LiveTask>,
    pub finished: VecDeque<FinishedTask>,
}

/// An operation a client can perform on the task state.
#[derive(Clone, Debug)]
pub enum WebsocketOpKind {
    OverwriteState(StateSnapshot),
    InsLiveTask { id: String, value: String, deadline: Option<u64> },
    RestoreFinishedTask { id: String },
    EditLiveTask { id: String, value: String, deadline: Option<u64> },
    DelLiveTask { id: String },
    MvLiveTask { id_del: String, id_ins: String },
    RevLiveTask { id1: String, id2: String },
    FinishLiveTask { id: String, status: TaskStatus },
}

/// An operation together with the time its sender claims it was made.
#[derive(Clone, Debug)]
pub struct WebsocketOp {
    pub alleged_time: i64,
    pub kind: WebsocketOpKind,
}

// ---------------------------------------------------------------------------
// Abstract model
// ---------------------------------------------------------------------------

pub open spec fn opt_string_view(s: Option<String>) -> Option<Seq<char>> {
    match s {
        Some(x) => Some(x@),
        None => None,
    }
}

pub struct LiveTaskView {
    pub id: Seq<char>,
    pub value: Seq<char>,
    pub managed: Option<Seq<char>>,
    pub deadline: Option<u64>,
}

pub struct FinishedTaskView {
    pub id: Seq<char>,
    pub value: Seq<char>,
    pub managed: Option<Seq<char>>,
    pub status: TaskStatus,
    pub deadline: Option<u64>,
}

pub struct SnapshotView {
    pub live: Seq<LiveTaskView>,
    pub finished: Seq<FinishedTaskView>,
}

pub enum OpKindView {
    OverwriteState(SnapshotView),
    InsLiveTask { id: Seq<char>, value: Seq<char>, deadline: Option<u64> },
    RestoreFinishedTask { id: Seq<char> },
    EditLiveTask { id: Seq<char>, value: Seq<char>, deadline: Option<u64> },
    DelLiveTask { id: Seq<char> },
    MvLiveTask { id_del: Seq<char>, id_ins: Seq<char> },
    RevLiveTask { id1: Seq<char>, id2: Seq<char> },
    FinishLiveTask { id: Seq<char>, status: TaskStatus },
}

pub struct OpView {
    pub alleged_time: i64,
    pub kind: OpKindView,
}

impl View for LiveTask {
    type V = LiveTaskView;

    open spec fn view(&self) -> LiveTaskView {
        LiveTaskView {
            id: self.id@,
            value: self.value@,
            managed: opt_string_view(self.managed),
            deadline: self.deadline,
        }
    }
}

impl View for FinishedTask {
    type V = FinishedTaskView;

    open spec fn view(&self) -> FinishedTaskView {
        FinishedTaskView {
            id: self.id@,
            value: self.value@,
            managed: opt_string_view(self.managed),
            status: self.status,
            deadline: self.deadline,
        }
    }
}

pub open spec fn live_view(s: Seq<LiveTask>) -> Seq<LiveTaskView> {
    s.map_values(|t: LiveTask| t@)
}

pub open spec fn finished_view(s: Seq<FinishedTask>) -> Seq<FinishedTaskView> {
    s.map_values(|t: FinishedTask| t@)
}

impl View for StateSnapshot {
    type V = SnapshotView;

    open spec fn view(&self) -> SnapshotView {
        SnapshotView { live: live_view(self.live@), finished: finished_view(self.finished@) }
    }
}

impl View for WebsocketOpKind {
    type V = OpKindView;

    open spec fn view(&self) -> OpKindView {
        match self {
            WebsocketOpKind::OverwriteState(s) => OpKindView::OverwriteState(s@),
            WebsocketOpKind::InsLiveTask { id, value, deadline } => OpKindView::InsLiveTask {
                id: id@,
                value: value@,
                deadline: *deadline,
            },
            WebsocketOpKind::RestoreFinishedTask { id } => OpKindView::RestoreFinishedTask {
                id: id@,
            },
            WebsocketOpKind::EditLiveTask { id, value, deadline } => OpKindView::EditLiveTask {
                id: id@,
                value: value@,
                deadline: *deadline,
            },
            WebsocketOpKind::DelLiveTask { id } => OpKindView::DelLiveTask { id: id@ },
            WebsocketOpKind::MvLiveTask { id_del, id_ins } => OpKindView::MvLiveTask {
                id_del: id_del@,
                id_ins: id_ins@,
            },
            WebsocketOpKind::RevLiveTask { id1, id2 } => OpKindView::RevLiveTask {
                id1: id1@,
                id2: id2@,
            },
            WebsocketOpKind::FinishLiveTask { id, status } => OpKindView::FinishLiveTask {
                id: id@,
                status: *status,
            },
        }
    }
}

impl View for WebsocketOp {
    type V = OpView;

    open spec fn view(&self) -> OpView {
        OpView { alleged_time: self.alleged_time, kind: self.kind@ }
    }
}

/// The ids of a list of live tasks, in order.
pub open spec fn live_ids(s: Seq<LiveTaskView>) -> Seq<Seq<char>> {
    s.map_values(|t: LiveTaskView| t.id)
}

/// The ids of a list of finished tasks, in order.
pub open spec fn finished_ids(s: Seq<FinishedTaskView>) -> Seq<Seq<char>> {
    s.map_values(|t: FinishedTaskView| t.id)
}

/// The live task that a finished task becomes when it is restored.
pub open spec fn restored(t: FinishedTaskView) -> LiveTaskView {
    LiveTaskView { id: t.id, value: t.value, managed: t.managed, deadline: t.deadline }
}

/// The finished task that a live task becomes when it is finished with `status`.
pub open spec fn finished_from(t: LiveTaskView, id: Seq<char>, status: TaskStatus) -> FinishedTaskView {
    FinishedTaskView { id, value: t.value, managed: t.managed, status, deadline: t.deadline }
}

/// The state after applying one operation to `s`.
///
/// Tasks are located by the first task that carries the id; an operation whose
/// task is not found leaves the state unchanged.
pub open spec fn apply_spec(s: SnapshotView, op: OpKindView) -> SnapshotView {
    match op {
        OpKindView::OverwriteState(n) => n,
        OpKindView::InsLiveTask { id, value, deadline } => SnapshotView {
            live: seq![LiveTaskView { id, value, managed: None, deadline }] + s.live,
            finished: s.finished,
        },
        OpKindView::RestoreFinishedTask { id } => match finished_ids(s.finished).index_of_first(id) {
            Some(p) => SnapshotView {
                live: seq![restored(s.finished[p])] + s.live,
                finished: s.finished.remove(p),
            },
            None => s,
        },
        OpKindView::EditLiveTask { id, value, deadline } => match live_ids(s.live).index_of_first(id) {
            Some(p) => SnapshotView {
                live: s.live.update(p, LiveTaskView { value, ..s.live[p] }),
                finished: s.finished,
            },
            None => s,
        },
        OpKindView::DelLiveTask { id } => SnapshotView {
            live: s.live.filter(|t: LiveTaskView| t.id != id),
            finished: s.finished,
        },
        OpKindView::MvLiveTask { id_del, id_ins } => match (
            live_ids(s.live).index_of_first(id_ins),
            live_ids(s.live).index_of_first(id_del),
        ) {
            (Some(i), Some(d)) => SnapshotView {
                live: s.live.remove(d).insert(i, s.live[d]),
                finished: s.finished,
            },
            _ => s,
        },
        OpKindView::RevLiveTask { id1, id2 } => s,
        OpKindView::FinishLiveTask { id, status } => match live_ids(s.live).index_of_first(id) {
            Some(p) => SnapshotView {
                live: s.live.remove(p),
                finished: seq![finished_from(s.live[p], id, status)] + s.finished,
            },
            None => s,
        },
    }
}

} // verus!
