use std::collections::VecDeque;
use todoproxy::api::{FinishedTask, LiveTask, StateSnapshot, TaskStatus, WebsocketOp, WebsocketOpKind};
use todoproxy::habitica_integration::client::{Direction, HabiticaError, Task};
use todoproxy::db_types::HabiticaIntegration;
use todoproxy::handlers::AppError;
use todoproxy::task_updates::{
    apply_operation, handle_ws_client_op, initial_snapshot, initial_update, post_operation,
    snapshot_from_tasks, worker_client, HabiticaCall,
};

fn live(id: &str, value: &str) -> LiveTask {
    LiveTask { id: id.to_string(), value: value.to_string(), managed: None, deadline: None }
}

fn fin(id: &str, value: &str, status: TaskStatus) -> FinishedTask {
    FinishedTask { id: id.to_string(), value: value.to_string(), managed: None, status, deadline: None }
}

fn snap(l: Vec<LiveTask>, f: Vec<FinishedTask>) -> StateSnapshot {
    StateSnapshot { live: l.into_iter().collect(), finished: f.into_iter().collect() }
}

fn live_pairs(s: &StateSnapshot) -> Vec<(String, String)> {
    s.live.iter().map(|t| (t.id.clone(), t.value.clone())).collect()
}

fn fin_triples(s: &StateSnapshot) -> Vec<(String, String, TaskStatus)> {
    s.finished.iter().map(|t| (t.id.clone(), t.value.clone(), t.status)).collect()
}

fn p(a: &str, b: &str) -> (String, String) {
    (a.to_string(), b.to_string())
}

fn same(a: &StateSnapshot, b: &StateSnapshot) -> bool {
    live_pairs(a) == live_pairs(b)
        && fin_triples(a) == fin_triples(b)
        && a.live.iter().zip(b.live.iter()).all(|(x, y)| x.managed == y.managed && x.deadline == y.deadline)
        && a.finished.iter().zip(b.finished.iter()).all(|(x, y)| x.managed == y.managed && x.deadline == y.deadline)
}

fn sample() -> StateSnapshot {
    snap(
        vec![live("a", "A"), live("b", "B"), live("c", "C")],
        vec![fin("f", "F", TaskStatus::Succeeded), fin("g", "G", TaskStatus::Failed)],
    )
}

#[test]
fn insert_goes_to_front() {
    let mut s = sample();
    apply_operation(&mut s, WebsocketOpKind::InsLiveTask { id: "n".into(), value: "N".into(), deadline: Some(7) });
    assert_eq!(live_pairs(&s), vec![p("n", "N"), p("a", "A"), p("b", "B"), p("c", "C")]);
    assert_eq!(s.live[0].deadline, Some(7));
    assert_eq!(s.live[0].managed, None);
    assert_eq!(s.finished.len(), 2);
}

#[test]
fn edit_changes_first_match_only() {
    let mut s = snap(vec![live("a", "A"), live("b", "B"), live("a", "A2")], vec![]);
    s.live[0].deadline = Some(3);
    apply_operation(&mut s, WebsocketOpKind::EditLiveTask { id: "a".into(), value: "Z".into(), deadline: Some(9) });
    assert_eq!(live_pairs(&s), vec![p("a", "Z"), p("b", "B"), p("a", "A2")]);
    // the deadline carried by the operation is not applied
    assert_eq!(s.live[0].deadline, Some(3));
}

#[test]
fn edit_of_missing_task_changes_nothing() {
    let mut s = sample();
    apply_operation(&mut s, WebsocketOpKind::EditLiveTask { id: "zz".into(), value: "Z".into(), deadline: None });
    assert!(same(&s, &sample()));
}

#[test]
fn delete_removes_every_match() {
    let mut s = snap(vec![live("a", "1"), live("b", "2"), live("a", "3"), live("c", "4")], vec![]);
    apply_operation(&mut s, WebsocketOpKind::DelLiveTask { id: "a".into() });
    assert_eq!(live_pairs(&s), vec![p("b", "2"), p("c", "4")]);
}

#[test]
fn delete_twice_is_delete_once() {
    let mut s = sample();
    apply_operation(&mut s, WebsocketOpKind::DelLiveTask { id: "b".into() });
    let once = s.clone();
    apply_operation(&mut s, WebsocketOpKind::DelLiveTask { id: "b".into() });
    assert!(same(&s, &once));
    assert_eq!(live_pairs(&s), vec![p("a", "A"), p("c", "C")]);
}

#[test]
fn move_takes_place_of_target() {
    let mut s = snap(vec![live("a", "A"), live("b", "B"), live("c", "C"), live("d", "D")], vec![]);
    apply_operation(&mut s, WebsocketOpKind::MvLiveTask { id_del: "d".into(), id_ins: "b".into() });
    assert_eq!(live_pairs(&s), vec![p("a", "A"), p("d", "D"), p("b", "B"), p("c", "C")]);
    let mut s = snap(vec![live("a", "A"), live("b", "B"), live("c", "C"), live("d", "D")], vec![]);
    apply_operation(&mut s, WebsocketOpKind::MvLiveTask { id_del: "a".into(), id_ins: "c".into() });
    assert_eq!(live_pairs(&s), vec![p("b", "B"), p("c", "C"), p("a", "A"), p("d", "D")]);
}

#[test]
fn move_with_a_missing_task_changes_nothing() {
    let mut s = sample();
    apply_operation(&mut s, WebsocketOpKind::MvLiveTask { id_del: "a".into(), id_ins: "zz".into() });
    assert!(same(&s, &sample()));
    apply_operation(&mut s, WebsocketOpKind::MvLiveTask { id_del: "zz".into(), id_ins: "a".into() });
    assert!(same(&s, &sample()));
}

#[test]
fn move_keeps_the_same_tasks() {
    let mut s = sample();
    apply_operation(&mut s, WebsocketOpKind::MvLiveTask { id_del: "c".into(), id_ins: "a".into() });
    let mut ids: Vec<String> = s.live.iter().map(|t| t.id.clone()).collect();
    ids.sort();
    assert_eq!(ids, vec!["a".to_string(), "b".to_string(), "c".to_string()]);
    assert_eq!(fin_triples(&s), fin_triples(&sample()));
}

#[test]
fn finish_moves_task_to_front_of_finished() {
    let mut s = sample();
    s.live[1].managed = Some("svc".into());
    s.live[1].deadline = Some(42);
    apply_operation(&mut s, WebsocketOpKind::FinishLiveTask { id: "b".into(), status: TaskStatus::Obsoleted });
    assert_eq!(live_pairs(&s), vec![p("a", "A"), p("c", "C")]);
    assert_eq!(
        fin_triples(&s),
        vec![
            ("b".to_string(), "B".to_string(), TaskStatus::Obsoleted),
            ("f".to_string(), "F".to_string(), TaskStatus::Succeeded),
            ("g".to_string(), "G".to_string(), TaskStatus::Failed)
        ]
    );
    assert_eq!(s.finished[0].managed, Some("svc".to_string()));
    assert_eq!(s.finished[0].deadline, Some(42));
}

#[test]
fn finish_of_missing_task_changes_nothing() {
    let mut s = sample();
    apply_operation(&mut s, WebsocketOpKind::FinishLiveTask { id: "f".into(), status: TaskStatus::Failed });
    assert!(same(&s, &sample()));
}

#[test]
fn restore_moves_task_to_front_of_live() {
    let mut s = sample();
    apply_operation(&mut s, WebsocketOpKind::RestoreFinishedTask { id: "g".into() });
    assert_eq!(live_pairs(&s), vec![p("g", "G"), p("a", "A"), p("b", "B"), p("c", "C")]);
    assert_eq!(fin_triples(&s), vec![("f".to_string(), "F".to_string(), TaskStatus::Succeeded)]);
}

#[test]
fn restore_of_missing_task_changes_nothing() {
    let mut s = sample();
    apply_operation(&mut s, WebsocketOpKind::RestoreFinishedTask { id: "a".into() });
    assert!(same(&s, &sample()));
}

#[test]
fn reverse_changes_nothing() {
    let mut s = sample();
    apply_operation(&mut s, WebsocketOpKind::RevLiveTask { id1: "a".into(), id2: "c".into() });
    assert!(same(&s, &sample()));
}

#[test]
fn overwrite_replaces_everything() {
    let mut s = sample();
    let n = snap(vec![live("x", "X")], vec![]);
    apply_operation(&mut s, WebsocketOpKind::OverwriteState(n.clone()));
    assert!(same(&s, &n));
}

#[test]
fn finish_first_then_restore_gives_back_state() {
    let mut s = sample();
    apply_operation(&mut s, WebsocketOpKind::FinishLiveTask { id: "a".into(), status: TaskStatus::Succeeded });
    apply_operation(&mut s, WebsocketOpKind::RestoreFinishedTask { id: "a".into() });
    assert!(same(&s, &sample()));
}

#[test]
fn finish_then_restore_brings_task_to_front() {
    let mut s = sample();
    apply_operation(&mut s, WebsocketOpKind::FinishLiveTask { id: "c".into(), status: TaskStatus::Failed });
    apply_operation(&mut s, WebsocketOpKind::RestoreFinishedTask { id: "c".into() });
    assert_eq!(live_pairs(&s), vec![p("c", "C"), p("a", "A"), p("b", "B")]);
    assert_eq!(fin_triples(&s), fin_triples(&sample()));
}

#[test]
fn insert_then_delete_gives_back_state() {
    let mut s = sample();
    apply_operation(&mut s, WebsocketOpKind::InsLiveTask { id: "new".into(), value: "N".into(), deadline: None });
    apply_operation(&mut s, WebsocketOpKind::DelLiveTask { id: "new".into() });
    assert!(same(&s, &sample()));
}

#[test]
fn task_count_is_kept_by_finish_restore_move_edit() {
    let total = |s: &StateSnapshot| s.live.len() + s.finished.len();
    let mut s = sample();
    for op in [
        WebsocketOpKind::FinishLiveTask { id: "a".into(), status: TaskStatus::Failed },
        WebsocketOpKind::RestoreFinishedTask { id: "g".into() },
        WebsocketOpKind::MvLiveTask { id_del: "g".into(), id_ins: "c".into() },
        WebsocketOpKind::EditLiveTask { id: "b".into(), value: "Q".into(), deadline: None },
    ] {
        apply_operation(&mut s, op);
        assert_eq!(total(&s), 5);
    }
}

#[test]
fn planned_calls_for_each_operation() {
    let s = sample();
    match post_operation(&s, &WebsocketOpKind::InsLiveTask { id: "n".into(), value: "N".into(), deadline: None }) {
        Some(HabiticaCall::InsertTodo { id, text }) => assert_eq!((id, text), p("n", "N")),
        _ => panic!("expected insert"),
    }
    match post_operation(&s, &WebsocketOpKind::RestoreFinishedTask { id: "f".into() }) {
        Some(HabiticaCall::ScoreTask { id, direction }) => {
            assert_eq!(id, "f");
            assert_eq!(direction, Direction::Down);
        }
        _ => panic!("expected score down"),
    }
    match post_operation(&s, &WebsocketOpKind::FinishLiveTask { id: "a".into(), status: TaskStatus::Failed }) {
        Some(HabiticaCall::ScoreTask { id, direction }) => {
            assert_eq!(id, "a");
            assert_eq!(direction, Direction::Up);
        }
        _ => panic!("expected score up"),
    }
    match post_operation(&s, &WebsocketOpKind::EditLiveTask { id: "b".into(), value: "V".into(), deadline: None }) {
        Some(HabiticaCall::UpdateTask { id, text }) => assert_eq!((id, text), p("b", "V")),
        _ => panic!("expected update"),
    }
    match post_operation(&s, &WebsocketOpKind::DelLiveTask { id: "c".into() }) {
        Some(HabiticaCall::DeleteTask { id }) => assert_eq!(id, "c"),
        _ => panic!("expected delete"),
    }
    match post_operation(&s, &WebsocketOpKind::MvLiveTask { id_del: "a".into(), id_ins: "c".into() }) {
        Some(HabiticaCall::MoveTask { id, location }) => {
            assert_eq!(id, "a");
            assert_eq!(location, 2);
        }
        _ => panic!("expected move"),
    }
    assert!(post_operation(&s, &WebsocketOpKind::MvLiveTask { id_del: "a".into(), id_ins: "zz".into() }).is_none());
    assert!(post_operation(&s, &WebsocketOpKind::RevLiveTask { id1: "a".into(), id2: "b".into() }).is_none());
}

#[test]
fn move_call_targets_local_position() {
    let mut s = sample();
    let op = WebsocketOpKind::MvLiveTask { id_del: "c".into(), id_ins: "b".into() };
    let loc = match post_operation(&s, &op) {
        Some(HabiticaCall::MoveTask { location, .. }) => location,
        _ => panic!("expected move"),
    };
    apply_operation(&mut s, op);
    assert_eq!(s.live[loc as usize].id, "c");
}

#[test]
fn handling_an_operation_plans_applies_and_echoes() {
    let mut s = sample();
    let op = WebsocketOp { alleged_time: 99, kind: WebsocketOpKind::MvLiveTask { id_del: "c".into(), id_ins: "a".into() } };
    let (call, echo) = handle_ws_client_op(&mut s, op);
    match call {
        Some(HabiticaCall::MoveTask { id, location }) => {
            assert_eq!(id, "c");
            assert_eq!(location, 0);
        }
        _ => panic!("expected move"),
    }
    assert_eq!(echo.alleged_time, 99);
    match echo.kind {
        WebsocketOpKind::MvLiveTask { id_del, id_ins } => assert_eq!((id_del, id_ins), p("c", "a")),
        _ => panic!("expected the same operation"),
    }
    assert_eq!(live_pairs(&s), vec![p("c", "C"), p("a", "A"), p("b", "B")]);
}

fn task(id: &str, text: Option<&str>, completed: Option<bool>) -> Task {
    Task {
        id: id.to_string(),
        text: text.map(|t| t.to_string()),
        frequency: None,
        task_type: None,
        notes: None,
        repeat: None,
        every_x: None,
        next_due: None,
        completed,
        is_due: None,
        checklist: None,
    }
}

#[test]
fn snapshot_splits_tasks_by_completion() {
    let s = snapshot_from_tasks(vec![
        task("1", Some("one"), Some(false)),
        task("2", Some("two"), Some(true)),
        task("3", None, None),
        task("4", Some("four"), Some(true)),
    ]);
    assert_eq!(live_pairs(&s), vec![p("1", "one"), p("3", "")]);
    assert_eq!(
        fin_triples(&s),
        vec![
            ("2".to_string(), "two".to_string(), TaskStatus::Succeeded),
            ("4".to_string(), "four".to_string(), TaskStatus::Succeeded)
        ]
    );
    assert_eq!(s.live.len() + s.finished.len(), 4);
}

#[test]
fn initial_snapshot_maps_fetch_failure() {
    let r = initial_snapshot(Err(HabiticaError::UnsuccessfulRequest(503, "down".into())));
    assert_eq!(r.err(), Some(AppError::InternalServerError));
    let r = initial_snapshot(Ok(vec![task("1", Some("one"), None)]));
    assert_eq!(live_pairs(&r.unwrap()), vec![p("1", "one")]);
}

#[test]
fn worker_client_needs_an_integration() {
    assert_eq!(worker_client("me".into(), None).err(), Some(AppError::IntegrationNotFound));
    let i = HabiticaIntegration {
        habitica_integration_id: 1,
        creation_time: 2,
        creator_user_id: 3,
        user_id: "hu".into(),
        api_key: "hk".into(),
    };
    let c = worker_client("me".into(), Some(i)).unwrap();
    let h = c.construct_headers();
    assert_eq!(h, vec![p("x-client", "me-todoproxy"), p("x-api-user", "hu"), p("x-api-key", "hk")]);
}

#[test]
fn initial_update_carries_whole_state() {
    let op = initial_update(sample(), 5);
    assert_eq!(op.alleged_time, 5);
    match op.kind {
        WebsocketOpKind::OverwriteState(s) => assert!(same(&s, &sample())),
        _ => panic!("expected overwrite"),
    }
}

#[test]
fn empty_state_operations() {
    let mut s = StateSnapshot { live: VecDeque::new(), finished: VecDeque::new() };
    apply_operation(&mut s, WebsocketOpKind::DelLiveTask { id: "a".into() });
    apply_operation(&mut s, WebsocketOpKind::FinishLiveTask { id: "a".into(), status: TaskStatus::Failed });
    assert!(s.live.is_empty() && s.finished.is_empty());
}

#[test]
fn distinct_ids_stay_distinct() {
    fn distinct(s: &StateSnapshot) -> bool {
        let mut ids: Vec<String> = s.live.iter().map(|t| t.id.clone()).chain(s.finished.iter().map(|t| t.id.clone())).collect();
        let n = ids.len();
        ids.sort();
        ids.dedup();
        ids.len() == n
    }
    let mut s = sample();
    assert!(distinct(&s));
    for op in [
        WebsocketOpKind::InsLiveTask { id: "n".into(), value: "N".into(), deadline: None },
        WebsocketOpKind::FinishLiveTask { id: "b".into(), status: TaskStatus::Succeeded },
        WebsocketOpKind::RestoreFinishedTask { id: "f".into() },
        WebsocketOpKind::MvLiveTask { id_del: "f".into(), id_ins: "c".into() },
        WebsocketOpKind::EditLiveTask { id: "a".into(), value: "A2".into(), deadline: None },
        WebsocketOpKind::DelLiveTask { id: "n".into() },
    ] {
        apply_operation(&mut s, op);
        assert!(distinct(&s));
    }
}
