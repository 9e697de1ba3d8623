use background_jobs::app_state::AppState;

#[test]
fn new_state_has_no_task() {
    let s = AppState::new();
    assert!(!s.has_task);
    assert_eq!(s.total_task, 0);
}

#[test]
fn increase_sets_flag_and_counts() {
    let mut s = AppState::new();
    s.increase_task();
    assert!(s.has_task);
    assert_eq!(s.total_task, 1);
    s.increase_task();
    assert!(s.has_task);
    assert_eq!(s.total_task, 2);
}

#[test]
fn decrease_clears_flag_at_zero() {
    let mut s = AppState::new();
    s.increase_task();
    s.increase_task();
    s.decrease_task();
    assert!(s.has_task);
    assert_eq!(s.total_task, 1);
    s.decrease_task();
    assert!(!s.has_task);
    assert_eq!(s.total_task, 0);
}

#[test]
fn decrease_at_zero_stays_at_zero() {
    let mut s = AppState { has_task: true, total_task: 0 };
    s.decrease_task();
    assert!(!s.has_task);
    assert_eq!(s.total_task, 0);
}

#[test]
fn decrease_undoes_increase() {
    let mut s = AppState { has_task: true, total_task: 7 };
    s.increase_task();
    assert_eq!(s.total_task, 8);
    s.decrease_task();
    assert!(s.has_task);
    assert_eq!(s.total_task, 7);
}

#[test]
fn increase_keeps_flag_of_inconsistent_state() {
    let mut s = AppState { has_task: false, total_task: 3 };
    s.increase_task();
    assert!(!s.has_task);
    assert_eq!(s.total_task, 4);
}
