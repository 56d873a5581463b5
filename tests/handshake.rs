use splash_handshake::readiness::{
    task_from_name, ReadinessState, Task, TaskError, BACKEND_WARMUP_SECS,
};
use splash_handshake::window::{swap_steps, SwapStep};

#[test]
fn backend_then_frontend_swaps_windows() {
    let mut s = ReadinessState::new();
    assert_eq!(s.set_complete("backend"), Ok(false));
    assert!(s.backend_ready());
    assert!(!s.frontend_ready());
    assert!(!s.is_ready());
    assert_eq!(s.set_complete("frontend"), Ok(true));
    assert!(s.is_ready());
    assert_eq!(
        swap_steps(true, true),
        vec![SwapStep::CloseSplash, SwapStep::ShowMain, SwapStep::FocusMain]
    );
}

#[test]
fn frontend_then_backend_swaps_windows() {
    let mut s = ReadinessState::new();
    assert_eq!(s.set_complete("frontend"), Ok(false));
    assert!(s.frontend_ready());
    assert!(!s.backend_ready());
    assert_eq!(s.set_complete("backend"), Ok(true));
    assert!(s.is_ready());
    assert!(s.frontend_ready() && s.backend_ready());
}

#[test]
fn only_frontend_never_swaps() {
    let mut s = ReadinessState::new();
    for _ in 0..3 {
        assert_eq!(s.set_complete("frontend"), Ok(false));
    }
    assert!(!s.is_ready());
    assert!(!s.backend_ready());
}

#[test]
fn only_backend_never_swaps() {
    let mut s = ReadinessState::new();
    for _ in 0..3 {
        assert_eq!(s.report(Task::Backend), false);
    }
    assert!(!s.is_ready());
    assert!(!s.frontend_ready());
}

#[test]
fn swap_fires_once_even_on_repeated_reports() {
    let mut s = ReadinessState::new();
    let order = [Task::Frontend, Task::Frontend, Task::Backend, Task::Frontend, Task::Backend];
    let fired: usize = order.iter().filter(|t| s.report(**t)).count();
    assert_eq!(fired, 1);
    assert!(s.is_ready());
}

#[test]
fn unknown_task_name_is_refused() {
    let mut s = ReadinessState::new();
    assert_eq!(s.set_complete("typo"), Err(TaskError::InvalidTask));
    assert!(!s.frontend_ready());
    assert!(!s.backend_ready());
    assert_eq!(s.set_complete("frontend"), Ok(false));
    assert_eq!(s.set_complete("Backend"), Err(TaskError::InvalidTask));
    assert_eq!(s.set_complete(""), Err(TaskError::InvalidTask));
    assert_eq!(s.set_complete("backend "), Err(TaskError::InvalidTask));
    assert!(s.frontend_ready());
    assert!(!s.backend_ready());
}

#[test]
fn task_names_read_back() {
    assert_eq!(Task::Frontend.name(), "frontend");
    assert_eq!(Task::Backend.name(), "backend");
    assert_eq!(task_from_name(Task::Frontend.name()), Some(Task::Frontend));
    assert_eq!(task_from_name(Task::Backend.name()), Some(Task::Backend));
    assert_eq!(task_from_name("front"), None);
    assert_eq!(task_from_name("frontendx"), None);
}

#[test]
fn backend_warm_up_takes_three_seconds() {
    assert_eq!(BACKEND_WARMUP_SECS, 3);
}
