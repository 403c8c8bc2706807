use deferred_task::{spawn, Read, Step};

#[test]
fn immediate_completion_yields_output() {
    let mut t = spawn::<u32>();
    let rescheduled = t.run(Step::Ready(42));
    assert!(!rescheduled);
    assert_eq!(t.poll(), Read::Ready(Some(42)));
    assert_eq!(t.poll(), Read::Ready(None));
}

#[test]
fn suspend_then_complete() {
    let mut t = spawn::<String>();
    let rescheduled = t.run(Step::Suspended);
    assert!(!rescheduled);
    assert_eq!(t.poll(), Read::NotReady);
    let schedule = t.wake();
    assert!(schedule);
    let rescheduled = t.run(Step::Ready(String::from("done")));
    assert!(!rescheduled);
    assert_eq!(t.poll(), Read::Ready(Some(String::from("done"))));
}

#[test]
fn cancel_before_any_run() {
    let t = spawn::<u32>();
    let (out, mut r) = t.cancel();
    assert_eq!(out, None);
    assert!(r.is_canceled());
    let rescheduled = r.run(Step::Ready(5));
    assert!(!rescheduled);
    assert!(r.is_canceled());
    assert_eq!(r.poll_output(), Read::Ready(None));
}

#[test]
fn wake_during_poll_keeps_task_scheduled() {
    let t = spawn::<u8>();
    let mut r = t.detach();
    assert!(r.is_scheduled());
    assert!(r.begin_run());
    assert!(r.is_running());
    let schedule = r.wake();
    assert!(!schedule);
    assert!(r.is_scheduled());
    let schedule = r.finish_run(Step::Suspended);
    assert!(schedule);
    assert!(r.is_scheduled());
    assert!(r.begin_run());
    let schedule = r.finish_run(Step::Ready(7));
    assert!(!schedule);
    assert!(r.is_completed());
    assert_eq!(r.poll_output(), Read::Ready(Some(7)));
}

#[test]
fn detached_task_survives_handle_drop() {
    let t = spawn::<u32>();
    let mut r = t.detach();
    assert!(r.is_scheduled());
    let rescheduled = r.run(Step::Suspended);
    assert!(!rescheduled);
    assert!(r.is_pending());
    assert!(r.wake());
    assert!(r.is_scheduled());
}

#[test]
fn detached_task_runs_to_completion() {
    let t = spawn::<u32>();
    let mut r = t.detach();
    let rescheduled = r.run(Step::Ready(9));
    assert!(!rescheduled);
    assert!(r.is_completed());
    assert_eq!(r.poll_output(), Read::Ready(Some(9)));
}

#[test]
fn terminal_states_never_change() {
    let mut t = spawn::<u32>();
    let _ = t.run(Step::Ready(1));
    assert!(!t.wake());
    let _ = t.run(Step::Ready(9));
    assert_eq!(t.poll(), Read::Ready(Some(1)));

    let t = spawn::<u32>();
    let (_, mut r) = t.cancel();
    assert!(!r.wake());
    let _ = r.run(Step::Suspended);
    assert!(r.is_canceled());
}

#[test]
fn cancel_after_complete_keeps_output() {
    let mut t = spawn::<u32>();
    let _ = t.run(Step::Ready(5));
    let (out, mut r) = t.cancel();
    assert_eq!(out, Some(5));
    assert!(r.is_completed());
    assert_eq!(r.poll_output(), Read::Ready(None));
}

#[test]
fn reading_twice_returns_output_once() {
    let mut t = spawn::<u32>();
    let _ = t.run(Step::Ready(3));
    assert_eq!(t.poll(), Read::Ready(Some(3)));
    assert_eq!(t.poll(), Read::Ready(None));
    assert_eq!(t.poll(), Read::Ready(None));
}

#[test]
fn wake_while_already_scheduled_is_a_no_op() {
    let mut t = spawn::<u32>();
    assert!(!t.wake());
    let _ = t.run(Step::Ready(2));
    assert_eq!(t.poll(), Read::Ready(Some(2)));
}

#[test]
fn wake_schedules_only_once_per_suspension() {
    let mut t = spawn::<u32>();
    let _ = t.run(Step::Suspended);
    assert!(t.wake());
    assert!(!t.wake());
}

#[test]
fn teardown_cancels_unless_complete() {
    let t = spawn::<u32>();
    let mut r = t.teardown();
    assert!(r.is_canceled());
    assert_eq!(r.poll_output(), Read::Ready(None));

    let mut t = spawn::<u32>();
    let _ = t.run(Step::Ready(8));
    let mut r = t.teardown();
    assert!(r.is_completed());
    assert_eq!(r.poll_output(), Read::Ready(Some(8)));
}

#[test]
fn cancel_during_poll_is_honored() {
    let t = spawn::<u32>();
    let mut r = t.detach();
    assert!(r.begin_run());
    r.mark_canceled();
    assert!(r.is_canceled());
    let schedule = r.finish_run(Step::Suspended);
    assert!(!schedule);
    assert!(r.is_canceled());

    let t = spawn::<u32>();
    let mut r = t.detach();
    assert!(r.begin_run());
    r.mark_canceled();
    let schedule = r.finish_run(Step::Ready(4));
    assert!(!schedule);
    assert!(r.is_canceled());
    assert_eq!(r.poll_output(), Read::Ready(None));
}
