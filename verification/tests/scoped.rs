use ratatui_reactive::delay::DelayedSignal;
use ratatui_reactive::focus_manager::provide_focus_manager;
use ratatui_reactive::futures::Resource;
use ratatui_reactive::router::provide_router;
use ratatui_reactive::runtime::sleep;
use ratatui_reactive::task::{ScopedTask, TaskStep};
use std::time::{Duration, Instant};
use sycamore_reactive::{create_child_scope, create_root, create_signal};

#[test]
fn repeating_task_runs_while_alive_then_stops_for_good() {
    let mut t = ScopedTask::repeating();
    assert_eq!(t.step(true), TaskStep::Run);
    assert_eq!(t.step(true), TaskStep::Run);
    assert!(!t.is_finished());
    assert_eq!(t.step(false), TaskStep::Stop);
    assert!(t.is_finished());
    assert_eq!(t.step(true), TaskStep::Stop);
}

#[test]
fn timeout_runs_once() {
    let mut t = ScopedTask::once();
    assert_eq!(t.step(true), TaskStep::Run);
    assert!(t.is_finished());
    assert_eq!(t.step(true), TaskStep::Stop);
}

#[test]
fn timeout_of_dead_scope_never_runs() {
    let mut t = ScopedTask::once();
    assert_eq!(t.step(false), TaskStep::Stop);
    assert_eq!(t.step(true), TaskStep::Stop);
}

#[test]
fn task_stops_when_its_scope_is_disposed() {
    let root = create_root(|| {
        let mut trigger = None;
        let child = create_child_scope(|| trigger = Some(create_signal(())));
        let trigger = trigger.unwrap();
        let mut t = ScopedTask::repeating();
        assert_eq!(t.step(trigger.is_alive()), TaskStep::Run);
        assert_eq!(t.step(trigger.is_alive()), TaskStep::Run);
        child.dispose();
        assert_eq!(t.step(trigger.is_alive()), TaskStep::Stop);
        assert!(t.is_finished());
    });
    root.dispose();
}

#[test]
fn delayed_values_arrive_in_order() {
    let mut d = DelayedSignal::new(0u32);
    d.set(1);
    d.set(2);
    d.set(3);
    assert!(d.has_pending());
    assert!(d.deliver(true));
    assert_eq!(d.get(), Some(1));
    assert_eq!(d.get(), None);
    assert!(d.deliver(true));
    assert!(d.deliver(true));
    assert!(!d.has_pending());
    assert_eq!(d.get(), Some(3));
    assert!(!d.deliver(true));
}

#[test]
fn delayed_output_starts_at_initial_value() {
    let mut d = DelayedSignal::new(String::from("start"));
    d.set(String::from("next"));
    assert_eq!(d.get(), Some(String::from("start")));
}

#[test]
fn dead_output_ends_forwarding() {
    let mut d = DelayedSignal::new(7u8);
    d.set(8);
    d.set(9);
    assert!(!d.deliver(false));
    assert!(d.is_finished());
    assert!(!d.deliver(true));
    assert_eq!(d.get(), Some(7));
}

#[test]
fn router_goto_takes_effect_after_forwarding() {
    let mut r = provide_router(0u8);
    r.goto(2);
    assert_eq!(r.current_route(), Some(0));
    assert_eq!(r.current_route(), None);
    assert!(r.deliver(true));
    assert_eq!(r.current_route(), Some(2));
    assert!(!r.is_finished());
    r.goto(3);
    assert!(!r.deliver(false));
    assert!(r.is_finished());
    assert_eq!(r.current_route(), None);
}

#[test]
fn focus_moves_between_areas() {
    let mut m = provide_focus_manager(0);
    let a = m.on(0);
    let b = m.on(1);
    assert_eq!(a.route(), 0);
    assert!(a.is_focused(&m));
    assert!(!b.is_focused(&m));
    m.focus(1);
    assert_eq!(m.current(), 1);
    assert!(!a.is_focused(&m));
    assert!(b.is_focused(&m));
}

#[test]
fn resource_takes_latest_run_only() {
    let mut r: Resource<u32> = Resource::new();
    assert!(r.result().is_none());
    let first = r.restart();
    assert_eq!(first, 1);
    assert!(r.is_running());
    let second = r.restart();
    assert_eq!(second, 2);
    assert!(!r.complete(first, 10));
    assert!(r.result().is_none());
    assert!(r.complete(second, 20));
    assert_eq!(r.result(), Some(&20));
    assert!(!r.complete(second, 30));
    assert_eq!(r.result(), Some(&20));
    let third = r.restart();
    assert!(r.result().is_none());
    r.cleanup();
    assert!(!r.complete(third, 40));
    assert!(r.result().is_none());
    assert!(r.can_restart());
}

#[test]
fn resource_progress_resets_and_ignores_cancelled_runs() {
    let mut r: Resource<()> = Resource::new();
    assert_eq!(r.progress(), 0);
    let first = r.restart();
    assert!(r.report_progress(first, 40));
    assert_eq!(r.progress(), 40);
    let second = r.restart();
    assert_eq!(r.progress(), 0);
    assert!(!r.report_progress(first, 90));
    assert_eq!(r.progress(), 0);
    assert!(r.report_progress(second, 10));
    assert!(r.complete(second, ()));
    assert!(!r.report_progress(second, 20));
    assert_eq!(r.progress(), 10);
    let third = r.restart();
    r.cleanup();
    assert!(!r.report_progress(third, 5));
    assert_eq!(r.progress(), 0);
}

#[test]
fn sleep_waits_for_its_duration() {
    let start = Instant::now();
    let fired = futures_lite::future::block_on(sleep(Duration::from_millis(20)));
    assert!(fired >= start + Duration::from_millis(20));
    assert!(Instant::now() >= start + Duration::from_millis(20));
}
