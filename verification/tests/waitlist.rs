use agc_core::executive::{ScheduleResult, Task, Waitlist, WAITLIST_CAPACITY};

#[test]
fn waitlist_orders_by_delay_and_keeps_fifo_for_ties() {
    let mut w = Waitlist::new();
    assert!(w.is_empty());
    assert_eq!(w.schedule(500, Task::P02GyrocompassStep), ScheduleResult::Scheduled);
    assert_eq!(w.schedule(200, Task::P20NavCycle), ScheduleResult::Scheduled);
    assert_eq!(w.schedule(500, Task::P22CycleTask), ScheduleResult::Scheduled);
    assert_eq!(w.schedule(1000, Task::P23CycleTask), ScheduleResult::Scheduled);
    assert_eq!(w.len(), 4);
    assert_eq!(w.front_delta(), Some(200));
    assert!(w.contains_task(Task::P22CycleTask));
    assert_eq!(w.pop_task(), Some((Task::P20NavCycle, 200)));
    assert_eq!(w.pop_task(), Some((Task::P02GyrocompassStep, 500)));
    assert_eq!(w.pop_task(), Some((Task::P22CycleTask, 500)));
    assert_eq!(w.pop_task(), Some((Task::P23CycleTask, 1000)));
    assert_eq!(w.pop_task(), None);
    assert!(!w.contains_task(Task::P22CycleTask));
}

#[test]
fn waitlist_full_refuses_and_changes_nothing() {
    let mut w = Waitlist::new();
    for i in 0..WAITLIST_CAPACITY {
        assert_eq!(w.schedule(i as u16, Task::P20NavCycle), ScheduleResult::Scheduled);
    }
    assert_eq!(w.schedule(0, Task::P23CycleTask), ScheduleResult::Full);
    assert_eq!(w.len(), WAITLIST_CAPACITY);
    assert!(!w.contains_task(Task::P23CycleTask));
    assert_eq!(w.peek(WAITLIST_CAPACITY), None);
}
