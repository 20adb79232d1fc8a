use fall_alarm::scheduler::{CoreState, Interrupt, Scheduler, Task};

#[test]
fn core_starts_in_the_foreground() {
    let scheduler = Scheduler::new();
    assert_eq!(
        scheduler.state(),
        CoreState {
            running: Task::Foreground,
            lock_held: false,
            refresh_pending: false,
            tick_pending: false,
        }
    );
    assert!(!scheduler.may_access_shared());
}

#[test]
fn foreground_goes_on_while_nothing_waits() {
    let mut scheduler = Scheduler::new();
    let before = scheduler.state();
    assert_eq!(scheduler.dispatch(), Task::Foreground);
    assert_eq!(scheduler.state(), before);
}

#[test]
fn raised_interrupt_starts_its_handler() {
    let mut scheduler = Scheduler::new();
    scheduler.raise(Interrupt::AlarmTick);
    assert!(scheduler.state().tick_pending);
    assert_eq!(scheduler.dispatch(), Task::AlarmTick);
    assert_eq!(scheduler.state().running, Task::AlarmTick);
    assert!(!scheduler.state().tick_pending);
    scheduler.handler_returns();
    assert_eq!(scheduler.state().running, Task::Foreground);
    assert_eq!(scheduler.dispatch(), Task::Foreground);
}

#[test]
fn display_refresh_goes_before_the_alarm_tick() {
    let mut scheduler = Scheduler::new();
    scheduler.raise(Interrupt::AlarmTick);
    scheduler.raise(Interrupt::DisplayRefresh);
    assert_eq!(scheduler.dispatch(), Task::DisplayRefresh);
    assert!(scheduler.state().tick_pending);
    assert!(!scheduler.state().refresh_pending);
    scheduler.handler_returns();
    assert_eq!(scheduler.dispatch(), Task::AlarmTick);
    scheduler.handler_returns();
    assert_eq!(scheduler.dispatch(), Task::Foreground);
}

#[test]
fn critical_section_holds_interrupts_off() {
    let mut scheduler = Scheduler::new();
    scheduler.lock();
    assert!(scheduler.may_access_shared());
    scheduler.raise(Interrupt::DisplayRefresh);
    scheduler.raise(Interrupt::AlarmTick);
    let held = scheduler.state();
    for _ in 0..3 {
        assert_eq!(scheduler.dispatch(), Task::Foreground);
        assert_eq!(scheduler.state(), held);
    }
    scheduler.unlock();
    assert!(!scheduler.may_access_shared());
    assert_eq!(scheduler.dispatch(), Task::DisplayRefresh);
}

#[test]
fn handler_runs_to_completion() {
    let mut scheduler = Scheduler::new();
    scheduler.raise(Interrupt::AlarmTick);
    assert_eq!(scheduler.dispatch(), Task::AlarmTick);
    // Not even the display refresh preempts a handler.
    scheduler.raise(Interrupt::DisplayRefresh);
    assert_eq!(scheduler.dispatch(), Task::AlarmTick);
    assert!(scheduler.state().refresh_pending);
    scheduler.handler_returns();
    assert_eq!(scheduler.dispatch(), Task::DisplayRefresh);
}

#[test]
fn refresh_is_not_starved_by_ticks() {
    let mut scheduler = Scheduler::new();
    scheduler.raise(Interrupt::AlarmTick);
    assert_eq!(scheduler.dispatch(), Task::AlarmTick);
    scheduler.raise(Interrupt::DisplayRefresh);
    scheduler.raise(Interrupt::AlarmTick);
    scheduler.handler_returns();
    assert_eq!(scheduler.dispatch(), Task::DisplayRefresh);
    scheduler.handler_returns();
    assert_eq!(scheduler.dispatch(), Task::AlarmTick);
}

#[test]
fn interrupt_raised_twice_is_served_once() {
    let mut scheduler = Scheduler::new();
    scheduler.raise(Interrupt::DisplayRefresh);
    let once = scheduler.state();
    scheduler.raise(Interrupt::DisplayRefresh);
    assert_eq!(scheduler.state(), once);
    assert_eq!(scheduler.dispatch(), Task::DisplayRefresh);
    scheduler.handler_returns();
    assert_eq!(scheduler.dispatch(), Task::Foreground);
}

#[test]
fn handler_may_lock_and_unlock() {
    let mut scheduler = Scheduler::new();
    scheduler.raise(Interrupt::AlarmTick);
    scheduler.dispatch();
    scheduler.lock();
    assert!(scheduler.may_access_shared());
    assert_eq!(scheduler.dispatch(), Task::AlarmTick);
    scheduler.unlock();
    scheduler.handler_returns();
    assert_eq!(
        scheduler.state(),
        CoreState {
            running: Task::Foreground,
            lock_held: false,
            refresh_pending: false,
            tick_pending: false,
        }
    );
}

#[test]
fn lock_does_not_touch_what_waits() {
    let mut scheduler = Scheduler::new();
    scheduler.raise(Interrupt::AlarmTick);
    scheduler.lock();
    assert!(scheduler.state().tick_pending);
    assert!(!scheduler.state().refresh_pending);
    assert_eq!(scheduler.state().running, Task::Foreground);
    scheduler.unlock();
    assert!(scheduler.state().tick_pending);
    assert!(!scheduler.state().lock_held);
}

#[test]
fn core_is_open_only_in_the_unlocked_foreground() {
    let mut scheduler = Scheduler::new();
    assert!(scheduler.interrupts_open());
    scheduler.lock();
    assert!(!scheduler.interrupts_open());
    scheduler.unlock();
    assert!(scheduler.interrupts_open());
    scheduler.raise(Interrupt::DisplayRefresh);
    assert!(scheduler.interrupts_open());
    scheduler.dispatch();
    assert!(!scheduler.interrupts_open());
    scheduler.handler_returns();
    assert!(scheduler.interrupts_open());
}

#[test]
fn open_core_serves_a_raised_interrupt_at_once() {
    for interrupt in [Interrupt::DisplayRefresh, Interrupt::AlarmTick] {
        let mut scheduler = Scheduler::new();
        scheduler.raise(interrupt);
        let task = scheduler.dispatch();
        match interrupt {
            Interrupt::DisplayRefresh => assert_eq!(task, Task::DisplayRefresh),
            Interrupt::AlarmTick => assert_eq!(task, Task::AlarmTick),
        }
    }
}
