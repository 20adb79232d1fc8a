//! Who runs on the one core. There are three tasks: the foreground loop and
//! two interrupt handlers, the display refresh and the alarm tick. A handler
//! may start at any point of the foreground loop that is outside a critical
//! section, and runs to its end before anything else does. Of two handlers
//! that wait, the display refresh goes first.

use vstd::prelude::*;

verus! {

/// A task of the system.
#[derive(Clone, Copy, Debug, PartialEq, Eq, Structural)]
pub enum Task {
    Foreground,
    DisplayRefresh,
    AlarmTick,
}

/// A source of interrupts.
#[derive(Clone, Copy, Debug, PartialEq, Eq, Structural)]
pub enum Interrupt {
    DisplayRefresh,
    AlarmTick,
}

/// The state of the core.
#[derive(Clone, Copy, Debug, PartialEq, Eq, Structural)]
pub struct CoreState {
    /// The task that runs.
    pub running: Task,
    /// Whether the running task is inside a critical section.
    pub lock_held: bool,
    /// Whether the display refresh waits to be served.
    pub refresh_pending: bool,
    /// Whether the alarm tick waits to be served.
    pub tick_pending: bool,
}

/// The handler of an interrupt.
pub open spec fn handler_of(interrupt: Interrupt) -> Task {
    match interrupt {
        Interrupt::DisplayRefresh => Task::DisplayRefresh,
        Interrupt::AlarmTick => Task::AlarmTick,
    }
}

/// The core at start-up: the foreground loop runs, nothing waits.
pub open spec fn core_at_start() -> CoreState {
    CoreState {
        running: Task::Foreground,
        lock_held: false,
        refresh_pending: false,
        tick_pending: false,
    }
}

/// Whether a handler may start now: only out of the foreground loop, and
/// only outside a critical section. Nothing slow, such as a transfer from
/// the sensor, may be waited for while this does not hold: it would keep
/// the handlers waiting too.
pub open spec fn interrupts_open(state: CoreState) -> bool {
    state.running is Foreground && !state.lock_held
}

/// Whether the running task may touch a shared peripheral: only inside a
/// critical section.
pub open spec fn may_access_shared(state: CoreState) -> bool {
    state.lock_held
}

/// The core after an interrupt was raised: it waits. Raising one that
/// already waits changes nothing.
pub open spec fn after_raise(state: CoreState, interrupt: Interrupt) -> CoreState {
    match interrupt {
        Interrupt::DisplayRefresh => CoreState { refresh_pending: true, ..state },
        Interrupt::AlarmTick => CoreState { tick_pending: true, ..state },
    }
}

/// The task that runs next. A handler that runs goes on, and so does the
/// foreground loop inside a critical section. Otherwise a waiting handler
/// starts, the display refresh before the alarm tick.
pub open spec fn next_task(state: CoreState) -> Task {
    if !interrupts_open(state) {
        state.running
    } else if state.refresh_pending {
        Task::DisplayRefresh
    } else if state.tick_pending {
        Task::AlarmTick
    } else {
        Task::Foreground
    }
}

/// The core after the next task was chosen: a handler that starts waits no
/// longer.
pub open spec fn after_dispatch(state: CoreState) -> CoreState {
    if !interrupts_open(state) {
        state
    } else if state.refresh_pending {
        CoreState { running: Task::DisplayRefresh, refresh_pending: false, ..state }
    } else if state.tick_pending {
        CoreState { running: Task::AlarmTick, tick_pending: false, ..state }
    } else {
        state
    }
}

/// The core after a handler returned: the foreground loop goes on.
pub open spec fn after_return(state: CoreState) -> CoreState {
    CoreState { running: Task::Foreground, ..state }
}

/// The core after a number of dispatches with nothing in between.
pub open spec fn after_dispatches(state: CoreState, count: nat) -> CoreState
    decreases count,
{
    if count == 0 {
        state
    } else {
        after_dispatch(after_dispatches(state, (count - 1) as nat))
    }
}

/// The scheduler of the core.
#[derive(Clone, Copy, Debug)]
pub struct Scheduler {
    state: CoreState,
}

impl View for Scheduler {
    type V = CoreState;

    closed spec fn view(&self) -> CoreState {
        self.state
    }
}

impl Scheduler {
    /// A scheduler at start-up.
    pub fn new() -> (scheduler: Scheduler)
        ensures
            scheduler@ == core_at_start(),
    {
        Scheduler {
            state: CoreState {
                running: Task::Foreground,
                lock_held: false,
                refresh_pending: false,
                tick_pending: false,
            },
        }
    }

    /// The state of the core.
    pub fn state(&self) -> (state: CoreState)
        ensures
            state == self@,
    {
        self.state
    }

    /// Records that an interrupt was raised. It waits until it is
    /// dispatched.
    pub fn raise(&mut self, interrupt: Interrupt)
        ensures
            final(self)@ == after_raise(old(self)@, interrupt),
    {
        match interrupt {
            Interrupt::DisplayRefresh => {
                self.state.refresh_pending = true;
            },
            Interrupt::AlarmTick => {
                self.state.tick_pending = true;
            },
        }
    }

    /// Enters a critical section. Critical sections do not nest.
    pub fn lock(&mut self)
        requires
            !old(self)@.lock_held,
        ensures
            final(self)@ == (CoreState { lock_held: true, ..old(self)@ }),
    {
        self.state.lock_held = true;
    }

    /// Leaves the critical section.
    pub fn unlock(&mut self)
        requires
            old(self)@.lock_held,
        ensures
            final(self)@ == (CoreState { lock_held: false, ..old(self)@ }),
    {
        self.state.lock_held = false;
    }

    /// Whether a handler may start now. The foreground loop polls the sensor
    /// only while this holds.
    pub fn interrupts_open(&self) -> (open: bool)
        ensures
            open == interrupts_open(self@),
    {
        match self.state.running {
            Task::Foreground => !self.state.lock_held,
            _ => false,
        }
    }

    /// Whether the running task may touch a shared peripheral now.
    pub fn may_access_shared(&self) -> (allowed: bool)
        ensures
            allowed == may_access_shared(self@),
    {
        self.state.lock_held
    }

    /// Chooses the task that runs next and hands the core to it.
    pub fn dispatch(&mut self) -> (task: Task)
        ensures
            task == next_task(old(self)@),
            final(self)@ == after_dispatch(old(self)@),
            final(self)@.running == task,
    {
        if self.interrupts_open() {
            if self.state.refresh_pending {
                self.state.running = Task::DisplayRefresh;
                self.state.refresh_pending = false;
            } else if self.state.tick_pending {
                self.state.running = Task::AlarmTick;
                self.state.tick_pending = false;
            }
        }
        self.state.running
    }

    /// Records that the running handler returned. A handler has left its
    /// critical section before it returns.
    pub fn handler_returns(&mut self)
        requires
            !(old(self)@.running is Foreground),
            !old(self)@.lock_held,
        ensures
            final(self)@ == after_return(old(self)@),
    {
        self.state.running = Task::Foreground;
    }
}

/// No handler starts inside a critical section or while a handler runs: a
/// dispatch then changes nothing, and what waits keeps waiting.
pub proof fn lemma_no_preemption_while_closed(state: CoreState)
    requires
        !interrupts_open(state),
    ensures
        next_task(state) == state.running,
        after_dispatch(state) == state,
{
}

/// While the core is open a raised interrupt is served at once: its
/// handler is the next task, unless it is the alarm tick and the display
/// refresh waits too.
pub proof fn lemma_open_core_serves_at_once(state: CoreState, interrupt: Interrupt)
    requires
        interrupts_open(state),
    ensures
        next_task(after_raise(state, interrupt)) == (if state.refresh_pending {
            Task::DisplayRefresh
        } else {
            handler_of(interrupt)
        }),
{
}

/// An interrupt is not lost: once raised it waits until its handler starts,
/// through any number of dispatches while the core is closed.
pub proof fn lemma_raised_interrupt_waits(state: CoreState, interrupt: Interrupt, count: nat)
    requires
        !interrupts_open(state),
    ensures
        after_dispatches(after_raise(state, interrupt), count) == after_raise(state, interrupt),
    decreases count,
{
    if count > 0 {
        lemma_raised_interrupt_waits(state, interrupt, (count - 1) as nat);
    }
}

/// The display refresh goes first: where it waits and the core is open, it
/// is the next task, whether or not the alarm tick waits too. The alarm
/// tick keeps waiting meanwhile.
pub proof fn lemma_refresh_goes_first(state: CoreState)
    requires
        interrupts_open(state),
        state.refresh_pending,
    ensures
        next_task(state) == Task::DisplayRefresh,
        after_dispatch(state).tick_pending == state.tick_pending,
        !after_dispatch(state).refresh_pending,
{
}

/// The display refresh is never starved by the alarm tick: a refresh that
/// is raised while the tick handler runs starts as soon as that handler
/// has returned, before any further tick.
pub proof fn lemma_refresh_not_starved_by_tick(state: CoreState)
    requires
        state.running is AlarmTick,
        !state.lock_held,
    ensures
        next_task(after_return(after_raise(state, Interrupt::DisplayRefresh)))
            == Task::DisplayRefresh,
        next_task(
            after_return(
                after_raise(
                    after_raise(state, Interrupt::DisplayRefresh),
                    Interrupt::AlarmTick,
                ),
            ),
        ) == Task::DisplayRefresh,
{
}

/// The alarm tick is served too: once the refresh handler has returned, a
/// tick that waited is the next task.
pub proof fn lemma_tick_follows_refresh(state: CoreState)
    requires
        interrupts_open(state),
        state.refresh_pending,
        state.tick_pending,
    ensures
        next_task(after_return(after_dispatch(state))) == Task::AlarmTick,
{
}

} // verus!
