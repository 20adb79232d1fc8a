//! The fall state machine: a Mealy machine from fall events to alarm
//! commands. A command is an edge: it is emitted only by a transition that
//! changes whether the alarm is raised.

use vstd::prelude::*;
use crate::classifier::FallEvent;

verus! {

/// The shape of the machine.
#[derive(Clone, Copy, Debug, PartialEq, Eq, Structural)]
pub enum Topology {
    /// `Still` and `Falling`: the alarm is silenced by the first `Stop`.
    TwoState,
    /// `Still`, `Falling` and `Recovering`: the alarm is silenced only by a
    /// second `Stop` in a row.
    ThreeState,
}

/// The state of the machine.
#[derive(Clone, Copy, Debug, PartialEq, Eq, Structural)]
pub enum ControllerState {
    Still,
    Falling,
    /// One `Stop` has been seen since the fall; the alarm is still raised.
    Recovering,
}

/// What the machine tells the actuator to do.
#[derive(Clone, Copy, Debug, PartialEq, Eq, Structural)]
pub enum AlarmCommand {
    Fall,
    Stop,
}

/// The states a machine of the given shape can be in.
pub open spec fn reachable(topology: Topology, state: ControllerState) -> bool {
    topology is TwoState ==> state !is Recovering
}

/// Whether the alarm is raised in a state: in every state but `Still`.
pub open spec fn alarm_raised(state: ControllerState) -> bool {
    state !is Still
}

/// The transition function. It is total: an input that changes nothing
/// leaves the state as it is.
pub open spec fn next_state(
    topology: Topology,
    state: ControllerState,
    input: FallEvent,
) -> ControllerState {
    match (state, input) {
        (_, FallEvent::Fall) => ControllerState::Falling,
        (ControllerState::Still, FallEvent::Stop) => ControllerState::Still,
        (ControllerState::Falling, FallEvent::Stop) => match topology {
            Topology::TwoState => ControllerState::Still,
            Topology::ThreeState => ControllerState::Recovering,
        },
        (ControllerState::Recovering, FallEvent::Stop) => ControllerState::Still,
    }
}

/// The output function: the command that a transition emits, if any.
pub open spec fn output(
    topology: Topology,
    state: ControllerState,
    input: FallEvent,
) -> Option<AlarmCommand> {
    match (state, input) {
        (ControllerState::Still, FallEvent::Fall) => Some(AlarmCommand::Fall),
        (ControllerState::Falling, FallEvent::Stop) => match topology {
            Topology::TwoState => Some(AlarmCommand::Stop),
            Topology::ThreeState => None,
        },
        (ControllerState::Recovering, FallEvent::Stop) => Some(AlarmCommand::Stop),
        _ => None,
    }
}

/// The state reached from `start` after a sequence of inputs.
pub open spec fn state_after(
    topology: Topology,
    start: ControllerState,
    events: Seq<FallEvent>,
) -> ControllerState
    decreases events.len(),
{
    if events.len() == 0 {
        start
    } else {
        next_state(topology, state_after(topology, start, events.drop_last()), events.last())
    }
}

/// The outputs of a run from `start`, one for each input.
pub open spec fn outputs_of(
    topology: Topology,
    start: ControllerState,
    events: Seq<FallEvent>,
) -> Seq<Option<AlarmCommand>> {
    Seq::new(
        events.len(),
        |i: int| output(topology, state_after(topology, start, events.take(i)), events[i]),
    )
}

/// A fall state machine. Its state is its own: only `consume` changes it.
#[derive(Clone, Copy, Debug)]
pub struct FallMachine {
    topology: Topology,
    state: ControllerState,
}

impl FallMachine {
    #[verifier::type_invariant]
    spec fn well_formed(self) -> bool {
        reachable(self.topology, self.state)
    }

    /// The shape of this machine.
    pub closed spec fn spec_topology(&self) -> Topology {
        self.topology
    }

    /// The current state of this machine.
    pub closed spec fn spec_state(&self) -> ControllerState {
        self.state
    }

    /// A machine of the given shape, in the initial state `Still`.
    pub fn new(topology: Topology) -> (machine: FallMachine)
        ensures
            machine.spec_topology() == topology,
            machine.spec_state() == ControllerState::Still,
    {
        FallMachine { topology, state: ControllerState::Still }
    }

    /// The shape of this machine.
    pub fn topology(&self) -> (topology: Topology)
        ensures
            topology == self.spec_topology(),
    {
        self.topology
    }

    /// The current state, which is one that the machine's shape has.
    pub fn state(&self) -> (state: ControllerState)
        ensures
            state == self.spec_state(),
            reachable(self.spec_topology(), state),
    {
        proof {
            use_type_invariant(self);
        }
        self.state
    }

    /// Whether the alarm is raised in the current state.
    pub fn alarm_raised(&self) -> (raised: bool)
        ensures
            raised == alarm_raised(self.spec_state()),
    {
        match self.state {
            ControllerState::Still => false,
            _ => true,
        }
    }

    /// Feeds one input to the machine. The machine moves as the transition
    /// function says and returns what the output function gives: `None`
    /// where the input changes nothing for the actuator.
    pub fn consume(&mut self, input: FallEvent) -> (command: Option<AlarmCommand>)
        ensures
            final(self).spec_topology() == old(self).spec_topology(),
            final(self).spec_state() == next_state(
                old(self).spec_topology(),
                old(self).spec_state(),
                input,
            ),
            command == output(old(self).spec_topology(), old(self).spec_state(), input),
    {
        let (next, command) = match (self.state, input) {
            (ControllerState::Still, FallEvent::Fall) => (
                ControllerState::Falling,
                Some(AlarmCommand::Fall),
            ),
            (ControllerState::Still, FallEvent::Stop) => (ControllerState::Still, None),
            (ControllerState::Falling, FallEvent::Fall) => (ControllerState::Falling, None),
            (ControllerState::Falling, FallEvent::Stop) => match self.topology {
                Topology::TwoState => (ControllerState::Still, Some(AlarmCommand::Stop)),
                Topology::ThreeState => (ControllerState::Recovering, None),
            },
            (ControllerState::Recovering, FallEvent::Fall) => (ControllerState::Falling, None),
            (ControllerState::Recovering, FallEvent::Stop) => (
                ControllerState::Still,
                Some(AlarmCommand::Stop),
            ),
        };
        self.state = next;
        command
    }

    /// Feeds a sequence of inputs to the machine, in order, and returns the
    /// output of each.
    pub fn consume_all(&mut self, events: &Vec<FallEvent>) -> (commands: Vec<Option<AlarmCommand>>)
        ensures
            final(self).spec_topology() == old(self).spec_topology(),
            final(self).spec_state() == state_after(
                old(self).spec_topology(),
                old(self).spec_state(),
                events@,
            ),
            commands@ == outputs_of(old(self).spec_topology(), old(self).spec_state(), events@),
    {
        let ghost topology = self.spec_topology();
        let ghost start = self.spec_state();
        let mut commands: Vec<Option<AlarmCommand>> = Vec::new();
        let mut i: usize = 0;
        while i < events.len()
            invariant
                i <= events.len(),
                self.spec_topology() == topology,
                self.spec_state() == state_after(topology, start, events@.take(i as int)),
                commands@ == outputs_of(topology, start, events@.take(i as int)),
            decreases events.len() - i,
        {
            let ghost before = events@.take(i as int);
            let ghost upto = events@.take(i + 1);
            let command = self.consume(events[i]);
            commands.push(command);
            proof {
                assert(upto.drop_last() == before);
                assert(upto.last() == events@[i as int]);
                assert forall|k: int| 0 <= k < upto.len() implies #[trigger] commands@[k]
                    == output(topology, state_after(topology, start, upto.take(k)), upto[k]) by {
                    assert(upto.take(k) == events@.take(k));
                    if k < i {
                        assert(before.take(k) == events@.take(k));
                    }
                }
                assert(commands@ == outputs_of(topology, start, upto));
            }
            i += 1;
        }
        proof {
            assert(events@.take(i as int) == events@);
        }
        commands
    }
}

/// A step never leaves the states of the machine's shape.
pub proof fn lemma_step_stays_reachable(
    topology: Topology,
    state: ControllerState,
    input: FallEvent,
)
    requires
        reachable(topology, state),
    ensures
        reachable(topology, next_state(topology, state, input)),
{
}

/// A command is an edge of the alarm posture: `Fall` is emitted exactly by
/// the steps that raise the alarm, `Stop` exactly by those that lower it,
/// and a step that keeps the posture emits nothing.
pub proof fn lemma_command_is_posture_edge(
    topology: Topology,
    state: ControllerState,
    input: FallEvent,
)
    requires
        reachable(topology, state),
    ensures
        output(topology, state, input) == Some(AlarmCommand::Fall) <==> !alarm_raised(state)
            && alarm_raised(next_state(topology, state, input)),
        output(topology, state, input) == Some(AlarmCommand::Stop) <==> alarm_raised(state)
            && !alarm_raised(next_state(topology, state, input)),
        output(topology, state, input) is None <==> alarm_raised(state) == alarm_raised(
            next_state(topology, state, input),
        ),
{
}

/// After a `Fall` the machine is in `Falling`, whatever came before.
pub proof fn lemma_fall_leads_to_falling(
    topology: Topology,
    start: ControllerState,
    events: Seq<FallEvent>,
)
    requires
        events.len() > 0,
        events.last() == FallEvent::Fall,
    ensures
        state_after(topology, start, events) == ControllerState::Falling,
{
}

/// The two-state machine remembers only its last input.
pub proof fn lemma_two_state_follows_last_input(start: ControllerState, events: Seq<FallEvent>)
    requires
        events.len() > 0,
    ensures
        state_after(Topology::TwoState, start, events) == (match events.last() {
            FallEvent::Fall => ControllerState::Falling,
            FallEvent::Stop => ControllerState::Still,
        }),
{
}

/// The three-state machine remembers its last two inputs: it is in
/// `Recovering` exactly after a `Fall` followed by one `Stop`.
pub proof fn lemma_three_state_follows_last_two_inputs(events: Seq<FallEvent>)
    ensures
        state_after(Topology::ThreeState, ControllerState::Still, events) == (if events.len() == 0 {
            ControllerState::Still
        } else if events.last() == FallEvent::Fall {
            ControllerState::Falling
        } else if events.len() >= 2 && events[events.len() - 2] == FallEvent::Fall {
            ControllerState::Recovering
        } else {
            ControllerState::Still
        }),
{
    if events.len() >= 2 {
        let shorter = events.drop_last();
        assert(shorter.last() == events[events.len() - 2]);
        let before = state_after(
            Topology::ThreeState,
            ControllerState::Still,
            shorter.drop_last(),
        );
        assert(state_after(Topology::ThreeState, ControllerState::Still, shorter) == next_state(
            Topology::ThreeState,
            before,
            shorter.last(),
        ));
    } else if events.len() == 1 {
        assert(state_after(
            Topology::ThreeState,
            ControllerState::Still,
            events.drop_last(),
        ) == ControllerState::Still);
    }
}

/// The outputs of the two-state machine, run from `Still`, are the edges
/// of its input. `Fall` comes out at the first input of each run of `Fall`s
/// and nowhere else, so a repeated `Fall` is never emitted again; `Stop`
/// comes out at the first `Stop` after a `Fall`.
pub proof fn lemma_two_state_outputs_are_input_edges(events: Seq<FallEvent>, i: int)
    requires
        0 <= i < events.len(),
    ensures
        outputs_of(Topology::TwoState, ControllerState::Still, events)[i] == Some(
            AlarmCommand::Fall,
        ) <==> events[i] == FallEvent::Fall && (i == 0 || events[i - 1] == FallEvent::Stop),
        outputs_of(Topology::TwoState, ControllerState::Still, events)[i] == Some(
            AlarmCommand::Stop,
        ) <==> events[i] == FallEvent::Stop && i > 0 && events[i - 1] == FallEvent::Fall,
{
    let prefix = events.take(i);
    if i > 0 {
        lemma_two_state_follows_last_input(ControllerState::Still, prefix);
        assert(prefix.last() == events[i - 1]);
    }
}

/// The outputs of the three-state machine, run from `Still`. One `Stop`
/// after a `Fall` does not silence the alarm: `Stop` comes out exactly at
/// the second `Stop` in a row after a `Fall`. A `Fall` that arrives in
/// between emits nothing: `Fall` comes out only where the machine was in
/// `Still`, at the start or after two `Stop`s.
pub proof fn lemma_three_state_outputs_are_debounced(events: Seq<FallEvent>, i: int)
    requires
        0 <= i < events.len(),
    ensures
        outputs_of(Topology::ThreeState, ControllerState::Still, events)[i] == Some(
            AlarmCommand::Stop,
        ) <==> i >= 2 && events[i - 2] == FallEvent::Fall && events[i - 1] == FallEvent::Stop
            && events[i] == FallEvent::Stop,
        outputs_of(Topology::ThreeState, ControllerState::Still, events)[i] == Some(
            AlarmCommand::Fall,
        ) <==> events[i] == FallEvent::Fall && (i == 0 || (events[i - 1] == FallEvent::Stop && (i
            == 1 || events[i - 2] == FallEvent::Stop))),
{
    let prefix = events.take(i);
    lemma_three_state_follows_last_two_inputs(prefix);
    if i > 0 {
        assert(prefix.last() == events[i - 1]);
    }
    if i > 1 {
        assert(prefix[prefix.len() - 2] == events[i - 2]);
    }
}


} // verus!
