//! One turn of the foreground loop: an event goes into the state machine,
//! and the command that comes out, if any, is executed on the shared
//! context.

use vstd::prelude::*;
use crate::classifier::FallEvent;
use crate::context::{after_command, ContextView, DisplayAction, SharedContext};
use crate::glyph::{alarm_face, blank_face, image_pixels};
use crate::machine::{
    alarm_raised,
    next_state,
    output,
    reachable,
    AlarmCommand,
    ControllerState,
    FallMachine,
    Topology,
};

verus! {

/// What the display shows for an alarm posture.
pub open spec fn face_for(raised: bool) -> Seq<Seq<u8>> {
    if raised {
        alarm_face()
    } else {
        blank_face()
    }
}

/// Machine and context agree: the flag is up and the alarm face is shown
/// exactly while the machine has the alarm raised.
pub open spec fn in_step(state: ControllerState, context: ContextView) -> bool {
    &&& context.alarm_active == alarm_raised(state)
    &&& context.display == Some(face_for(alarm_raised(state)))
}

/// The context after the machine, in `state`, has taken `event`: changed by
/// the command that the machine emits, untouched where it emits none.
pub open spec fn context_after_event(
    topology: Topology,
    state: ControllerState,
    before: ContextView,
    event: FallEvent,
) -> ContextView {
    match output(topology, state, event) {
        Some(command) => after_command(before, command),
        None => before,
    }
}

/// Feeds one event to the machine and executes the command it emits. The
/// result says what to do with the display driver, and is `None` where the
/// event changes nothing, so that no redundant work is done. The display
/// has to have been handed in. If machine and context agreed before, they
/// agree after.
pub fn foreground_step(
    machine: &mut FallMachine,
    context: &mut SharedContext,
    event: FallEvent,
) -> (action: Option<DisplayAction>)
    requires
        old(context)@.display is Some,
    ensures
        final(machine).spec_topology() == old(machine).spec_topology(),
        final(machine).spec_state() == next_state(
            old(machine).spec_topology(),
            old(machine).spec_state(),
            event,
        ),
        final(context)@ == context_after_event(
            old(machine).spec_topology(),
            old(machine).spec_state(),
            old(context)@,
            event,
        ),
        match output(old(machine).spec_topology(), old(machine).spec_state(), event) {
            Some(AlarmCommand::Fall) => action matches Some(DisplayAction::Show(image))
                && image_pixels(image) == alarm_face(),
            Some(AlarmCommand::Stop) => action matches Some(DisplayAction::Clear),
            None => action is None,
        },
        in_step(old(machine).spec_state(), old(context)@) ==> in_step(
            final(machine).spec_state(),
            final(context)@,
        ),
{
    let before = machine.state();
    proof {
        if in_step(before, context@) {
            lemma_step_keeps_in_step(machine.spec_topology(), before, context@, event);
        }
    }
    match machine.consume(event) {
        Some(command) => Some(context.execute(command)),
        None => None,
    }
}

/// A turn of the foreground loop keeps machine and context in agreement.
pub proof fn lemma_step_keeps_in_step(
    topology: Topology,
    state: ControllerState,
    context: ContextView,
    event: FallEvent,
)
    requires
        reachable(topology, state),
        in_step(state, context),
    ensures
        in_step(
            next_state(topology, state, event),
            context_after_event(topology, state, context, event),
        ),
{
}

} // verus!
