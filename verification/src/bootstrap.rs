//! The bootstrap sequence: the fixed input trace replayed once at start-up.
//!
//! Before a script takes control, the simulation is stepped through a fixed
//! number of ticks with a fixed input for each. The trace holds nothing for most
//! ticks and the start button for a single one, which carries the simulation
//! past its title screen into a known state.

use vstd::prelude::*;
use crate::button::Button;
use crate::register::{lemma_single_button, InputRegister};

verus! {

/// Number of ticks in the bootstrap sequence.
pub const BOOTSTRAP_TICKS: usize = 171;

/// The tick of the bootstrap sequence during which start is held.
pub const START_TICK: usize = 32;

/// The buttons that the bootstrap sequence holds at `tick`.
pub open spec fn bootstrap_value(tick: int) -> Set<Button> {
    if tick == START_TICK {
        set![Button::Start]
    } else {
        Set::empty()
    }
}

/// The whole bootstrap sequence, one set of held buttons per tick.
pub open spec fn bootstrap_trace() -> Seq<Set<Button>> {
    Seq::new(BOOTSTRAP_TICKS as nat, |tick: int| bootstrap_value(tick))
}

/// The register value that the bootstrap sequence applies at `tick`, or nothing
/// once the sequence is over.
pub fn bootstrap_input(tick: usize) -> (input: Option<InputRegister>)
    ensures
        tick < BOOTSTRAP_TICKS ==> input.is_some() && input.unwrap()@ == bootstrap_value(
            tick as int,
        ),
        tick >= BOOTSTRAP_TICKS ==> input.is_none(),
{
    if tick >= BOOTSTRAP_TICKS {
        return None;
    }
    let mut input = InputRegister::new();
    if tick == START_TICK {
        let start = [Button::Start];
        input.press(&start);
        proof {
            assert(start@ =~= seq![Button::Start]);
            lemma_single_button(Set::empty(), Button::Start);
        }
    }
    Some(input)
}

/// The whole bootstrap sequence as register values, in replay order.
pub fn bootstrap_sequence() -> (trace: Vec<InputRegister>)
    ensures
        trace@.len() == BOOTSTRAP_TICKS,
        forall|tick: int| 0 <= tick < BOOTSTRAP_TICKS ==> (#[trigger] trace@[tick])@
            == bootstrap_value(tick),
{
    let mut trace: Vec<InputRegister> = Vec::with_capacity(BOOTSTRAP_TICKS);
    let mut tick: usize = 0;
    while tick < BOOTSTRAP_TICKS
        invariant
            tick <= BOOTSTRAP_TICKS,
            trace@.len() == tick,
            forall|k: int| 0 <= k < tick ==> (#[trigger] trace@[k])@ == bootstrap_value(k),
        decreases BOOTSTRAP_TICKS - tick,
    {
        match bootstrap_input(tick) {
            Some(input) => trace.push(input),
            None => {},
        }
        tick = tick + 1;
    }
    trace
}

} // verus!
