use vstd::prelude::*;
use crate::event::{has_quit, Event};

verus! {

/// The orchestrator that ticks both actors and runs the quit sequence.
pub struct App;

impl App {
    /// Whether the control events drained after a tick ask to quit; every
    /// other kind of event on the control channel is ignored.
    pub fn quit_requested(events: &Vec<Event>) -> (r: bool)
        ensures
            r == has_quit(events@),
    {
        let mut i: usize = 0;
        while i < events.len()
            invariant
                i <= events@.len(),
                forall|j: int| 0 <= j < i ==> !(events@[j] is Quit),
            decreases events@.len() - i,
        {
            if let Event::Quit = &events[i] {
                return true;
            }
            i = i + 1;
        }
        false
    }
}

} // verus!
