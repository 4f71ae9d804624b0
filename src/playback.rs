use vstd::prelude::*;

verus! {

/// Change to the current track's loop state asked for by a repeat command.
#[derive(PartialEq, Eq, Structural, Clone, Copy, Debug)]
pub enum LoopChange {
    Enable,
    Disable,
}

/// A looping track stops looping; any other starts looping forever.
pub fn loop_change(was_looping: bool) -> (r: LoopChange)
    ensures
        r == (if was_looping {
            LoopChange::Disable
        } else {
            LoopChange::Enable
        }),
{
    if was_looping {
        LoopChange::Disable
    } else {
        LoopChange::Enable
    }
}

} // verus!
