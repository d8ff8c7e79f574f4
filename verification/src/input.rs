use vstd::prelude::*;

verus! {

use crate::VisError;
use crate::tape::{TapeArr, wrap_dec, wrap_inc};

/// Edge trigger for one physical key: `poll` fires once per down transition,
/// not once per tick while the key is held.
#[derive(Clone, Copy, PartialEq, Eq, Structural, Debug)]
pub struct EdgeDetector {
    pub was_down: bool,
}

impl EdgeDetector {
    pub fn new() -> (r: EdgeDetector)
        ensures
            !r.was_down,
    {
        EdgeDetector { was_down: false }
    }

    /// Feed the key's current state; fires exactly on an up-to-down edge.
    pub fn poll(&mut self, down: bool) -> (fired: bool)
        ensures
            final(self).was_down == down,
            fired == (down && !old(self).was_down),
    {
        let fired = down && !self.was_down;
        self.was_down = down;
        fired
    }
}

/// The tape mutations the keyboard can ask for; the recording toggle goes to
/// the main loop instead.
#[derive(Clone, Copy, PartialEq, Eq, Structural, Debug)]
pub enum TapeCommand {
    PointerLeft,
    PointerRight,
    IncrementCell,
    DecrementCell,
}

/// Apply one edge-triggered command: exactly one tape mutation per edge.
/// Increments and decrements act on the cell under the pointer and always
/// succeed (the value wraps); pointer moves out of `[0, cellCount)` are
/// refused with `OutOfRange` and change nothing.
pub fn apply_command(tape: &mut TapeArr, cmd: TapeCommand) -> (r: Result<(), VisError>)
    requires
        old(tape).wf(),
    ensures
        final(tape).wf(),
        final(tape).name == old(tape).name,
        final(tape).size == old(tape).size,
        final(tape).vec.len() == old(tape).vec.len(),
        r matches Err(e) ==> e == VisError::OutOfRange,
        cmd == TapeCommand::PointerRight ==> {
            &&& final(tape).vec == old(tape).vec
            &&& (r is Ok <==> old(tape).pointer + 1 < old(tape).vec.len())
            &&& (r is Ok ==> final(tape).pointer == old(tape).pointer + 1)
            &&& (r is Err ==> final(tape).pointer == old(tape).pointer)
        },
        cmd == TapeCommand::PointerLeft ==> {
            &&& final(tape).vec == old(tape).vec
            &&& (r is Ok <==> old(tape).pointer >= 1)
            &&& (r is Ok ==> final(tape).pointer == old(tape).pointer - 1)
            &&& (r is Err ==> final(tape).pointer == old(tape).pointer)
        },
        cmd == TapeCommand::IncrementCell ==> {
            &&& r is Ok
            &&& final(tape).pointer == old(tape).pointer
            &&& final(tape).vec[old(tape).pointer as int] as nat == wrap_inc(
                old(tape).vec[old(tape).pointer as int] as nat,
                old(tape).size.modulus(),
            )
            &&& forall|i: int|
                0 <= i < old(tape).vec.len() && i != old(tape).pointer ==> final(tape).vec[i]
                    == old(tape).vec[i]
        },
        cmd == TapeCommand::DecrementCell ==> {
            &&& r is Ok
            &&& final(tape).pointer == old(tape).pointer
            &&& final(tape).vec[old(tape).pointer as int] as nat == wrap_dec(
                old(tape).vec[old(tape).pointer as int] as nat,
                old(tape).size.modulus(),
            )
            &&& forall|i: int|
                0 <= i < old(tape).vec.len() && i != old(tape).pointer ==> final(tape).vec[i]
                    == old(tape).vec[i]
        },
{
    match cmd {
        TapeCommand::PointerRight => tape.move_pointer(1),
        TapeCommand::PointerLeft => tape.move_pointer(-1),
        TapeCommand::IncrementCell => {
            let p = tape.pointer;
            tape.increment_cell(p);
            Ok(())
        },
        TapeCommand::DecrementCell => {
            let p = tape.pointer;
            tape.decrement_cell(p);
            Ok(())
        },
    }
}

} // verus!
