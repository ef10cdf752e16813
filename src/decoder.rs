//! The whole decoder: line samples in, key events out.
use vstd::prelude::*;
use crate::frame::{after, completes, reports, FrameAssembler, FrameResult, FrameView};
use crate::keys::{event_for, next_state, Interpreter, KeyEvent, KeyState};

verus! {

/// What a completed frame gave.
#[derive(Clone, Copy, Debug, PartialEq, Eq, Structural)]
pub struct Decoded {
    pub code: u8,
    pub parity_ok: bool,
    pub event: Option<KeyEvent>,
}

/// A frame assembler feeding a scan-code interpreter.
pub struct Decoder {
    frame: FrameAssembler,
    keys: Interpreter,
}

impl Decoder {
    pub closed spec fn wf(&self) -> bool {
        self.frame.wf()
    }

    pub closed spec fn frame_view(&self) -> FrameView {
        self.frame@
    }

    pub closed spec fn key_state(&self) -> KeyState {
        self.keys@
    }

    /// A decoder at the start of a frame, with no modifier held and no
    /// prefix pending.
    pub fn new() -> (r: Self)
        ensures
            r.wf(),
            r.frame_view().bits.len() == 0,
            !r.frame_view().last_clock,
            r.key_state() == (KeyState { modifiers: 0, extended: false, release: false }),
    {
        Decoder { frame: FrameAssembler::new(), keys: Interpreter::new() }
    }

    /// The interpreter's state.
    pub fn keys(&self) -> (r: &Interpreter)
        ensures
            r@ == self.key_state(),
    {
        &self.keys
    }

    /// Takes one sample of the clock and data lines. A sample that completes
    /// a frame hands its scan code to the interpreter, whatever the parity
    /// check says, and returns the code, the parity check and the event;
    /// any other sample leaves the interpreter alone and returns `None`.
    pub fn sample(&mut self, clock: bool, data: bool) -> (r: Option<Decoded>)
        requires
            old(self).wf(),
        ensures
            final(self).wf(),
            final(self).frame_view() == after(old(self).frame_view(), clock, data),
            !completes(old(self).frame_view(), clock) ==> r.is_none() && final(self).key_state()
                == old(self).key_state(),
            completes(old(self).frame_view(), clock) ==> (r matches Some(d) && reports(
                old(self).frame_view().bits.push(data),
                (FrameResult::Complete { code: d.code, parity_ok: d.parity_ok }),
            ) && final(self).key_state() == next_state(old(self).key_state(), d.code) && d.event
                == event_for(old(self).key_state(), d.code)),
    {
        match self.frame.sample(clock, data) {
            FrameResult::Incomplete => None,
            FrameResult::Complete { code, parity_ok } => {
                let event = self.keys.interpret(code);
                Some(Decoded { code, parity_ok, event })
            },
        }
    }
}

} // verus!
