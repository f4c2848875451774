//! The call stack.
use super::Error;
use vstd::prelude::*;

verus! {

/// A stack of at most sixteen return addresses.
#[derive(Debug, Copy, Clone)]
pub struct Stack {
    /// The index of the newest frame; `0xFF` while the stack is empty.
    sp: u8,
    frames: [u16; 16],
}

impl View for Stack {
    type V = Seq<u16>;

    /// The frames on the stack, the oldest first.
    closed spec fn view(&self) -> Seq<u16> {
        if self.sp < 16 {
            self.frames@.subrange(0, self.sp + 1)
        } else {
            Seq::empty()
        }
    }
}

/// The frames after `frame` was pushed: one more, unless the stack was full.
pub open spec fn pushed(frames: Seq<u16>, frame: u16) -> Seq<u16> {
    if frames.len() < 16 {
        frames.push(frame)
    } else {
        frames
    }
}

/// What a push of `frame` returns: `StackOverflow` where the stack is full.
pub open spec fn push_result(frames: Seq<u16>, frame: u16) -> Result<(), Error> {
    if frames.len() < 16 {
        Ok(())
    } else {
        Err(Error::StackOverflow { frame })
    }
}

/// The frames after a pop: one less, unless there was none.
pub open spec fn popped(frames: Seq<u16>) -> Seq<u16> {
    if frames.len() > 0 {
        frames.drop_last()
    } else {
        frames
    }
}

/// What a pop returns: the newest frame, or `StackEmpty` where there is none.
pub open spec fn pop_result(frames: Seq<u16>) -> Result<u16, Error> {
    if frames.len() > 0 {
        Ok(frames.last())
    } else {
        Err(Error::StackEmpty)
    }
}

impl Stack {
    /// The stack pointer is in its range. This holds of every stack that
    /// runs through executable code.
    #[verifier::type_invariant]
    pub closed spec fn wf(&self) -> bool {
        self.sp < 16 || self.sp == 0xFF
    }

    /// An empty stack.
    pub fn new() -> (stack: Self)
        ensures
            stack@ == Seq::<u16>::empty(),
    {
        Stack { sp: 0xFF, frames: [0; 16] }
    }

    /// A stack holds at most sixteen frames.
    pub proof fn lemma_len(&self)
        requires
            self.wf(),
        ensures
            self@.len() <= 16,
    {
    }

    /// The number of frames on the stack.
    pub fn depth(&self) -> (depth: usize)
        ensures
            depth == self@.len(),
            depth <= 16,
    {
        proof {
            use_type_invariant(self);
        }
        match self.sp {
            0..=15 => self.sp as usize + 1,
            _ => 0,
        }
    }

    /// Puts `frame` on the stack, or leaves the stack as it is and returns
    /// `StackOverflow` where it is full.
    pub fn push(&mut self, frame: u16) -> (done: Result<(), Error>)
        ensures
            final(self)@.len() <= 16,
            done == push_result(old(self)@, frame),
            final(self)@ == pushed(old(self)@, frame),
    {
        proof {
            use_type_invariant(&*self);
        }
        match self.sp {
            0..=14 | 0xFF => {
                self.sp = self.sp.wrapping_add(1);
                self.frames[self.sp as usize] = frame;
                assert(self@ =~= old(self)@.push(frame));
                Ok(())
            },
            15 => Err(Error::StackOverflow { frame }),
            _ => Err(Error::StackCorrupt { sp: self.sp }),
        }
    }

    /// Takes the newest frame off the stack, or returns `StackEmpty` where
    /// there is none.
    pub fn pop(&mut self) -> (frame: Result<u16, Error>)
        ensures
            final(self)@.len() <= 16,
            frame == pop_result(old(self)@),
            final(self)@ == popped(old(self)@),
    {
        proof {
            use_type_invariant(&*self);
        }
        match self.sp {
            0..=15 => {
                let ptr = self.frames[self.sp as usize];
                self.sp = self.sp.wrapping_sub(1);
                assert(self@ =~= old(self)@.drop_last());
                Ok(ptr)
            },
            0xFF => Err(Error::StackEmpty),
            _ => Err(Error::StackCorrupt { sp: self.sp }),
        }
    }
}

impl Default for Stack {
    fn default() -> (stack: Self)
        ensures
            stack@ == Seq::<u16>::empty(),
    {
        Stack::new()
    }
}

} // verus!
