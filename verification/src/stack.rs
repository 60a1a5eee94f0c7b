//! The sixteen-level call stack.

use vstd::prelude::*;
use crate::error::ExecutionError;

verus! {

/// Return addresses of the subroutine calls in progress: a fixed array of
/// sixteen slots and the number of slots in use.
pub struct CallStack {
    frames: [u16; 16],
    depth: u8,
}

impl View for CallStack {
    type V = Seq<u16>;

    /// The return addresses in use, oldest first.
    closed spec fn view(&self) -> Seq<u16> {
        self.frames@.take(self.depth as int)
    }
}

impl CallStack {
    /// No more slots are in use than there are.
    #[verifier::type_invariant]
    pub(crate) closed spec fn in_bounds(self) -> bool {
        self.depth <= 16
    }

    /// A stack within its bounds holds at most sixteen return addresses.
    pub(crate) proof fn lemma_bounded(self)
        requires
            self.in_bounds(),
        ensures
            self@.len() <= 16,
    {
    }

    /// An empty stack.
    pub fn new() -> (stack: CallStack)
        ensures
            stack@ == Seq::<u16>::empty(),
    {
        CallStack { frames: [0u16; 16], depth: 0 }
    }

    /// Number of return addresses held, never more than sixteen.
    pub fn depth(&self) -> (depth: usize)
        ensures
            depth == self@.len(),
            depth <= 16,
    {
        proof {
            use_type_invariant(self);
        }
        self.depth as usize
    }

    /// Puts `address` on top. Fails, leaving the stack as it was, when all
    /// sixteen levels are in use.
    pub fn push(&mut self, address: u16) -> (res: Result<(), ExecutionError>)
        ensures
            match res {
                Ok(()) => {
                    &&& old(self)@.len() < 16
                    &&& final(self)@ == old(self)@.push(address)
                },
                Err(error) => {
                    &&& old(self)@.len() == 16
                    &&& error == ExecutionError::StackOverflow
                    &&& final(self)@ == old(self)@
                },
            },
    {
        proof {
            use_type_invariant(&*self);
        }
        if self.depth >= 16 {
            return Err(ExecutionError::StackOverflow);
        }
        self.frames[self.depth as usize] = address;
        self.depth = self.depth + 1;
        Ok(())
    }

    /// Takes the most recent return address off the stack. Fails, leaving the
    /// stack as it was, when it is empty.
    pub fn pop(&mut self) -> (res: Result<u16, ExecutionError>)
        ensures
            match res {
                Ok(address) => {
                    &&& 0 < old(self)@.len() <= 16
                    &&& address == old(self)@.last()
                    &&& final(self)@ == old(self)@.drop_last()
                },
                Err(error) => {
                    &&& old(self)@.len() == 0
                    &&& error == ExecutionError::StackUnderflow
                    &&& final(self)@ == old(self)@
                },
            },
    {
        proof {
            use_type_invariant(&*self);
        }
        if self.depth == 0 {
            return Err(ExecutionError::StackUnderflow);
        }
        self.depth = self.depth - 1;
        Ok(self.frames[self.depth as usize])
    }
}

} // verus!
