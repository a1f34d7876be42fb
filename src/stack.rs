use vstd::prelude::*;
use crate::error::Chip8Error;

verus! {

/// Capacity of the call stack.
pub const STACK_DEPTH: usize = 16;

/// A call stack of at most sixteen return addresses.
#[derive(Clone, Copy)]
pub struct Stack {
    sp: usize,
    stack: [u16; 16],
}

impl View for Stack {
    type V = Seq<u16>;

    /// The saved addresses, oldest first.
    closed spec fn view(&self) -> Seq<u16> {
        self.stack@.subrange(0, self.sp as int)
    }
}

impl Default for Stack {
    fn default() -> (r: Self)
        ensures
            r.wf(),
            r@ == Seq::<u16>::empty(),
    {
        Stack::new()
    }
}

impl Stack {
    /// The stack's internal consistency.
    pub closed spec fn wf(&self) -> bool {
        self.sp <= STACK_DEPTH
    }

    /// An empty stack.
    pub fn new() -> (r: Self)
        ensures
            r.wf(),
            r@ == Seq::<u16>::empty(),
    {
        let r = Self { sp: 0, stack: [0u16; 16] };
        assert(r@ =~= Seq::<u16>::empty());
        r
    }

    /// Number of saved addresses.
    pub fn len(&self) -> (r: usize)
        requires
            self.wf(),
        ensures
            r == self@.len(),
    {
        self.sp
    }

    /// Saves `val` on top; fails, leaving the stack as it was, when it is full.
    pub fn push(&mut self, val: u16) -> (r: Result<(), Chip8Error>)
        requires
            old(self).wf(),
        ensures
            final(self).wf(),
            old(self)@.len() < STACK_DEPTH ==> r == Ok::<(), Chip8Error>(())
                && final(self)@ == old(self)@.push(val),
            old(self)@.len() >= STACK_DEPTH ==> r == Err::<(), Chip8Error>(
                Chip8Error::StackOverflow,
            ) && final(self)@ == old(self)@,
    {
        if self.sp >= STACK_DEPTH {
            return Err(Chip8Error::StackOverflow);
        }
        self.stack[self.sp] = val;
        self.sp = self.sp + 1;
        assert(self@ =~= old(self)@.push(val));
        Ok(())
    }

    /// Removes and returns the top address; fails, leaving the stack as it
    /// was, when it is empty.
    pub fn pop(&mut self) -> (r: Result<u16, Chip8Error>)
        requires
            old(self).wf(),
        ensures
            final(self).wf(),
            old(self)@.len() > 0 ==> r == Ok::<u16, Chip8Error>(old(self)@.last())
                && final(self)@ == old(self)@.drop_last(),
            old(self)@.len() == 0 ==> r == Err::<u16, Chip8Error>(Chip8Error::StackUnderflow)
                && final(self)@ == old(self)@,
    {
        if self.sp == 0 {
            return Err(Chip8Error::StackUnderflow);
        }
        self.sp = self.sp - 1;
        assert(self@ =~= old(self)@.drop_last());
        Ok(self.stack[self.sp])
    }
}

} // verus!
