use vstd::prelude::*;
use crate::error::Chip8Error;
use crate::memory::MEMORY_SIZE;
use crate::quirks::QuirksConfig;
use crate::model::{halted, initial_machine, initial_state, zero_memory, Chip8View};
use crate::state::Chip8State;
use crate::memory::overwrite;

verus! {

/// How the emulator was asked to run.
pub struct Args {
    /// Path of the program image.
    pub file: String,
    /// Address at which the image is loaded.
    pub offset: u16,
    /// Address at which execution starts.
    pub start: u16,
    /// Size of one screen pixel on the display, in display pixels.
    pub pixel_size: i32,
    /// Whether execution starts stopped.
    pub stop: bool,
    /// Whether the debugger windows are shown.
    pub debug_mode: bool,
    /// Behavioural variant of the instruction set.
    pub quirks_config: QuirksConfig,
}

/// The engine that `args` describe for a program image `contents`.
pub open spec fn created(args: Args, contents: Seq<u8>) -> Chip8View {
    let s = initial_state(
        initial_machine(overwrite(zero_memory(), args.offset as int, contents), args.start),
        args.quirks_config,
    );
    if args.stop {
        Chip8View { machine: halted(s.machine), ..s }
    } else {
        s
    }
}

impl Args {
    /// An engine with the program image `contents` loaded at the offset,
    /// starting at the start address, stopped if so asked; fails when the
    /// image or the start address lies outside the address space.
    pub fn create_chip8(&self, contents: &Vec<u8>) -> (r: Result<Chip8State, Chip8Error>)
        ensures
            self.offset + contents@.len() > MEMORY_SIZE || self.start >= 4096 ==> r == Err::<
                Chip8State,
                Chip8Error,
            >(Chip8Error::AddressOverflow),
            self.offset + contents@.len() <= MEMORY_SIZE && self.start < 4096 ==> r is Ok
                && r->Ok_0.wf() && r->Ok_0@ == created(*self, contents@),
    {
        match Chip8State::create(contents, self.offset, self.start, self.quirks_config) {
            Ok(mut state) => {
                if self.stop {
                    state.stop_execution();
                }
                Ok(state)
            },
            Err(e) => Err(e),
        }
    }
}

} // verus!
