use vstd::prelude::*;

verus! {

/// Behavioural toggles that differ between interpreter families.
#[derive(Debug, Clone, Copy, PartialEq, Eq, Structural)]
pub struct QuirksConfig {
    /// `8XY1`/`8XY2`/`8XY3` clear VF afterwards.
    pub vf_reset: bool,
    /// `FX55`/`FX65` advance the index register past the last byte moved.
    pub memory: bool,
    /// Drawing waits for the display refresh (advisory only).
    pub display_wait: bool,
    /// Sprite pixels beyond the screen edge are dropped instead of wrapped.
    pub clipping: bool,
    /// `8XY6`/`8XYE` shift VX in place instead of shifting VY into VX.
    pub shifting: bool,
    /// `BXNN` jumps to `XNN + VX` instead of `NNN + V0`.
    pub jumping: bool,
}

impl QuirksConfig {
    /// The behaviour of the COSMAC VIP interpreter.
    pub fn get_chip8() -> (r: QuirksConfig)
        ensures
            r == (QuirksConfig {
                vf_reset: true,
                memory: true,
                display_wait: true,
                clipping: true,
                shifting: false,
                jumping: false,
            }),
    {
        QuirksConfig {
            vf_reset: true,
            memory: true,
            display_wait: true,
            clipping: true,
            shifting: false,
            jumping: false,
        }
    }

    /// The SUPER-CHIP behaviour.
    pub fn get_super_chip() -> (r: QuirksConfig)
        ensures
            r == (QuirksConfig {
                vf_reset: false,
                memory: false,
                display_wait: false,
                clipping: true,
                shifting: true,
                jumping: true,
            }),
    {
        QuirksConfig {
            vf_reset: false,
            memory: false,
            display_wait: false,
            clipping: true,
            shifting: true,
            jumping: true,
        }
    }

    /// The XO-CHIP behaviour.
    pub fn get_xo_chip() -> (r: QuirksConfig)
        ensures
            r == (QuirksConfig {
                vf_reset: false,
                memory: true,
                display_wait: false,
                clipping: false,
                shifting: false,
                jumping: false,
            }),
    {
        QuirksConfig {
            vf_reset: false,
            memory: true,
            display_wait: false,
            clipping: false,
            shifting: false,
            jumping: false,
        }
    }
}

} // verus!
