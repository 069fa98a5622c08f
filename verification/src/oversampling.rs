//! The device's pressure oversampling setting.
//!
//! Each level trades conversion latency for pressure precision.  The level
//! fixes three things at once: the command byte written to the control
//! register, the wait before the result may be read, and the bit alignment of
//! the 24-bit raw pressure value.

use vstd::prelude::*;

verus! {

/// The four precision levels the device offers for pressure conversions.
#[derive(Clone, Copy, Debug, PartialEq, Eq, Structural)]
pub enum Oversampling {
    UltraLowPower,
    Standard,
    HighResolution,
    UltraHighResolution,
}

impl Oversampling {
    /// The two-bit precision level encoded into the control register.
    pub open spec fn spec_level(self) -> int {
        match self {
            Oversampling::UltraLowPower => 0,
            Oversampling::Standard => 1,
            Oversampling::HighResolution => 2,
            Oversampling::UltraHighResolution => 3,
        }
    }

    /// The wait between triggering a conversion at this level and reading the
    /// result: the datasheet's maximum conversion time, rounded up to a whole
    /// millisecond.  Waiting less than this risks reading a conversion still
    /// in progress.
    pub open spec fn spec_delay_ms(self) -> int {
        match self {
            Oversampling::UltraLowPower => 5,
            Oversampling::Standard => 8,
            Oversampling::HighResolution => 14,
            Oversampling::UltraHighResolution => 26,
        }
    }

    /// The control-register command byte that starts a pressure conversion at
    /// this level: the base pressure command with the level in the top bits.
    pub open spec fn spec_pressure_command(self) -> int {
        0x34 + 64 * self.spec_level()
    }

    /// The power of two by which the 24-bit raw pressure register value is
    /// divided to undo the device's documented bit alignment, `2^(8 - level)`.
    pub open spec fn spec_pressure_divisor(self) -> int {
        match self {
            Oversampling::UltraLowPower => 256,
            Oversampling::Standard => 128,
            Oversampling::HighResolution => 64,
            Oversampling::UltraHighResolution => 32,
        }
    }

    /// `2^level`, the factor the compensation algorithm scales `B3` by.
    pub open spec fn spec_scale(self) -> int {
        match self {
            Oversampling::UltraLowPower => 1,
            Oversampling::Standard => 2,
            Oversampling::HighResolution => 4,
            Oversampling::UltraHighResolution => 8,
        }
    }

    pub fn level(self) -> (r: u8)
        ensures
            r == self.spec_level(),
    {
        match self {
            Oversampling::UltraLowPower => 0,
            Oversampling::Standard => 1,
            Oversampling::HighResolution => 2,
            Oversampling::UltraHighResolution => 3,
        }
    }

    pub fn conversion_delay_ms(self) -> (r: u32)
        ensures
            r == self.spec_delay_ms(),
    {
        match self {
            Oversampling::UltraLowPower => 5,
            Oversampling::Standard => 8,
            Oversampling::HighResolution => 14,
            Oversampling::UltraHighResolution => 26,
        }
    }

    pub fn pressure_command(self) -> (r: u8)
        ensures
            r == self.spec_pressure_command(),
    {
        match self {
            Oversampling::UltraLowPower => 0x34,
            Oversampling::Standard => 0x74,
            Oversampling::HighResolution => 0xB4,
            Oversampling::UltraHighResolution => 0xF4,
        }
    }

    pub fn pressure_divisor(self) -> (r: u32)
        ensures
            r == self.spec_pressure_divisor(),
    {
        match self {
            Oversampling::UltraLowPower => 256,
            Oversampling::Standard => 128,
            Oversampling::HighResolution => 64,
            Oversampling::UltraHighResolution => 32,
        }
    }

    pub fn scale(self) -> (r: u8)
        ensures
            r == self.spec_scale(),
    {
        match self {
            Oversampling::UltraLowPower => 1,
            Oversampling::Standard => 2,
            Oversampling::HighResolution => 4,
            Oversampling::UltraHighResolution => 8,
        }
    }
}

/// Law: the conversion wait grows strictly with the precision level, so each
/// of the four levels has a distinct delay and a longer wait is never paired
/// with a lower-precision conversion.
pub proof fn lemma_delay_strictly_increasing(a: Oversampling, b: Oversampling)
    requires
        a.spec_level() < b.spec_level(),
    ensures
        a.spec_delay_ms() < b.spec_delay_ms(),
{
}

} // verus!
