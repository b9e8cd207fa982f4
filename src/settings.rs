//! Fixed peripheral settings: the serial bus to the logic device, its
//! reference clock and the shift-out engine's clock.

use vstd::prelude::*;

verus! {

/// Serial bus frequency used for bring-up and sample reads.
pub const FPGA_SPI_HZ: u32 = 5_000_000;

/// Frequency of the reference clock sent to the logic device.
pub const FPGA_CLOCK_HZ: u32 = 10_000_000;

/// Rate at which the shift-out engine emits words.
pub const WORD_RATE_HZ: u32 = 10_000_000;

/// Engine cycles spent on each emitted word.
pub const CYCLES_PER_WORD: u32 = 2;

/// Level of the serial clock while the bus is idle.
#[derive(Clone, Copy, Debug, PartialEq, Eq, Structural)]
pub enum ClockPolarity {
    IdleLow,
    IdleHigh,
}

/// Edge of the serial clock on which data is captured.
#[derive(Clone, Copy, Debug, PartialEq, Eq, Structural)]
pub enum ClockPhase {
    CaptureOnFirstTransition,
    CaptureOnSecondTransition,
}

/// Settings of the serial bus to the logic device.
#[derive(Clone, Copy, Debug, PartialEq, Eq, Structural)]
pub struct SpiSettings {
    pub frequency: u32,
    pub polarity: ClockPolarity,
    pub phase: ClockPhase,
}

/// Settings of a PWM slice: the counter wraps after `top + 1` cycles of the
/// system clock divided by `divider`.
#[derive(Clone, Copy, Debug, PartialEq, Eq, Structural)]
pub struct PwmSettings {
    pub top: u16,
    pub divider: u8,
}

/// The serial bus settings of the logic device: idle-high clock, capture on
/// the second transition.
pub fn daq_fpga_spi_config() -> (c: SpiSettings)
    ensures
        c == (SpiSettings {
            frequency: FPGA_SPI_HZ,
            polarity: ClockPolarity::IdleHigh,
            phase: ClockPhase::CaptureOnSecondTransition,
        }),
{
    SpiSettings {
        frequency: FPGA_SPI_HZ,
        polarity: ClockPolarity::IdleHigh,
        phase: ClockPhase::CaptureOnSecondTransition,
    }
}

/// The PWM settings that make the reference clock from a system clock of
/// `sys_hz`, undivided. There are none when the system clock is slower than
/// the reference clock, or so fast that the period does not fit the counter.
pub fn daq_fpga_clock_config(sys_hz: u32) -> (r: Option<PwmSettings>)
    ensures
        r is Some <==> 1 <= sys_hz / FPGA_CLOCK_HZ <= 0x1_0000,
        r is Some ==> r == Some(
            PwmSettings { top: (sys_hz / FPGA_CLOCK_HZ - 1) as u16, divider: 1 },
        ),
{
    let divider: u8 = 1;
    let cycles = sys_hz / (FPGA_CLOCK_HZ * divider as u32);
    if cycles == 0 || cycles > 0x1_0000 {
        None
    } else {
        Some(PwmSettings { top: (cycles - 1) as u16, divider })
    }
}

/// The integer clock divider of the shift-out engine that emits words at
/// `word_rate_hz` from a system clock of `sys_hz`.
pub fn shift_clock_divider(sys_hz: u32, word_rate_hz: u32) -> (d: u32)
    requires
        0 < word_rate_hz,
        word_rate_hz * CYCLES_PER_WORD <= u32::MAX,
    ensures
        d as int == sys_hz as int / (word_rate_hz as int * CYCLES_PER_WORD as int),
{
    sys_hz / (word_rate_hz * CYCLES_PER_WORD)
}

} // verus!
