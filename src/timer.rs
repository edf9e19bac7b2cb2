use vstd::prelude::*;

verus! {

/// Auto-reload value: the counter runs over its whole 16-bit range.
pub const TIMER_AUTO_RELOAD: u16 = 0xffff;

/// Why the delay timer could not be brought up.
#[derive(Clone, Copy, Debug, PartialEq, Eq, Structural)]
pub enum TimerError {
    /// The first update event never came after the counter was enabled.
    ConfigureTimeout,
}

/// The prescaler that makes one counter tick last one microsecond at a timer
/// clock of `timer_clock_hz` (whole megahertz; a fraction is dropped).
pub fn timer_prescaler(timer_clock_hz: u64) -> (r: Option<u16>)
    ensures
        r == (if 1_000_000 <= timer_clock_hz && timer_clock_hz / 1_000_000 <= 65536 {
            Some((timer_clock_hz / 1_000_000 - 1) as u16)
        } else {
            None::<u16>
        }),
{
    if timer_clock_hz < 1_000_000 {
        return None;
    }
    let mhz: u64 = timer_clock_hz / 1_000_000;
    if mhz > 65536 {
        None
    } else {
        Some((mhz - 1) as u16)
    }
}

/// Whether a delay of `us` microseconds has elapsed, given the counter value
/// read since it was reset to zero.
pub fn delay_reached(counter: u16, us: u16) -> (r: bool)
    ensures
        r == (counter >= us),
{
    counter >= us
}

} // verus!
