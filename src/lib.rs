//! Bring-up and display drivers for an STM32F446 board: clock plan, timer and
//! I2C timing, a polled I2C write-transaction state machine, and HD44780
//! character-display framing over an I2C port expander.
//!
//! Register access itself is done by the caller; every decision that the
//! drivers take (what to write, when a wait is over, when it has failed) is
//! made here and verified.

pub mod clock;
pub mod display;
pub mod i2c;
pub mod lcd;
pub mod poll;
pub mod timer;

pub use clock::{
    apb1_frequency, apb2_timer_frequency, board_clock_plan, clock_program, core_frequency,
    ClockError, ClockPlan, ClockStep,
};
pub use i2c::{i2c_timing, I2cAction, I2cError, I2cPhase, I2cTiming, I2cWriter, WriterState};
pub use lcd::{
    lcd_clear, lcd_init, lcd_put_cur, lcd_send_cmd, lcd_send_data, lcd_write, lcd_write_str,
    InitStep, LcdByte,
};
pub use poll::{PollVerdict, Poller};
pub use timer::{delay_reached, timer_prescaler, TimerError};
