use stm32_lib::{
    apb1_frequency, apb2_timer_frequency, board_clock_plan, clock_program, core_frequency,
    ClockError, ClockPlan, ClockStep,
};

#[test]
fn board_core_frequency_is_ninety_mhz() {
    let plan = board_clock_plan();
    assert_eq!(plan.hse_hz, 8_000_000);
    assert_eq!((plan.pll_m, plan.pll_n, plan.pll_p_sel), (4, 180, 0b01));
    assert_eq!(core_frequency(&plan), 90_000_000);
}

#[test]
fn core_frequency_follows_the_pll_formula() {
    let mut plan = board_clock_plan();
    plan.pll_m = 8;
    plan.pll_n = 360;
    plan.pll_p_sel = 0;
    assert_eq!(core_frequency(&plan), 180_000_000);
    plan.hse_hz = 25_000_000;
    plan.pll_m = 25;
    plan.pll_n = 336;
    plan.pll_p_sel = 3;
    assert_eq!(core_frequency(&plan), 42_000_000);
}

#[test]
fn bus_frequencies_of_the_board() {
    let plan = board_clock_plan();
    assert_eq!(apb1_frequency(&plan), 22_500_000);
    assert_eq!(apb2_timer_frequency(&plan), 90_000_000);
    let undivided = ClockPlan { apb2_prescaler: 0, ..plan };
    assert_eq!(apb2_timer_frequency(&undivided), 90_000_000);
}

#[test]
fn bring_up_order() {
    let plan = board_clock_plan();
    let steps = clock_program(&plan);
    assert_eq!(
        steps,
        vec![
            ClockStep::EnableHse,
            ClockStep::AwaitHseReady,
            ClockStep::EnablePowerInterface,
            ClockStep::SetVoltageScale(0b11),
            ClockStep::EnableFlashCaches,
            ClockStep::SetFlashLatency(5),
            ClockStep::SetBusPrescalers { apb1: 0b101, apb2: 0b100 },
            ClockStep::ConfigurePll { m: 4, n: 180, p_sel: 0b01 },
            ClockStep::EnablePll,
            ClockStep::AwaitPllReady,
            ClockStep::SelectSysclk(0b10),
            ClockStep::AwaitSysclkStatus(0b10),
        ]
    );
}

#[test]
fn each_wait_has_its_timeout_error() {
    assert_eq!(ClockStep::AwaitHseReady.timeout_error(), Some(ClockError::HseTimeout));
    assert_eq!(ClockStep::AwaitPllReady.timeout_error(), Some(ClockError::PllTimeout));
    assert_eq!(ClockStep::AwaitSysclkStatus(0b10).timeout_error(), Some(ClockError::SwitchTimeout));
    assert_eq!(ClockStep::EnablePll.timeout_error(), None);
}

#[test]
fn status_bits_end_waits() {
    assert!(!ClockStep::AwaitHseReady.is_satisfied(1 << 16, 0));
    assert!(ClockStep::AwaitHseReady.is_satisfied(1 << 17, 0));
    assert!(!ClockStep::AwaitPllReady.is_satisfied(1 << 24, 0));
    assert!(ClockStep::AwaitPllReady.is_satisfied(1 << 25, 0));
    assert!(!ClockStep::AwaitSysclkStatus(0b10).is_satisfied(0, 0b10));
    assert!(ClockStep::AwaitSysclkStatus(0b10).is_satisfied(0, 0b1000));
    assert!(ClockStep::EnableHse.is_satisfied(0, 0));
}
