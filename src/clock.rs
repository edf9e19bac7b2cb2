use vstd::prelude::*;

verus! {

/// RCC_CR: external oscillator ready.
pub const CR_HSERDY: u32 = 1u32 << 17;

/// RCC_CR: PLL locked.
pub const CR_PLLRDY: u32 = 1u32 << 25;

/// Clock-source selector value that picks the PLL.
pub const SYSCLK_PLL: u8 = 0b10;

/// Why the clock bring-up stopped.
#[derive(Clone, Copy, Debug, PartialEq, Eq, Structural)]
pub enum ClockError {
    /// The external oscillator never reported ready.
    HseTimeout,
    /// The PLL never reported lock.
    PllTimeout,
    /// The clock-source status never echoed the PLL selector.
    SwitchTimeout,
}

/// The clock settings of a board: PLL factors, bus prescaler selectors (as
/// the register encodes them), flash wait states and regulator scale.
#[derive(Clone, Copy, Debug, PartialEq, Eq, Structural)]
pub struct ClockPlan {
    pub hse_hz: u32,
    pub pll_m: u8,
    pub pll_n: u16,
    pub pll_p_sel: u8,
    pub apb1_prescaler: u8,
    pub apb2_prescaler: u8,
    pub flash_latency: u8,
    pub voltage_scale: u8,
}

impl ClockPlan {
    /// Factors within the ranges that the silicon accepts.
    pub open spec fn valid(&self) -> bool {
        &&& 2 <= self.pll_m <= 63
        &&& 50 <= self.pll_n <= 432
        &&& self.pll_p_sel <= 3
        &&& self.apb1_prescaler <= 7
        &&& self.apb2_prescaler <= 7
        &&& self.flash_latency <= 15
        &&& 1 <= self.voltage_scale <= 3
    }
}

/// The PLL output divider that a P selector encodes: 2, 4, 6 or 8.
pub open spec fn pll_p_divisor(p_sel: u8) -> nat {
    2 * (p_sel as nat + 1)
}

/// The core frequency that the PLL produces.
pub open spec fn core_frequency_spec(hse_hz: u32, m: u8, n: u16, p_sel: u8) -> nat {
    (hse_hz as nat / m as nat) * n as nat / pll_p_divisor(p_sel)
}

/// The bus divider that an APB prescaler selector encodes: 1 below 0b100,
/// then 2, 4, 8, 16.
pub open spec fn apb_divisor(sel: u8) -> nat {
    if sel < 4 {
        1
    } else if sel == 4 {
        2
    } else if sel == 5 {
        4
    } else if sel == 6 {
        8
    } else {
        16
    }
}

/// The board's plan: 8 MHz crystal, M = 4, N = 180, P = 4, APB1 divided by
/// 4, APB2 by 2, five flash wait states, regulator scale 1.
pub fn board_clock_plan() -> (r: ClockPlan)
    ensures
        r == (ClockPlan {
            hse_hz: 8_000_000,
            pll_m: 4,
            pll_n: 180,
            pll_p_sel: 0b01,
            apb1_prescaler: 0b101,
            apb2_prescaler: 0b100,
            flash_latency: 5,
            voltage_scale: 0b11,
        }),
        r.valid(),
{
    ClockPlan {
        hse_hz: 8_000_000,
        pll_m: 4,
        pll_n: 180,
        pll_p_sel: 0b01,
        apb1_prescaler: 0b101,
        apb2_prescaler: 0b100,
        flash_latency: 5,
        voltage_scale: 0b11,
    }
}

/// The PLL output divider of a P selector.
pub fn pll_divisor(p_sel: u8) -> (r: u32)
    requires
        p_sel <= 3,
    ensures
        r == pll_p_divisor(p_sel),
{
    2 * (p_sel as u32 + 1)
}

/// The core frequency in hertz: (HSE / M) * N / P.
pub fn core_frequency(plan: &ClockPlan) -> (r: u64)
    requires
        plan.valid(),
    ensures
        r == core_frequency_spec(plan.hse_hz, plan.pll_m, plan.pll_n, plan.pll_p_sel),
        r <= 0xffff_ffff * 432,
{
    let vco_in: u64 = plan.hse_hz as u64 / plan.pll_m as u64;
    assert(vco_in * plan.pll_n <= 0xffff_ffff * 432) by (nonlinear_arith)
        requires
            vco_in <= 0xffff_ffff,
            plan.pll_n <= 432,
    ;
    let vco: u64 = vco_in * plan.pll_n as u64;
    let p: u64 = pll_divisor(plan.pll_p_sel) as u64;
    assert(vco / p <= vco) by (nonlinear_arith)
        requires
            p >= 2,
    ;
    vco / p
}

/// The divider of an APB prescaler selector.
pub fn apb_divider(sel: u8) -> (r: u32)
    ensures
        r == apb_divisor(sel),
{
    if sel < 4 {
        1
    } else if sel == 4 {
        2
    } else if sel == 5 {
        4
    } else if sel == 6 {
        8
    } else {
        16
    }
}

/// The clock of the low-speed peripheral bus (I2C) in hertz.
pub fn apb1_frequency(plan: &ClockPlan) -> (r: u64)
    requires
        plan.valid(),
    ensures
        r == core_frequency_spec(plan.hse_hz, plan.pll_m, plan.pll_n, plan.pll_p_sel)
            / apb_divisor(plan.apb1_prescaler),
{
    core_frequency(plan) / apb_divider(plan.apb1_prescaler) as u64
}

/// The clock of the timers on the high-speed peripheral bus in hertz: the
/// bus clock, doubled when the bus is divided.
pub fn apb2_timer_frequency(plan: &ClockPlan) -> (r: u64)
    requires
        plan.valid(),
    ensures
        r == if apb_divisor(plan.apb2_prescaler) == 1 {
            core_frequency_spec(plan.hse_hz, plan.pll_m, plan.pll_n, plan.pll_p_sel)
        } else {
            2 * (core_frequency_spec(plan.hse_hz, plan.pll_m, plan.pll_n, plan.pll_p_sel)
                / apb_divisor(plan.apb2_prescaler))
        },
{
    let core = core_frequency(plan);
    let div = apb_divider(plan.apb2_prescaler);
    if div == 1 {
        core
    } else {
        assert(core / (div as u64) <= core) by (nonlinear_arith)
            requires
                div >= 2,
        ;
        assert(core <= 0xffff_ffff * 432);
        2 * (core / div as u64)
    }
}

/// One step of the clock bring-up: a register write, or a wait on a status bit.
#[derive(Clone, Copy, Debug, PartialEq, Eq, Structural)]
pub enum ClockStep {
    EnableHse,
    AwaitHseReady,
    EnablePowerInterface,
    SetVoltageScale(u8),
    EnableFlashCaches,
    SetFlashLatency(u8),
    SetBusPrescalers { apb1: u8, apb2: u8 },
    ConfigurePll { m: u8, n: u16, p_sel: u8 },
    EnablePll,
    AwaitPllReady,
    SelectSysclk(u8),
    AwaitSysclkStatus(u8),
}

/// The bring-up in order: oscillator, power, flash, prescalers, PLL, switch.
pub open spec fn clock_program_spec(plan: ClockPlan) -> Seq<ClockStep> {
    seq![
        ClockStep::EnableHse,
        ClockStep::AwaitHseReady,
        ClockStep::EnablePowerInterface,
        ClockStep::SetVoltageScale(plan.voltage_scale),
        ClockStep::EnableFlashCaches,
        ClockStep::SetFlashLatency(plan.flash_latency),
        ClockStep::SetBusPrescalers { apb1: plan.apb1_prescaler, apb2: plan.apb2_prescaler },
        ClockStep::ConfigurePll { m: plan.pll_m, n: plan.pll_n, p_sel: plan.pll_p_sel },
        ClockStep::EnablePll,
        ClockStep::AwaitPllReady,
        ClockStep::SelectSysclk(SYSCLK_PLL),
        ClockStep::AwaitSysclkStatus(SYSCLK_PLL),
    ]
}

/// The error that a wait ends in when its budget runs out; none for a write.
pub open spec fn step_timeout_spec(step: ClockStep) -> Option<ClockError> {
    match step {
        ClockStep::AwaitHseReady => Some(ClockError::HseTimeout),
        ClockStep::AwaitPllReady => Some(ClockError::PllTimeout),
        ClockStep::AwaitSysclkStatus(_) => Some(ClockError::SwitchTimeout),
        _ => None,
    }
}

/// Whether a wait is over, given RCC_CR and RCC_CFGR; a write is never waiting.
pub open spec fn step_satisfied_spec(step: ClockStep, cr: u32, cfgr: u32) -> bool {
    match step {
        ClockStep::AwaitHseReady => cr & CR_HSERDY != 0,
        ClockStep::AwaitPllReady => cr & CR_PLLRDY != 0,
        ClockStep::AwaitSysclkStatus(sel) => (cfgr >> 2u32) & 3 == sel as u32,
        _ => true,
    }
}

/// The steps that bring the clock tree from reset to `plan`.
pub fn clock_program(plan: &ClockPlan) -> (r: Vec<ClockStep>)
    ensures
        r@ == clock_program_spec(*plan),
{
    let r = vec![
        ClockStep::EnableHse,
        ClockStep::AwaitHseReady,
        ClockStep::EnablePowerInterface,
        ClockStep::SetVoltageScale(plan.voltage_scale),
        ClockStep::EnableFlashCaches,
        ClockStep::SetFlashLatency(plan.flash_latency),
        ClockStep::SetBusPrescalers { apb1: plan.apb1_prescaler, apb2: plan.apb2_prescaler },
        ClockStep::ConfigurePll { m: plan.pll_m, n: plan.pll_n, p_sel: plan.pll_p_sel },
        ClockStep::EnablePll,
        ClockStep::AwaitPllReady,
        ClockStep::SelectSysclk(SYSCLK_PLL),
        ClockStep::AwaitSysclkStatus(SYSCLK_PLL),
    ];
    assert(r@ =~= clock_program_spec(*plan));
    r
}

impl ClockStep {
    /// The error that this wait ends in when its budget runs out.
    pub fn timeout_error(&self) -> (r: Option<ClockError>)
        ensures
            r == step_timeout_spec(*self),
    {
        match self {
            ClockStep::AwaitHseReady => Some(ClockError::HseTimeout),
            ClockStep::AwaitPllReady => Some(ClockError::PllTimeout),
            ClockStep::AwaitSysclkStatus(_) => Some(ClockError::SwitchTimeout),
            _ => None,
        }
    }

    /// Whether this wait is over, given the values read from RCC_CR and RCC_CFGR.
    pub fn is_satisfied(&self, cr: u32, cfgr: u32) -> (r: bool)
        ensures
            r == step_satisfied_spec(*self, cr, cfgr),
    {
        match self {
            ClockStep::AwaitHseReady => cr & CR_HSERDY != 0,
            ClockStep::AwaitPllReady => cr & CR_PLLRDY != 0,
            ClockStep::AwaitSysclkStatus(sel) => (cfgr >> 2u32) & 3 == *sel as u32,
            _ => true,
        }
    }
}

} // verus!
