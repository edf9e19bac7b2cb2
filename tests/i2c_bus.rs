use stm32_lib::{
    delay_reached, i2c_timing, timer_prescaler, I2cAction, I2cError, I2cPhase, I2cTiming,
    I2cWriter, PollVerdict, Poller,
};

const SB: u32 = 1;
const ADDR: u32 = 2;
const BTF: u32 = 4;
const TXE: u32 = 0x80;
const AF: u32 = 0x400;
const BUSY: u32 = 2;

#[test]
fn timing_for_45_mhz_standard_mode() {
    let t = i2c_timing(45_000_000, 100_000).unwrap();
    assert_eq!(t.ccr, 225);
    assert_eq!(t.freq_mhz, 45);
    assert_eq!(t.trise, 46);
}

#[test]
fn timing_rejects_clocks_out_of_range() {
    assert_eq!(i2c_timing(1_000_000, 100_000), None);
    assert_eq!(i2c_timing(60_000_000, 100_000), None);
    assert_eq!(i2c_timing(45_000_000, 0), None);
    assert_eq!(i2c_timing(45_000_000, 400_000), None);
    assert_eq!(i2c_timing(45_000_000, 1_000), None);
    assert_eq!(
        i2c_timing(22_500_000, 100_000),
        Some(I2cTiming { freq_mhz: 22, ccr: 112, trise: 23 })
    );
}

#[test]
fn timer_prescaler_gives_microsecond_ticks() {
    assert_eq!(timer_prescaler(180_000_000), Some(179));
    assert_eq!(timer_prescaler(90_000_000), Some(89));
    assert_eq!(timer_prescaler(999_999), None);
    assert!(delay_reached(150, 150));
    assert!(!delay_reached(149, 150));
}

fn run(writer: &mut I2cWriter, sr1: u32, sr2: u32, limit: usize) -> Vec<I2cAction> {
    let mut actions = Vec::new();
    for _ in 0..limit {
        let a = writer.next(sr1, sr2);
        actions.push(a);
        if matches!(a, I2cAction::Done | I2cAction::Abort(_)) {
            break;
        }
    }
    actions
}

#[test]
fn cooperative_bus_frames_start_address_bytes_stop() {
    let mut w = I2cWriter::new(0x27, vec![0x2C, 0x28], 3);
    let actions = run(&mut w, SB | ADDR | TXE | BTF, 0, 20);
    assert_eq!(
        actions,
        vec![
            I2cAction::GenerateStart,
            I2cAction::WriteData(0x4E),
            I2cAction::ClearAddress,
            I2cAction::WriteData(0x2C),
            I2cAction::Wait,
            I2cAction::WriteData(0x28),
            I2cAction::GenerateStop,
            I2cAction::Done,
        ]
    );
}

#[test]
fn empty_frame_stops_after_address() {
    let mut w = I2cWriter::new(0x27, vec![], 3);
    let actions = run(&mut w, SB | ADDR | TXE | BTF, 0, 20);
    assert_eq!(
        actions,
        vec![
            I2cAction::GenerateStart,
            I2cAction::WriteData(0x4E),
            I2cAction::ClearAddress,
            I2cAction::GenerateStop,
            I2cAction::Done,
        ]
    );
}

#[test]
fn busy_bus_times_out_after_budget() {
    let mut w = I2cWriter::new(0x27, vec![1], 4);
    let actions = run(&mut w, 0, BUSY, 100);
    assert_eq!(actions.len(), 5);
    assert!(actions[..4].iter().all(|a| *a == I2cAction::Wait));
    assert_eq!(actions[4], I2cAction::Abort(I2cError::BusBusyTimeout));
    assert_eq!(w.state.phase, I2cPhase::Failed(I2cError::BusBusyTimeout));
    assert_eq!(w.next(SB, 0), I2cAction::Abort(I2cError::BusBusyTimeout));
}

#[test]
fn missing_start_times_out() {
    let mut w = I2cWriter::new(0x27, vec![1], 2);
    assert_eq!(w.next(0, 0), I2cAction::GenerateStart);
    let actions = run(&mut w, 0, 0, 100);
    assert_eq!(actions, vec![I2cAction::Wait, I2cAction::Wait, I2cAction::Abort(I2cError::StartTimeout)]);
}

#[test]
fn refused_address_aborts_at_once() {
    let mut w = I2cWriter::new(0x27, vec![1], 5);
    assert_eq!(w.next(0, 0), I2cAction::GenerateStart);
    assert_eq!(w.next(SB, 0), I2cAction::WriteData(0x4E));
    assert_eq!(w.next(AF, 0), I2cAction::Abort(I2cError::AddressNacked));
}

#[test]
fn silent_address_times_out_as_nack() {
    let mut w = I2cWriter::new(0x27, vec![1], 1);
    assert_eq!(w.next(0, 0), I2cAction::GenerateStart);
    assert_eq!(w.next(SB, 0), I2cAction::WriteData(0x4E));
    assert_eq!(run(&mut w, 0, 0, 10), vec![I2cAction::Wait, I2cAction::Abort(I2cError::AddressNacked)]);
}

#[test]
fn refused_byte_aborts() {
    let mut w = I2cWriter::new(0x27, vec![7, 8], 5);
    assert_eq!(w.next(0, 0), I2cAction::GenerateStart);
    assert_eq!(w.next(SB, 0), I2cAction::WriteData(0x4E));
    assert_eq!(w.next(ADDR, 0), I2cAction::ClearAddress);
    assert_eq!(w.next(TXE, 0), I2cAction::WriteData(7));
    assert_eq!(w.next(AF, 0), I2cAction::Abort(I2cError::ByteNotAcknowledged));
}

#[test]
fn unfinished_byte_times_out() {
    let mut w = I2cWriter::new(0x27, vec![7], 0);
    assert_eq!(w.next(0, 0), I2cAction::GenerateStart);
    assert_eq!(w.next(SB, 0), I2cAction::WriteData(0x4E));
    assert_eq!(w.next(ADDR, 0), I2cAction::ClearAddress);
    assert_eq!(w.next(TXE, 0), I2cAction::WriteData(7));
    assert_eq!(w.next(TXE, 0), I2cAction::Abort(I2cError::ByteNotAcknowledged));
}

#[test]
fn poller_expires_after_budget() {
    let mut p = Poller::new(3);
    assert_eq!(p.observe(false), PollVerdict::Pending);
    assert_eq!(p.observe(false), PollVerdict::Pending);
    assert_eq!(p.observe(false), PollVerdict::Pending);
    assert_eq!(p.observe(false), PollVerdict::Expired);
    assert_eq!(p.observe(true), PollVerdict::Ready);
}

#[test]
fn poller_with_zero_budget_accepts_ready() {
    let mut p = Poller::new(0);
    assert_eq!(p.observe(true), PollVerdict::Ready);
    assert_eq!(p.observe(false), PollVerdict::Expired);
}
