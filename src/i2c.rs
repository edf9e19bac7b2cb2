use vstd::prelude::*;
use crate::poll::{Poller, PollVerdict, observe_spec};

verus! {

/// I2C_SR1: start condition generated.
pub const SR1_SB: u32 = 1u32 << 0;

/// I2C_SR1: address sent and acknowledged.
pub const SR1_ADDR: u32 = 1u32 << 1;

/// I2C_SR1: byte transfer finished.
pub const SR1_BTF: u32 = 1u32 << 2;

/// I2C_SR1: data register empty.
pub const SR1_TXE: u32 = 1u32 << 7;

/// I2C_SR1: acknowledge failure (the receiver did not acknowledge).
pub const SR1_AF: u32 = 1u32 << 10;

/// I2C_SR2: bus busy.
pub const SR2_BUSY: u32 = 1u32 << 1;

/// Maximum rise time in standard mode, in nanoseconds.
pub const STANDARD_MODE_MAX_RISE_NS: u32 = 1000;

/// Values for the I2C timing registers: input clock (CR2.FREQ, in MHz), clock
/// control (CCR, standard mode), and rise time (TRISE).
#[derive(Clone, Copy, Debug, PartialEq, Eq, Structural)]
pub struct I2cTiming {
    pub freq_mhz: u32,
    pub ccr: u32,
    pub trise: u32,
}

/// Standard-mode timing for an input clock and a bus frequency: the clock
/// divisor is `pclk / (2 * target)` (equal high and low times), and the rise
/// time is the input clock in MHz plus one (1000 ns at most).
pub open spec fn timing_spec(pclk_hz: u32, target_hz: u32) -> I2cTiming {
    I2cTiming {
        freq_mhz: (pclk_hz / 1_000_000) as u32,
        ccr: (pclk_hz as nat / (2 * target_hz as nat)) as u32,
        trise: (pclk_hz / 1_000_000 + 1) as u32,
    }
}

/// Whether the peripheral can run standard mode at these clocks: an input
/// clock of 2 to 50 MHz, a target of at most 100 kHz, and a divisor that
/// fits the 12-bit field and is at least 4.
pub open spec fn timing_feasible(pclk_hz: u32, target_hz: u32) -> bool {
    &&& 2_000_000 <= pclk_hz <= 50_000_000
    &&& 0 < target_hz <= 100_000
    &&& 4 <= pclk_hz as nat / (2 * target_hz as nat) <= 0xfff
}

/// The timing register values for standard mode, or `None` where the
/// peripheral cannot produce `target_hz` from `pclk_hz`.
pub fn i2c_timing(pclk_hz: u32, target_hz: u32) -> (r: Option<I2cTiming>)
    ensures
        r == (if timing_feasible(pclk_hz, target_hz) {
            Some(timing_spec(pclk_hz, target_hz))
        } else {
            None::<I2cTiming>
        }),
{
    if pclk_hz < 2_000_000 || pclk_hz > 50_000_000 || target_hz == 0 || target_hz > 100_000 {
        return None;
    }
    let ccr: u32 = pclk_hz / (2 * target_hz);
    if ccr < 4 || ccr > 0xfff {
        return None;
    }
    let freq: u32 = pclk_hz / 1_000_000;
    Some(I2cTiming { freq_mhz: freq, ccr, trise: freq + 1 })
}

/// Why a write transaction stopped.
#[derive(Clone, Copy, Debug, PartialEq, Eq, Structural)]
pub enum I2cError {
    /// The bus stayed busy.
    BusBusyTimeout,
    /// The start condition was never confirmed.
    StartTimeout,
    /// The address was refused, or never acknowledged in time.
    AddressNacked,
    /// A data byte was refused, or never went out in time.
    ByteNotAcknowledged,
}

/// Where a write transaction stands.
#[derive(Clone, Copy, Debug, PartialEq, Eq, Structural)]
pub enum I2cPhase {
    AwaitBusFree,
    AwaitStart,
    AwaitAddress,
    AwaitTxEmpty,
    AwaitByteDone,
    Finished,
    Failed(I2cError),
}

/// What the caller does next on the peripheral.
#[derive(Clone, Copy, Debug, PartialEq, Eq, Structural)]
pub enum I2cAction {
    /// Nothing; read the status registers again.
    Wait,
    /// Set CR1.START.
    GenerateStart,
    /// Write this byte to DR.
    WriteData(u8),
    /// Read SR1 then SR2, which clears the address flag.
    ClearAddress,
    /// Set CR1.STOP; the transaction is complete.
    GenerateStop,
    /// The transaction is complete; nothing more to do.
    Done,
    /// The transaction failed.
    Abort(I2cError),
}

/// The changing part of a write transaction.
#[derive(Clone, Copy, Debug, PartialEq, Eq, Structural)]
pub struct WriterState {
    pub phase: I2cPhase,
    pub index: usize,
    pub remaining: u32,
}

/// The byte that addresses a 7-bit device for writing.
pub open spec fn address_byte(address: u8) -> u8 {
    (address * 2) as u8
}

/// The error that a phase ends in when its flag never comes.
pub open spec fn phase_error(phase: I2cPhase) -> I2cError {
    match phase {
        I2cPhase::AwaitBusFree => I2cError::BusBusyTimeout,
        I2cPhase::AwaitStart => I2cError::StartTimeout,
        I2cPhase::AwaitAddress => I2cError::AddressNacked,
        _ => I2cError::ByteNotAcknowledged,
    }
}

/// Whether a phase's awaited flag is up.
pub open spec fn phase_ready(phase: I2cPhase, sr1: u32, sr2: u32) -> bool {
    match phase {
        I2cPhase::AwaitBusFree => sr2 & SR2_BUSY == 0,
        I2cPhase::AwaitStart => sr1 & SR1_SB != 0,
        I2cPhase::AwaitAddress => sr1 & SR1_ADDR != 0,
        I2cPhase::AwaitTxEmpty => sr1 & SR1_TXE != 0,
        _ => sr1 & SR1_BTF != 0,
    }
}

/// Whether a phase fails at once on an acknowledge failure.
pub open spec fn phase_checks_ack(phase: I2cPhase) -> bool {
    match phase {
        I2cPhase::AwaitAddress | I2cPhase::AwaitTxEmpty | I2cPhase::AwaitByteDone => true,
        _ => false,
    }
}

/// The state and action once a phase's flag is up.
pub open spec fn on_ready(s: WriterState, address: u8, bytes: Seq<u8>, budget: u32) -> (
    WriterState,
    I2cAction,
) {
    match s.phase {
        I2cPhase::AwaitBusFree => (
            WriterState { phase: I2cPhase::AwaitStart, index: s.index, remaining: budget },
            I2cAction::GenerateStart,
        ),
        I2cPhase::AwaitStart => (
            WriterState { phase: I2cPhase::AwaitAddress, index: s.index, remaining: budget },
            I2cAction::WriteData(address_byte(address)),
        ),
        I2cPhase::AwaitAddress => (
            WriterState { phase: I2cPhase::AwaitTxEmpty, index: 0, remaining: budget },
            I2cAction::ClearAddress,
        ),
        I2cPhase::AwaitTxEmpty => (
            WriterState { phase: I2cPhase::AwaitByteDone, index: s.index, remaining: budget },
            I2cAction::WriteData(bytes[s.index as int]),
        ),
        _ => if s.index + 1 < bytes.len() {
            (
                WriterState {
                    phase: I2cPhase::AwaitTxEmpty,
                    index: (s.index + 1) as usize,
                    remaining: budget,
                },
                I2cAction::Wait,
            )
        } else {
            (
                WriterState { phase: I2cPhase::Finished, index: s.index, remaining: budget },
                I2cAction::GenerateStop,
            )
        },
    }
}

/// One decision of a write transaction of `bytes` to `address`, given the
/// values just read from SR1 and SR2.
pub open spec fn next_spec(
    s: WriterState,
    address: u8,
    bytes: Seq<u8>,
    budget: u32,
    sr1: u32,
    sr2: u32,
) -> (WriterState, I2cAction) {
    match s.phase {
        I2cPhase::Finished => (s, I2cAction::Done),
        I2cPhase::Failed(e) => (s, I2cAction::Abort(e)),
        _ => if s.phase == I2cPhase::AwaitTxEmpty && s.index >= bytes.len() {
            (
                WriterState { phase: I2cPhase::Finished, index: s.index, remaining: s.remaining },
                I2cAction::GenerateStop,
            )
        } else if phase_checks_ack(s.phase) && sr1 & SR1_AF != 0 {
            let e = phase_error(s.phase);
            (WriterState { phase: I2cPhase::Failed(e), index: s.index, remaining: s.remaining }, I2cAction::Abort(e))
        } else {
            let (v, rest) = observe_spec(s.remaining, phase_ready(s.phase, sr1, sr2));
            match v {
                PollVerdict::Ready => on_ready(s, address, bytes, budget),
                PollVerdict::Pending => (
                    WriterState { phase: s.phase, index: s.index, remaining: rest },
                    I2cAction::Wait,
                ),
                PollVerdict::Expired => {
                    let e = phase_error(s.phase);
                    (
                        WriterState { phase: I2cPhase::Failed(e), index: s.index, remaining: rest },
                        I2cAction::Abort(e),
                    )
                },
            }
        },
    }
}

/// A master-write transaction in progress: start, address, each byte, stop.
pub struct I2cWriter {
    pub address: u8,
    pub bytes: Vec<u8>,
    pub budget: u32,
    pub state: WriterState,
}

impl I2cWriter {
    /// The transaction's index stays within its bytes, and points at one
    /// while that byte is going out.
    pub open spec fn wf(&self) -> bool {
        &&& self.state.index <= self.bytes@.len()
        &&& self.state.phase == I2cPhase::AwaitByteDone ==> self.state.index < self.bytes@.len()
    }

    /// A transaction that writes `bytes` to the 7-bit device `address`,
    /// allowing each wait `budget` readings that find its flag down.
    pub fn new(address: u8, bytes: Vec<u8>, budget: u32) -> (r: I2cWriter)
        requires
            address < 128,
        ensures
            r.address == address,
            r.bytes@ == bytes@,
            r.budget == budget,
            r.state == (WriterState { phase: I2cPhase::AwaitBusFree, index: 0, remaining: budget }),
            r.wf(),
    {
        I2cWriter {
            address,
            bytes,
            budget,
            state: WriterState { phase: I2cPhase::AwaitBusFree, index: 0, remaining: budget },
        }
    }

    fn await_flag(&mut self, ready: bool) -> (a: I2cAction)
        requires
            old(self).wf(),
            old(self).address < 128,
            old(self).state.phase == I2cPhase::AwaitBusFree || old(self).state.phase
                == I2cPhase::AwaitStart || old(self).state.phase == I2cPhase::AwaitAddress
                || (old(self).state.phase == I2cPhase::AwaitTxEmpty && old(self).state.index
                < old(self).bytes@.len()) || (old(self).state.phase == I2cPhase::AwaitByteDone
                && old(self).state.index < old(self).bytes@.len()),
        ensures
            final(self).address == old(self).address,
            final(self).bytes@ == old(self).bytes@,
            final(self).budget == old(self).budget,
            final(self).wf(),
            ({
                let (v, rest) = observe_spec(old(self).state.remaining, ready);
                (final(self).state, a) == match v {
                    PollVerdict::Ready => on_ready(
                        old(self).state,
                        old(self).address,
                        old(self).bytes@,
                        old(self).budget,
                    ),
                    PollVerdict::Pending => (
                        WriterState {
                            phase: old(self).state.phase,
                            index: old(self).state.index,
                            remaining: rest,
                        },
                        I2cAction::Wait,
                    ),
                    PollVerdict::Expired => (
                        WriterState {
                            phase: I2cPhase::Failed(phase_error(old(self).state.phase)),
                            index: old(self).state.index,
                            remaining: rest,
                        },
                        I2cAction::Abort(phase_error(old(self).state.phase)),
                    ),
                }
            }),
    {
        let mut poller = Poller::new(self.state.remaining);
        let v = poller.observe(ready);
        match v {
            PollVerdict::Pending => {
                self.state.remaining = poller.remaining;
                I2cAction::Wait
            },
            PollVerdict::Expired => {
                let e = match self.state.phase {
                    I2cPhase::AwaitBusFree => I2cError::BusBusyTimeout,
                    I2cPhase::AwaitStart => I2cError::StartTimeout,
                    I2cPhase::AwaitAddress => I2cError::AddressNacked,
                    _ => I2cError::ByteNotAcknowledged,
                };
                self.state.phase = I2cPhase::Failed(e);
                self.state.remaining = poller.remaining;
                I2cAction::Abort(e)
            },
            PollVerdict::Ready => {
                let budget = self.budget;
                let index = self.state.index;
                match self.state.phase {
                    I2cPhase::AwaitBusFree => {
                        self.state = WriterState { phase: I2cPhase::AwaitStart, index, remaining: budget };
                        I2cAction::GenerateStart
                    },
                    I2cPhase::AwaitStart => {
                        self.state = WriterState { phase: I2cPhase::AwaitAddress, index, remaining: budget };
                        I2cAction::WriteData(self.address * 2)
                    },
                    I2cPhase::AwaitAddress => {
                        self.state = WriterState { phase: I2cPhase::AwaitTxEmpty, index: 0, remaining: budget };
                        I2cAction::ClearAddress
                    },
                    I2cPhase::AwaitTxEmpty => {
                        self.state = WriterState { phase: I2cPhase::AwaitByteDone, index, remaining: budget };
                        I2cAction::WriteData(self.bytes[index])
                    },
                    _ => {
                        if index < self.bytes.len() - 1 {
                            self.state = WriterState {
                                phase: I2cPhase::AwaitTxEmpty,
                                index: index + 1,
                                remaining: budget,
                            };
                            I2cAction::Wait
                        } else {
                            self.state = WriterState { phase: I2cPhase::Finished, index, remaining: budget };
                            I2cAction::GenerateStop
                        }
                    },
                }
            },
        }
    }

    /// Decides the next action from the values just read from SR1 and SR2.
    pub fn next(&mut self, sr1: u32, sr2: u32) -> (a: I2cAction)
        requires
            old(self).wf(),
            old(self).address < 128,
        ensures
            final(self).address == old(self).address,
            final(self).bytes@ == old(self).bytes@,
            final(self).budget == old(self).budget,
            final(self).wf(),
            (final(self).state, a) == next_spec(
                old(self).state,
                old(self).address,
                old(self).bytes@,
                old(self).budget,
                sr1,
                sr2,
            ),
    {
        match self.state.phase {
            I2cPhase::Finished => I2cAction::Done,
            I2cPhase::Failed(e) => I2cAction::Abort(e),
            I2cPhase::AwaitBusFree => self.await_flag(sr2 & SR2_BUSY == 0),
            I2cPhase::AwaitStart => self.await_flag(sr1 & SR1_SB != 0),
            I2cPhase::AwaitAddress => {
                if sr1 & SR1_AF != 0 {
                    self.state.phase = I2cPhase::Failed(I2cError::AddressNacked);
                    I2cAction::Abort(I2cError::AddressNacked)
                } else {
                    self.await_flag(sr1 & SR1_ADDR != 0)
                }
            },
            I2cPhase::AwaitTxEmpty => {
                if self.state.index >= self.bytes.len() {
                    self.state.phase = I2cPhase::Finished;
                    I2cAction::GenerateStop
                } else if sr1 & SR1_AF != 0 {
                    self.state.phase = I2cPhase::Failed(I2cError::ByteNotAcknowledged);
                    I2cAction::Abort(I2cError::ByteNotAcknowledged)
                } else {
                    self.await_flag(sr1 & SR1_TXE != 0)
                }
            },
            I2cPhase::AwaitByteDone => {
                if sr1 & SR1_AF != 0 {
                    self.state.phase = I2cPhase::Failed(I2cError::ByteNotAcknowledged);
                    I2cAction::Abort(I2cError::ByteNotAcknowledged)
                } else {
                    self.await_flag(sr1 & SR1_BTF != 0)
                }
            },
        }
    }
}


/// The state after `n` decisions on unchanging status values.
pub open spec fn run_states(
    s: WriterState,
    address: u8,
    bytes: Seq<u8>,
    budget: u32,
    sr1: u32,
    sr2: u32,
    n: nat,
) -> WriterState
    decreases n,
{
    if n == 0 {
        s
    } else {
        run_states(next_spec(s, address, bytes, budget, sr1, sr2).0, address, bytes, budget, sr1, sr2, (n - 1) as nat)
    }
}

/// A phase that waits on a flag, with a byte to send where one is needed.
pub open spec fn waiting(s: WriterState, bytes: Seq<u8>) -> bool {
    match s.phase {
        I2cPhase::AwaitBusFree | I2cPhase::AwaitStart | I2cPhase::AwaitAddress => true,
        I2cPhase::AwaitTxEmpty | I2cPhase::AwaitByteDone => s.index < bytes.len(),
        _ => false,
    }
}

/// A wait whose status never changes to ready (and reports no acknowledge
/// failure) answers `Wait` as many times as its budget allows and then
/// aborts with the error of that wait: no step of a transaction hangs.
pub proof fn lemma_stuck_status_times_out(
    s: WriterState,
    address: u8,
    bytes: Seq<u8>,
    budget: u32,
    sr1: u32,
    sr2: u32,
)
    requires
        waiting(s, bytes),
        !phase_ready(s.phase, sr1, sr2),
        !(phase_checks_ack(s.phase) && sr1 & SR1_AF != 0),
    ensures
        forall|k: nat|
            k < s.remaining ==> (#[trigger] next_spec(
                run_states(s, address, bytes, budget, sr1, sr2, k),
                address,
                bytes,
                budget,
                sr1,
                sr2,
            )).1 == I2cAction::Wait,
        next_spec(
            run_states(s, address, bytes, budget, sr1, sr2, s.remaining as nat),
            address,
            bytes,
            budget,
            sr1,
            sr2,
        ).1 == I2cAction::Abort(phase_error(s.phase)),
        run_states(s, address, bytes, budget, sr1, sr2, s.remaining as nat + 1).phase
            == I2cPhase::Failed(phase_error(s.phase)),
    decreases s.remaining,
{
    let step = next_spec(s, address, bytes, budget, sr1, sr2);
    if s.remaining == 0 {
        assert(run_states(s, address, bytes, budget, sr1, sr2, 0) == s);
        assert(run_states(step.0, address, bytes, budget, sr1, sr2, 0) == step.0);
    } else {
        let t = step.0;
        assert(t == WriterState { phase: s.phase, index: s.index, remaining: (s.remaining - 1) as u32 });
        lemma_stuck_status_times_out(t, address, bytes, budget, sr1, sr2);
        assert forall|k: nat| k < s.remaining implies (#[trigger] next_spec(
            run_states(s, address, bytes, budget, sr1, sr2, k),
            address,
            bytes,
            budget,
            sr1,
            sr2,
        )).1 == I2cAction::Wait by {
            if k == 0 {
                assert(run_states(s, address, bytes, budget, sr1, sr2, 0) == s);
            } else {
                assert(run_states(s, address, bytes, budget, sr1, sr2, k) == run_states(t, address, bytes, budget, sr1, sr2, (k - 1) as nat));
            }
        }
        assert(run_states(s, address, bytes, budget, sr1, sr2, s.remaining as nat) == run_states(t, address, bytes, budget, sr1, sr2, t.remaining as nat));
        assert(run_states(s, address, bytes, budget, sr1, sr2, s.remaining as nat + 1) == run_states(t, address, bytes, budget, sr1, sr2, t.remaining as nat + 1));
    }
}


/// The actions of `n` decisions on unchanging status values.
pub open spec fn run_actions(
    s: WriterState,
    address: u8,
    bytes: Seq<u8>,
    budget: u32,
    sr1: u32,
    sr2: u32,
    n: nat,
) -> Seq<I2cAction>
    decreases n,
{
    if n == 0 {
        seq![]
    } else {
        let (t, a) = next_spec(s, address, bytes, budget, sr1, sr2);
        seq![a] + run_actions(t, address, bytes, budget, sr1, sr2, (n - 1) as nat)
    }
}

/// Status values of a bus on which every flag comes at once and nothing is
/// refused.
pub open spec fn cooperative_sr1() -> u32 {
    SR1_SB | SR1_ADDR | SR1_BTF | SR1_TXE
}

/// The data part of a frame from byte `i` on: each byte written, a fresh
/// status read between bytes, and a stop after the last.
pub open spec fn byte_actions(bytes: Seq<u8>, i: nat) -> Seq<I2cAction>
    decreases bytes.len() - i,
{
    if i >= bytes.len() {
        seq![]
    } else if i + 1 == bytes.len() {
        seq![I2cAction::WriteData(bytes[i as int]), I2cAction::GenerateStop]
    } else {
        seq![I2cAction::WriteData(bytes[i as int]), I2cAction::Wait] + byte_actions(bytes, i + 1)
    }
}

/// A whole write frame: start, address with the write bit, the address
/// flag cleared, the data bytes in order, stop.
pub open spec fn frame_actions(address: u8, bytes: Seq<u8>) -> Seq<I2cAction> {
    seq![
        I2cAction::GenerateStart,
        I2cAction::WriteData(address_byte(address)),
        I2cAction::ClearAddress,
    ] + if bytes.len() == 0 {
        seq![I2cAction::GenerateStop]
    } else {
        byte_actions(bytes, 0)
    }
}

proof fn lemma_cooperative_flags()
    ensures
        cooperative_sr1() & SR1_SB != 0,
        cooperative_sr1() & SR1_ADDR != 0,
        cooperative_sr1() & SR1_BTF != 0,
        cooperative_sr1() & SR1_TXE != 0,
        cooperative_sr1() & SR1_AF == 0,
        0u32 & SR2_BUSY == 0,
{
    assert((1u32 << 0u32 | 1u32 << 1u32 | 1u32 << 2u32 | 1u32 << 7u32) & (1u32 << 0u32) != 0) by (bit_vector);
    assert((1u32 << 0u32 | 1u32 << 1u32 | 1u32 << 2u32 | 1u32 << 7u32) & (1u32 << 1u32) != 0) by (bit_vector);
    assert((1u32 << 0u32 | 1u32 << 1u32 | 1u32 << 2u32 | 1u32 << 7u32) & (1u32 << 2u32) != 0) by (bit_vector);
    assert((1u32 << 0u32 | 1u32 << 1u32 | 1u32 << 2u32 | 1u32 << 7u32) & (1u32 << 7u32) != 0) by (bit_vector);
    assert((1u32 << 0u32 | 1u32 << 1u32 | 1u32 << 2u32 | 1u32 << 7u32) & (1u32 << 10u32) == 0) by (bit_vector);
    assert(0u32 & (1u32 << 1u32) == 0) by (bit_vector);
}

proof fn lemma_cooperative_bytes(s: WriterState, address: u8, bytes: Seq<u8>, budget: u32)
    requires
        s.phase == I2cPhase::AwaitTxEmpty,
        s.index < bytes.len(),
        bytes.len() <= usize::MAX,
    ensures
        run_actions(s, address, bytes, budget, cooperative_sr1(), 0, 2 * (bytes.len() - s.index) as nat)
            == byte_actions(bytes, s.index as nat),
        run_states(s, address, bytes, budget, cooperative_sr1(), 0, 2 * (bytes.len() - s.index) as nat).phase
            == I2cPhase::Finished,
    decreases bytes.len() - s.index,
{
    lemma_cooperative_flags();
    let sr1 = cooperative_sr1();
    let n = 2 * (bytes.len() - s.index) as nat;
    let (t1, a1) = next_spec(s, address, bytes, budget, sr1, 0);
    assert(t1 == WriterState { phase: I2cPhase::AwaitByteDone, index: s.index, remaining: budget });
    assert(a1 == I2cAction::WriteData(bytes[s.index as int]));
    assert(phase_ready(t1.phase, sr1, 0));
    assert(observe_spec(t1.remaining, true).0 == PollVerdict::Ready);
    let (t2, a2) = next_spec(t1, address, bytes, budget, sr1, 0);
    assert((t2, a2) == on_ready(t1, address, bytes, budget));
    assert(run_actions(s, address, bytes, budget, sr1, 0, n) == seq![a1] + run_actions(t1, address, bytes, budget, sr1, 0, (n - 1) as nat));
    assert(run_actions(t1, address, bytes, budget, sr1, 0, (n - 1) as nat) == seq![a2] + run_actions(t2, address, bytes, budget, sr1, 0, (n - 2) as nat));
    assert(run_states(s, address, bytes, budget, sr1, 0, n) == run_states(t1, address, bytes, budget, sr1, 0, (n - 1) as nat));
    assert(run_states(t1, address, bytes, budget, sr1, 0, (n - 1) as nat) == run_states(t2, address, bytes, budget, sr1, 0, (n - 2) as nat));
    if s.index + 1 < bytes.len() {
        assert(t2.index == s.index + 1);
        lemma_cooperative_bytes(t2, address, bytes, budget);
        assert(run_actions(s, address, bytes, budget, sr1, 0, n) =~= byte_actions(bytes, s.index as nat));
    } else {
        assert(n == 2);
        assert(run_actions(t2, address, bytes, budget, sr1, 0, 0) =~= Seq::<I2cAction>::empty());
        assert(run_actions(s, address, bytes, budget, sr1, 0, n) =~= byte_actions(bytes, s.index as nat));
    }
}

/// On a bus where every flag comes and nothing is refused, a write
/// transaction emits start, then the address, then each byte in order, then
/// stop, and is finished after that.
pub proof fn lemma_frame_order(address: u8, bytes: Seq<u8>, budget: u32)
    requires
        bytes.len() <= usize::MAX,
    ensures
        ({
            let s0 = WriterState { phase: I2cPhase::AwaitBusFree, index: 0, remaining: budget };
            let n = frame_actions(address, bytes).len();
            &&& run_actions(s0, address, bytes, budget, cooperative_sr1(), 0, n)
                == frame_actions(address, bytes)
            &&& run_states(s0, address, bytes, budget, cooperative_sr1(), 0, n).phase
                == I2cPhase::Finished
        }),
{
    lemma_cooperative_flags();
    let sr1 = cooperative_sr1();
    let s0 = WriterState { phase: I2cPhase::AwaitBusFree, index: 0, remaining: budget };
    let n = frame_actions(address, bytes).len();
    if bytes.len() > 0 {
        lemma_byte_actions_len(bytes, 0);
    }
    let (t1, a1) = next_spec(s0, address, bytes, budget, sr1, 0);
    let (t2, a2) = next_spec(t1, address, bytes, budget, sr1, 0);
    let (t3, a3) = next_spec(t2, address, bytes, budget, sr1, 0);
    assert(t3 == WriterState { phase: I2cPhase::AwaitTxEmpty, index: 0, remaining: budget });
    let rest = (n - 3) as nat;
    assert(n >= 4);
    assert(run_actions(s0, address, bytes, budget, sr1, 0, n) == seq![a1] + run_actions(t1, address, bytes, budget, sr1, 0, (n - 1) as nat));
    assert(run_actions(t1, address, bytes, budget, sr1, 0, (n - 1) as nat) == seq![a2] + run_actions(t2, address, bytes, budget, sr1, 0, (n - 2) as nat));
    assert(run_actions(t2, address, bytes, budget, sr1, 0, (n - 2) as nat) == seq![a3] + run_actions(t3, address, bytes, budget, sr1, 0, rest));
    assert(run_states(s0, address, bytes, budget, sr1, 0, n) == run_states(t1, address, bytes, budget, sr1, 0, (n - 1) as nat));
    assert(run_states(t1, address, bytes, budget, sr1, 0, (n - 1) as nat) == run_states(t2, address, bytes, budget, sr1, 0, (n - 2) as nat));
    assert(run_states(t2, address, bytes, budget, sr1, 0, (n - 2) as nat) == run_states(t3, address, bytes, budget, sr1, 0, rest));
    if bytes.len() == 0 {
        let (t4, a4) = next_spec(t3, address, bytes, budget, sr1, 0);
        assert(run_actions(t3, address, bytes, budget, sr1, 0, 1) == seq![a4] + run_actions(t4, address, bytes, budget, sr1, 0, 0));
        assert(run_actions(t4, address, bytes, budget, sr1, 0, 0) =~= Seq::<I2cAction>::empty());
        assert(run_states(t3, address, bytes, budget, sr1, 0, 1) == run_states(t4, address, bytes, budget, sr1, 0, 0));
    } else {
        lemma_cooperative_bytes(t3, address, bytes, budget);
        assert(byte_actions(bytes, 0).len() == 2 * bytes.len()) by {
            lemma_byte_actions_len(bytes, 0);
        }
    }
    assert(run_actions(s0, address, bytes, budget, sr1, 0, n) =~= frame_actions(address, bytes));
}

proof fn lemma_byte_actions_len(bytes: Seq<u8>, i: nat)
    requires
        i < bytes.len(),
    ensures
        byte_actions(bytes, i).len() == 2 * (bytes.len() - i),
    decreases bytes.len() - i,
{
    if i + 1 < bytes.len() {
        lemma_byte_actions_len(bytes, i + 1);
    }
}

} // verus!
