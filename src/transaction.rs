//! Register transactions: the 3-byte frames exchanged with the chip, one at a
//! time.
//!
//! A [`Transaction`] is a list of register [`Step`]s bound to a chip's hardware
//! address. It hands out the next frame to send with [`Transaction::next_frame`]
//! and takes back what the bus returned with [`Transaction::complete`], so that
//! whoever owns the bus drives it without knowing the protocol. A
//! read-modify-write step takes two frames: the read, then the write of the
//! modified value.

use vstd::prelude::*;

use crate::error::{Mcp23s17Error, Result};
use crate::level::Level;
use crate::registers::{
    control_byte, spec_control_byte, HardwareAddress, RegisterAddress, SpiCommand,
};

verus! {

/// One register access.
#[derive(Clone, Copy, Debug, PartialEq, Eq, Structural)]
pub enum Step {
    /// Read the register.
    Read(RegisterAddress),
    /// Write a byte to the register.
    Write(RegisterAddress, u8),
    /// Read the register, then write it back with the bits of `set` set and the
    /// bits of `clear` cleared.
    Modify { register: RegisterAddress, set: u8, clear: u8 },
}

impl Step {
    /// The register the step accesses.
    pub open spec fn register(self) -> RegisterAddress {
        match self {
            Step::Read(register) => register,
            Step::Write(register, _) => register,
            Step::Modify { register, .. } => register,
        }
    }
}

/// `value` with the bits of `set` set and the bits of `clear` cleared.
pub open spec fn modified(value: u8, set: u8, clear: u8) -> u8 {
    (value & !clear) | set
}

/// The mask of bit `bit` of a register.
pub open spec fn bit_mask(bit: u8) -> u8 {
    (1u8 << bit) as u8
}

/// A register file after `step`.
pub open spec fn apply_step(registers: Seq<u8>, step: Step) -> Seq<u8> {
    match step {
        Step::Read(_) => registers,
        Step::Write(register, data) => registers.update(register.offset() as int, data),
        Step::Modify { register, set, clear } => registers.update(
            register.offset() as int,
            modified(registers[register.offset() as int], set, clear),
        ),
    }
}

/// A register file after each of `steps` in turn.
pub open spec fn apply_steps(registers: Seq<u8>, steps: Seq<Step>) -> Seq<u8>
    decreases steps.len(),
{
    if steps.len() == 0 {
        registers
    } else {
        apply_step(apply_steps(registers, steps.drop_last()), steps.last())
    }
}

/// The last byte that `steps` read from a register file, or `initial` when
/// they read none.
pub open spec fn last_read(registers: Seq<u8>, steps: Seq<Step>, initial: u8) -> u8
    decreases steps.len(),
{
    if steps.len() == 0 {
        initial
    } else {
        let before = apply_steps(registers, steps.drop_last());
        match steps.last() {
            Step::Read(register) => before[register.offset() as int],
            Step::Write(_, _) => last_read(registers, steps.drop_last(), initial),
            Step::Modify { register, .. } => before[register.offset() as int],
        }
    }
}

/// The steps that read `register`.
pub open spec fn read_steps(register: RegisterAddress) -> Seq<Step> {
    seq![Step::Read(register)]
}

/// The steps that write `data` to `register`.
pub open spec fn write_steps(register: RegisterAddress, data: u8) -> Seq<Step> {
    seq![Step::Write(register, data)]
}

/// The steps that set the bits of `mask` in `register`, leaving the others.
pub open spec fn set_bits_steps(register: RegisterAddress, mask: u8) -> Seq<Step> {
    seq![Step::Modify { register, set: mask, clear: 0 }]
}

/// The steps that clear the bits of `mask` in `register`, leaving the others.
pub open spec fn clear_bits_steps(register: RegisterAddress, mask: u8) -> Seq<Step> {
    seq![Step::Modify { register, set: 0, clear: mask }]
}

/// The state of a transaction.
pub struct TransactionState {
    /// The hardware address of the chip.
    pub address: u8,
    /// The register accesses, in order.
    pub steps: Seq<Step>,
    /// The step in progress.
    pub next: nat,
    /// Within a `Modify` step: its read is done and its write is due.
    pub fetched: bool,
    /// The last byte read.
    pub value: u8,
    /// The bits of the value read that make up a pin level.
    pub mask: u8,
}

impl TransactionState {
    /// A transaction that has exchanged no frame yet.
    pub open spec fn start(address: u8, steps: Seq<Step>, mask: u8) -> TransactionState {
        TransactionState { address, steps, next: 0, fetched: false, value: 0, mask }
    }

    /// The step index stays in range, and only a `Modify` step is ever half done.
    pub open spec fn wf(self) -> bool {
        &&& self.next <= self.steps.len()
        &&& self.fetched ==> self.next < self.steps.len() && self.steps[self.next as int] is Modify
    }

    /// Every step is done.
    pub open spec fn is_done(self) -> bool {
        self.next >= self.steps.len()
    }

    /// No frame has been exchanged yet.
    pub open spec fn is_fresh(self) -> bool {
        self.next == 0 && !self.fetched
    }

    /// The number of frames still to exchange.
    pub open spec fn remaining(self) -> int {
        2 * (self.steps.len() - self.next) - if self.fetched {
            1int
        } else {
            0int
        }
    }

    /// The frame to exchange next: control byte, register offset, data byte.
    pub open spec fn frame(self) -> Seq<u8> {
        let read = spec_control_byte(self.address, SpiCommand::Read);
        let write = spec_control_byte(self.address, SpiCommand::Write);
        match self.steps[self.next as int] {
            Step::Read(register) => seq![read, register.offset(), 0u8],
            Step::Write(register, data) => seq![write, register.offset(), data],
            Step::Modify { register, set, clear } => if self.fetched {
                seq![write, register.offset(), modified(self.value, set, clear)]
            } else {
                seq![read, register.offset(), 0u8]
            },
        }
    }

    /// The state once the next frame was exchanged and `reply` was the byte
    /// received in its data position.
    pub open spec fn advance(self, reply: u8) -> TransactionState {
        match self.steps[self.next as int] {
            Step::Read(_) => TransactionState { next: self.next + 1, value: reply, ..self },
            Step::Write(_, _) => TransactionState { next: self.next + 1, ..self },
            Step::Modify { .. } => if self.fetched {
                TransactionState { next: self.next + 1, fetched: false, ..self }
            } else {
                TransactionState { fetched: true, value: reply, ..self }
            },
        }
    }
}

/// A sequence of register accesses to one chip, exchanged frame by frame.
#[derive(Debug)]
pub struct Transaction {
    address: HardwareAddress,
    steps: Vec<Step>,
    next: usize,
    fetched: bool,
    value: u8,
    mask: u8,
}

impl View for Transaction {
    type V = TransactionState;

    closed spec fn view(&self) -> TransactionState {
        TransactionState {
            address: self.address@,
            steps: self.steps@,
            next: self.next as nat,
            fetched: self.fetched,
            value: self.value,
            mask: self.mask,
        }
    }
}

impl Transaction {
    #[verifier::type_invariant]
    spec fn well_formed(self) -> bool {
        self@.wf()
    }

    /// A transaction performing `steps` on the chip at `address`. `mask` selects
    /// the bits of the last byte read that [`Transaction::level`] reports.
    pub fn new(address: HardwareAddress, steps: Vec<Step>, mask: u8) -> (r: Transaction)
        ensures
            r@ == TransactionState::start(address@, steps@, mask),
    {
        Transaction { address, steps, next: 0, fetched: false, value: 0, mask }
    }

    /// Whether every frame has been exchanged.
    pub fn is_done(&self) -> (r: bool)
        ensures
            r == self@.is_done(),
            self@.wf(),
    {
        proof {
            use_type_invariant(self);
        }
        self.next >= self.steps.len()
    }

    /// The frame to send next, or `None` once the transaction is done.
    pub fn next_frame(&self) -> (r: Option<[u8; 3]>)
        ensures
            self@.wf(),
            self@.is_done() <==> r is None,
            r matches Some(frame) ==> frame@ == self@.frame(),
    {
        proof {
            use_type_invariant(self);
        }
        if self.next >= self.steps.len() {
            return None;
        }
        let read = control_byte(self.address, SpiCommand::Read);
        let write = control_byte(self.address, SpiCommand::Write);
        let frame = match self.steps[self.next] {
            Step::Read(register) => [read, register.offset_of(), 0u8],
            Step::Write(register, data) => [write, register.offset_of(), data],
            Step::Modify { register, set, clear } => if self.fetched {
                [write, register.offset_of(), (self.value & !clear) | set]
            } else {
                [read, register.offset_of(), 0u8]
            },
        };
        assert(frame@ =~= self@.frame());
        Some(frame)
    }

    /// Takes back the outcome of exchanging the frame given by
    /// [`Transaction::next_frame`]: the bytes received and how many bytes the
    /// bus reported moved. Any count other than 3 is an error, and leaves the
    /// transaction where it was.
    pub fn complete(&mut self, received: [u8; 3], count: usize) -> (r: Result<()>)
        requires
            !old(self)@.is_done(),
        ensures
            count == 3 ==> r is Ok && final(self)@ == old(self)@.advance(received[2]),
            count != 3 ==> r == Err::<(), Mcp23s17Error>(
                Mcp23s17Error::UnexpectedReadLength(count),
            ) && final(self)@ == old(self)@,
            final(self)@.wf(),
    {
        proof {
            use_type_invariant(&*self);
        }
        if count != 3 {
            return Err(Mcp23s17Error::UnexpectedReadLength(count));
        }
        let len = self.steps.len();
        assert(self.next < len);
        match self.steps[self.next] {
            Step::Read(_) => {
                self.value = received[2];
                self.next = self.next + 1;
            },
            Step::Write(_, _) => {
                self.next = self.next + 1;
            },
            Step::Modify { .. } => {
                if self.fetched {
                    self.fetched = false;
                    self.next = self.next + 1;
                } else {
                    self.fetched = true;
                    self.value = received[2];
                }
            },
        }
        Ok(())
    }

    /// The last byte read from the chip.
    pub fn value(&self) -> (r: u8)
        ensures
            r == self@.value,
    {
        self.value
    }

    /// The level of the bits selected by the transaction's mask in the last
    /// byte read.
    pub fn level(&self) -> (r: Level)
        ensures
            r == Level::of_bits(self@.value & self@.mask),
    {
        Level::from_bits(self.value & self.mask)
    }
}

} // verus!
