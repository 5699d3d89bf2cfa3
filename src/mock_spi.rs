//! A register-file model of the chip on the bus, for driving transactions
//! without hardware.
//!
//! [`MockSpi`] holds the chip's 22 registers. A frame whose control byte has
//! the read bit set returns the addressed register in its data byte; any other
//! frame writes its data byte to the addressed register. It also counts the
//! reads and writes of each register.

use vstd::prelude::*;

use crate::error::Result;
use crate::registers::{lemma_control_byte_command, RegisterAddress};
use crate::transaction::{apply_step, apply_steps, last_read, Step, Transaction};

verus! {

/// Whether `frame` reads a register: its control byte has the read bit set.
pub open spec fn frame_reads(frame: Seq<u8>) -> bool {
    frame[0] & 1 == 1
}

/// The registers once the chip has taken `frame`.
pub open spec fn chip_after(registers: Seq<u8>, frame: Seq<u8>) -> Seq<u8> {
    if frame_reads(frame) {
        registers
    } else {
        registers.update(frame[1] as int, frame[2])
    }
}

/// The bytes the chip returns for `frame`: the addressed register in the data
/// position for a read, zeros otherwise.
pub open spec fn chip_reply(registers: Seq<u8>, frame: Seq<u8>) -> Seq<u8> {
    if frame_reads(frame) {
        seq![0u8, 0u8, registers[frame[1] as int]]
    } else {
        seq![0u8, 0u8, 0u8]
    }
}

/// One more than `count`, or `count` where it cannot grow.
pub open spec fn bumped(count: usize) -> usize {
    if count < usize::MAX {
        (count + 1) as usize
    } else {
        count
    }
}

/// The read counts after each of `steps` in turn: a `Read` or a `Modify` reads
/// its register once.
pub open spec fn counted_reads(reads: Seq<usize>, steps: Seq<Step>) -> Seq<usize>
    decreases steps.len(),
{
    if steps.len() == 0 {
        reads
    } else {
        let before = counted_reads(reads, steps.drop_last());
        let i = steps.last().register().offset() as int;
        match steps.last() {
            Step::Write(_, _) => before,
            _ => before.update(i, bumped(before[i])),
        }
    }
}

/// The write counts after each of `steps` in turn: a `Write` or a `Modify`
/// writes its register once.
pub open spec fn counted_writes(writes: Seq<usize>, steps: Seq<Step>) -> Seq<usize>
    decreases steps.len(),
{
    if steps.len() == 0 {
        writes
    } else {
        let before = counted_writes(writes, steps.drop_last());
        let i = steps.last().register().offset() as int;
        match steps.last() {
            Step::Read(_) => before,
            _ => before.update(i, bumped(before[i])),
        }
    }
}

/// The registers after power-on reset: the I/O direction registers all ones
/// (every line an input), every other register zero.
pub open spec fn power_on_registers() -> Seq<u8> {
    Seq::new(22, |i: int| if i <= 1 { 0xffu8 } else { 0u8 })
}

/// The state of the model: register values, and read and write counts.
pub struct MockState {
    /// The value of each register, by offset.
    pub registers: Seq<u8>,
    /// How many times each register was read.
    pub reads: Seq<usize>,
    /// How many times each register was written.
    pub writes: Seq<usize>,
}

/// A model of the chip's registers behind the SPI bus.
#[derive(Debug)]
pub struct MockSpi {
    register_values: [u8; 22],
    read_access_count: [usize; 22],
    write_access_count: [usize; 22],
}

impl View for MockSpi {
    type V = MockState;

    closed spec fn view(&self) -> MockState {
        MockState {
            registers: self.register_values@,
            reads: self.read_access_count@,
            writes: self.write_access_count@,
        }
    }
}

impl MockSpi {
    /// A model with the registers as after power-on reset and no access
    /// counted.
    pub fn new() -> (r: MockSpi)
        ensures
            r@.registers == power_on_registers(),
            r@.reads == Seq::new(22, |i: int| 0usize),
            r@.writes == Seq::new(22, |i: int| 0usize),
    {
        let mut register_values = [0u8; 22];
        register_values[0] = 0xff;
        register_values[1] = 0xff;
        let r = MockSpi {
            register_values,
            read_access_count: [0usize; 22],
            write_access_count: [0usize; 22],
        };
        assert(r@.registers =~= power_on_registers());
        assert(r@.reads =~= Seq::new(22, |i: int| 0usize));
        assert(r@.writes =~= Seq::new(22, |i: int| 0usize));
        r
    }

    /// Exchanges one frame with the model: the control byte, the register
    /// offset, the data byte. Returns the bytes received and the number of
    /// bytes moved, which is always 3.
    pub fn transfer(&mut self, write_buffer: [u8; 3]) -> (r: ([u8; 3], usize))
        requires
            write_buffer[1] < 22,
        ensures
            r.0@ == chip_reply(old(self)@.registers, write_buffer@),
            r.1 == 3,
            final(self)@.registers == chip_after(old(self)@.registers, write_buffer@),
            frame_reads(write_buffer@) ==> final(self)@.reads == old(self)@.reads.update(
                write_buffer[1] as int,
                bumped(old(self)@.reads[write_buffer[1] as int]),
            ) && final(self)@.writes == old(self)@.writes,
            !frame_reads(write_buffer@) ==> final(self)@.writes == old(self)@.writes.update(
                write_buffer[1] as int,
                bumped(old(self)@.writes[write_buffer[1] as int]),
            ) && final(self)@.reads == old(self)@.reads,
    {
        let register = write_buffer[1] as usize;
        let mut read_buffer = [0u8; 3];
        if write_buffer[0] & 1 == 1 {
            let count = self.read_access_count[register];
            self.read_access_count[register] = if count < usize::MAX { count + 1 } else { count };
            read_buffer[2] = self.register_values[register];
        } else {
            let count = self.write_access_count[register];
            self.write_access_count[register] = if count < usize::MAX { count + 1 } else { count };
            self.register_values[register] = write_buffer[2];
        }
        assert(read_buffer@ =~= chip_reply(old(self)@.registers, write_buffer@));
        (read_buffer, 3)
    }

    /// Stores `data` in a register, counting no access.
    pub fn set_mock_data(&mut self, register: RegisterAddress, data: u8)
        ensures
            final(self)@.registers == old(self)@.registers.update(register.offset() as int, data),
            final(self)@.reads == old(self)@.reads,
            final(self)@.writes == old(self)@.writes,
    {
        self.register_values[register.offset_of() as usize] = data;
    }

    /// A register's value, and how many times it was read and written.
    pub fn get_mock_data(&self, register: RegisterAddress) -> (r: (u8, usize, usize))
        ensures
            r == (
                self@.registers[register.offset() as int],
                self@.reads[register.offset() as int],
                self@.writes[register.offset() as int],
            ),
    {
        let i = register.offset_of() as usize;
        (self.register_values[i], self.read_access_count[i], self.write_access_count[i])
    }

    /// Runs a transaction against the model, frame by frame, until it is done.
    /// The registers end as the transaction's steps leave them, and the
    /// transaction holds the last byte they read.
    pub fn execute(&mut self, transaction: &mut Transaction) -> (r: Result<()>)
        requires
            old(transaction)@.is_fresh(),
        ensures
            r is Ok,
            final(transaction)@.is_done(),
            final(transaction)@.address == old(transaction)@.address,
            final(transaction)@.steps == old(transaction)@.steps,
            final(transaction)@.mask == old(transaction)@.mask,
            final(self)@.registers == apply_steps(old(self)@.registers, old(transaction)@.steps),
            final(transaction)@.value == last_read(
                old(self)@.registers,
                old(transaction)@.steps,
                old(transaction)@.value,
            ),
            final(self)@.reads == counted_reads(old(self)@.reads, old(transaction)@.steps),
            final(self)@.writes == counted_writes(old(self)@.writes, old(transaction)@.steps),
    {
        let ghost registers0 = old(self)@.registers;
        let ghost reads0 = old(self)@.reads;
        let ghost writes0 = old(self)@.writes;
        let ghost start = old(transaction)@;
        let ghost steps = start.steps;
        proof {
            assert(steps.take(0) =~= Seq::<Step>::empty());
        }
        loop
            invariant
                start == old(transaction)@,
                steps == start.steps,
                registers0 == old(self)@.registers,
                reads0 == old(self)@.reads,
                writes0 == old(self)@.writes,
                self@.reads.len() == 22,
                self@.writes.len() == 22,
                self@.writes == counted_writes(writes0, steps.take(transaction@.next as int)),
                !transaction@.fetched ==> self@.reads == counted_reads(
                    reads0,
                    steps.take(transaction@.next as int),
                ),
                transaction@.fetched ==> self@.reads == counted_reads(
                    reads0,
                    steps.take(transaction@.next as int + 1),
                ),
                transaction@.wf(),
                transaction@.address == start.address,
                transaction@.steps == steps,
                transaction@.mask == start.mask,
                self@.registers.len() == 22,
                self@.registers == apply_steps(registers0, steps.take(transaction@.next as int)),
                !transaction@.fetched ==> transaction@.value == last_read(
                    registers0,
                    steps.take(transaction@.next as int),
                    start.value,
                ),
                transaction@.fetched ==> transaction@.value
                    == self@.registers[steps[transaction@.next as int].register().offset() as int],
            decreases transaction@.remaining(),
        {
            let frame = match transaction.next_frame() {
                None => {
                    proof {
                        assert(steps.take(steps.len() as int) =~= steps);
                        assert(steps.take(transaction@.next as int) =~= steps);
                    }
                    return Ok(());
                },
                Some(frame) => frame,
            };
            let ghost before = transaction@;
            let ghost registers_before = self@.registers;
            let ghost reads_before = self@.reads;
            let ghost writes_before = self@.writes;
            let ghost n = before.next as int;
            proof {
                lemma_control_byte_command(before.address);
                let step = steps[n];
                match step {
                    Step::Read(register) => {
                        register.lemma_at_offset();
                    },
                    Step::Write(register, _) => {
                        register.lemma_at_offset();
                    },
                    Step::Modify { register, .. } => {
                        register.lemma_at_offset();
                    },
                }
            }
            let (received, count) = self.transfer(frame);
            transaction.complete(received, count)?;
            proof {
                let step = steps[n];
                assert(steps.take(n + 1).drop_last() =~= steps.take(n));
                assert(steps.take(n + 1).last() == step);
                match step {
                    Step::Read(register) => {
                        assert(self@.registers == registers_before);
                    },
                    Step::Write(register, data) => {
                        assert(self@.registers == registers_before.update(
                            register.offset() as int,
                            data,
                        ));
                    },
                    Step::Modify { register, set, clear } => {
                        if before.fetched {
                            assert(self@.registers =~= apply_step(registers_before, step));
                        } else {
                            assert(self@.registers == registers_before);
                            assert(self@.reads == reads_before.update(
                                register.offset() as int,
                                bumped(reads_before[register.offset() as int]),
                            ));
                        }
                    },
                }
            }
        }
    }
}

} // verus!
