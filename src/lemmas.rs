//! What holds of the driver's operations, stated over the register-file model
//! and the device state, and proved.

use vstd::prelude::*;

use crate::device::DeviceState;
use crate::level::{InputPinMode, InterruptMode, Level};
use crate::pin::{drive_step, input_steps, interrupt_steps, output_steps};
use crate::registers::{Port, RegisterAddress};
use crate::transaction::{
    apply_step, apply_steps, bit_mask, clear_bits_steps, last_read, modified, read_steps,
    set_bits_steps, Step,
};

verus! {

/// Setting bits sets exactly them; clearing bits clears exactly them.
proof fn lemma_modified_bits(x: u8, b: u8)
    ensures
        modified(x, b, 0) == x | b,
        modified(x, 0, b) == x & !b,
        modified(x, b, 0) & b == b,
        modified(x, b, 0) & !b == x & !b,
        modified(x, 0, b) & b == 0,
        modified(x, 0, b) & !b == x & !b,
{
    assert(((x & !0u8) | b) == x | b) by (bit_vector);
    assert(((x & !b) | 0u8) == x & !b) by (bit_vector);
    assert(((x & !0u8) | b) & b == b) by (bit_vector);
    assert(((x & !0u8) | b) & !b == x & !b) by (bit_vector);
    assert(((x & !b) | 0u8) & b == 0) by (bit_vector);
    assert(((x & !b) | 0u8) & !b == x & !b) by (bit_vector);
}

/// The mask of a bit 0-7 is not zero.
proof fn lemma_bit_mask_nonzero(bit: u8)
    requires
        bit <= 7,
    ensures
        bit_mask(bit) != 0,
{
    assert(bit <= 7 ==> (1u8 << bit) as u8 != 0) by (bit_vector);
}

proof fn lemma_apply_one(registers: Seq<u8>, a: Step)
    ensures
        apply_steps(registers, seq![a]) == apply_step(registers, a),
{
    assert(seq![a].drop_last() =~= Seq::<Step>::empty());
    assert(apply_steps(registers, Seq::<Step>::empty()) == registers);
    assert(seq![a].last() == a);
}

proof fn lemma_apply_two(registers: Seq<u8>, a: Step, b: Step)
    ensures
        apply_steps(registers, seq![a, b]) == apply_step(apply_step(registers, a), b),
{
    assert(seq![a, b].drop_last() =~= seq![a]);
    lemma_apply_one(registers, a);
}

proof fn lemma_apply_three(registers: Seq<u8>, a: Step, b: Step, c: Step)
    ensures
        apply_steps(registers, seq![a, b, c]) == apply_step(
            apply_step(apply_step(registers, a), b),
            c,
        ),
{
    assert(seq![a, b, c].drop_last() =~= seq![a, b]);
    lemma_apply_two(registers, a, b);
}

/// Reading a register gives its value.
pub proof fn lemma_read(registers: Seq<u8>, register: RegisterAddress, initial: u8)
    ensures
        apply_steps(registers, read_steps(register)) == registers,
        last_read(registers, read_steps(register), initial) == registers[register.offset() as int],
{
    lemma_apply_one(registers, Step::Read(register));
    assert(read_steps(register).drop_last() =~= Seq::<Step>::empty());
}

/// Setting the bits of a mask in a register, then reading the register, gives
/// the old value OR the mask; clearing them gives the old value AND NOT the
/// mask. No other register changes.
pub proof fn lemma_set_clear_bits_then_read(
    registers: Seq<u8>,
    register: RegisterAddress,
    mask: u8,
    initial: u8,
)
    requires
        registers.len() == 22,
    ensures
        apply_steps(registers, set_bits_steps(register, mask)) == registers.update(
            register.offset() as int,
            registers[register.offset() as int] | mask,
        ),
        last_read(
            apply_steps(registers, set_bits_steps(register, mask)),
            read_steps(register),
            initial,
        ) == registers[register.offset() as int] | mask,
        apply_steps(registers, clear_bits_steps(register, mask)) == registers.update(
            register.offset() as int,
            registers[register.offset() as int] & !mask,
        ),
        last_read(
            apply_steps(registers, clear_bits_steps(register, mask)),
            read_steps(register),
            initial,
        ) == registers[register.offset() as int] & !mask,
{
    let i = register.offset() as int;
    register.lemma_at_offset();
    lemma_modified_bits(registers[i], mask);
    lemma_apply_one(registers, Step::Modify { register, set: mask, clear: 0 });
    lemma_apply_one(registers, Step::Modify { register, set: 0, clear: mask });
    lemma_read(apply_steps(registers, set_bits_steps(register, mask)), register, initial);
    lemma_read(apply_steps(registers, clear_bits_steps(register, mask)), register, initial);
}

/// For a bit 0-7: setting the bit, then getting it, gives `High`; clearing
/// it, then getting it, gives `Low`. The other bits of the register keep their
/// values.
pub proof fn lemma_set_clear_bit_then_get(
    registers: Seq<u8>,
    register: RegisterAddress,
    bit: u8,
    initial: u8,
)
    requires
        registers.len() == 22,
        bit <= 7,
    ensures
        Level::of_bits(
            last_read(
                apply_steps(registers, set_bits_steps(register, bit_mask(bit))),
                read_steps(register),
                initial,
            ) & bit_mask(bit),
        ) == Level::High,
        Level::of_bits(
            last_read(
                apply_steps(registers, clear_bits_steps(register, bit_mask(bit))),
                read_steps(register),
                initial,
            ) & bit_mask(bit),
        ) == Level::Low,
        apply_steps(registers, set_bits_steps(register, bit_mask(bit)))[register.offset() as int]
            & !bit_mask(bit) == registers[register.offset() as int] & !bit_mask(bit),
        apply_steps(registers, clear_bits_steps(register, bit_mask(bit)))[register.offset() as int]
            & !bit_mask(bit) == registers[register.offset() as int] & !bit_mask(bit),
{
    let i = register.offset() as int;
    let b = bit_mask(bit);
    register.lemma_at_offset();
    lemma_bit_mask_nonzero(bit);
    lemma_set_clear_bits_then_read(registers, register, b, initial);
    lemma_modified_bits(registers[i], b);
}

/// A line taken cannot be taken again until it is released; once released it
/// can be taken again.
pub proof fn lemma_take_twice(state: DeviceState, port: Port, pin: u8)
    requires
        state.can_take(port, pin),
    ensures
        ({
            let taken = DeviceState { taken: state.taken.insert((port, pin)), ..state };
            let released = DeviceState { taken: taken.taken.remove((port, pin)), ..state };
            !taken.can_take(port, pin) && released.can_take(port, pin)
        }),
{
}

/// A bit beyond 7 can never be taken, whatever lines are taken.
pub proof fn lemma_take_out_of_range(state: DeviceState, port: Port, pin: u8)
    requires
        pin > 7,
    ensures
        !state.can_take(port, pin),
{
}

/// Making a line an input sets its direction bit (input); its pull-up bit ends
/// set for `PullUp` and clear for `HighImpedance`. The other bits of both
/// registers, and every other register, keep their values.
pub proof fn lemma_input_configuration(
    registers: Seq<u8>,
    port: Port,
    pin: u8,
    mode: InputPinMode,
)
    requires
        registers.len() == 22,
        pin <= 7,
    ensures
        ({
            let after = apply_steps(registers, input_steps(port, pin, mode));
            let b = bit_mask(pin);
            let direction = port.spec_direction_register().offset() as int;
            let pull_up = port.spec_pull_up_register().offset() as int;
            &&& after[direction] & b != 0
            &&& (after[pull_up] & b != 0) == (mode == InputPinMode::PullUp)
            &&& after[direction] & !b == registers[direction] & !b
            &&& after[pull_up] & !b == registers[pull_up] & !b
            &&& forall|i: int|
                0 <= i < 22 && i != direction && i != pull_up ==> after[i] == registers[i]
        }),
{
    let b = bit_mask(pin);
    let direction = port.spec_direction_register();
    let pull_up = port.spec_pull_up_register();
    let d = direction.offset() as int;
    let p = pull_up.offset() as int;
    direction.lemma_at_offset();
    pull_up.lemma_at_offset();
    lemma_bit_mask_nonzero(pin);
    let steps = input_steps(port, pin, mode);
    lemma_apply_two(registers, steps[0], steps[1]);
    assert(steps =~= seq![steps[0], steps[1]]);
    let mid = apply_step(registers, steps[0]);
    lemma_modified_bits(registers[d], b);
    lemma_modified_bits(mid[p], b);
}

/// Setting an interrupt mode writes the interrupt enable register last, after
/// every write of the interrupt control and default value registers, and
/// leaves the line's bits as the table of [`interrupt_steps`] gives them:
/// enable set for every mode but `Disabled`; control set for `ActiveHigh` and
/// `ActiveLow`, clear for `BothEdges`; default value clear for `ActiveHigh`,
/// set for `ActiveLow`. `Disabled` leaves control and default value as they
/// were, and `BothEdges` the default value. No other bit changes.
pub proof fn lemma_interrupt_configuration(
    registers: Seq<u8>,
    port: Port,
    pin: u8,
    mode: InterruptMode,
)
    requires
        registers.len() == 22,
        pin <= 7,
    ensures
        ({
            let steps = interrupt_steps(port, pin, mode);
            let gpinten = port.spec_interrupt_enable_register();
            let intcon = port.spec_interrupt_control_register().offset() as int;
            let defval = port.spec_default_value_register().offset() as int;
            let enable = gpinten.offset() as int;
            let after = apply_steps(registers, steps);
            let b = bit_mask(pin);
            &&& steps.len() >= 1
            &&& steps.last().register() == gpinten
            &&& forall|i: int| 0 <= i < steps.len() - 1 ==> steps[i].register() != gpinten
            &&& (after[enable] & b != 0) == (mode != InterruptMode::Disabled)
            &&& (mode == InterruptMode::ActiveHigh || mode == InterruptMode::ActiveLow)
                ==> after[intcon] & b != 0
            &&& mode == InterruptMode::BothEdges ==> after[intcon] & b == 0
            &&& mode == InterruptMode::ActiveHigh ==> after[defval] & b == 0
            &&& mode == InterruptMode::ActiveLow ==> after[defval] & b != 0
            &&& mode == InterruptMode::Disabled ==> after[intcon] == registers[intcon]
            &&& (mode == InterruptMode::Disabled || mode == InterruptMode::BothEdges)
                ==> after[defval] == registers[defval]
            &&& after[enable] & !b == registers[enable] & !b
            &&& after[intcon] & !b == registers[intcon] & !b
            &&& after[defval] & !b == registers[defval] & !b
            &&& forall|i: int|
                0 <= i < 22 && i != enable && i != intcon && i != defval ==> after[i]
                    == registers[i]
        }),
{
    let steps = interrupt_steps(port, pin, mode);
    let b = bit_mask(pin);
    let gpinten = port.spec_interrupt_enable_register();
    let intcon = port.spec_interrupt_control_register();
    let defval = port.spec_default_value_register();
    let e = gpinten.offset() as int;
    let c = intcon.offset() as int;
    let d = defval.offset() as int;
    gpinten.lemma_at_offset();
    intcon.lemma_at_offset();
    defval.lemma_at_offset();
    lemma_bit_mask_nonzero(pin);
    lemma_modified_bits(registers[e], b);
    lemma_modified_bits(registers[c], b);
    lemma_modified_bits(registers[d], b);
    match mode {
        InterruptMode::Disabled => {
            lemma_apply_one(registers, steps[0]);
            assert(steps =~= seq![steps[0]]);
        },
        InterruptMode::ActiveHigh => {
            lemma_apply_three(registers, steps[0], steps[1], steps[2]);
            assert(steps =~= seq![steps[0], steps[1], steps[2]]);
        },
        InterruptMode::ActiveLow => {
            lemma_apply_three(registers, steps[0], steps[1], steps[2]);
            assert(steps =~= seq![steps[0], steps[1], steps[2]]);
        },
        InterruptMode::BothEdges => {
            lemma_apply_two(registers, steps[0], steps[1]);
            assert(steps =~= seq![steps[0], steps[1]]);
        },
    }
}

/// Making a line an output clears its direction bit (output) and its pull-up
/// bit; driving it then leaves its GPIO bit at the level asked for. The other
/// bits of those registers keep their values.
pub proof fn lemma_output_configuration(registers: Seq<u8>, port: Port, pin: u8, level: Level)
    requires
        registers.len() == 22,
        pin <= 7,
    ensures
        ({
            let configured = apply_steps(registers, output_steps(port, pin));
            let driven = apply_steps(
                registers,
                output_steps(port, pin).push(drive_step(port, pin, level)),
            );
            let b = bit_mask(pin);
            let direction = port.spec_direction_register().offset() as int;
            let pull_up = port.spec_pull_up_register().offset() as int;
            let gpio = port.spec_gpio_register().offset() as int;
            &&& configured[direction] & b == 0
            &&& configured[pull_up] & b == 0
            &&& configured[direction] & !b == registers[direction] & !b
            &&& configured[pull_up] & !b == registers[pull_up] & !b
            &&& configured[gpio] == registers[gpio]
            &&& driven[direction] == configured[direction]
            &&& driven[pull_up] == configured[pull_up]
            &&& Level::of_bits(driven[gpio] & b) == level
            &&& driven[gpio] & !b == registers[gpio] & !b
        }),
{
    let b = bit_mask(pin);
    let direction = port.spec_direction_register();
    let pull_up = port.spec_pull_up_register();
    let gpio = port.spec_gpio_register();
    direction.lemma_at_offset();
    pull_up.lemma_at_offset();
    gpio.lemma_at_offset();
    lemma_bit_mask_nonzero(pin);
    let steps = output_steps(port, pin);
    let drive = drive_step(port, pin, level);
    lemma_apply_two(registers, steps[0], steps[1]);
    assert(steps =~= seq![steps[0], steps[1]]);
    lemma_apply_three(registers, steps[0], steps[1], drive);
    assert(steps.push(drive) =~= seq![steps[0], steps[1], drive]);
    let mid = apply_step(registers, steps[0]);
    lemma_modified_bits(registers[direction.offset() as int], b);
    lemma_modified_bits(mid[pull_up.offset() as int], b);
    lemma_modified_bits(registers[gpio.offset() as int], b);
}

} // verus!
