use rppal_mcp23s17::{
    HardwareAddress, InterruptMode, Level, Mcp23s17, Mcp23s17Error, MockSpi, Port, RegisterAddress,
};

fn device() -> (Mcp23s17, MockSpi) {
    (Mcp23s17::new(HardwareAddress::new(0).unwrap()), MockSpi::new())
}

#[test]
fn input_pin_disable_interrupts_gpioa() {
    let (mut mcp23s17, mut spi) = device();
    // Put data into the registers that lets us observe the operation of the pin.
    spi.set_mock_data(RegisterAddress::IODIRA, 0b0000_0000);
    spi.set_mock_data(RegisterAddress::GPPUA, 0b1111_1111);
    spi.set_mock_data(RegisterAddress::GPINTENA, 0b1111_1111);

    let (mut pin, mut configure) = mcp23s17
        .get(Port::GpioA, 7)
        .expect("Failed to get pin")
        .into_input_pin();
    spi.execute(&mut configure)
        .expect("Failed to convert to OutputPin");
    let mut mode = pin.set_interrupt_mode(InterruptMode::Disabled);
    spi.execute(&mut mode).expect("Bad mode set");

    assert_eq!(
        spi.get_mock_data(RegisterAddress::IODIRA),
        (0b1000_0000, 1, 1),
        "Bad IODIRA"
    );
    assert_eq!(
        spi.get_mock_data(RegisterAddress::GPPUA),
        (0b0111_1111, 1, 1),
        "Bad GPPUA"
    );
    assert_eq!(
        spi.get_mock_data(RegisterAddress::GPINTENA),
        (0b0111_1111, 1, 1),
        "Bad GPINTENA"
    );
}

#[test]
fn input_pin_enable_interrupts_rising_gpioa() {
    let (mut mcp23s17, mut spi) = device();
    // Put data into the registers that lets us observe the operation of the pin.
    spi.set_mock_data(RegisterAddress::IODIRA, 0b0000_0000);
    spi.set_mock_data(RegisterAddress::GPPUA, 0b1111_1111);
    spi.set_mock_data(RegisterAddress::GPINTENA, 0b0000_0000);
    spi.set_mock_data(RegisterAddress::INTCONA, 0b0000_0000);
    spi.set_mock_data(RegisterAddress::DEFVALA, 0b1111_1111);

    let (mut pin, mut configure) = mcp23s17
        .get(Port::GpioA, 7)
        .expect("Failed to get pin")
        .into_input_pin();
    spi.execute(&mut configure)
        .expect("Failed to convert to OutputPin");
    let mut mode = pin.set_interrupt_mode(InterruptMode::ActiveHigh);
    spi.execute(&mut mode).expect("Bad mode set");

    assert_eq!(
        spi.get_mock_data(RegisterAddress::IODIRA),
        (0b1000_0000, 1, 1),
        "Bad IODIRA"
    );
    assert_eq!(
        spi.get_mock_data(RegisterAddress::GPPUA),
        (0b0111_1111, 1, 1),
        "Bad GPPUA"
    );
    assert_eq!(
        spi.get_mock_data(RegisterAddress::GPINTENA),
        (0b1000_0000, 1, 1),
        "Bad GPINTENA"
    );
    assert_eq!(
        spi.get_mock_data(RegisterAddress::INTCONA),
        (0b1000_0000, 1, 1),
        "Bad INTCONA"
    );
    assert_eq!(
        spi.get_mock_data(RegisterAddress::DEFVALA),
        (0b0111_1111, 1, 1),
        "Bad DEFVALA"
    );
}

#[test]
fn input_pin_enable_interrupts_falling_gpioa() {
    let (mut mcp23s17, mut spi) = device();
    // Put data into the registers that lets us observe the operation of the pin.
    spi.set_mock_data(RegisterAddress::IODIRA, 0b0000_0000);
    spi.set_mock_data(RegisterAddress::GPPUA, 0b1111_1111);
    spi.set_mock_data(RegisterAddress::GPINTENA, 0b0000_0000);
    spi.set_mock_data(RegisterAddress::INTCONA, 0b0000_0000);
    spi.set_mock_data(RegisterAddress::DEFVALA, 0b0000_0000);

    let (mut pin, mut configure) = mcp23s17
        .get(Port::GpioA, 7)
        .expect("Failed to get pin")
        .into_input_pin();
    spi.execute(&mut configure)
        .expect("Failed to convert to OutputPin");
    let mut mode = pin.set_interrupt_mode(InterruptMode::ActiveLow);
    spi.execute(&mut mode).expect("Bad mode set");

    assert_eq!(
        spi.get_mock_data(RegisterAddress::IODIRA),
        (0b1000_0000, 1, 1),
        "Bad IODIRA"
    );
    assert_eq!(
        spi.get_mock_data(RegisterAddress::GPPUA),
        (0b0111_1111, 1, 1),
        "Bad GPPUA"
    );
    assert_eq!(
        spi.get_mock_data(RegisterAddress::GPINTENA),
        (0b1000_0000, 1, 1),
        "Bad GPINTENA"
    );
    assert_eq!(
        spi.get_mock_data(RegisterAddress::INTCONA),
        (0b1000_0000, 1, 1),
        "Bad INTCONA"
    );
    assert_eq!(
        spi.get_mock_data(RegisterAddress::DEFVALA),
        (0b1000_0000, 1, 1),
        "Bad DEFVALA"
    );
}

#[test]
fn input_pin_enable_interrupts_both_gpioa() {
    let (mut mcp23s17, mut spi) = device();
    // Put data into the registers that lets us observe the operation of the pin.
    spi.set_mock_data(RegisterAddress::IODIRA, 0b0000_0000);
    spi.set_mock_data(RegisterAddress::GPPUA, 0b1111_1111);
    spi.set_mock_data(RegisterAddress::GPINTENA, 0b0000_0000);
    spi.set_mock_data(RegisterAddress::INTCONA, 0b1111_1111);

    let (mut pin, mut configure) = mcp23s17
        .get(Port::GpioA, 7)
        .expect("Failed to get pin")
        .into_input_pin();
    spi.execute(&mut configure)
        .expect("Failed to convert to OutputPin");
    let mut mode = pin.set_interrupt_mode(InterruptMode::BothEdges);
    spi.execute(&mut mode).expect("Bad mode set");

    assert_eq!(
        spi.get_mock_data(RegisterAddress::IODIRA),
        (0b1000_0000, 1, 1),
        "Bad IODIRA"
    );
    assert_eq!(
        spi.get_mock_data(RegisterAddress::GPPUA),
        (0b0111_1111, 1, 1),
        "Bad GPPUA"
    );
    assert_eq!(
        spi.get_mock_data(RegisterAddress::GPINTENA),
        (0b1000_0000, 1, 1),
        "Bad GPINTENA"
    );
    assert_eq!(
        spi.get_mock_data(RegisterAddress::INTCONA),
        (0b0111_1111, 1, 1),
        "Bad INTCONA"
    );
}

#[test]
fn input_pin_enable_interrupts_rising_gpiob() {
    let (mut mcp23s17, mut spi) = device();
    // Put data into the registers that lets us observe the operation of the pin.
    spi.set_mock_data(RegisterAddress::IODIRB, 0b0000_0000);
    spi.set_mock_data(RegisterAddress::GPPUB, 0b1111_1111);
    spi.set_mock_data(RegisterAddress::GPINTENB, 0b0000_0000);
    spi.set_mock_data(RegisterAddress::INTCONB, 0b0000_0000);
    spi.set_mock_data(RegisterAddress::DEFVALB, 0b1111_1111);

    let (mut pin, mut configure) = mcp23s17
        .get(Port::GpioB, 7)
        .expect("Failed to get pin")
        .into_input_pin();
    spi.execute(&mut configure)
        .expect("Failed to convert to OutputPin");
    let mut mode = pin.set_interrupt_mode(InterruptMode::ActiveHigh);
    spi.execute(&mut mode).expect("Bad mode set");

    assert_eq!(
        spi.get_mock_data(RegisterAddress::IODIRB),
        (0b1000_0000, 1, 1),
        "Bad IODIRB"
    );
    assert_eq!(
        spi.get_mock_data(RegisterAddress::GPPUB),
        (0b0111_1111, 1, 1),
        "Bad GPPUB"
    );
    assert_eq!(
        spi.get_mock_data(RegisterAddress::GPINTENB),
        (0b1000_0000, 1, 1),
        "Bad GPINTENB"
    );
    assert_eq!(
        spi.get_mock_data(RegisterAddress::INTCONB),
        (0b1000_0000, 1, 1),
        "Bad INTCONB"
    );
    assert_eq!(
        spi.get_mock_data(RegisterAddress::DEFVALB),
        (0b0111_1111, 1, 1),
        "Bad DEFVALB"
    );
}

#[test]
fn write_output_pin_low_gpioa() {
    let (mut mcp23s17, mut spi) = device();
    // Put data into the registers that lets us observe the operation of the pin.
    spi.set_mock_data(RegisterAddress::IODIRA, 0b1111_1111);
    spi.set_mock_data(RegisterAddress::GPPUA, 0b1111_1111);
    spi.set_mock_data(RegisterAddress::GPIOA, 0b0001_0000);

    let (pin, mut configure) = mcp23s17
        .get(Port::GpioA, 4)
        .expect("Failed to get pin")
        .into_output_pin();
    spi.execute(&mut configure)
        .expect("Failed to convert to OutputPin");
    let mut write = pin.write(Level::Low);
    spi.execute(&mut write).expect("Bad pin write");

    assert_eq!(
        spi.get_mock_data(RegisterAddress::IODIRA),
        (0b1110_1111, 1, 1),
        "Bad IODIRA"
    );
    assert_eq!(
        spi.get_mock_data(RegisterAddress::GPPUA),
        (0b1110_1111, 1, 1),
        "Bad GPPUA"
    );
    assert_eq!(
        spi.get_mock_data(RegisterAddress::GPIOA),
        (0b0000_0000, 1, 1),
        "Bad GPIOA"
    );
}

#[test]
fn write_output_pin_high_gpioa() {
    let (mut mcp23s17, mut spi) = device();
    // Put data into the registers that lets us observe the operation of the pin.
    spi.set_mock_data(RegisterAddress::IODIRA, 0b1111_1111);
    spi.set_mock_data(RegisterAddress::GPPUA, 0b1111_1111);
    spi.set_mock_data(RegisterAddress::GPIOA, 0b0000_0000);

    let (pin, mut configure) = mcp23s17
        .get(Port::GpioA, 4)
        .expect("Failed to get pin")
        .into_output_pin();
    spi.execute(&mut configure)
        .expect("Failed to convert to OutputPin");
    let mut write = pin.write(Level::High);
    spi.execute(&mut write).expect("Bad pin write");

    assert_eq!(
        spi.get_mock_data(RegisterAddress::IODIRA),
        (0b1110_1111, 1, 1),
        "Bad IODIRA"
    );
    assert_eq!(
        spi.get_mock_data(RegisterAddress::GPPUA),
        (0b1110_1111, 1, 1),
        "Bad GPPUA"
    );
    assert_eq!(
        spi.get_mock_data(RegisterAddress::GPIOA),
        (0b0001_0000, 1, 1),
        "Bad GPIOA"
    );
}

#[test]
fn output_pin_low_gpioa() {
    let (mut mcp23s17, mut spi) = device();
    // Put data into the registers that lets us observe the operation of the pin.
    spi.set_mock_data(RegisterAddress::IODIRA, 0b1111_1111);
    spi.set_mock_data(RegisterAddress::GPPUA, 0b1111_1111);
    spi.set_mock_data(RegisterAddress::GPIOA, 0b0001_0000);

    let (_pin, mut configure) = mcp23s17
        .get(Port::GpioA, 4)
        .expect("Failed to get pin")
        .into_output_pin_low();
    spi.execute(&mut configure)
        .expect("Failed to convert to OutputPinLow");

    assert_eq!(
        spi.get_mock_data(RegisterAddress::IODIRA),
        (0b1110_1111, 1, 1),
        "Bad IODIRA"
    );
    assert_eq!(
        spi.get_mock_data(RegisterAddress::GPPUA),
        (0b1110_1111, 1, 1),
        "Bad GPPUA"
    );
    assert_eq!(
        spi.get_mock_data(RegisterAddress::GPIOA),
        (0b0000_0000, 1, 1),
        "Bad GPIOA"
    );
}

#[test]
fn output_pin_high_gpioa() {
    let (mut mcp23s17, mut spi) = device();
    // Put data into the registers that lets us observe the operation of the pin.
    spi.set_mock_data(RegisterAddress::IODIRA, 0b1111_1111);
    spi.set_mock_data(RegisterAddress::GPPUA, 0b1111_1111);
    spi.set_mock_data(RegisterAddress::GPIOA, 0b0000_0000);

    let (_pin, mut configure) = mcp23s17
        .get(Port::GpioA, 4)
        .expect("Failed to get pin")
        .into_output_pin_high();
    spi.execute(&mut configure)
        .expect("Failed to convert to OutputPinHigh");

    assert_eq!(
        spi.get_mock_data(RegisterAddress::IODIRA),
        (0b1110_1111, 1, 1),
        "Bad IODIRA"
    );
    assert_eq!(
        spi.get_mock_data(RegisterAddress::GPPUA),
        (0b1110_1111, 1, 1),
        "Bad GPPUA"
    );
    assert_eq!(
        spi.get_mock_data(RegisterAddress::GPIOA),
        (0b0001_0000, 1, 1),
        "Bad GPIOA"
    );
}

#[test]
fn write_output_pin_high_gpiob() {
    let (mut mcp23s17, mut spi) = device();
    // Put data into the registers that lets us observe the operation of the pin.
    spi.set_mock_data(RegisterAddress::IODIRB, 0b1111_1111);
    spi.set_mock_data(RegisterAddress::GPPUB, 0b1111_1111);
    spi.set_mock_data(RegisterAddress::GPIOB, 0b0000_0000);

    let (pin, mut configure) = mcp23s17
        .get(Port::GpioB, 4)
        .expect("Failed to get pin")
        .into_output_pin();
    spi.execute(&mut configure)
        .expect("Failed to convert to OutputPin");
    let mut write = pin.write(Level::High);
    spi.execute(&mut write).expect("Bad pin write");

    assert_eq!(
        spi.get_mock_data(RegisterAddress::IODIRB),
        (0b1110_1111, 1, 1),
        "Bad IODIRA"
    );
    assert_eq!(
        spi.get_mock_data(RegisterAddress::GPPUB),
        (0b1110_1111, 1, 1),
        "Bad GPPUA"
    );
    assert_eq!(
        spi.get_mock_data(RegisterAddress::GPIOB),
        (0b0001_0000, 1, 1),
        "Bad GPIOB"
    );
}

#[test]
fn read_output_pin_low_gpioa() {
    let (mut mcp23s17, mut spi) = device();
    // Put data into the registers that lets us observe the operation of the pin.
    spi.set_mock_data(RegisterAddress::IODIRA, 0b1111_1111);
    spi.set_mock_data(RegisterAddress::GPPUA, 0b1111_1111);
    spi.set_mock_data(RegisterAddress::GPIOA, 0b0000_0000);

    let (pin, mut configure) = mcp23s17
        .get(Port::GpioA, 4)
        .expect("Failed to get pin")
        .into_output_pin();
    spi.execute(&mut configure)
        .expect("Failed to convert to OutputPin");
    let mut read = pin.read();
    spi.execute(&mut read).expect("Bad pin read");
    let pin_level = read.level();
    assert_eq!(pin_level, Level::Low);
    assert_eq!(
        spi.get_mock_data(RegisterAddress::IODIRA),
        (0b1110_1111, 1, 1),
        "Bad IODIRA"
    );
    assert_eq!(
        spi.get_mock_data(RegisterAddress::GPPUA),
        (0b1110_1111, 1, 1),
        "Bad GPPUA"
    );
}

#[test]
fn read_output_pin_high_gpioa() {
    let (mut mcp23s17, mut spi) = device();
    // Put data into the registers that lets us observe the operation of the pin.
    spi.set_mock_data(RegisterAddress::IODIRA, 0b1111_1111);
    spi.set_mock_data(RegisterAddress::GPPUA, 0b1111_1111);
    spi.set_mock_data(RegisterAddress::GPIOA, 0b0001_0000);

    let (pin, mut configure) = mcp23s17
        .get(Port::GpioA, 4)
        .expect("Failed to get pin")
        .into_output_pin();
    spi.execute(&mut configure)
        .expect("Failed to convert to OutputPin");
    let mut read = pin.read();
    spi.execute(&mut read).expect("Bad pin read");
    let pin_level = read.level();
    assert_eq!(pin_level, Level::High);

}

#[test]
fn read_input_pin_low_gpioa() {
    let (mut mcp23s17, mut spi) = device();
    // Put data into the registers that lets us observe the operation of the pin.
    spi.set_mock_data(RegisterAddress::IODIRA, 0b0000_0000);
    spi.set_mock_data(RegisterAddress::GPPUA, 0b1111_1111);
    spi.set_mock_data(RegisterAddress::GPIOA, 0b0000_0000);

    let (pin, mut configure) = mcp23s17
        .get(Port::GpioA, 0)
        .expect("Failed to get pin")
        .into_input_pin();
    spi.execute(&mut configure)
        .expect("Failed to convert to InputPin");
    let mut read = pin.read();
    spi.execute(&mut read).expect("Bad pin read");
    let pin_level = read.level();
    assert_eq!(pin_level, Level::Low);
    assert_eq!(
        spi.get_mock_data(RegisterAddress::IODIRA),
        (0b0000_0001, 1, 1),
        "Bad IODIRA"
    );
    assert_eq!(
        spi.get_mock_data(RegisterAddress::GPPUA),
        (0b1111_1110, 1, 1),
        "Bad GPPUA"
    );
}

#[test]
fn read_input_pin_high_gpioa() {
    let (mut mcp23s17, mut spi) = device();
    // Put data into the registers that lets us observe the operation of the pin.
    spi.set_mock_data(RegisterAddress::IODIRA, 0b0000_0000);
    spi.set_mock_data(RegisterAddress::GPPUA, 0b1111_1111);
    spi.set_mock_data(RegisterAddress::GPIOA, 0b0000_0001);

    let (pin, mut configure) = mcp23s17
        .get(Port::GpioA, 0)
        .expect("Failed to get pin")
        .into_input_pin();
    spi.execute(&mut configure)
        .expect("Failed to convert to InputPin");
    let mut read = pin.read();
    spi.execute(&mut read).expect("Bad pin read");
    let pin_level = read.level();
    assert_eq!(pin_level, Level::High);

}

#[test]
fn read_pullup_input_pin_low_gpioa() {
    let (mut mcp23s17, mut spi) = device();
    // Put data into the registers that lets us observe the operation of the pin.
    spi.set_mock_data(RegisterAddress::IODIRA, 0b0000_0000);
    spi.set_mock_data(RegisterAddress::GPPUA, 0b0000_0000);
    spi.set_mock_data(RegisterAddress::GPIOA, 0b0000_0000);

    let (pin, mut configure) = mcp23s17
        .get(Port::GpioA, 0)
        .expect("Failed to get pin")
        .into_pullup_input_pin();
    spi.execute(&mut configure)
        .expect("Failed to convert to InputPin");
    let mut read = pin.read();
    spi.execute(&mut read).expect("Bad pin read");
    let pin_level = read.level();
    assert_eq!(pin_level, Level::Low);
    assert_eq!(
        spi.get_mock_data(RegisterAddress::IODIRA),
        (0b0000_0001, 1, 1),
        "Bad IODIRA"
    );
    assert_eq!(
        spi.get_mock_data(RegisterAddress::GPPUA),
        (0b0000_0001, 1, 1),
        "Bad GPPUA"
    );
}

#[test]
fn read_pullup_input_pin_high_gpioa() {
    let (mut mcp23s17, mut spi) = device();
    // Put data into the registers that lets us observe the operation of the pin.
    spi.set_mock_data(RegisterAddress::IODIRA, 0b0000_0000);
    spi.set_mock_data(RegisterAddress::GPPUA, 0b0000_0000);
    spi.set_mock_data(RegisterAddress::GPIOA, 0b0000_0001);

    let (pin, mut configure) = mcp23s17
        .get(Port::GpioA, 0)
        .expect("Failed to get pin")
        .into_pullup_input_pin();
    spi.execute(&mut configure)
        .expect("Failed to convert to InputPin");
    let mut read = pin.read();
    spi.execute(&mut read).expect("Bad pin read");
    let pin_level = read.level();
    assert_eq!(pin_level, Level::High);

}

#[test]
fn read_pin_low_gpioa() {
    let (mut mcp23s17, mut spi) = device();
    spi.set_mock_data(RegisterAddress::GPIOA, 0b0000_0000);
    let pin = mcp23s17.get(Port::GpioA, 0).expect("Failed to get pin");
    let mut read = pin.read();
    spi.execute(&mut read).expect("Bad pin read");
    let pin_level = read.level();
    assert_eq!(pin_level, Level::Low)
}

#[test]
fn read_pin_high_gpioa() {
    let (mut mcp23s17, mut spi) = device();
    spi.set_mock_data(RegisterAddress::GPIOA, 0b0000_0001);
    let pin = mcp23s17.get(Port::GpioA, 0).expect("Failed to get pin");
    let mut read = pin.read();
    spi.execute(&mut read).expect("Bad pin read");
    let pin_level = read.level();
    assert_eq!(pin_level, Level::High)
}

#[test]
fn read_pin_high_gpiob() {
    let (mut mcp23s17, mut spi) = device();
    spi.set_mock_data(RegisterAddress::GPIOB, 0b0000_1000);
    let pin = mcp23s17.get(Port::GpioB, 3).expect("Failed to get pin");
    let mut read = pin.read();
    spi.execute(&mut read).expect("Bad pin read");
    let pin_level = read.level();
    assert_eq!(pin_level, Level::High)
}

#[test]
fn create_unique_pin() {
    let (mut mcp23s17, _spi) = device();
    let _pin = mcp23s17.get(Port::GpioA, 0).expect("Failed to get pin");
}

#[test]
fn create_out_of_range_pin() {
    let (mut mcp23s17, _spi) = device();
    let pin = mcp23s17.get(Port::GpioA, 9);

    match pin {
        Err(Mcp23s17Error::PinNotAvailable(9)) => (),
        _ => panic!("Unexpected return result: {pin:?}"),
    }
}

#[test]
fn create_duplicate_pin() {
    let (mut mcp23s17, _spi) = device();
    let _pin1 = mcp23s17
        .get(Port::GpioA, 0)
        .expect("Failed to get first (unique) pin");

    let duplicate_pin = mcp23s17.get(Port::GpioA, 0);
    match duplicate_pin {
        Err(Mcp23s17Error::PinNotAvailable(0)) => (),
        _ => {
            panic!("Unexpected return result - duplicate should be unavailable: {duplicate_pin:?}")
        }
    }
}

#[test]
fn create_duplicate_pins_separate_ports() {
    let (mut mcp23s17, _spi) = device();
    let _pin1 = mcp23s17
        .get(Port::GpioA, 0)
        .expect("Failed to get first (unique) pin");
    let _pin2 = mcp23s17
        .get(Port::GpioB, 0)
        .expect("Failed to get second (unique) pin");
}
