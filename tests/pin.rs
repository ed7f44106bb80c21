use zinc::pin::{
    decode, Controller, Function, GpioConf, GpioDirection, GpioLevel, Peripheral, Pin, Pio, PioBank,
};
use zinc::pmc::Pmc;

#[test]
fn decode_every_index() {
    let all = [
        Controller::ControllerA,
        Controller::ControllerB,
        Controller::ControllerC,
        Controller::ControllerD,
        Controller::ControllerE,
        Controller::ControllerF,
    ];
    for v in 0usize..192 {
        let (c, p) = decode(v);
        assert_eq!(c, all[v / 32]);
        assert_eq!(p as usize, v % 32);
    }
}

#[test]
fn gpio_output_pin_setup() {
    let mut pmc = Pmc::new();
    let mut pio = Pio::new(Controller::ControllerB);
    let pin = Pin::new(Controller::ControllerB, 27, Function::Gpio(GpioDirection::Out), &mut pmc, &mut pio);
    assert_eq!(pin, Pin { controller: Controller::ControllerB, pin: 27 });
    assert_eq!(pmc.pcer0.read(), 1 << 12);
    assert_eq!(pio.per.read(), 1 << 27);
    assert_eq!(pio.oer.read(), 1 << 27);
    assert_eq!(pio.odr.read(), 0);
    pio.reflect();
    assert_eq!(pio.psr.read(), 1 << 27);
    assert_eq!(pio.osr.read(), 1 << 27);
}

#[test]
fn gpio_input_pin_setup() {
    let mut pmc = Pmc::new();
    let mut pio = Pio::new(Controller::ControllerA);
    Pin::new(Controller::ControllerA, 0, Function::Gpio(GpioDirection::In), &mut pmc, &mut pio);
    assert_eq!(pmc.pcer0.read(), 1 << 11);
    assert_eq!(pio.per.read(), 1);
    assert_eq!(pio.odr.read(), 1);
    assert_eq!(pio.oer.read(), 0);
}

#[test]
fn peripheral_pin_setup() {
    let mut pmc = Pmc::new();
    let mut pio = Pio::new(Controller::ControllerA);
    pio.absr.write(0x1);
    Pin::new(Controller::ControllerA, 8, Function::Peripheral(Peripheral::PeripheralB), &mut pmc, &mut pio);
    assert_eq!(pio.pdr.read(), 1 << 8);
    assert_eq!(pio.absr.read(), 0x101);
    assert_eq!(pio.per.read(), 0);
    Pin::new(Controller::ControllerA, 0, Function::Peripheral(Peripheral::PeripheralA), &mut pmc, &mut pio);
    assert_eq!(pio.absr.read(), 0x100);
}

#[test]
fn set_high_then_low_is_observed() {
    let mut pmc = Pmc::new();
    let mut pio = Pio::new(Controller::ControllerB);
    let led = Pin::from_conf(GpioConf { index: 27 + 32, direction: GpioDirection::Out }, &mut pmc, &mut pio);
    assert_eq!(led, Pin { controller: Controller::ControllerB, pin: 27 });
    pio.reflect();
    assert_eq!(led.level(&pio), GpioLevel::Low);
    led.set_high(&mut pio);
    assert_eq!(pio.sodr.read(), 1 << 27);
    pio.reflect();
    assert_eq!(led.level(&pio), GpioLevel::High);
    led.set_low(&mut pio);
    assert_eq!(pio.codr.read(), 1 << 27);
    pio.reflect();
    assert_eq!(led.level(&pio), GpioLevel::Low);
}

#[test]
fn set_direction_after_construction() {
    let pin = Pin { controller: Controller::ControllerC, pin: 5 };
    let mut pio = Pio::new(Controller::ControllerC);
    pin.set_direction(&mut pio, GpioDirection::Out);
    assert_eq!(pio.oer.read(), 1 << 5);
    pin.set_direction(&mut pio, GpioDirection::In);
    assert_eq!(pio.odr.read(), 1 << 5);
}

#[test]
fn controller_blocks_and_clocks() {
    let bank = PioBank::new();
    assert_eq!(Controller::ControllerE.to_reg(&bank).controller, Controller::ControllerE);
    assert_eq!(Controller::ControllerA.clock().index, 11);
    assert_eq!(Controller::ControllerB.clock().index, 12);
}
