use tca9555::{DeviceAddr, SimBus, Tca9555};

#[test]
fn write_port_0_sends_command_and_value() {
    let sim = SimBus::new(0x20);
    let mut dev = Tca9555::new(sim, DeviceAddr::Default);
    dev.write_port_0(0xab).unwrap();
    let sim = dev.release();
    let frames = sim.frames();
    assert_eq!(frames.len(), 1);
    assert_eq!(frames[0].addr, 0x20);
    assert_eq!(frames[0].data, vec![0x02, 0xab]);
    assert!(frames[0].response.is_none());
    assert_eq!(sim.chip().out0, 0xab);
}

#[test]
fn write_port_1_sends_command_and_value() {
    let sim = SimBus::new(0x20);
    let mut dev = Tca9555::new(sim, DeviceAddr::Default);
    dev.write_port_1(0xcd).unwrap();
    let sim = dev.release();
    assert_eq!(sim.frames()[0].data, vec![0x03, 0xcd]);
    assert_eq!(sim.chip().out1, 0xcd);
}

#[test]
fn set_port_0_direction_sends_configuration_command() {
    let sim = SimBus::new(0x20);
    let mut dev = Tca9555::new(sim, DeviceAddr::Default);
    dev.set_port_0_direction(0x0f).unwrap();
    let sim = dev.release();
    assert_eq!(sim.frames()[0].data, vec![0x06, 0x0f]);
    assert_eq!(sim.chip().cfg0, 0x0f);
}

#[test]
fn set_port_1_direction_sends_configuration_command() {
    let sim = SimBus::new(0x20);
    let mut dev = Tca9555::new(sim, DeviceAddr::Default);
    dev.set_port_1_direction(0xf0).unwrap();
    let sim = dev.release();
    assert_eq!(sim.frames()[0].data, vec![0x07, 0xf0]);
    assert_eq!(sim.chip().cfg1, 0xf0);
}

#[test]
fn set_port_0_polarity_invert_sends_command() {
    let sim = SimBus::new(0x20);
    let mut dev = Tca9555::new(sim, DeviceAddr::Default);
    dev.set_port_0_polarity_invert(0x81).unwrap();
    let sim = dev.release();
    assert_eq!(sim.frames()[0].data, vec![0x04, 0x81]);
    assert_eq!(sim.chip().pol0, 0x81);
}

#[test]
fn set_port_1_polarity_invert_sends_command() {
    let sim = SimBus::new(0x20);
    let mut dev = Tca9555::new(sim, DeviceAddr::Default);
    dev.set_port_1_polarity_invert(0x18).unwrap();
    let sim = dev.release();
    assert_eq!(sim.frames()[0].data, vec![0x05, 0x18]);
    assert_eq!(sim.chip().pol1, 0x18);
}

#[test]
fn read_port_0_returns_input_level() {
    let mut sim = SimBus::new(0x20);
    sim.set_inputs(0x5a, 0xa5);
    let mut dev = Tca9555::new(sim, DeviceAddr::Default);
    assert_eq!(dev.read_port_0().unwrap(), 0x5a);
    let sim = dev.release();
    let frames = sim.frames();
    assert_eq!(frames.len(), 1);
    assert_eq!(frames[0].data, vec![0x00]);
    assert_eq!(frames[0].response, Some(0x5a));
}

#[test]
fn read_port_1_returns_input_level() {
    let mut sim = SimBus::new(0x20);
    sim.set_inputs(0x5a, 0xa5);
    let mut dev = Tca9555::new(sim, DeviceAddr::Default);
    assert_eq!(dev.read_port_1().unwrap(), 0xa5);
    let sim = dev.release();
    assert_eq!(sim.frames()[0].data, vec![0x01]);
    assert_eq!(sim.frames()[0].response, Some(0xa5));
}

#[test]
fn read_port_0_returns_driven_output_level() {
    let sim = SimBus::new(0x20);
    let mut dev = Tca9555::new(sim, DeviceAddr::Default);
    dev.set_port_0_direction(0x00).unwrap();
    dev.write_port_0(0x55).unwrap();
    assert_eq!(dev.read_port_0().unwrap(), 0x55);
}

#[test]
fn read_all_reads_port_0_then_port_1_and_composes() {
    let mut sim = SimBus::new(0x20);
    sim.set_inputs(0x34, 0x12);
    let mut dev = Tca9555::new(sim, DeviceAddr::Default);
    assert_eq!(dev.read_all().unwrap(), 0x1234);
    let sim = dev.release();
    let frames = sim.frames();
    assert_eq!(frames.len(), 2);
    assert_eq!(frames[0].data, vec![0x00]);
    assert_eq!(frames[1].data, vec![0x01]);
}

#[test]
fn write_all_writes_low_byte_to_port_0_then_high_byte_to_port_1() {
    let sim = SimBus::new(0x20);
    let mut dev = Tca9555::new(sim, DeviceAddr::Default);
    dev.write_all(0xbeef).unwrap();
    let sim = dev.release();
    let frames = sim.frames();
    assert_eq!(frames.len(), 2);
    assert_eq!(frames[0].data, vec![0x02, 0xef]);
    assert_eq!(frames[1].data, vec![0x03, 0xbe]);
    assert_eq!(sim.chip().out0, 0xef);
    assert_eq!(sim.chip().out1, 0xbe);
}

#[test]
fn write_all_then_read_all_round_trips_when_all_output() {
    for value in [0x0000u16, 0xffff, 0x1234, 0xa55a, 0x8001] {
        let sim = SimBus::new(0x21);
        let mut dev = Tca9555::new(sim, DeviceAddr::Alternative(true, false, false));
        dev.set_port_0_direction(0x00).unwrap();
        dev.set_port_1_direction(0x00).unwrap();
        dev.set_port_0_polarity_invert(0x00).unwrap();
        dev.set_port_1_polarity_invert(0x00).unwrap();
        dev.write_all(value).unwrap();
        assert_eq!(dev.read_all().unwrap(), value);
    }
}

#[test]
fn polarity_inversion_flips_sensed_bits() {
    let mut sim = SimBus::new(0x20);
    sim.set_inputs(0x0f, 0x00);
    let mut dev = Tca9555::new(sim, DeviceAddr::Default);
    dev.set_port_0_polarity_invert(0xff).unwrap();
    assert_eq!(dev.read_port_0().unwrap(), 0xf0);
}

#[test]
fn every_frame_carries_the_resolved_address() {
    let sim = SimBus::new(0x26);
    let mut dev = Tca9555::new(sim, DeviceAddr::Alternative(false, true, true));
    dev.write_port_0(0x01).unwrap();
    dev.read_port_1().unwrap();
    dev.set_port_1_direction(0xff).unwrap();
    let sim = dev.release();
    for frame in sim.frames() {
        assert_eq!(frame.addr, 0x26);
    }
    assert_eq!(sim.frames().len(), 3);
}

#[test]
fn driver_round_trip_returns_the_written_word() {
    for value in [0x0000u16, 0xffff, 0x1234, 0x8001] {
        assert_eq!(tca9555::sim::driver_round_trip(value), Some(value));
    }
}
