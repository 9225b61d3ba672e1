use tca9555::{DeviceAddr, SimBus, Tca9555};

#[test]
fn failed_write_returns_transport_error_unchanged() {
    let mut sim = SimBus::new(0x20);
    sim.fail_after(0, 0x5e);
    let mut dev = Tca9555::new(sim, DeviceAddr::Default);
    assert_eq!(dev.write_port_0(0xab), Err(0x5e));
    let sim = dev.release();
    assert_eq!(sim.frames().len(), 0);
    assert_eq!(sim.chip().out0, 0xff);
}

#[test]
fn failed_read_returns_transport_error_unchanged() {
    let mut sim = SimBus::new(0x20);
    sim.fail_after(0, 0x03);
    let mut dev = Tca9555::new(sim, DeviceAddr::Default);
    assert_eq!(dev.read_port_0(), Err(0x03));
    let sim = dev.release();
    assert_eq!(sim.frames().len(), 0);
}

#[test]
fn write_all_stops_after_port_0_failure_leaves_port_0_written() {
    let mut sim = SimBus::new(0x20);
    sim.fail_after(1, 0x77);
    let mut dev = Tca9555::new(sim, DeviceAddr::Default);
    assert_eq!(dev.write_all(0x1234), Err(0x77));
    let sim = dev.release();
    let frames = sim.frames();
    assert_eq!(frames.len(), 1);
    assert_eq!(frames[0].data, vec![0x02, 0x34]);
    assert_eq!(sim.chip().out0, 0x34);
    assert_eq!(sim.chip().out1, 0xff);
}

#[test]
fn read_all_stops_after_first_failed_read() {
    let mut sim = SimBus::new(0x20);
    sim.fail_after(1, 0x09);
    let mut dev = Tca9555::new(sim, DeviceAddr::Default);
    assert_eq!(dev.read_all(), Err(0x09));
    let sim = dev.release();
    let frames = sim.frames();
    assert_eq!(frames.len(), 1);
    assert_eq!(frames[0].data, vec![0x00]);
}

#[test]
fn wrong_address_is_not_acknowledged() {
    let mut sim = SimBus::new(0x20);
    sim.fail_after(u64::MAX, 0x44);
    let mut dev = Tca9555::new(sim, DeviceAddr::Alternative(true, false, false));
    assert_eq!(dev.write_port_0(0x01), Err(0x44));
    let sim = dev.release();
    assert_eq!(sim.frames().len(), 0);
}
