use tca9555::DeviceAddr;

#[test]
fn address_set() {
    assert_eq!(DeviceAddr::DEFAULT, 0x20);
    assert_eq!(DeviceAddr::Alternative(false, false, false).addr(), 0x20);
    assert_eq!(DeviceAddr::Alternative(true, false, false).addr(), 0x21);
    assert_eq!(DeviceAddr::Alternative(false, true, true).addr(), 0x26);
}

#[test]
fn address_all_strap_combinations() {
    for a2 in [false, true] {
        for a1 in [false, true] {
            for a0 in [false, true] {
                let expected =
                    0x20 | (a0 as u8) | ((a1 as u8) << 1) | ((a2 as u8) << 2);
                assert_eq!(DeviceAddr::Alternative(a0, a1, a2).addr(), expected);
            }
        }
    }
}

#[test]
fn default_selection_equals_all_pins_grounded() {
    assert_eq!(DeviceAddr::default(), DeviceAddr::Default);
    assert_eq!(
        DeviceAddr::default().addr(),
        DeviceAddr::Alternative(false, false, false).addr()
    );
    assert_eq!(DeviceAddr::Default.addr(), 0x20);
}
