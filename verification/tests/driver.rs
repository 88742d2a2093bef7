use is31fl3218::driver::Is31Fl3218;
use is31fl3218::error::Error;
use is31fl3218::sim::SimBus;

fn fresh() -> Is31Fl3218<SimBus> {
    Is31Fl3218::new(SimBus::new())
}

#[test]
fn enable_channel_registers_and_masks() {
    for c in 0..18usize {
        let mut drv = fresh();
        assert!(drv.enable_channel(c).is_ok());
        let writes = &drv.bus().writes;
        assert_eq!(writes.len(), 2);
        let register = 0x13u8 + (c as u8) / 6;
        let mask = 1u8 << ((c + 5) % 6);
        assert_eq!(writes[0].0, 0x54);
        assert_eq!(writes[0].1, vec![register, mask]);
        assert_eq!(writes[1].0, 0x54);
        assert_eq!(writes[1].1, vec![0x16, 0x00]);
    }
}

#[test]
fn enable_channel_0_replaces_group_with_bit_5() {
    let mut drv = fresh();
    assert!(drv.enable_channel(0).is_ok());
    assert_eq!(drv.bus().writes[0].1, vec![0x13, 0x20]);
}

#[test]
fn enable_channel_6_starts_second_register() {
    let mut drv = fresh();
    assert!(drv.enable_channel(6).is_ok());
    assert_eq!(drv.bus().writes[0].1, vec![0x14, 0x20]);
}

#[test]
fn enable_channel_7_uses_bit_0() {
    let mut drv = fresh();
    assert!(drv.enable_channel(7).is_ok());
    assert_eq!(drv.bus().writes[0].1, vec![0x14, 0x01]);
}

#[test]
fn out_of_range_channel_is_address_error_with_no_traffic() {
    let mut drv = fresh();
    assert!(matches!(drv.enable_channel(18), Err(Error::Address)));
    assert!(matches!(drv.enable_channel(usize::MAX), Err(Error::Address)));
    assert!(matches!(drv.set(18, 128), Err(Error::Address)));
    assert!(matches!(drv.set_many(16, &[1, 2, 3]), Err(Error::Address)));
    assert!(matches!(drv.set_many(19, &[]), Err(Error::Address)));
    assert_eq!(drv.bus().writes.len(), 0);
}

#[test]
fn set_all_is_one_full_transaction() {
    let mut drv = fresh();
    assert!(drv.set_all(&[255; 18]).is_ok());
    let writes = &drv.bus().writes;
    assert_eq!(writes.len(), 1);
    assert_eq!(writes[0].0, 0x54);
    let mut expected = vec![0x01u8];
    expected.extend_from_slice(&[255; 18]);
    expected.extend_from_slice(&[0x3f, 0x3f, 0x3f, 0x00]);
    assert_eq!(writes[0].1, expected);
}

#[test]
fn set_many_writes_payload_then_update() {
    let mut drv = fresh();
    assert!(drv.set_many(0, &[10, 20, 30]).is_ok());
    let writes = &drv.bus().writes;
    assert_eq!(writes.len(), 2);
    assert_eq!(writes[0].1, vec![0x01, 10, 20, 30]);
    assert_eq!(writes[1].1, vec![0x16, 0x00]);
}

#[test]
fn set_many_at_offset() {
    let mut drv = fresh();
    assert!(drv.set_many(15, &[1, 2, 3]).is_ok());
    assert_eq!(drv.bus().writes[0].1, vec![0x10, 1, 2, 3]);
}

#[test]
fn set_many_full_span() {
    let mut drv = fresh();
    let values: Vec<u8> = (0..18).map(|v| v as u8).collect();
    assert!(drv.set_many(0, &values).is_ok());
    assert_eq!(drv.bus().writes[0].1.len(), 19);
}

#[test]
fn set_many_with_empty_run_at_the_end_is_allowed() {
    // start + len == 18 passes validation even with nothing to write,
    // as the chip's bounds check is on the run's end alone.
    let mut drv = fresh();
    assert!(drv.set_many(18, &[]).is_ok());
    let writes = &drv.bus().writes;
    assert_eq!(writes.len(), 2);
    assert_eq!(writes[0].1, vec![0x13]);
    assert_eq!(writes[1].1, vec![0x16, 0x00]);
}

#[test]
fn reset_is_one_write_to_the_reset_register() {
    let mut drv = fresh();
    assert!(drv.reset().is_ok());
    let writes = &drv.bus().writes;
    assert_eq!(writes.len(), 1);
    assert_eq!(writes[0].0, 0x54);
    assert_eq!(writes[0].1, vec![0x17, 0x00]);
}

#[test]
fn enable_device_twice_is_idempotent() {
    let mut drv = fresh();
    assert!(drv.enable_device().is_ok());
    assert!(drv.enable_device().is_ok());
    let writes = &drv.bus().writes;
    assert_eq!(writes.len(), 2);
    assert_eq!(writes[0], writes[1]);
    assert_eq!(writes[0].1, vec![0x00, 0x01]);
}

#[test]
fn reset_then_enable_recovers_from_any_state() {
    // A freshly constructed driver and one with prior traffic issue the
    // same recovery suffix.
    let mut fresh_drv = fresh();
    assert!(fresh_drv.reset().is_ok());
    assert!(fresh_drv.enable_device().is_ok());
    let expected: Vec<(u8, Vec<u8>)> = fresh_drv.bus().writes.clone();

    let mut used = fresh();
    assert!(used.set(3, 9).is_ok());
    assert!(used.enable_all().is_ok());
    let before = used.bus().writes.len();
    assert!(used.reset().is_ok());
    assert!(used.enable_device().is_ok());
    assert_eq!(&used.bus().writes[before..], &expected[..]);
}

#[test]
fn failed_payload_write_suppresses_the_update_write() {
    let mut drv = Is31Fl3218::new(SimBus::with_script(vec![true]));
    assert!(matches!(drv.enable_channel(3), Err(Error::I2c(_))));
    assert_eq!(drv.bus().writes.len(), 0);

    let mut drv = Is31Fl3218::new(SimBus::with_script(vec![true]));
    assert!(matches!(drv.set(3, 77), Err(Error::I2c(_))));
    assert_eq!(drv.bus().writes.len(), 0);

    let mut drv = Is31Fl3218::new(SimBus::with_script(vec![true]));
    assert!(matches!(drv.set_many(0, &[1, 2]), Err(Error::I2c(_))));
    assert_eq!(drv.bus().writes.len(), 0);

    let mut drv = Is31Fl3218::new(SimBus::with_script(vec![true]));
    assert!(matches!(drv.enable_all(), Err(Error::I2c(_))));
    assert_eq!(drv.bus().writes.len(), 0);
}

#[test]
fn failed_update_write_leaves_only_the_payload_write() {
    let mut drv = Is31Fl3218::new(SimBus::with_script(vec![false, true]));
    assert!(matches!(drv.enable_channel(3), Err(Error::I2c(_))));
    let writes = &drv.bus().writes;
    assert_eq!(writes.len(), 1);
    assert_eq!(writes[0].1, vec![0x13, 1u8 << 2]);
}

#[test]
fn retrying_a_failed_operation_converges() {
    // Re-issuing both writes after a mid-operation failure puts the
    // intended transactions on the wire.
    let mut drv = Is31Fl3218::new(SimBus::with_script(vec![false, true]));
    assert!(matches!(drv.set(2, 50), Err(Error::I2c(_))));
    assert!(drv.set(2, 50).is_ok());
    let writes = &drv.bus().writes;
    assert_eq!(writes.len(), 3);
    assert_eq!(writes[1].1, vec![0x03, 50]);
    assert_eq!(writes[2].1, vec![0x16, 0x00]);
}

#[test]
fn enable_all_sets_three_registers_then_updates() {
    let mut drv = fresh();
    assert!(drv.enable_all().is_ok());
    let writes = &drv.bus().writes;
    assert_eq!(writes.len(), 2);
    assert_eq!(writes[0].1, vec![0x13, 0x3f, 0x3f, 0x3f]);
    assert_eq!(writes[1].1, vec![0x16, 0x00]);
}

#[test]
fn shutdown_device_writes_zero_to_the_shutdown_register() {
    let mut drv = fresh();
    assert!(drv.shutdown_device().is_ok());
    let writes = &drv.bus().writes;
    assert_eq!(writes.len(), 1);
    assert_eq!(writes[0].1, vec![0x00, 0x00]);
}

#[test]
fn set_brightness_edges() {
    let mut drv = fresh();
    assert!(drv.set(0, 0).is_ok());
    assert!(drv.set(17, 255).is_ok());
    let writes = &drv.bus().writes;
    assert_eq!(writes.len(), 4);
    assert_eq!(writes[0].1, vec![0x01, 0x00]);
    assert_eq!(writes[2].1, vec![0x12, 255]);
}

#[test]
fn new_driver_issues_no_traffic() {
    let drv = fresh();
    assert_eq!(drv.bus().writes.len(), 0);
}

#[test]
fn error_from_wraps_the_transport_fault() {
    let e: Error<u8> = Error::from(7u8);
    assert!(matches!(e, Error::I2c(7)));
}
