use gpio_binder::gpio::{status_result, DriverRecord, GpioResource};

const DOCUMENT: &str = r#"{"gpio_mapping": {"gpio1": "/dev/gpio1", "gpio2": "/dev/gpio2"}}"#;

#[test]
fn new_resolves_listed_pin() {
    let pin = GpioResource::new("gpio1", DOCUMENT);
    assert_eq!(pin.device_path(), "/dev/gpio1");
}

#[test]
fn new_unlisted_pin_has_empty_path() {
    let pin = GpioResource::new("gpio3", DOCUMENT);
    assert_eq!(pin.device_path(), "");
}

#[test]
fn new_with_unreadable_document_has_empty_path() {
    let pin = GpioResource::new("gpio1", "");
    assert_eq!(pin.device_path(), "");
}

fn left(fd: u32, write_value: u32, read_value: u32) -> DriverRecord {
    DriverRecord { fd, write_value, read_value }
}

#[test]
fn fresh_resource_reads_zero() {
    let mut pin = GpioResource::new("gpio1", DOCUMENT);
    assert_eq!(pin.get(), 0);
    assert_eq!(
        pin.driver_record(),
        DriverRecord { fd: 0, write_value: 0, read_value: 0 }
    );
}

#[test]
fn last_set_wins() {
    let mut pin = GpioResource::with_path("/dev/gpio2".to_string());
    pin.set(0);
    pin.set(1);
    assert_eq!(pin.driver_record().write_value, 1);
    let handed = pin.driver_record();
    assert_eq!(pin.write(0, handed), Ok(()));
    assert_eq!(pin.driver_record().write_value, 1);
}

#[test]
fn set_accepts_any_value() {
    let mut pin = GpioResource::with_path("/dev/gpio2".to_string());
    pin.set(u32::MAX);
    assert_eq!(pin.driver_record().write_value, u32::MAX);
}

#[test]
fn open_success_is_ok() {
    let mut pin = GpioResource::new("gpio1", DOCUMENT);
    assert_eq!(pin.open(0, left(3, 0, 0)), Ok(()));
    assert_eq!(pin.driver_record().fd, 3);
}

#[test]
fn open_failure_carries_code() {
    let mut pin = GpioResource::new("gpio1", DOCUMENT);
    assert_eq!(pin.open(1, left(0, 0, 0)), Err(1));
    assert_eq!(pin.open(u32::MAX, left(0, 0, 0)), Err(u32::MAX));
}

#[test]
fn open_status_five_keeps_native_descriptor() {
    let mut pin = GpioResource::new("gpio1", DOCUMENT);
    pin.set(1);
    assert_eq!(pin.open(5, left(42, 8, 9)), Err(5));
    assert_eq!(pin.driver_record(), left(42, 8, 9));
    assert_eq!(pin.device_path(), "/dev/gpio1");
}

#[test]
fn write_after_set_is_ok() {
    let mut pin = GpioResource::new("gpio2", DOCUMENT);
    assert_eq!(pin.open(0, left(4, 0, 0)), Ok(()));
    pin.set(1);
    assert_eq!(pin.write(0, left(4, 1, 0)), Ok(()));
    assert_eq!(pin.driver_record(), left(4, 1, 0));
}

#[test]
fn write_failure_carries_code() {
    let mut pin = GpioResource::new("gpio2", DOCUMENT);
    pin.set(1);
    assert_eq!(pin.write(9, left(0, 1, 0)), Err(9));
    assert_eq!(pin.driver_record().write_value, 1);
}

#[test]
fn read_then_get_returns_value() {
    let mut pin = GpioResource::new("gpio1", DOCUMENT);
    assert_eq!(pin.open(0, left(4, 0, 0)), Ok(()));
    assert_eq!(pin.read(0, left(4, 0, 1)), Ok(()));
    assert_eq!(pin.get(), 1);
    assert_eq!(pin.get(), 1);
}

#[test]
fn read_keeps_what_driver_left() {
    let mut pin = GpioResource::new("gpio1", DOCUMENT);
    pin.set(7);
    assert_eq!(pin.read(2, left(0, 7, 0)), Err(2));
    assert_eq!(pin.driver_record().write_value, 7);
    assert_eq!(pin.read(0, left(0, 3, 1)), Ok(()));
    assert_eq!(pin.driver_record(), left(0, 3, 1));
}

#[test]
fn write_keeps_what_driver_left() {
    let mut pin = GpioResource::new("gpio2", DOCUMENT);
    pin.set(1);
    assert_eq!(pin.write(0, left(5, 0, 6)), Ok(()));
    assert_eq!(pin.driver_record(), left(5, 0, 6));
}

#[test]
fn close_keeps_native_descriptor() {
    let mut pin = GpioResource::new("gpio1", DOCUMENT);
    assert_eq!(pin.open(0, left(6, 0, 0)), Ok(()));
    pin.close(left(0, 0, 2));
    assert_eq!(pin.driver_record(), left(0, 0, 2));
    assert_eq!(pin.device_path(), "/dev/gpio1");
}

#[test]
fn status_result_maps_codes() {
    assert_eq!(status_result(0), Ok(()));
    assert_eq!(status_result(5), Err(5));
}
