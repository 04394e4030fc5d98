use plugin_serial::catalog::{massage_devices_list, PortInfo, PortType};
use plugin_serial::command::{find_available_ports, SerialPort};
use plugin_serial::init;
use plugin_serial::state::{SerialState, Settings};
use plugin_serial::watcher::{same_inventory, watch_devices};

fn usb(name: &str, product: Option<&str>) -> PortInfo {
    PortInfo {
        port_name: name.to_string(),
        port_type: PortType::UsbPort { product: product.map(|text| text.to_string()) },
    }
}

fn other(name: &str) -> PortInfo {
    PortInfo { port_name: name.to_string(), port_type: PortType::Other }
}

fn port(name: &str, info: &str) -> SerialPort {
    SerialPort { port_name: name.to_string(), port_info: info.to_string() }
}

fn settings() -> Settings {
    Settings { baud_rate: 9600, open_timeout_ms: 100, settle_delay_ms: 250, poll_interval_ms: 50 }
}

#[test]
fn usb_port_is_described_by_its_product() {
    let (_, inventory) = init::<()>(settings(), Ok(vec![usb("/dev/ttyUSB0", Some("WIDGET"))]));
    let ports = find_available_ports(&inventory);
    assert_eq!(ports.len(), 1);
    assert_eq!(ports[0].port_name, "/dev/ttyUSB0");
    assert_eq!(ports[0].port_info, "WIDGET");
}

#[test]
fn port_that_is_not_usb_has_no_description() {
    let (_, inventory) = init::<()>(settings(), Ok(vec![other("/dev/ttyS0")]));
    let ports = find_available_ports(&inventory);
    assert_eq!(ports, vec![port("/dev/ttyS0", "")]);
}

#[test]
fn usb_port_without_product_has_no_description() {
    assert_eq!(massage_devices_list(vec![usb("COM7", None)]), vec![port("COM7", "")]);
}

#[test]
fn ports_are_described_in_the_order_found() {
    let found = vec![usb("COM3", Some("Printer")), other("COM1"), usb("COM2", Some(""))];
    assert_eq!(
        massage_devices_list(found),
        vec![port("COM3", "Printer"), port("COM1", ""), port("COM2", "")]
    );
    assert_eq!(massage_devices_list(Vec::new()), Vec::new());
}

#[test]
fn published_ports_are_copied_out() {
    let inventory = vec![port("COM3", "Printer"), port("COM1", "")];
    assert_eq!(find_available_ports(&inventory), inventory);
    assert_eq!(find_available_ports(&Vec::new()), Vec::new());
}

#[test]
fn watcher_tells_of_the_second_device_only() {
    let a = || usb("/dev/ttyUSB0", Some("A"));
    let b = || usb("/dev/ttyUSB1", Some("B"));
    let (_, mut inventory) = init::<()>(settings(), Ok(vec![a()]));
    assert_eq!(inventory, vec![port("/dev/ttyUSB0", "A")]);

    assert_eq!(watch_devices(&mut inventory, Ok(vec![a()])), None);
    assert_eq!(inventory, vec![port("/dev/ttyUSB0", "A")]);

    let update = watch_devices(&mut inventory, Ok(vec![a(), b()]));
    assert_eq!(update, Some(vec![port("/dev/ttyUSB0", "A"), port("/dev/ttyUSB1", "B")]));
    assert_eq!(inventory, vec![port("/dev/ttyUSB0", "A"), port("/dev/ttyUSB1", "B")]);

    assert_eq!(watch_devices(&mut inventory, Ok(vec![a(), b()])), None);
}

#[test]
fn three_enumerations_with_one_change_make_one_update() {
    let a = || usb("/dev/ttyUSB0", Some("A"));
    let b = || usb("/dev/ttyUSB1", Some("B"));
    let (_, mut inventory) = init::<()>(settings(), Ok(vec![a()]));
    let mut updates = Vec::new();
    for found in [vec![a()], vec![a(), b()]] {
        if let Some(update) = watch_devices(&mut inventory, Ok(found)) {
            updates.push(update);
        }
    }
    assert_eq!(updates, vec![vec![port("/dev/ttyUSB0", "A"), port("/dev/ttyUSB1", "B")]]);
}

#[test]
fn watcher_that_starts_without_inventory_tells_of_the_first_device() {
    let (_, mut inventory) = init::<()>(settings(), Err("no bus".to_string()));
    let update = watch_devices(&mut inventory, Ok(vec![usb("/dev/ttyUSB0", Some("A"))]));
    assert_eq!(update, Some(vec![port("/dev/ttyUSB0", "A")]));
    assert_eq!(watch_devices(&mut inventory, Ok(vec![usb("/dev/ttyUSB0", Some("A"))])), None);
}

#[test]
fn watcher_sees_a_swap_of_equal_count() {
    let mut inventory = vec![port("COM3", "Printer")];
    let update = watch_devices(&mut inventory, Ok(vec![usb("COM4", Some("Printer"))]));
    assert_eq!(update, Some(vec![port("COM4", "Printer")]));
    assert_eq!(inventory, vec![port("COM4", "Printer")]);
}

#[test]
fn watcher_sees_a_change_of_description() {
    let mut inventory = vec![port("COM3", "Printer")];
    let update = watch_devices(&mut inventory, Ok(vec![usb("COM3", Some("Plotter"))]));
    assert_eq!(update, Some(vec![port("COM3", "Plotter")]));
    let update = watch_devices(&mut inventory, Ok(vec![other("COM3")]));
    assert_eq!(update, Some(vec![port("COM3", "")]));
    assert_eq!(watch_devices(&mut inventory, Ok(vec![usb("COM3", None)])), None);
}

#[test]
fn watcher_sees_a_change_of_order() {
    let mut inventory = vec![port("COM1", ""), port("COM2", "")];
    let update = watch_devices(&mut inventory, Ok(vec![other("COM2"), other("COM1")]));
    assert_eq!(update, Some(vec![port("COM2", ""), port("COM1", "")]));
}

#[test]
fn watcher_sees_the_last_device_leave() {
    let mut inventory = vec![port("COM1", "")];
    let update = watch_devices(&mut inventory, Ok(Vec::new()));
    assert_eq!(update, Some(Vec::new()));
    assert_eq!(inventory, Vec::new());
    assert_eq!(watch_devices(&mut inventory, Ok(Vec::new())), None);
}

#[test]
fn failed_enumeration_is_skipped() {
    let mut inventory = vec![port("COM1", ""), port("COM3", "Printer")];
    assert_eq!(watch_devices(&mut inventory, Err("permission denied".to_string())), None);
    assert_eq!(inventory, vec![port("COM1", ""), port("COM3", "Printer")]);
    let update = watch_devices(&mut inventory, Ok(vec![other("COM1")]));
    assert_eq!(update, Some(vec![port("COM1", "")]));
}

#[test]
fn inventories_are_told_apart_by_name_description_and_length() {
    let base = vec![port("COM1", "a"), port("COM2", "b")];
    assert!(same_inventory(&base, &vec![port("COM1", "a"), port("COM2", "b")]));
    assert!(!same_inventory(&base, &vec![port("COM1", "a"), port("COM2", "c")]));
    assert!(!same_inventory(&base, &vec![port("COM1", "a"), port("COM3", "b")]));
    assert!(!same_inventory(&base, &vec![port("COM1", "a")]));
    assert!(!same_inventory(&base, &vec![port("COM2", "b"), port("COM1", "a")]));
    assert!(same_inventory(&Vec::new(), &Vec::new()));
}

#[test]
fn session_starts_with_the_settings_configured() {
    let (state, inventory) = init::<()>(settings(), Ok(vec![other("COM1")]));
    assert_eq!(state, SerialState::new(settings()));
    assert_eq!(state.baud_rate, 9600);
    assert_eq!(state.port, "");
    assert_eq!(state.connection, None);
    assert_eq!(inventory, vec![port("COM1", "")]);
}

#[test]
fn session_keeps_the_settings_configured_when_no_port_can_be_listed() {
    let (state, inventory) = init::<()>(settings(), Err("udev is not running".to_string()));
    assert_eq!(state, SerialState::new(settings()));
    assert_eq!(state.baud_rate, 9600);
    assert_eq!(state.open_timeout_ms, 100);
    assert_eq!(state.settle_delay_ms, 250);
    assert_eq!(state.port, "");
    assert_eq!(state.connection, None);
    assert_eq!(inventory, Vec::new());
}

#[test]
fn failed_enumeration_changes_no_baud_rate() {
    for baud_rate in [0u32, 300, 9600, 57600, 115200, u32::MAX] {
        let configured = Settings { baud_rate, ..settings() };
        let (listed, _) = init::<()>(configured, Ok(Vec::new()));
        let (unlisted, _) = init::<()>(configured, Err("permission denied".to_string()));
        assert_eq!(listed.baud_rate, baud_rate);
        assert_eq!(unlisted.baud_rate, baud_rate);
        assert_eq!(listed, unlisted);
    }
}

#[test]
fn session_of_a_host_that_configures_nothing_starts_at_the_standard_rate() {
    let (state, inventory) =
        init::<()>(Settings::with_baud_rate(None), Err("udev is not running".to_string()));
    assert_eq!(state.baud_rate, 57600);
    assert_eq!(state.open_timeout_ms, 500);
    assert_eq!(state.settle_delay_ms, 500);
    assert_eq!(state.connection, None);
    assert_eq!(inventory, Vec::new());
}

#[test]
fn usb_device_is_found_by_its_address_in_decimal() {
    let addresses = vec![1u8, 12, 255];
    assert!(SerialState::<()>::usb_is_mounted(&addresses, "1"));
    assert!(SerialState::<()>::usb_is_mounted(&addresses, "12"));
    assert!(SerialState::<()>::usb_is_mounted(&addresses, "255"));
    assert!(!SerialState::<()>::usb_is_mounted(&addresses, "2"));
    assert!(!SerialState::<()>::usb_is_mounted(&addresses, "012"));
    assert!(!SerialState::<()>::usb_is_mounted(&addresses, "256"));
    assert!(!SerialState::<()>::usb_is_mounted(&addresses, ""));
    assert!(!SerialState::<()>::usb_is_mounted(&addresses, "/dev/ttyUSB0"));
    assert!(!SerialState::<()>::usb_is_mounted(&Vec::new(), "1"));
    assert!(SerialState::<()>::usb_is_mounted(&vec![0u8], "0"));
}
