use bluetooth::data::{BluetoothData, BluetoothDevice, BluetoothState};
use bluetooth::dbus::BluetoothDbus;
use bluetooth::error::PropertyError;
use bluetooth::objects::{InterfaceProperties, Interfaces, ManagedObjects};
use bluetooth::rfkill::{IoFailure, RfkillError, RfkillWatch};
use bluetooth::service::{BluetoothService, LoadError};
use bluetooth::signals::PropertiesChanged;
use bluetooth::values::PropertyValue;

const FREE: &str = "0: hci0: Bluetooth\n\tSoft blocked: no\n\tHard blocked: no\n";
const BLOCKED: &str = "0: hci0: Bluetooth\n\tSoft blocked: yes\n\tHard blocked: no\n";

fn properties(entries: Vec<(&str, PropertyValue)>) -> InterfaceProperties {
    let mut properties = InterfaceProperties::new();
    for (name, value) in entries {
        properties.insert(name.to_string(), value);
    }
    properties
}

fn interfaces(entries: Vec<(&str, InterfaceProperties)>) -> Interfaces {
    let mut interfaces = Interfaces::new();
    for (name, properties) in entries {
        interfaces.insert(name.to_string(), properties);
    }
    interfaces
}

fn bus(entries: Vec<(&str, Interfaces)>) -> BluetoothDbus {
    let mut objects = ManagedObjects::new();
    for (path, interfaces) in entries {
        objects.insert(path.to_string(), interfaces);
    }
    BluetoothDbus::new(objects)
}

fn adapter(powered: bool, discovering: bool) -> Interfaces {
    interfaces(vec![(
        "org.bluez.Adapter1",
        properties(vec![
            ("Powered", PropertyValue::Bool(powered)),
            ("Discovering", PropertyValue::Bool(discovering)),
        ]),
    )])
}

fn device_properties(alias: &str, connected: bool, paired: bool) -> InterfaceProperties {
    properties(vec![
        ("Alias", PropertyValue::Text(alias.to_string())),
        ("Connected", PropertyValue::Bool(connected)),
        ("Paired", PropertyValue::Bool(paired)),
    ])
}

fn device(alias: &str, connected: bool, paired: bool) -> Interfaces {
    interfaces(vec![("org.bluez.Device1", device_properties(alias, connected, paired))])
}

fn charged(alias: &str, connected: bool, charge: PropertyValue) -> Interfaces {
    interfaces(vec![
        ("org.bluez.Device1", device_properties(alias, connected, true)),
        ("org.bluez.Battery1", properties(vec![("Percentage", charge)])),
    ])
}

fn load(bluetooth: BluetoothDbus, output: &str) -> Result<BluetoothData, LoadError> {
    BluetoothService::initialize_data(bluetooth)?.finish(Ok(output.as_bytes().to_vec()))
}

fn names(devices: &[BluetoothDevice]) -> Vec<&str> {
    devices.iter().map(|device| device.name.as_str()).collect()
}

#[test]
fn the_first_adapter_is_used() {
    let bluetooth = bus(vec![
        ("/org/bluez", interfaces(vec![("org.bluez.AgentManager1", properties(vec![]))])),
        ("/org/bluez/hci1", adapter(false, true)),
        ("/org/bluez/hci0", adapter(true, false)),
    ]);
    assert_eq!(bluetooth.adapter_path(), Some("/org/bluez/hci1"));
    assert!(bluetooth.adapter_properties().is_some());
    assert_eq!(bluetooth.powered(), Some(false));
    assert!(bluetooth.discovering());
    assert!(matches!(bluetooth.state(), Ok(BluetoothState::Inactive)));
}

#[test]
fn the_state_follows_the_power() {
    assert!(matches!(bus(vec![]).state(), Ok(BluetoothState::Unavailable)));
    assert!(matches!(
        bus(vec![("/d", device("mouse", true, true))]).state(),
        Ok(BluetoothState::Unavailable)
    ));
    assert!(matches!(bus(vec![("/a", adapter(true, false))]).state(), Ok(BluetoothState::Active)));
    assert!(matches!(
        bus(vec![("/a", adapter(false, false))]).state(),
        Ok(BluetoothState::Inactive)
    ));
}

#[test]
fn a_power_that_is_no_boolean_is_a_fault() {
    let missing = bus(vec![("/a", interfaces(vec![("org.bluez.Adapter1", properties(vec![]))]))]);
    assert_eq!(missing.powered(), None);
    assert!(matches!(missing.state(), Err(PropertyError::AdapterPowered)));
    assert!(!missing.discovering());

    let wrong = bus(vec![(
        "/a",
        interfaces(vec![(
            "org.bluez.Adapter1",
            properties(vec![("Powered", PropertyValue::Byte(1))]),
        )]),
    )]);
    assert!(matches!(wrong.state(), Err(PropertyError::AdapterPowered)));
}

#[test]
fn devices_are_listed_in_order() {
    let bluetooth = bus(vec![
        ("/a/dev_2", device("mouse", false, true)),
        ("/a", adapter(true, false)),
        ("/a/dev_1", charged("headphones", true, PropertyValue::Byte(70))),
    ]);
    let devices = bluetooth.devices().unwrap();
    assert_eq!(names(&devices), vec!["mouse", "headphones"]);
    assert_eq!(devices[0].path, "/a/dev_2");
    assert_eq!(devices[0].battery, None);
    assert!(!devices[0].connected);
    assert!(devices[0].paired);
    assert_eq!(devices[1].path, "/a/dev_1");
    assert_eq!(devices[1].battery, Some(70));
    assert!(devices[1].connected);
}

#[test]
fn any_order_lists_the_same_devices() {
    let one = bus(vec![
        ("/a/dev_1", device("mouse", true, true)),
        ("/a", adapter(true, true)),
        ("/a/dev_2", device("keyboard", false, false)),
    ]);
    let other = bus(vec![
        ("/a/dev_2", device("keyboard", false, false)),
        ("/a/dev_1", device("mouse", true, true)),
        ("/a", adapter(true, true)),
    ]);
    let (one, other) = (load(one, FREE).unwrap(), load(other, FREE).unwrap());
    assert_eq!(one.state, other.state);
    assert_eq!(one.discovering, other.discovering);
    assert_eq!(names(&one.devices), vec!["mouse", "keyboard"]);
    assert_eq!(names(&other.devices), vec!["keyboard", "mouse"]);
}

#[test]
fn only_connected_devices_show_a_charge() {
    let bluetooth = bus(vec![("/d", charged("pen", false, PropertyValue::Byte(70)))]);
    assert_eq!(bluetooth.devices().unwrap()[0].battery, None);
    let faulty = bus(vec![("/d", charged("pen", false, PropertyValue::Bool(true)))]);
    assert_eq!(faulty.devices().unwrap()[0].battery, None);
}

#[test]
fn a_faulty_device_is_reported() {
    let no_alias = bus(vec![("/d", interfaces(vec![("org.bluez.Device1", properties(vec![]))]))]);
    assert!(
        matches!(no_alias.devices(), Err(PropertyError::DeviceAlias(path)) if path == "/d")
    );

    let no_connected = bus(vec![(
        "/d",
        interfaces(vec![(
            "org.bluez.Device1",
            properties(vec![("Alias", PropertyValue::Text("pen".to_string()))]),
        )]),
    )]);
    assert!(
        matches!(no_connected.devices(), Err(PropertyError::DeviceConnected(path)) if path == "/d")
    );

    let no_paired = bus(vec![(
        "/d",
        interfaces(vec![(
            "org.bluez.Device1",
            properties(vec![
                ("Alias", PropertyValue::Text("pen".to_string())),
                ("Connected", PropertyValue::Bool(true)),
                ("Paired", PropertyValue::Other),
            ]),
        )]),
    )]);
    assert!(
        matches!(no_paired.devices(), Err(PropertyError::DevicePaired(path)) if path == "/d")
    );

    let no_charge = bus(vec![("/d", charged("pen", true, PropertyValue::Other))]);
    assert!(
        matches!(no_charge.devices(), Err(PropertyError::BatteryPercentage(path)) if path == "/d")
    );
}

#[test]
fn the_first_fault_hides_all_devices() {
    let bluetooth = bus(vec![
        ("/good", device("mouse", true, true)),
        ("/bad", charged("pen", true, PropertyValue::Other)),
        ("/worse", interfaces(vec![("org.bluez.Device1", properties(vec![]))])),
    ]);
    assert!(
        matches!(bluetooth.devices(), Err(PropertyError::BatteryPercentage(path)) if path == "/bad")
    );
}

#[test]
fn a_soft_block_hides_the_power() {
    let on = || bus(vec![("/a", adapter(true, true)), ("/d", device("mouse", true, true))]);
    let free = load(on(), FREE).unwrap();
    assert_eq!(free.state, BluetoothState::Active);
    let blocked = load(on(), BLOCKED).unwrap();
    assert_eq!(blocked.state, BluetoothState::Inactive);
    assert!(free.discovering && blocked.discovering);
    assert_eq!(names(&free.devices), names(&blocked.devices));

    let off = load(bus(vec![("/a", adapter(false, false))]), BLOCKED).unwrap();
    assert_eq!(off.state, BluetoothState::Inactive);
    let none = load(bus(vec![]), BLOCKED).unwrap();
    assert_eq!(none.state, BluetoothState::Unavailable);
}

#[test]
fn faults_are_reported_in_order() {
    let all_faulty = || {
        bus(vec![
            ("/a", interfaces(vec![("org.bluez.Adapter1", properties(vec![]))])),
            ("/d", interfaces(vec![("org.bluez.Device1", properties(vec![]))])),
        ])
    };
    assert!(matches!(
        BluetoothService::initialize_data(all_faulty()),
        Err(LoadError::Property(PropertyError::AdapterPowered))
    ));

    let faulty_device = || {
        bus(vec![("/d", interfaces(vec![("org.bluez.Device1", properties(vec![]))]))])
    };
    let pending = BluetoothService::initialize_data(faulty_device()).unwrap_or_else(|_| panic!());
    assert!(matches!(
        pending.finish(Ok(vec![0xff])),
        Err(LoadError::Rfkill(RfkillError::NotUtf8(_)))
    ));
    assert!(matches!(
        load(faulty_device(), FREE),
        Err(LoadError::Property(PropertyError::DeviceAlias(_)))
    ));
}

#[test]
fn a_change_that_is_passed_over_shows_nothing() {
    let with_class = |class: PropertyValue| {
        let adapter = interfaces(vec![(
            "org.bluez.Adapter1",
            properties(vec![
                ("Powered", PropertyValue::Bool(true)),
                ("Discovering", PropertyValue::Bool(true)),
                ("Class", class),
            ]),
        )]);
        let bluetooth = bus(vec![("/a", adapter), ("/d", device("mouse", true, true))]);
        load(bluetooth, FREE).unwrap()
    };
    let change = PropertiesChanged {
        interface: "org.bluez.Adapter1".to_string(),
        changed: vec!["Class".to_string()],
        invalidated: vec![],
    };
    assert!(!change.relevant());
    let (before, after) = (with_class(PropertyValue::Byte(1)), with_class(PropertyValue::Other));
    assert_eq!(before.state, after.state);
    assert_eq!(before.discovering, after.discovering);
    assert_eq!(names(&before.devices), names(&after.devices));
}

#[test]
fn the_soft_block_is_read_from_the_tool() {
    let check = BluetoothService::check_rfkill_soft_block;
    assert!(matches!(check(Ok(BLOCKED.as_bytes().to_vec())), Ok(true)));
    assert!(matches!(check(Ok(FREE.as_bytes().to_vec())), Ok(false)));
    assert!(matches!(check(Ok(vec![])), Ok(false)));
    assert!(matches!(check(Ok(format!("{FREE}{BLOCKED}").into_bytes())), Ok(true)));
}

#[test]
fn a_machine_without_the_tool_is_not_blocked() {
    assert!(matches!(
        BluetoothService::check_rfkill_soft_block(Err(IoFailure::NotFound)),
        Ok(false)
    ));
}

#[test]
fn a_tool_that_fails_is_a_fault() {
    let failed = BluetoothService::check_rfkill_soft_block(Err(IoFailure::Other(
        "permission denied".to_string(),
    )));
    assert!(matches!(failed, Err(RfkillError::Run(text)) if text == "permission denied"));
    match BluetoothService::check_rfkill_soft_block(Ok(vec![b'a', 0xff])) {
        Err(RfkillError::NotUtf8(error)) => {
            assert_eq!(error.utf8_error().valid_up_to(), 1);
            assert_eq!(error.as_bytes(), [b'a', 0xff]);
        }
        _ => panic!(),
    }
}

#[test]
fn a_machine_without_the_device_reports_no_changes() {
    let listen = BluetoothService::listen_rfkill_soft_block_changes;
    assert_eq!(listen(Ok(())), Ok(RfkillWatch::Reported));
    assert_eq!(listen(Err(IoFailure::NotFound)), Ok(RfkillWatch::Silent));
    assert_eq!(listen(Err(IoFailure::Other("busy".to_string()))), Err("busy".to_string()));
}

#[test]
fn a_service_shows_its_latest_snapshot() {
    let mut service = BluetoothService::new(BluetoothData::unavailable());
    assert_eq!(service.state, BluetoothState::Unavailable);
    assert!(service.devices.is_empty());
    let data = load(
        bus(vec![("/a", adapter(true, true)), ("/d", device("mouse", true, true))]),
        FREE,
    )
    .unwrap();
    service.update(data.clone());
    assert_eq!(service.state, BluetoothState::Active);
    assert!(service.discovering);
    assert_eq!(names(&service.devices), vec!["mouse"]);
    let copy = service.clone();
    service.update(BluetoothData::unavailable());
    assert_eq!(copy.state, BluetoothState::Active);
    assert_eq!(names(&copy.devices), names(&data.devices));
    assert_eq!(service.state, BluetoothState::Unavailable);
}
