use bluetooth::service::BluetoothService;
use bluetooth::signals::{properties_changed_rule, PropertiesChanged};
use inotify::Inotify;
use std::collections::HashMap;
use zbus::zvariant::{Fd, Value};

fn strings(list: &[&str]) -> Vec<String> {
    list.iter().map(|text| text.to_string()).collect()
}

fn relevant(interface: &str, changed: &[&str], invalidated: &[&str]) -> bool {
    let change = PropertiesChanged {
        interface: interface.to_string(),
        changed: strings(changed),
        invalidated: strings(invalidated),
    };
    let found = change.relevant();
    let message = signal(interface, changed, invalidated);
    assert_eq!(BluetoothService::relevance(message.clone()), Some(found));
    assert_eq!(BluetoothService::relevant_property_changed(Ok(message)).is_some(), found);
    found
}

fn signal(interface: &str, changed: &[&str], invalidated: &[&str]) -> zbus::Message {
    let changed: HashMap<&str, Value<'_>> =
        changed.iter().map(|name| (*name, Value::from(true))).collect();
    zbus::Message::signal(
        "/org/bluez/hci0",
        "org.freedesktop.DBus.Properties",
        "PropertiesChanged",
    )
    .unwrap()
    .build(&(interface, changed, invalidated.to_vec()))
    .unwrap()
}

#[test]
fn the_adapter_is_followed_in_power_and_discovery() {
    assert!(relevant("org.bluez.Adapter1", &["Powered"], &[]));
    assert!(relevant("org.bluez.Adapter1", &["Class", "Discovering"], &[]));
    assert!(relevant("org.bluez.Adapter1", &[], &["Powered"]));
    assert!(!relevant("org.bluez.Adapter1", &["Class", "Alias"], &["UUIDs"]));
    assert!(!relevant("org.bluez.Adapter1", &[], &[]));
    assert!(!relevant("org.bluez.Adapter1", &["Connected", "Percentage"], &[]));
}

#[test]
fn devices_are_followed_in_their_connection() {
    assert!(relevant("org.bluez.Device1", &["RSSI", "Connected"], &[]));
    assert!(relevant("org.bluez.Device1", &[], &["TxPower", "Connected"]));
    assert!(!relevant("org.bluez.Device1", &["Alias", "Paired"], &["RSSI"]));
    assert!(!relevant("org.bluez.Device1", &["Powered"], &[]));
}

#[test]
fn batteries_are_followed_in_their_charge() {
    assert!(relevant("org.bluez.Battery1", &["Percentage"], &[]));
    assert!(relevant("org.bluez.Battery1", &[], &["Percentage"]));
    assert!(!relevant("org.bluez.Battery1", &["Source"], &[]));
}

#[test]
fn other_interfaces_are_not_followed() {
    assert!(!relevant("org.bluez.MediaControl1", &["Connected"], &["Powered"]));
    assert!(!relevant("", &["Powered"], &[]));
}

#[test]
fn messages_of_another_shape_are_passed_over() {
    let message = zbus::Message::signal(
        "/org/bluez/hci0",
        "org.freedesktop.DBus.Properties",
        "PropertiesChanged",
    )
    .unwrap()
    .build(&("org.bluez.Adapter1", "Powered"))
    .unwrap();
    assert_eq!(BluetoothService::relevance(message.clone()), Some(false));
    assert_eq!(BluetoothService::relevant_property_changed(Ok(message)), None);
    assert_eq!(
        BluetoothService::relevant_property_changed(Err(zbus::Error::InvalidReply)),
        None
    );
}

#[test]
fn messages_with_file_descriptors_are_not_decided_by_themselves() {
    let descriptor = Fd::Owned(Inotify::init().unwrap().into());
    let changed: HashMap<&str, Value<'_>> =
        HashMap::from([("Powered", Value::from(true)), ("Extra", Value::Fd(descriptor))]);
    let message = zbus::Message::signal(
        "/org/bluez/hci0",
        "org.freedesktop.DBus.Properties",
        "PropertiesChanged",
    )
    .unwrap()
    .build(&("org.bluez.Adapter1", changed, Vec::<&str>::new()))
    .unwrap();
    assert_eq!(BluetoothService::relevance(message.clone()), None);
    assert_eq!(BluetoothService::relevant_property_changed(Ok(message)), Some(()));
}

#[test]
fn touched_properties_are_those_named() {
    let change = PropertiesChanged {
        interface: "org.bluez.Device1".to_string(),
        changed: strings(&["RSSI", "Connected"]),
        invalidated: strings(&["TxPower"]),
    };
    assert!(change.touches("RSSI"));
    assert!(change.touches("TxPower"));
    assert!(!change.touches("Paired"));
}

#[test]
fn the_rule_is_in_the_notation_of_the_bus() {
    let rule = properties_changed_rule().unwrap();
    assert_eq!(
        rule,
        "type='signal',sender='org.bluez',interface='org.freedesktop.DBus.Properties',\
         member='PropertiesChanged',path_namespace='/org/bluez',arg0namespace='org.bluez'"
    );
    let parsed = zbus::MatchRule::try_from(rule.as_str()).unwrap();
    let built = zbus::MatchRule::builder()
        .msg_type(zbus::message::Type::Signal)
        .sender("org.bluez")
        .unwrap()
        .interface("org.freedesktop.DBus.Properties")
        .unwrap()
        .member("PropertiesChanged")
        .unwrap()
        .arg0ns("org.bluez")
        .unwrap()
        .path_namespace("/org/bluez")
        .unwrap()
        .build();
    assert_eq!(parsed, built);
}
