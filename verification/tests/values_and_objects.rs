use bluetooth::dbus::BluetoothDbus;
use bluetooth::error::PropertyError;
use bluetooth::objects::{InterfaceProperties, Interfaces, ManagedObjects};
use bluetooth::text::{contains_text, same_text};
use bluetooth::values::PropertyValue;
use zbus::zvariant::{OwnedValue, Str, Value};

fn text(value: &str) -> PropertyValue {
    PropertyValue::Text(value.to_string())
}

#[test]
fn texts_are_compared_by_their_characters() {
    assert!(same_text("hci0", "hci0"));
    assert!(!same_text("hci0", "hci1"));
    assert!(same_text("", ""));
    assert!(!same_text("é", "e"));
}

#[test]
fn a_text_is_found_within_another() {
    assert!(contains_text("0: hci0\n\tSoft blocked: yes\n", "Soft blocked: yes"));
    assert!(!contains_text("0: hci0\n\tSoft blocked: no\n", "Soft blocked: yes"));
    assert!(contains_text("abc", "abc"));
    assert!(contains_text("abc", ""));
    assert!(contains_text("", ""));
    assert!(!contains_text("", "a"));
    assert!(contains_text("aab", "ab"));
    assert!(contains_text("über", "be"));
    assert!(!contains_text("ab", "abc"));
}

#[test]
fn variants_are_read_by_their_type() {
    assert_eq!(PropertyValue::read(&OwnedValue::from(true)).bool(), Some(true));
    assert_eq!(PropertyValue::read(&OwnedValue::from(false)).bool(), Some(false));
    assert_eq!(PropertyValue::read(&OwnedValue::from(true)).byte(), None);
    assert_eq!(PropertyValue::read(&OwnedValue::from(true)).text(), None);

    assert_eq!(PropertyValue::read(&OwnedValue::from(83u8)).byte(), Some(83));
    assert_eq!(PropertyValue::read(&OwnedValue::from(83u8)).bool(), None);

    let name = PropertyValue::read(&OwnedValue::from(Str::from("Headphones")));
    assert_eq!(name.text(), Some("Headphones".to_string()));
    assert_eq!(name.byte(), None);
}

#[test]
fn variants_of_other_types_are_of_no_use() {
    let other = PropertyValue::read(&OwnedValue::from(83u32));
    assert!(matches!(other, PropertyValue::Other));
    assert_eq!(other.bool(), None);
    assert_eq!(other.byte(), None);
    assert_eq!(other.text(), None);

    let nested = OwnedValue::try_from(Value::Value(Box::new(Value::Bool(true)))).unwrap();
    assert!(matches!(PropertyValue::read(&nested), PropertyValue::Other));

    let list = OwnedValue::try_from(Value::from(vec!["a", "b"])).unwrap();
    assert!(matches!(PropertyValue::read(&list), PropertyValue::Other));
}

#[test]
fn a_property_is_found_by_its_name() {
    let mut properties = InterfaceProperties::new();
    assert!(properties.get("Powered").is_none());
    properties.insert("Powered".to_string(), PropertyValue::Bool(false));
    properties.insert("Alias".to_string(), text("laptop"));
    properties.insert("Powered".to_string(), PropertyValue::Bool(true));
    assert_eq!(properties.get("Powered").unwrap().bool(), Some(true));
    assert_eq!(properties.get("Alias").unwrap().text(), Some("laptop".to_string()));
    assert!(properties.get("powered").is_none());
}

#[test]
fn a_set_object_is_found_by_its_path() {
    let mut objects = ManagedObjects::new();
    assert_eq!(objects.len(), 0);
    objects.insert("/a".to_string(), Interfaces::new());
    let mut interfaces = Interfaces::new();
    interfaces.insert("org.bluez.Adapter1".to_string(), InterfaceProperties::new());
    objects.insert("/b".to_string(), interfaces);
    assert_eq!(objects.len(), 2);
    assert_eq!(objects.path(0), "/a");
    assert_eq!(objects.path(1), "/b");
    assert!(objects.interfaces(1).contains("org.bluez.Adapter1"));
    assert!(!objects.get("/a").unwrap().contains("org.bluez.Adapter1"));
    assert!(objects.get("/b").unwrap().get("org.bluez.Adapter1").is_some());
    assert!(objects.get("/c").is_none());

    let mut interfaces = Interfaces::new();
    interfaces.insert("org.bluez.Device1".to_string(), InterfaceProperties::new());
    objects.insert("/a".to_string(), interfaces);
    assert_eq!(objects.len(), 2);
    assert_eq!(objects.path(0), "/a");
    assert!(objects.get("/a").unwrap().contains("org.bluez.Device1"));
    assert!(objects.get("/b").unwrap().contains("org.bluez.Adapter1"));
}

#[test]
fn faults_are_worded() {
    assert_eq!(
        PropertyError::AdapterPowered.message(),
        "missing or invalid Adapter1.Powered property"
    );
    assert_eq!(
        PropertyError::DeviceAlias("/org/bluez/hci0/dev_1".to_string()).message(),
        "missing or invalid Device1.Alias property for \
         OwnedObjectPath(ObjectPath(\"/org/bluez/hci0/dev_1\"))"
    );
    let path = zbus::zvariant::OwnedObjectPath::try_from("/org/bluez/hci0/dev_1").unwrap();
    assert_eq!(
        PropertyError::DeviceConnected("/org/bluez/hci0/dev_1".to_string()).message(),
        format!("missing or invalid Device1.Connected property for {path:?}")
    );
    assert_eq!(
        PropertyError::DevicePaired("/org/bluez/hci0/dev_1".to_string()).message(),
        format!("missing or invalid Device1.Paired property for {path:?}")
    );
    assert_eq!(
        PropertyError::BatteryPercentage("/org/bluez/hci0/dev_1".to_string()).message(),
        format!("missing or invalid Battery1.Percentage property for {path:?}")
    );
}

#[test]
fn the_bus_without_objects_has_no_adapter() {
    let bluetooth = BluetoothDbus::new(ManagedObjects::new());
    assert!(bluetooth.adapter_path().is_none());
    assert!(bluetooth.adapter_properties().is_none());
    assert_eq!(bluetooth.powered(), None);
    assert!(!bluetooth.discovering());
}
