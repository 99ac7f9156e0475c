//! What can be wrong with what BlueZ and the machine tell.

use vstd::prelude::*;

verus! {

/// A property that BlueZ left out, or sent with another type. A device property comes with the
/// path of its device.
#[derive(Debug)]
pub enum PropertyError {
    AdapterPowered,
    DeviceAlias(String),
    DeviceConnected(String),
    DevicePaired(String),
    BatteryPercentage(String),
}

/// What a [`PropertyError`] stands for.
pub enum PropertyErrorView {
    AdapterPowered,
    DeviceAlias(Seq<char>),
    DeviceConnected(Seq<char>),
    DevicePaired(Seq<char>),
    BatteryPercentage(Seq<char>),
}

impl View for PropertyError {
    type V = PropertyErrorView;

    open spec fn view(&self) -> PropertyErrorView {
        match *self {
            PropertyError::AdapterPowered => PropertyErrorView::AdapterPowered,
            PropertyError::DeviceAlias(path) => PropertyErrorView::DeviceAlias(path@),
            PropertyError::DeviceConnected(path) => PropertyErrorView::DeviceConnected(path@),
            PropertyError::DevicePaired(path) => PropertyErrorView::DevicePaired(path@),
            PropertyError::BatteryPercentage(path) => PropertyErrorView::BatteryPercentage(path@),
        }
    }
}

/// The text about a device property, for the device at `path`.
pub open spec fn device_message(property: Seq<char>, path: Seq<char>) -> Seq<char> {
    "missing or invalid "@ + property + " property for OwnedObjectPath(ObjectPath(\""@ + path
        + "\"))"@
}

impl PropertyErrorView {
    /// The text that a log shows.
    pub open spec fn message(self) -> Seq<char> {
        match self {
            PropertyErrorView::AdapterPowered => "missing or invalid Adapter1.Powered property"@,
            PropertyErrorView::DeviceAlias(path) => device_message("Device1.Alias"@, path),
            PropertyErrorView::DeviceConnected(path) => device_message("Device1.Connected"@, path),
            PropertyErrorView::DevicePaired(path) => device_message("Device1.Paired"@, path),
            PropertyErrorView::BatteryPercentage(path) => device_message(
                "Battery1.Percentage"@,
                path,
            ),
        }
    }
}

fn device_text(property: &str, path: &str) -> (text: String)
    ensures
        text@ == device_message(property@, path@),
{
    let mut text: String = "missing or invalid ".to_owned();
    text.append(property);
    text.append(" property for OwnedObjectPath(ObjectPath(\"");
    text.append(path);
    text.append("\"))");
    text
}

impl PropertyError {
    /// The text that a log shows.
    pub fn message(&self) -> (text: String)
        ensures
            text@ == self@.message(),
    {
        match self {
            PropertyError::AdapterPowered => "missing or invalid Adapter1.Powered property".to_owned(),
            PropertyError::DeviceAlias(path) => device_text("Device1.Alias", path.as_str()),
            PropertyError::DeviceConnected(path) => device_text("Device1.Connected", path.as_str()),
            PropertyError::DevicePaired(path) => device_text("Device1.Paired", path.as_str()),
            PropertyError::BatteryPercentage(path) => device_text(
                "Battery1.Percentage",
                path.as_str(),
            ),
        }
    }
}

/// The text of a fault says which property is at fault and, of a device, at which path it is.
pub proof fn law_message_names_property_and_path(path: Seq<char>)
    ensures
        PropertyErrorView::AdapterPowered.message()
            == "missing or invalid Adapter1.Powered property"@,
        PropertyErrorView::DeviceAlias(path).message()
            == "missing or invalid Device1.Alias property for OwnedObjectPath(ObjectPath(\""@ + path
            + "\"))"@,
        PropertyErrorView::DeviceConnected(path).message()
            == "missing or invalid Device1.Connected property for OwnedObjectPath(ObjectPath(\""@
            + path + "\"))"@,
        PropertyErrorView::DevicePaired(path).message()
            == "missing or invalid Device1.Paired property for OwnedObjectPath(ObjectPath(\""@ + path
            + "\"))"@,
        PropertyErrorView::BatteryPercentage(path).message()
            == "missing or invalid Battery1.Percentage property for OwnedObjectPath(ObjectPath(\""@
            + path + "\"))"@,
{
    reveal_strlit("missing or invalid ");
    reveal_strlit(" property for OwnedObjectPath(ObjectPath(\"");
    reveal_strlit("Device1.Alias");
    reveal_strlit("Device1.Connected");
    reveal_strlit("Device1.Paired");
    reveal_strlit("Battery1.Percentage");
    reveal_strlit("missing or invalid Device1.Alias property for OwnedObjectPath(ObjectPath(\"");
    reveal_strlit("missing or invalid Device1.Connected property for OwnedObjectPath(ObjectPath(\"");
    reveal_strlit("missing or invalid Device1.Paired property for OwnedObjectPath(ObjectPath(\"");
    reveal_strlit(
        "missing or invalid Battery1.Percentage property for OwnedObjectPath(ObjectPath(\"",
    );
    let head = "missing or invalid "@;
    let tail = " property for OwnedObjectPath(ObjectPath(\""@;
    assert(head + "Device1.Alias"@ + tail
        =~= "missing or invalid Device1.Alias property for OwnedObjectPath(ObjectPath(\""@);
    assert(head + "Device1.Connected"@ + tail
        =~= "missing or invalid Device1.Connected property for OwnedObjectPath(ObjectPath(\""@);
    assert(head + "Device1.Paired"@ + tail
        =~= "missing or invalid Device1.Paired property for OwnedObjectPath(ObjectPath(\""@);
    assert(head + "Battery1.Percentage"@ + tail
        =~= "missing or invalid Battery1.Percentage property for OwnedObjectPath(ObjectPath(\""@);
}

} // verus!
