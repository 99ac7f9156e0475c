//! What the objects of BlueZ say about the adapter and its devices.

use crate::data::{device_views, BluetoothDevice, BluetoothState, DeviceView};
use crate::error::{PropertyError, PropertyErrorView};
use crate::objects::{
    distinct_paths, entry, interfaces_at, InterfaceProperties, Interfaces, ManagedObjects,
    ObjectView, PropertiesView,
};
use vstd::prelude::*;

verus! {

/// The interface of an adapter.
pub const ADAPTER_INTERFACE: &'static str = "org.bluez.Adapter1";

/// The interface of a device.
pub const DEVICE_INTERFACE: &'static str = "org.bluez.Device1";

/// The interface of a device that reports its charge.
pub const BATTERY_INTERFACE: &'static str = "org.bluez.Battery1";

/// The boolean property of that name, if it is there and is a boolean.
pub open spec fn bool_in(properties: PropertiesView, name: Seq<char>) -> Option<bool> {
    match entry(properties, name) {
        Some(value) => value.bool(),
        None => None,
    }
}

/// The byte property of that name, if it is there and is a byte.
pub open spec fn byte_in(properties: PropertiesView, name: Seq<char>) -> Option<u8> {
    match entry(properties, name) {
        Some(value) => value.byte(),
        None => None,
    }
}

/// The text property of that name, if it is there and is a text.
pub open spec fn text_in(properties: PropertiesView, name: Seq<char>) -> Option<Seq<char>> {
    match entry(properties, name) {
        Some(value) => value.text(),
        None => None,
    }
}

fn bool_property(properties: &InterfaceProperties, name: &str) -> (value: Option<bool>)
    ensures
        value == bool_in(properties@, name@),
{
    match properties.get(name) {
        Some(value) => value.bool(),
        None => None,
    }
}

fn byte_property(properties: &InterfaceProperties, name: &str) -> (value: Option<u8>)
    ensures
        value == byte_in(properties@, name@),
{
    match properties.get(name) {
        Some(value) => value.byte(),
        None => None,
    }
}

fn text_property(properties: &InterfaceProperties, name: &str) -> (value: Option<String>)
    ensures
        value is Some == text_in(properties@, name@) is Some,
        value matches Some(value) ==> value@ == text_in(properties@, name@)->0,
{
    match properties.get(name) {
        Some(value) => value.text(),
        None => None,
    }
}

/// The path of the first object that is an adapter.
pub open spec fn adapter_path(objects: Seq<ObjectView>) -> Option<Seq<char>>
    decreases objects.len(),
{
    if objects.len() == 0 {
        None
    } else if objects[0].interfaces.contains_key(ADAPTER_INTERFACE@) {
        Some(objects[0].path)
    } else {
        adapter_path(objects.drop_first())
    }
}

/// The properties of the adapter.
pub open spec fn adapter_properties(objects: Seq<ObjectView>) -> Option<PropertiesView> {
    match adapter_path(objects) {
        Some(path) => match interfaces_at(objects, path) {
            Some(interfaces) => entry(interfaces, ADAPTER_INTERFACE@),
            None => None,
        },
        None => None,
    }
}

/// Whether the adapter is powered, if it says so.
pub open spec fn powered(objects: Seq<ObjectView>) -> Option<bool> {
    match adapter_properties(objects) {
        Some(properties) => bool_in(properties, "Powered"@),
        None => None,
    }
}

/// Whether the adapter says that it is looking for devices.
pub open spec fn discovering(objects: Seq<ObjectView>) -> bool {
    match adapter_properties(objects) {
        Some(properties) => bool_in(properties, "Discovering"@) == Some(true),
        None => false,
    }
}

/// The state of the adapter, before any soft block is taken into account.
pub open spec fn adapter_state(objects: Seq<ObjectView>) -> Result<
    BluetoothState,
    PropertyErrorView,
> {
    if adapter_path(objects) is None {
        Ok(BluetoothState::Unavailable)
    } else {
        match powered(objects) {
            Some(true) => Ok(BluetoothState::Active),
            Some(false) => Ok(BluetoothState::Inactive),
            None => Err(PropertyErrorView::AdapterPowered),
        }
    }
}

/// The charge that an object reports: nothing where it has no battery.
pub open spec fn battery(object: ObjectView) -> Result<Option<u8>, PropertyErrorView> {
    match entry(object.interfaces, BATTERY_INTERFACE@) {
        Some(properties) => match byte_in(properties, "Percentage"@) {
            Some(percentage) => Ok(Some(percentage)),
            None => Err(PropertyErrorView::BatteryPercentage(object.path)),
        },
        None => Ok(None),
    }
}

/// The device that an object with these device properties describes. The charge is read of a
/// connected device only.
pub open spec fn device(object: ObjectView, properties: PropertiesView) -> Result<
    DeviceView,
    PropertyErrorView,
> {
    match (
        text_in(properties, "Alias"@),
        bool_in(properties, "Connected"@),
        bool_in(properties, "Paired"@),
    ) {
        (None, _, _) => Err(PropertyErrorView::DeviceAlias(object.path)),
        (Some(_), None, _) => Err(PropertyErrorView::DeviceConnected(object.path)),
        (Some(_), Some(_), None) => Err(PropertyErrorView::DevicePaired(object.path)),
        (Some(name), Some(connected), Some(paired)) => {
            match if connected {
                battery(object)
            } else {
                Ok(None)
            } {
                Err(error) => Err(error),
                Ok(battery) => Ok(
                    DeviceView { name, battery, path: object.path, connected, paired },
                ),
            }
        },
    }
}

/// The devices among `objects`, in their order, or what is wrong with the first faulty one.
pub open spec fn devices(objects: Seq<ObjectView>) -> Result<Seq<DeviceView>, PropertyErrorView>
    decreases objects.len(),
{
    if objects.len() == 0 {
        Ok(Seq::empty())
    } else {
        match devices(objects.drop_last()) {
            Err(error) => Err(error),
            Ok(before) => match entry(objects.last().interfaces, DEVICE_INTERFACE@) {
                None => Ok(before),
                Some(properties) => match device(objects.last(), properties) {
                    Err(error) => Err(error),
                    Ok(device) => Ok(before.push(device)),
                },
            },
        }
    }
}

/// The objects of BlueZ, and which of them is the adapter.
pub struct BluetoothDbus {
    adapter_path: Option<String>,
    managed_objects: ManagedObjects,
}

impl View for BluetoothDbus {
    type V = Seq<ObjectView>;

    closed spec fn view(&self) -> Seq<ObjectView> {
        self.managed_objects@
    }
}

/// The text in an optional string.
pub open spec fn optional_text(text: Option<String>) -> Option<Seq<char>> {
    match text {
        Some(text) => Some(text@),
        None => None,
    }
}

impl BluetoothDbus {
    #[verifier::type_invariant]
    spec fn well_formed(self) -> bool {
        &&& distinct_paths(self.managed_objects@)
        &&& optional_text(self.adapter_path) == adapter_path(self.managed_objects@)
    }

    /// Picks the adapter: the first object that offers the adapter interface.
    pub fn new(managed_objects: ManagedObjects) -> (bluetooth: Self)
        ensures
            bluetooth@ == managed_objects@,
            distinct_paths(bluetooth@),
    {
        let ghost objects = managed_objects@;
        let len: usize = managed_objects.len();
        let mut adapter: Option<String> = None;
        let mut at: usize = 0;
        assert(objects.skip(0) =~= objects);
        while at < len && adapter.is_none()
            invariant
                len == objects.len(),
                objects == managed_objects@,
                at <= len,
                adapter is Some ==> optional_text(adapter) == adapter_path(objects),
                adapter is None ==> adapter_path(objects) == adapter_path(
                    objects.skip(at as int),
                ),
            decreases len - at,
        {
            assert(objects.skip(at as int)[0] == objects[at as int]);
            if managed_objects.interfaces(at).contains(ADAPTER_INTERFACE) {
                adapter = Some(managed_objects.path(at).to_owned());
            }
            assert(objects.skip(at as int).drop_first() =~= objects.skip(at + 1));
            at = at + 1;
        }
        BluetoothDbus { adapter_path: adapter, managed_objects }
    }

    /// The path of the adapter.
    pub fn adapter_path(&self) -> (path: Option<&str>)
        ensures
            match path {
                Some(path) => adapter_path(self@) == Some(path@),
                None => adapter_path(self@) is None,
            },
    {
        proof {
            use_type_invariant(self);
        }
        match &self.adapter_path {
            Some(path) => Some(path.as_str()),
            None => None,
        }
    }

    /// The properties of the adapter.
    pub fn adapter_properties(&self) -> (properties: Option<&InterfaceProperties>)
        ensures
            match properties {
                Some(properties) => adapter_properties(self@) == Some(properties@),
                None => adapter_properties(self@) is None,
            },
    {
        match self.adapter_path() {
            Some(path) => match self.managed_objects.get(path) {
                Some(interfaces) => interfaces.get(ADAPTER_INTERFACE),
                None => None,
            },
            None => None,
        }
    }

    /// Whether the adapter is powered, if it says so.
    pub fn powered(&self) -> (value: Option<bool>)
        ensures
            value == powered(self@),
    {
        match self.adapter_properties() {
            Some(properties) => bool_property(properties, "Powered"),
            None => None,
        }
    }

    /// Whether the adapter says that it is looking for devices.
    pub fn discovering(&self) -> (value: bool)
        ensures
            value == discovering(self@),
    {
        match self.adapter_properties() {
            Some(properties) => match bool_property(properties, "Discovering") {
                Some(value) => value,
                None => false,
            },
            None => false,
        }
    }

    /// The state of the adapter, before any soft block is taken into account.
    pub fn state(&self) -> (state: Result<BluetoothState, PropertyError>)
        ensures
            match state {
                Ok(state) => adapter_state(self@) == Ok::<_, PropertyErrorView>(state),
                Err(error) => adapter_state(self@) == Err::<BluetoothState, _>(error@),
            },
    {
        if self.adapter_path().is_none() {
            return Ok(BluetoothState::Unavailable);
        }
        match self.powered() {
            Some(true) => Ok(BluetoothState::Active),
            Some(false) => Ok(BluetoothState::Inactive),
            None => Err(PropertyError::AdapterPowered),
        }
    }

    /// The devices, in the order of the objects, or what is wrong with the first faulty one.
    pub fn devices(&self) -> (list: Result<Vec<BluetoothDevice>, PropertyError>)
        ensures
            match list {
                Ok(list) => devices(self@) == Ok::<_, PropertyErrorView>(device_views(list@)),
                Err(error) => devices(self@) == Err::<Seq<DeviceView>, _>(error@),
            },
    {
        let ghost objects = self@;
        let mut list: Vec<BluetoothDevice> = Vec::new();
        let len: usize = self.managed_objects.len();
        assert(device_views(list@) =~= Seq::empty());
        for at in 0..len
            invariant
                objects == self@,
                len == objects.len(),
                devices(objects.take(at as int)) == Ok::<_, PropertyErrorView>(device_views(list@)),
        {
            let path = self.managed_objects.path(at);
            let interfaces = self.managed_objects.interfaces(at);
            let ghost object = objects[at as int];
            assert(objects.take(at + 1).drop_last() =~= objects.take(at as int));
            assert(objects.take(at + 1).last() == object);
            if let Some(properties) = interfaces.get(DEVICE_INTERFACE) {
                match read_device(path, interfaces, properties) {
                    Ok(found) => {
                        let ghost before = device_views(list@);
                        list.push(found);
                        assert(device_views(list@) =~= before.push(found@));
                    },
                    Err(error) => {
                        proof {
                            lemma_devices_error_stays(objects, at + 1);
                        }
                        return Err(error);
                    },
                }
            }
        }
        assert(objects.take(len as int) =~= objects);
        Ok(list)
    }
}

/// A fault among the first `n` objects is the fault of the whole.
proof fn lemma_devices_error_stays(objects: Seq<ObjectView>, n: int)
    requires
        0 <= n <= objects.len(),
        devices(objects.take(n)) is Err,
    ensures
        devices(objects) == devices(objects.take(n)),
    decreases objects.len() - n,
{
    if n < objects.len() {
        assert(objects.take(n + 1).drop_last() =~= objects.take(n));
        lemma_devices_error_stays(objects, n + 1);
    } else {
        assert(objects.take(n) =~= objects);
    }
}

fn read_battery(path: &str, interfaces: &Interfaces) -> (charge: Result<Option<u8>, PropertyError>)
    ensures
        ({
            let object = ObjectView { path: path@, interfaces: interfaces@ };
            match charge {
                Ok(charge) => battery(object) == Ok::<_, PropertyErrorView>(charge),
                Err(error) => battery(object) == Err::<Option<u8>, _>(error@),
            }
        }),
{
    match interfaces.get(BATTERY_INTERFACE) {
        Some(properties) => match byte_property(properties, "Percentage") {
            Some(percentage) => Ok(Some(percentage)),
            None => Err(PropertyError::BatteryPercentage(path.to_owned())),
        },
        None => Ok(None),
    }
}

fn read_device(path: &str, interfaces: &Interfaces, properties: &InterfaceProperties) -> (found:
    Result<BluetoothDevice, PropertyError>)
    ensures
        ({
            let object = ObjectView { path: path@, interfaces: interfaces@ };
            match found {
                Ok(found) => device(object, properties@) == Ok::<_, PropertyErrorView>(found@),
                Err(error) => device(object, properties@) == Err::<DeviceView, _>(error@),
            }
        }),
{
    let Some(name) = text_property(properties, "Alias") else {
        return Err(PropertyError::DeviceAlias(path.to_owned()));
    };
    let Some(connected) = bool_property(properties, "Connected") else {
        return Err(PropertyError::DeviceConnected(path.to_owned()));
    };
    let Some(paired) = bool_property(properties, "Paired") else {
        return Err(PropertyError::DevicePaired(path.to_owned()));
    };
    let battery: Option<u8> = if connected {
        match read_battery(path, interfaces) {
            Ok(charge) => charge,
            Err(error) => return Err(error),
        }
    } else {
        None
    };
    Ok(BluetoothDevice { name, battery, path: path.to_owned(), connected, paired })
}

} // verus!
