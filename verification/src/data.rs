//! What the service knows of the adapter and its devices.

use vstd::prelude::*;

verus! {

/// Whether Bluetooth can be used, and is switched on.
#[derive(PartialEq, Eq, Structural, Debug, Clone, Copy)]
pub enum BluetoothState {
    /// There is no adapter.
    Unavailable,
    /// The adapter is powered and not soft blocked.
    Active,
    /// The adapter is not powered, or is soft blocked.
    Inactive,
}

/// A device that the adapter knows.
#[derive(Debug)]
pub struct BluetoothDevice {
    pub name: String,
    pub battery: Option<u8>,
    pub path: String,
    pub connected: bool,
    pub paired: bool,
}

/// What a [`BluetoothDevice`] stands for.
pub struct DeviceView {
    pub name: Seq<char>,
    pub battery: Option<u8>,
    pub path: Seq<char>,
    pub connected: bool,
    pub paired: bool,
}

impl View for BluetoothDevice {
    type V = DeviceView;

    open spec fn view(&self) -> DeviceView {
        DeviceView {
            name: self.name@,
            battery: self.battery,
            path: self.path@,
            connected: self.connected,
            paired: self.paired,
        }
    }
}

impl Clone for BluetoothDevice {
    fn clone(&self) -> (copy: Self)
        ensures
            copy@ == self@,
    {
        BluetoothDevice {
            name: self.name.clone(),
            battery: self.battery,
            path: self.path.clone(),
            connected: self.connected,
            paired: self.paired,
        }
    }
}

/// A snapshot of the adapter and its devices.
#[derive(Debug)]
pub struct BluetoothData {
    pub state: BluetoothState,
    pub devices: Vec<BluetoothDevice>,
    pub discovering: bool,
}

/// What a [`BluetoothData`] stands for.
pub struct DataView {
    pub state: BluetoothState,
    pub devices: Seq<DeviceView>,
    pub discovering: bool,
}

/// The devices of a list, in its order.
pub open spec fn device_views(devices: Seq<BluetoothDevice>) -> Seq<DeviceView> {
    devices.map_values(|device: BluetoothDevice| device@)
}

impl View for BluetoothData {
    type V = DataView;

    open spec fn view(&self) -> DataView {
        DataView {
            state: self.state,
            devices: device_views(self.devices@),
            discovering: self.discovering,
        }
    }
}

impl Clone for BluetoothData {
    fn clone(&self) -> (copy: Self)
        ensures
            copy@ == self@,
    {
        let mut devices: Vec<BluetoothDevice> = Vec::new();
        for i in 0..self.devices.len()
            invariant
                devices@.len() == i,
                forall|j: int| 0 <= j < i ==> (#[trigger] devices@[j])@ == self.devices@[j]@,
        {
            devices.push(self.devices[i].clone());
        }
        assert(device_views(devices@) =~= device_views(self.devices@));
        BluetoothData { state: self.state, devices, discovering: self.discovering }
    }
}

/// The snapshot of a machine on which nothing can be learnt about Bluetooth.
pub open spec fn unavailable_data() -> DataView {
    DataView { state: BluetoothState::Unavailable, devices: Seq::empty(), discovering: false }
}

impl BluetoothData {
    /// The snapshot of a machine on which nothing can be learnt about Bluetooth.
    pub fn unavailable() -> (data: BluetoothData)
        ensures
            data@ == unavailable_data(),
    {
        let devices: Vec<BluetoothDevice> = Vec::new();
        assert(device_views(devices@) =~= Seq::empty());
        BluetoothData { state: BluetoothState::Unavailable, devices, discovering: false }
    }
}

} // verus!
