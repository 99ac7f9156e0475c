//! The calls that the service makes to BlueZ.

use crate::dbus::{adapter_path, BluetoothDbus};
use crate::objects::ObjectView;
use vstd::prelude::*;

verus! {

/// A call to an object of BlueZ.
#[derive(Debug)]
pub enum DbusCall {
    SetPowered { adapter: String, value: bool },
    StartDiscovery { adapter: String },
    StopDiscovery { adapter: String },
    RemoveDevice { adapter: String, device: String },
    Pair { device: String },
    Connect { device: String },
    Disconnect { device: String },
}

/// What a [`DbusCall`] stands for.
pub enum CallView {
    SetPowered { adapter: Seq<char>, value: bool },
    StartDiscovery { adapter: Seq<char> },
    StopDiscovery { adapter: Seq<char> },
    RemoveDevice { adapter: Seq<char>, device: Seq<char> },
    Pair { device: Seq<char> },
    Connect { device: Seq<char> },
    Disconnect { device: Seq<char> },
}

impl View for DbusCall {
    type V = CallView;

    open spec fn view(&self) -> CallView {
        match *self {
            DbusCall::SetPowered { adapter, value } => CallView::SetPowered {
                adapter: adapter@,
                value,
            },
            DbusCall::StartDiscovery { adapter } => CallView::StartDiscovery { adapter: adapter@ },
            DbusCall::StopDiscovery { adapter } => CallView::StopDiscovery { adapter: adapter@ },
            DbusCall::RemoveDevice { adapter, device } => CallView::RemoveDevice {
                adapter: adapter@,
                device: device@,
            },
            DbusCall::Pair { device } => CallView::Pair { device: device@ },
            DbusCall::Connect { device } => CallView::Connect { device: device@ },
            DbusCall::Disconnect { device } => CallView::Disconnect { device: device@ },
        }
    }
}

impl Clone for DbusCall {
    fn clone(&self) -> (copy: Self)
        ensures
            copy@ == self@,
    {
        match self {
            DbusCall::SetPowered { adapter, value } => DbusCall::SetPowered {
                adapter: adapter.clone(),
                value: *value,
            },
            DbusCall::StartDiscovery { adapter } => DbusCall::StartDiscovery {
                adapter: adapter.clone(),
            },
            DbusCall::StopDiscovery { adapter } => DbusCall::StopDiscovery {
                adapter: adapter.clone(),
            },
            DbusCall::RemoveDevice { adapter, device } => DbusCall::RemoveDevice {
                adapter: adapter.clone(),
                device: device.clone(),
            },
            DbusCall::Pair { device } => DbusCall::Pair { device: device.clone() },
            DbusCall::Connect { device } => DbusCall::Connect { device: device.clone() },
            DbusCall::Disconnect { device } => DbusCall::Disconnect { device: device.clone() },
        }
    }
}

/// The call in an optional call.
pub open spec fn optional_call(call: Option<DbusCall>) -> Option<CallView> {
    match call {
        Some(call) => Some(call@),
        None => None,
    }
}

/// The call that switches the adapter, where there is one.
pub open spec fn power_call(objects: Seq<ObjectView>, value: bool) -> Option<CallView> {
    match adapter_path(objects) {
        Some(adapter) => Some(CallView::SetPowered { adapter, value }),
        None => None,
    }
}

/// The call that makes the adapter look for devices, where there is one.
pub open spec fn start_discovery_call(objects: Seq<ObjectView>) -> Option<CallView> {
    match adapter_path(objects) {
        Some(adapter) => Some(CallView::StartDiscovery { adapter }),
        None => None,
    }
}

/// The call that makes the adapter stop looking for devices, where there is one.
pub open spec fn stop_discovery_call(objects: Seq<ObjectView>) -> Option<CallView> {
    match adapter_path(objects) {
        Some(adapter) => Some(CallView::StopDiscovery { adapter }),
        None => None,
    }
}

/// The call that makes the adapter forget a device, where there is an adapter.
pub open spec fn remove_call(objects: Seq<ObjectView>, device: Seq<char>) -> Option<CallView> {
    match adapter_path(objects) {
        Some(adapter) => Some(CallView::RemoveDevice { adapter, device }),
        None => None,
    }
}

impl BluetoothDbus {
    /// Switches the adapter: the call to make. Without an adapter there is none, and nothing
    /// fails.
    pub fn set_powered(&self, value: bool) -> (call: Option<DbusCall>)
        ensures
            optional_call(call) == power_call(self@, value),
    {
        match self.adapter_path() {
            Some(path) => Some(DbusCall::SetPowered { adapter: path.to_owned(), value }),
            None => None,
        }
    }

    /// Makes the adapter look for devices: the call to make. Without an adapter there is none,
    /// and nothing fails.
    pub fn start_discovery(&self) -> (call: Option<DbusCall>)
        ensures
            optional_call(call) == start_discovery_call(self@),
    {
        match self.adapter_path() {
            Some(path) => Some(DbusCall::StartDiscovery { adapter: path.to_owned() }),
            None => None,
        }
    }

    /// Makes the adapter stop looking for devices: the call to make. Without an adapter there is
    /// none, and nothing fails.
    pub fn stop_discovery(&self) -> (call: Option<DbusCall>)
        ensures
            optional_call(call) == stop_discovery_call(self@),
    {
        match self.adapter_path() {
            Some(path) => Some(DbusCall::StopDiscovery { adapter: path.to_owned() }),
            None => None,
        }
    }

    /// Pairs with the device at `device_path`: the call to make.
    pub fn pair_device(&self, device_path: &str) -> (call: DbusCall)
        ensures
            call@ == (CallView::Pair { device: device_path@ }),
    {
        DbusCall::Pair { device: device_path.to_owned() }
    }

    /// Connects to the device at `device_path`: the call to make.
    pub fn connect_device(&self, device_path: &str) -> (call: DbusCall)
        ensures
            call@ == (CallView::Connect { device: device_path@ }),
    {
        DbusCall::Connect { device: device_path.to_owned() }
    }

    /// Disconnects from the device at `device_path`: the call to make.
    pub fn disconnect_device(&self, device_path: &str) -> (call: DbusCall)
        ensures
            call@ == (CallView::Disconnect { device: device_path@ }),
    {
        DbusCall::Disconnect { device: device_path.to_owned() }
    }

    /// Makes the adapter forget the device at `device_path`: the call to make. Without an adapter
    /// there is none, and nothing fails.
    pub fn remove_device(&self, device_path: &str) -> (call: Option<DbusCall>)
        ensures
            optional_call(call) == remove_call(self@, device_path@),
    {
        match self.adapter_path() {
            Some(path) => Some(
                DbusCall::RemoveDevice { adapter: path.to_owned(), device: device_path.to_owned() },
            ),
            None => None,
        }
    }
}

} // verus!
