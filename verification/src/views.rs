//! That the views of the library's types show every part of a value, as it is.

use crate::calls::{optional_call, CallView, DbusCall};
use crate::commands::{
    optional_task, BluetoothCommand, CommandTask, CommandView, Progress, ProgressView, TaskAction,
    TaskActionView, TaskOutcome, TaskOutcomeView,
};
use crate::data::{device_views, BluetoothData, BluetoothDevice};
use crate::error::{PropertyError, PropertyErrorView};
use crate::listener::{optional_event, EventView, Outcome, OutcomeView, ServiceEvent};
use crate::rfkill::{rejected, RfkillError, RfkillErrorView};
use crate::service::{LoadError, LoadErrorView};
use vstd::prelude::*;

verus! {

/// The view of a snapshot has the snapshot's state and discovery, and its devices in their order,
/// each with the device's own name, charge, path, connection and pairing.
pub proof fn law_snapshot_is_viewed_whole(data: BluetoothData)
    ensures
        data@.state == data.state,
        data@.discovering == data.discovering,
        data@.devices.len() == data.devices@.len(),
        forall|d: int|
            #![trigger data@.devices[d]]
            #![trigger data.devices@[d]]
            0 <= d < data.devices@.len() ==> {
                &&& data@.devices[d] == data.devices@[d]@
                &&& data@.devices[d].name == data.devices@[d].name@
                &&& data@.devices[d].battery == data.devices@[d].battery
                &&& data@.devices[d].path == data.devices@[d].path@
                &&& data@.devices[d].connected == data.devices@[d].connected
                &&& data@.devices[d].paired == data.devices@[d].paired
            },
{
}

/// The view of a list of devices has a device for each, in their order.
pub proof fn law_devices_are_viewed_in_order(devices: Seq<BluetoothDevice>)
    ensures
        device_views(devices).len() == devices.len(),
        forall|d: int|
            0 <= d < devices.len() ==> #[trigger] device_views(devices)[d] == devices[d]@,
{
}

/// The view of a call has its paths and its value.
pub proof fn law_call_is_viewed_whole(call: DbusCall)
    ensures
        optional_call(Some(call)) == Some(call@),
        optional_call(None) is None,
        call matches DbusCall::SetPowered { adapter, value } ==> call@ == (CallView::SetPowered {
            adapter: adapter@,
            value,
        }),
        call matches DbusCall::StartDiscovery { adapter } ==> call@ == (CallView::StartDiscovery {
            adapter: adapter@,
        }),
        call matches DbusCall::StopDiscovery { adapter } ==> call@ == (CallView::StopDiscovery {
            adapter: adapter@,
        }),
        call matches DbusCall::RemoveDevice { adapter, device } ==> call@
            == (CallView::RemoveDevice { adapter: adapter@, device: device@ }),
        call matches DbusCall::Pair { device } ==> call@ == (CallView::Pair { device: device@ }),
        call matches DbusCall::Connect { device } ==> call@ == (CallView::Connect {
            device: device@,
        }),
        call matches DbusCall::Disconnect { device } ==> call@ == (CallView::Disconnect {
            device: device@,
        }),
{
}

/// The view of a command has the path of its device.
pub proof fn law_command_is_viewed_whole(command: BluetoothCommand)
    ensures
        command is Toggle <==> command@ is Toggle,
        command is StartDiscovery <==> command@ is StartDiscovery,
        command matches BluetoothCommand::PairDevice(path) ==> command@ == CommandView::PairDevice(
            path@,
        ),
        command matches BluetoothCommand::ConnectDevice(path) ==> command@
            == CommandView::ConnectDevice(path@),
        command matches BluetoothCommand::DisconnectDevice(path) ==> command@
            == CommandView::DisconnectDevice(path@),
        command matches BluetoothCommand::RemoveDevice(path) ==> command@
            == CommandView::RemoveDevice(path@),
{
}

/// The views of what a command does, of what comes of it and of how far it has come have the call,
/// the seconds, the objects and the snapshot.
pub proof fn law_task_parts_are_viewed_whole(
    action: TaskAction,
    outcome: TaskOutcome,
    progress: Progress,
    task: CommandTask,
)
    ensures
        optional_task(Some(task)) == Some(task@),
        optional_task(None) is None,
        action is Open <==> action@ is Open,
        action is Load <==> action@ is Load,
        action matches TaskAction::Call(call) ==> action@ == TaskActionView::Call(call@),
        action matches TaskAction::Sleep(seconds) ==> action@ == TaskActionView::Sleep(seconds),
        outcome is Done <==> outcome@ is Done,
        outcome is Failed <==> outcome@ is Failed,
        outcome matches TaskOutcome::Opened(bluetooth) ==> outcome@ == TaskOutcomeView::Opened(
            bluetooth@,
        ),
        outcome matches TaskOutcome::Loaded(data) ==> outcome@ == TaskOutcomeView::Loaded(data@),
        progress matches Progress::Pending(next) ==> progress@ == ProgressView::Pending(next@),
        progress matches Progress::Finished(data) ==> progress@ == ProgressView::Finished(data@),
{
}

/// The views of what comes of the listener's actions and of what it tells have the snapshot.
pub proof fn law_listener_parts_are_viewed_whole(outcome: Outcome, event: ServiceEvent)
    ensures
        optional_event(Some(event)) == Some(event@),
        optional_event(None) is None,
        outcome is Done <==> outcome@ is Done,
        outcome is Ended <==> outcome@ is Ended,
        outcome is Failed <==> outcome@ is Failed,
        outcome matches Outcome::Loaded(data) ==> outcome@ == OutcomeView::Loaded(data@),
        event matches ServiceEvent::Init(service) ==> event@ == EventView::Init(service@),
        event matches ServiceEvent::Update(data) ==> event@ == EventView::Update(data@),
{
}

/// The views of errors have the path of the device, the description and the bytes.
pub proof fn law_error_is_viewed_whole(
    property: PropertyError,
    rfkill: RfkillError,
    load: LoadError,
)
    ensures
        property is AdapterPowered <==> property@ is AdapterPowered,
        property matches PropertyError::DeviceAlias(path) ==> property@
            == PropertyErrorView::DeviceAlias(path@),
        property matches PropertyError::DeviceConnected(path) ==> property@
            == PropertyErrorView::DeviceConnected(path@),
        property matches PropertyError::DevicePaired(path) ==> property@
            == PropertyErrorView::DevicePaired(path@),
        property matches PropertyError::BatteryPercentage(path) ==> property@
            == PropertyErrorView::BatteryPercentage(path@),
        rfkill matches RfkillError::Run(description) ==> rfkill@ == RfkillErrorView::Run(
            description@,
        ),
        rfkill matches RfkillError::NotUtf8(error) ==> rfkill@ == RfkillErrorView::NotUtf8(
            rejected(error),
        ),
        load matches LoadError::Property(error) ==> load@ == LoadErrorView::Property(error@),
        load matches LoadError::Rfkill(error) ==> load@ == LoadErrorView::Rfkill(error@),
{
}

} // verus!
