//! What each command does, from its first action to the snapshot that it ends in.

use crate::calls::CallView;
use crate::commands::{
    request_call, task_of, task_run, task_trace, CommandView, ProgressView, TaskActionView,
    TaskOutcomeView, TaskView,
};
use crate::data::{BluetoothState, DataView};
use crate::objects::ObjectView;
use crate::readings::{
    first_adapter_at, law_adapter_calls_go_to_the_adapter, law_nothing_is_read_without_adapter,
    no_adapter,
};
use vstd::prelude::*;

verus! {

/// Only one thing is refused: to switch the adapter of a machine that has none.
pub proof fn law_when_nothing_is_set_off(data: DataView, command: CommandView)
    ensures
        task_of(data, command) is None <==> command is Toggle && data.state
            == BluetoothState::Unavailable,
{
}

/// The snapshot after a switch: active and inactive are exchanged, and nothing else differs.
pub open spec fn flipped(before: DataView, after: DataView) -> bool {
    &&& after.state == if before.state == BluetoothState::Active {
        BluetoothState::Inactive
    } else {
        BluetoothState::Active
    }
    &&& after.devices == before.devices
    &&& after.discovering == before.discovering
}

/// A toggle reads BlueZ's objects and then sends the first adapter the opposite of the shown state,
/// whatever the adapter says of itself. It ends with the new state exactly where the call was made,
/// and else in the snapshot that it began with.
pub proof fn law_toggle_sends_the_opposite(
    data: DataView,
    objects: Seq<ObjectView>,
    at: int,
    reply: TaskOutcomeView,
)
    requires
        data.state != BluetoothState::Unavailable,
        first_adapter_at(objects, at),
    ensures
        ({
            let task = task_of(data, CommandView::Toggle)->0;
            let end = task_run(task, seq![TaskOutcomeView::Opened(objects), reply]);
            &&& task_trace(task, seq![TaskOutcomeView::Opened(objects)]) == seq![
                TaskActionView::Open,
                TaskActionView::Call(
                    CallView::SetPowered {
                        adapter: objects[at].path,
                        value: data.state != BluetoothState::Active,
                    },
                ),
            ]
            &&& end is Finished
            &&& reply is Done ==> flipped(data, end->Finished_0)
            &&& reply !is Done ==> end->Finished_0 == data
        }),
{
    reveal_with_fuel(task_run, 3);
    reveal_with_fuel(task_trace, 2);
    law_adapter_calls_go_to_the_adapter(
        objects,
        at,
        data.state != BluetoothState::Active,
        Seq::empty(),
    );
    let task = task_of(data, CommandView::Toggle)->0;
    let outcomes = seq![TaskOutcomeView::Opened(objects), reply];
    assert(outcomes.drop_first() =~= seq![reply]);
    assert(seq![TaskOutcomeView::Opened(objects)].drop_first() =~= Seq::empty());
    assert(task_trace(task, seq![TaskOutcomeView::Opened(objects)]) =~= seq![
        TaskActionView::Open,
        TaskActionView::Call(
            CallView::SetPowered {
                adapter: objects[at].path,
                value: data.state != BluetoothState::Active,
            },
        ),
    ]);
}

/// A toggle makes no call where the adapter is gone, and then shows the new state. Where BlueZ's
/// objects cannot be read, it ends in the snapshot that it began with.
pub proof fn law_toggle_without_a_call(
    data: DataView,
    objects: Seq<ObjectView>,
    failed: TaskOutcomeView,
)
    requires
        data.state != BluetoothState::Unavailable,
        no_adapter(objects),
        failed !is Opened,
    ensures
        ({
            let task = task_of(data, CommandView::Toggle)->0;
            let end = task_run(task, seq![TaskOutcomeView::Opened(objects)]);
            &&& task_trace(task, seq![TaskOutcomeView::Opened(objects)]) == seq![
                TaskActionView::Open,
            ]
            &&& end is Finished
            &&& flipped(data, end->Finished_0)
            &&& task_trace(task, seq![failed]) == seq![TaskActionView::Open]
            &&& task_run(task, seq![failed]) == ProgressView::Finished(data)
        }),
{
    law_nothing_is_read_without_adapter(
        objects,
        data.state != BluetoothState::Active,
        Seq::empty(),
    );
}

/// The snapshot that a command ends in whose last action, taking a snapshot, had this outcome: the
/// one that was taken, or one without adapter and devices.
pub open spec fn ends_in(end: ProgressView, outcome: TaskOutcomeView) -> bool {
    &&& end is Finished
    &&& match outcome {
        TaskOutcomeView::Loaded(data) => end->Finished_0 == data,
        _ => {
            &&& end->Finished_0.state == BluetoothState::Unavailable
            &&& end->Finished_0.devices.len() == 0
            &&& !end->Finished_0.discovering
        },
    }
}

/// On any snapshot the command to look for devices reads BlueZ's objects, makes the first adapter
/// look for devices, waits for fifteen seconds, stops it, and ends in a new snapshot, whatever came
/// of the calls.
pub proof fn law_discovery_runs_for_a_while(
    data: DataView,
    objects: Seq<ObjectView>,
    at: int,
    started: TaskOutcomeView,
    slept: TaskOutcomeView,
    stopped: TaskOutcomeView,
    loaded: TaskOutcomeView,
)
    requires
        first_adapter_at(objects, at),
    ensures
        ({
            let task = task_of(data, CommandView::StartDiscovery)->0;
            let opened = TaskOutcomeView::Opened(objects);
            let adapter = objects[at].path;
            &&& task_trace(task, seq![opened, started, slept, stopped]) == seq![
                TaskActionView::Open,
                TaskActionView::Call(CallView::StartDiscovery { adapter }),
                TaskActionView::Sleep(15),
                TaskActionView::Call(CallView::StopDiscovery { adapter }),
                TaskActionView::Load,
            ]
            &&& ends_in(task_run(task, seq![opened, started, slept, stopped, loaded]), loaded)
        }),
{
    reveal_with_fuel(task_run, 6);
    reveal_with_fuel(task_trace, 5);
    law_adapter_calls_go_to_the_adapter(objects, at, true, Seq::empty());
    let task = task_of(data, CommandView::StartDiscovery)->0;
    let opened = TaskOutcomeView::Opened(objects);
    let adapter = objects[at].path;
    let four = seq![opened, started, slept, stopped];
    assert(four.drop_first() =~= seq![started, slept, stopped]);
    assert(seq![started, slept, stopped].drop_first() =~= seq![slept, stopped]);
    assert(seq![slept, stopped].drop_first() =~= seq![stopped]);
    assert(seq![stopped].drop_first() =~= Seq::empty());
    assert(task_trace(task, four) =~= seq![
        TaskActionView::Open,
        TaskActionView::Call(CallView::StartDiscovery { adapter }),
        TaskActionView::Sleep(15),
        TaskActionView::Call(CallView::StopDiscovery { adapter }),
        TaskActionView::Load,
    ]);
    let five = seq![opened, started, slept, stopped, loaded];
    assert(five.drop_first() =~= seq![started, slept, stopped, loaded]);
    assert(seq![started, slept, stopped, loaded].drop_first() =~= seq![slept, stopped, loaded]);
    assert(seq![slept, stopped, loaded].drop_first() =~= seq![stopped, loaded]);
    assert(seq![stopped, loaded].drop_first() =~= seq![loaded]);
}

/// Without an adapter the command to look for devices waits all the same and ends in a new
/// snapshot.
pub proof fn law_discovery_without_adapter(
    data: DataView,
    objects: Seq<ObjectView>,
    slept: TaskOutcomeView,
    loaded: TaskOutcomeView,
)
    requires
        no_adapter(objects),
    ensures
        ({
            let task = task_of(data, CommandView::StartDiscovery)->0;
            let opened = TaskOutcomeView::Opened(objects);
            &&& task_trace(task, seq![opened, slept]) == seq![
                TaskActionView::Open,
                TaskActionView::Sleep(15),
                TaskActionView::Load,
            ]
            &&& ends_in(task_run(task, seq![opened, slept, loaded]), loaded)
        }),
{
    reveal_with_fuel(task_run, 4);
    reveal_with_fuel(task_trace, 3);
    law_nothing_is_read_without_adapter(objects, true, Seq::empty());
    let task = task_of(data, CommandView::StartDiscovery)->0;
    let opened = TaskOutcomeView::Opened(objects);
    assert(seq![opened, slept].drop_first() =~= seq![slept]);
    assert(seq![slept].drop_first() =~= Seq::empty());
    assert(task_trace(task, seq![opened, slept]) =~= seq![
        TaskActionView::Open,
        TaskActionView::Sleep(15),
        TaskActionView::Load,
    ]);
    assert(seq![opened, slept, loaded].drop_first() =~= seq![slept, loaded]);
    assert(seq![slept, loaded].drop_first() =~= seq![loaded]);
}

/// Where BlueZ's objects cannot be read, every command but a toggle takes a snapshot at once, makes
/// no call, and ends in that snapshot.
pub proof fn law_unread_objects_lead_to_a_snapshot(
    data: DataView,
    command: CommandView,
    failed: TaskOutcomeView,
    loaded: TaskOutcomeView,
)
    requires
        command !is Toggle,
        failed !is Opened,
    ensures
        ({
            let task = task_of(data, command)->0;
            &&& task_trace(task, seq![failed]) == seq![TaskActionView::Open, TaskActionView::Load]
            &&& ends_in(task_run(task, seq![failed, loaded]), loaded)
        }),
{
    reveal_with_fuel(task_run, 3);
    reveal_with_fuel(task_trace, 2);
    let task = task_of(data, command)->0;
    assert(seq![failed].drop_first() =~= Seq::empty());
    assert(seq![failed, loaded].drop_first() =~= seq![loaded]);
    assert(task_trace(task, seq![failed]) =~= seq![TaskActionView::Open, TaskActionView::Load]);
}

/// The command asks for that call to the device at `path`.
pub open spec fn asks_for(command: CommandView, path: Seq<char>, call: CallView) -> bool {
    ||| command == CommandView::PairDevice(path) && call == CallView::Pair { device: path }
    ||| command == CommandView::ConnectDevice(path) && call == CallView::Connect { device: path }
    ||| command == CommandView::DisconnectDevice(path) && call == CallView::Disconnect {
        device: path,
    }
}

proof fn lemma_one_call(
    task: TaskView,
    objects: Seq<ObjectView>,
    call: CallView,
    called: TaskOutcomeView,
    loaded: TaskOutcomeView,
)
    requires
        task is OpenForDevice,
        request_call(
            objects,
            task->OpenForDevice_request,
            task->OpenForDevice_path,
        ) == Some(call),
    ensures
        task_trace(task, seq![TaskOutcomeView::Opened(objects), called]) == seq![
            TaskActionView::Open,
            TaskActionView::Call(call),
            TaskActionView::Load,
        ],
        ends_in(
            task_run(task, seq![TaskOutcomeView::Opened(objects), called, loaded]),
            loaded,
        ),
{
    reveal_with_fuel(task_run, 4);
    reveal_with_fuel(task_trace, 3);
    let opened = TaskOutcomeView::Opened(objects);
    assert(seq![opened, called].drop_first() =~= seq![called]);
    assert(seq![called].drop_first() =~= Seq::empty());
    assert(task_trace(task, seq![opened, called]) =~= seq![
        TaskActionView::Open,
        TaskActionView::Call(call),
        TaskActionView::Load,
    ]);
    assert(seq![opened, called, loaded].drop_first() =~= seq![called, loaded]);
    assert(seq![called, loaded].drop_first() =~= seq![loaded]);
}

/// On any snapshot, with or without an adapter, the commands to pair, to connect and to disconnect
/// read BlueZ's objects, make just that call to just that device, and end in a new snapshot,
/// whatever came of the call.
pub proof fn law_device_commands_make_their_call(
    data: DataView,
    command: CommandView,
    path: Seq<char>,
    call: CallView,
    objects: Seq<ObjectView>,
    called: TaskOutcomeView,
    loaded: TaskOutcomeView,
)
    requires
        asks_for(command, path, call),
    ensures
        ({
            let task = task_of(data, command)->0;
            let opened = TaskOutcomeView::Opened(objects);
            &&& task_trace(task, seq![opened, called]) == seq![
                TaskActionView::Open,
                TaskActionView::Call(call),
                TaskActionView::Load,
            ]
            &&& ends_in(task_run(task, seq![opened, called, loaded]), loaded)
        }),
{
    lemma_one_call(task_of(data, command)->0, objects, call, called, loaded);
}

/// On any snapshot the command to remove a device asks the first adapter to forget that device, and
/// ends in a new snapshot, whatever came of the call.
pub proof fn law_removal_is_asked_of_the_adapter(
    data: DataView,
    path: Seq<char>,
    objects: Seq<ObjectView>,
    at: int,
    called: TaskOutcomeView,
    loaded: TaskOutcomeView,
)
    requires
        first_adapter_at(objects, at),
    ensures
        ({
            let task = task_of(data, CommandView::RemoveDevice(path))->0;
            let opened = TaskOutcomeView::Opened(objects);
            &&& task_trace(task, seq![opened, called]) == seq![
                TaskActionView::Open,
                TaskActionView::Call(
                    CallView::RemoveDevice { adapter: objects[at].path, device: path },
                ),
                TaskActionView::Load,
            ]
            &&& ends_in(task_run(task, seq![opened, called, loaded]), loaded)
        }),
{
    law_adapter_calls_go_to_the_adapter(objects, at, true, path);
    lemma_one_call(
        task_of(data, CommandView::RemoveDevice(path))->0,
        objects,
        CallView::RemoveDevice { adapter: objects[at].path, device: path },
        called,
        loaded,
    );
}

/// Without an adapter the command to remove a device makes no call and ends in a new snapshot.
pub proof fn law_removal_without_adapter(
    data: DataView,
    path: Seq<char>,
    objects: Seq<ObjectView>,
    loaded: TaskOutcomeView,
)
    requires
        no_adapter(objects),
    ensures
        ({
            let task = task_of(data, CommandView::RemoveDevice(path))->0;
            let opened = TaskOutcomeView::Opened(objects);
            &&& task_trace(task, seq![opened]) == seq![TaskActionView::Open, TaskActionView::Load]
            &&& ends_in(task_run(task, seq![opened, loaded]), loaded)
        }),
{
    reveal_with_fuel(task_run, 3);
    reveal_with_fuel(task_trace, 2);
    law_nothing_is_read_without_adapter(objects, true, path);
    let task = task_of(data, CommandView::RemoveDevice(path))->0;
    let opened = TaskOutcomeView::Opened(objects);
    assert(seq![opened].drop_first() =~= Seq::empty());
    assert(seq![opened, loaded].drop_first() =~= seq![loaded]);
    assert(task_trace(task, seq![opened]) =~= seq![TaskActionView::Open, TaskActionView::Load]);
}

} // verus!
