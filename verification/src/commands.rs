//! Commands of the user: what each sets off, step by step, and the snapshot that it ends in.

use crate::calls::{
    power_call, remove_call, start_discovery_call, stop_discovery_call, CallView, DbusCall,
};
use crate::data::{unavailable_data, BluetoothData, BluetoothState, DataView};
use crate::dbus::{adapter_path, BluetoothDbus};
use crate::objects::ObjectView;
use crate::service::BluetoothService;
use vstd::prelude::*;

verus! {

/// For how many seconds devices are looked for.
pub const DISCOVERY_SECONDS: u64 = 15;

/// What the user asks for. A device is given by its path.
#[derive(Debug)]
pub enum BluetoothCommand {
    Toggle,
    StartDiscovery,
    PairDevice(String),
    ConnectDevice(String),
    DisconnectDevice(String),
    RemoveDevice(String),
}

/// What a [`BluetoothCommand`] stands for.
pub enum CommandView {
    Toggle,
    StartDiscovery,
    PairDevice(Seq<char>),
    ConnectDevice(Seq<char>),
    DisconnectDevice(Seq<char>),
    RemoveDevice(Seq<char>),
}

impl View for BluetoothCommand {
    type V = CommandView;

    open spec fn view(&self) -> CommandView {
        match *self {
            BluetoothCommand::Toggle => CommandView::Toggle,
            BluetoothCommand::StartDiscovery => CommandView::StartDiscovery,
            BluetoothCommand::PairDevice(path) => CommandView::PairDevice(path@),
            BluetoothCommand::ConnectDevice(path) => CommandView::ConnectDevice(path@),
            BluetoothCommand::DisconnectDevice(path) => CommandView::DisconnectDevice(path@),
            BluetoothCommand::RemoveDevice(path) => CommandView::RemoveDevice(path@),
        }
    }
}

impl Clone for BluetoothCommand {
    fn clone(&self) -> (copy: Self)
        ensures
            copy@ == self@,
    {
        match self {
            BluetoothCommand::Toggle => BluetoothCommand::Toggle,
            BluetoothCommand::StartDiscovery => BluetoothCommand::StartDiscovery,
            BluetoothCommand::PairDevice(path) => BluetoothCommand::PairDevice(path.clone()),
            BluetoothCommand::ConnectDevice(path) => BluetoothCommand::ConnectDevice(path.clone()),
            BluetoothCommand::DisconnectDevice(path) => BluetoothCommand::DisconnectDevice(
                path.clone(),
            ),
            BluetoothCommand::RemoveDevice(path) => BluetoothCommand::RemoveDevice(path.clone()),
        }
    }
}

/// What is asked of a single device.
#[derive(PartialEq, Eq, Structural, Debug, Clone, Copy)]
pub enum DeviceRequest {
    Pair,
    Connect,
    Disconnect,
    Remove,
}

/// A command on its way. Each variant waits for one thing to be done.
pub enum CommandTask {
    /// BlueZ's objects are to be read, to switch the adapter to `power`.
    OpenToToggle { data: BluetoothData, power: bool },
    /// The adapter is to be switched to `power`.
    Toggle { data: BluetoothData, power: bool, call: DbusCall },
    /// BlueZ's objects are to be read, to look for devices.
    OpenToDiscover,
    /// Looking for devices is to be started.
    StartDiscovery { bluetooth: BluetoothDbus, call: DbusCall },
    /// Devices are looked for.
    Discover { bluetooth: BluetoothDbus },
    /// Looking for devices is to be stopped.
    StopDiscovery { call: DbusCall },
    /// BlueZ's objects are to be read, for a request about a device.
    OpenForDevice { request: DeviceRequest, path: String },
    /// The request about a device is to be made.
    Request { call: DbusCall },
    /// A snapshot is to be taken.
    Refresh,
}

/// What a [`CommandTask`] stands for.
pub enum TaskView {
    OpenToToggle { data: DataView, power: bool },
    Toggle { data: DataView, power: bool, call: CallView },
    OpenToDiscover,
    StartDiscovery { objects: Seq<ObjectView>, call: CallView },
    Discover { objects: Seq<ObjectView> },
    StopDiscovery { call: CallView },
    OpenForDevice { request: DeviceRequest, path: Seq<char> },
    Request { call: CallView },
    Refresh,
}

impl View for CommandTask {
    type V = TaskView;

    open spec fn view(&self) -> TaskView {
        match *self {
            CommandTask::OpenToToggle { data, power } => TaskView::OpenToToggle {
                data: data@,
                power,
            },
            CommandTask::Toggle { data, power, call } => TaskView::Toggle {
                data: data@,
                power,
                call: call@,
            },
            CommandTask::OpenToDiscover => TaskView::OpenToDiscover,
            CommandTask::StartDiscovery { bluetooth, call } => TaskView::StartDiscovery {
                objects: bluetooth@,
                call: call@,
            },
            CommandTask::Discover { bluetooth } => TaskView::Discover { objects: bluetooth@ },
            CommandTask::StopDiscovery { call } => TaskView::StopDiscovery { call: call@ },
            CommandTask::OpenForDevice { request, path } => TaskView::OpenForDevice {
                request,
                path: path@,
            },
            CommandTask::Request { call } => TaskView::Request { call: call@ },
            CommandTask::Refresh => TaskView::Refresh,
        }
    }
}

/// What is to be done for a command.
#[derive(Debug)]
pub enum TaskAction {
    /// Read BlueZ's objects.
    Open,
    /// Make a call.
    Call(DbusCall),
    /// Wait for that many seconds.
    Sleep(u64),
    /// Take a snapshot.
    Load,
}

/// What a [`TaskAction`] stands for.
pub enum TaskActionView {
    Open,
    Call(CallView),
    Sleep(u64),
    Load,
}

impl View for TaskAction {
    type V = TaskActionView;

    open spec fn view(&self) -> TaskActionView {
        match *self {
            TaskAction::Open => TaskActionView::Open,
            TaskAction::Call(call) => TaskActionView::Call(call@),
            TaskAction::Sleep(seconds) => TaskActionView::Sleep(seconds),
            TaskAction::Load => TaskActionView::Load,
        }
    }
}

/// What came of an action.
pub enum TaskOutcome {
    /// BlueZ's objects were read.
    Opened(BluetoothDbus),
    /// A snapshot was taken.
    Loaded(BluetoothData),
    /// It was done.
    Done,
    /// It failed.
    Failed,
}

/// What a [`TaskOutcome`] stands for.
pub enum TaskOutcomeView {
    Opened(Seq<ObjectView>),
    Loaded(DataView),
    Done,
    Failed,
}

impl View for TaskOutcome {
    type V = TaskOutcomeView;

    open spec fn view(&self) -> TaskOutcomeView {
        match *self {
            TaskOutcome::Opened(bluetooth) => TaskOutcomeView::Opened(bluetooth@),
            TaskOutcome::Loaded(data) => TaskOutcomeView::Loaded(data@),
            TaskOutcome::Done => TaskOutcomeView::Done,
            TaskOutcome::Failed => TaskOutcomeView::Failed,
        }
    }
}

/// How far a command has come.
pub enum Progress {
    /// There is more to do.
    Pending(CommandTask),
    /// The command ended in this snapshot.
    Finished(BluetoothData),
}

/// What a [`Progress`] stands for.
pub enum ProgressView {
    Pending(TaskView),
    Finished(DataView),
}

impl View for Progress {
    type V = ProgressView;

    open spec fn view(&self) -> ProgressView {
        match *self {
            Progress::Pending(task) => ProgressView::Pending(task@),
            Progress::Finished(data) => ProgressView::Finished(data@),
        }
    }
}

/// What a command sets off on a service with this snapshot. Without an adapter there is nothing
/// to switch.
pub open spec fn task_of(data: DataView, command: CommandView) -> Option<TaskView> {
    match command {
        CommandView::Toggle => if data.state == BluetoothState::Unavailable {
            None
        } else {
            Some(
                TaskView::OpenToToggle { data, power: data.state != BluetoothState::Active },
            )
        },
        CommandView::StartDiscovery => Some(TaskView::OpenToDiscover),
        CommandView::PairDevice(path) => Some(
            TaskView::OpenForDevice { request: DeviceRequest::Pair, path },
        ),
        CommandView::ConnectDevice(path) => Some(
            TaskView::OpenForDevice { request: DeviceRequest::Connect, path },
        ),
        CommandView::DisconnectDevice(path) => Some(
            TaskView::OpenForDevice { request: DeviceRequest::Disconnect, path },
        ),
        CommandView::RemoveDevice(path) => Some(
            TaskView::OpenForDevice { request: DeviceRequest::Remove, path },
        ),
    }
}

/// The call that a request about a device makes, if any.
pub open spec fn request_call(
    objects: Seq<ObjectView>,
    request: DeviceRequest,
    path: Seq<char>,
) -> Option<CallView> {
    match request {
        DeviceRequest::Pair => Some(CallView::Pair { device: path }),
        DeviceRequest::Connect => Some(CallView::Connect { device: path }),
        DeviceRequest::Disconnect => Some(CallView::Disconnect { device: path }),
        DeviceRequest::Remove => remove_call(objects, path),
    }
}

/// The action that a task waits for.
pub open spec fn task_action(task: TaskView) -> TaskActionView {
    match task {
        TaskView::OpenToToggle { .. } => TaskActionView::Open,
        TaskView::Toggle { call, .. } => TaskActionView::Call(call),
        TaskView::OpenToDiscover => TaskActionView::Open,
        TaskView::StartDiscovery { call, .. } => TaskActionView::Call(call),
        TaskView::Discover { .. } => TaskActionView::Sleep(DISCOVERY_SECONDS),
        TaskView::StopDiscovery { call } => TaskActionView::Call(call),
        TaskView::OpenForDevice { .. } => TaskActionView::Open,
        TaskView::Request { call } => TaskActionView::Call(call),
        TaskView::Refresh => TaskActionView::Load,
    }
}

/// The snapshot once the adapter has been switched: only the state differs.
pub open spec fn switched(data: DataView, power: bool) -> DataView {
    DataView {
        state: if power {
            BluetoothState::Active
        } else {
            BluetoothState::Inactive
        },
        ..data
    }
}

/// Where an outcome leads.
///
/// A failed switch leaves the snapshot as it was. All other commands end in a new snapshot,
/// whatever failed before, and in the unavailable one where that cannot be taken. An outcome that
/// the action cannot have counts as a failure.
pub open spec fn advanced(task: TaskView, outcome: TaskOutcomeView) -> ProgressView {
    match task {
        TaskView::OpenToToggle { data, power } => match outcome {
            TaskOutcomeView::Opened(objects) => match power_call(objects, power) {
                Some(call) => ProgressView::Pending(TaskView::Toggle { data, power, call }),
                None => ProgressView::Finished(switched(data, power)),
            },
            _ => ProgressView::Finished(data),
        },
        TaskView::Toggle { data, power, .. } => match outcome {
            TaskOutcomeView::Done => ProgressView::Finished(switched(data, power)),
            _ => ProgressView::Finished(data),
        },
        TaskView::OpenToDiscover => match outcome {
            TaskOutcomeView::Opened(objects) => match start_discovery_call(objects) {
                Some(call) => ProgressView::Pending(TaskView::StartDiscovery { objects, call }),
                None => ProgressView::Pending(TaskView::Discover { objects }),
            },
            _ => ProgressView::Pending(TaskView::Refresh),
        },
        TaskView::StartDiscovery { objects, .. } => ProgressView::Pending(
            TaskView::Discover { objects },
        ),
        TaskView::Discover { objects } => match stop_discovery_call(objects) {
            Some(call) => ProgressView::Pending(TaskView::StopDiscovery { call }),
            None => ProgressView::Pending(TaskView::Refresh),
        },
        TaskView::StopDiscovery { .. } => ProgressView::Pending(TaskView::Refresh),
        TaskView::OpenForDevice { request, path } => match outcome {
            TaskOutcomeView::Opened(objects) => match request_call(objects, request, path) {
                Some(call) => ProgressView::Pending(TaskView::Request { call }),
                None => ProgressView::Pending(TaskView::Refresh),
            },
            _ => ProgressView::Pending(TaskView::Refresh),
        },
        TaskView::Request { .. } => ProgressView::Pending(TaskView::Refresh),
        TaskView::Refresh => match outcome {
            TaskOutcomeView::Loaded(data) => ProgressView::Finished(data),
            _ => ProgressView::Finished(unavailable_data()),
        },
    }
}

/// The task in an optional task.
pub open spec fn optional_task(task: Option<CommandTask>) -> Option<TaskView> {
    match task {
        Some(task) => Some(task@),
        None => None,
    }
}

impl BluetoothService {
    /// What a command sets off.
    pub fn command(&self, command: BluetoothCommand) -> (task: Option<CommandTask>)
        ensures
            optional_task(task) == task_of(self@, command@),
    {
        match command {
            BluetoothCommand::Toggle => {
                if self.state == BluetoothState::Unavailable {
                    None
                } else {
                    let data: BluetoothData = (**self).clone();
                    let power: bool = data.state != BluetoothState::Active;
                    Some(CommandTask::OpenToToggle { data, power })
                }
            },
            BluetoothCommand::StartDiscovery => Some(CommandTask::OpenToDiscover),
            BluetoothCommand::PairDevice(path) => Some(
                CommandTask::OpenForDevice { request: DeviceRequest::Pair, path },
            ),
            BluetoothCommand::ConnectDevice(path) => Some(
                CommandTask::OpenForDevice { request: DeviceRequest::Connect, path },
            ),
            BluetoothCommand::DisconnectDevice(path) => Some(
                CommandTask::OpenForDevice { request: DeviceRequest::Disconnect, path },
            ),
            BluetoothCommand::RemoveDevice(path) => Some(
                CommandTask::OpenForDevice { request: DeviceRequest::Remove, path },
            ),
        }
    }
}

fn set_state(data: BluetoothData, power: bool) -> (changed: BluetoothData)
    ensures
        changed@ == switched(data@, power),
{
    let state: BluetoothState = if power {
        BluetoothState::Active
    } else {
        BluetoothState::Inactive
    };
    BluetoothData { state, devices: data.devices, discovering: data.discovering }
}

impl CommandTask {
    /// The action that the task waits for.
    pub fn action(&self) -> (action: TaskAction)
        ensures
            action@ == task_action(self@),
    {
        match self {
            CommandTask::OpenToToggle { .. } => TaskAction::Open,
            CommandTask::Toggle { call, .. } => TaskAction::Call(call.clone()),
            CommandTask::OpenToDiscover => TaskAction::Open,
            CommandTask::StartDiscovery { call, .. } => TaskAction::Call(call.clone()),
            CommandTask::Discover { .. } => TaskAction::Sleep(DISCOVERY_SECONDS),
            CommandTask::StopDiscovery { call } => TaskAction::Call(call.clone()),
            CommandTask::OpenForDevice { .. } => TaskAction::Open,
            CommandTask::Request { call } => TaskAction::Call(call.clone()),
            CommandTask::Refresh => TaskAction::Load,
        }
    }

    /// Where the outcome of the task's action leads. An outcome that the action cannot have counts
    /// as a failure.
    pub fn advance(self, outcome: TaskOutcome) -> (progress: Progress)
        ensures
            progress@ == advanced(self@, outcome@),
    {
        match self {
            CommandTask::OpenToToggle { data, power } => match outcome {
                TaskOutcome::Opened(bluetooth) => match bluetooth.set_powered(power) {
                    Some(call) => Progress::Pending(CommandTask::Toggle { data, power, call }),
                    None => Progress::Finished(set_state(data, power)),
                },
                _ => Progress::Finished(data),
            },
            CommandTask::Toggle { data, power, .. } => match outcome {
                TaskOutcome::Done => Progress::Finished(set_state(data, power)),
                _ => Progress::Finished(data),
            },
            CommandTask::OpenToDiscover => match outcome {
                TaskOutcome::Opened(bluetooth) => match bluetooth.start_discovery() {
                    Some(call) => Progress::Pending(
                        CommandTask::StartDiscovery { bluetooth, call },
                    ),
                    None => Progress::Pending(CommandTask::Discover { bluetooth }),
                },
                _ => Progress::Pending(CommandTask::Refresh),
            },
            CommandTask::StartDiscovery { bluetooth, .. } => Progress::Pending(
                CommandTask::Discover { bluetooth },
            ),
            CommandTask::Discover { bluetooth } => match bluetooth.stop_discovery() {
                Some(call) => Progress::Pending(CommandTask::StopDiscovery { call }),
                None => Progress::Pending(CommandTask::Refresh),
            },
            CommandTask::StopDiscovery { .. } => Progress::Pending(CommandTask::Refresh),
            CommandTask::OpenForDevice { request, path } => match outcome {
                TaskOutcome::Opened(bluetooth) => {
                    let device: &str = path.as_str();
                    let call: Option<DbusCall> = match request {
                        DeviceRequest::Pair => Some(bluetooth.pair_device(device)),
                        DeviceRequest::Connect => Some(bluetooth.connect_device(device)),
                        DeviceRequest::Disconnect => Some(bluetooth.disconnect_device(device)),
                        DeviceRequest::Remove => bluetooth.remove_device(device),
                    };
                    match call {
                        Some(call) => Progress::Pending(CommandTask::Request { call }),
                        None => Progress::Pending(CommandTask::Refresh),
                    }
                },
                _ => Progress::Pending(CommandTask::Refresh),
            },
            CommandTask::Request { .. } => Progress::Pending(CommandTask::Refresh),
            CommandTask::Refresh => match outcome {
                TaskOutcome::Loaded(data) => Progress::Finished(data),
                _ => Progress::Finished(BluetoothData::unavailable()),
            },
        }
    }
}

/// Where a run of outcomes leads. What comes after the end is passed over.
pub open spec fn task_run(task: TaskView, outcomes: Seq<TaskOutcomeView>) -> ProgressView
    decreases outcomes.len(),
{
    if outcomes.len() == 0 {
        ProgressView::Pending(task)
    } else {
        match advanced(task, outcomes[0]) {
            ProgressView::Pending(next) => task_run(next, outcomes.drop_first()),
            ProgressView::Finished(data) => ProgressView::Finished(data),
        }
    }
}

/// All that is done in a run of outcomes, and what is to be done after it.
pub open spec fn task_trace(task: TaskView, outcomes: Seq<TaskOutcomeView>) -> Seq<TaskActionView>
    decreases outcomes.len(),
{
    if outcomes.len() == 0 {
        seq![task_action(task)]
    } else {
        match advanced(task, outcomes[0]) {
            ProgressView::Pending(next) => seq![task_action(task)] + task_trace(
                next,
                outcomes.drop_first(),
            ),
            ProgressView::Finished(_) => seq![task_action(task)],
        }
    }
}

/// The task switches the adapter.
pub open spec fn switches(task: TaskView) -> bool {
    task is OpenToToggle || task is Toggle
}

/// How many more outcomes a task takes at most.
pub open spec fn steps_left(task: TaskView) -> nat {
    match task {
        TaskView::OpenToToggle { .. } => 2,
        TaskView::Toggle { .. } => 1,
        TaskView::OpenToDiscover => 5,
        TaskView::StartDiscovery { .. } => 4,
        TaskView::Discover { .. } => 3,
        TaskView::StopDiscovery { .. } => 2,
        TaskView::OpenForDevice { .. } => 3,
        TaskView::Request { .. } => 2,
        TaskView::Refresh => 1,
    }
}

/// Every command ends, whatever comes of its actions: after two actions where it switches the
/// adapter, after three where it is about a device, and after five where it looks for devices.
pub proof fn law_every_command_ends(task: TaskView, outcomes: Seq<TaskOutcomeView>)
    requires
        outcomes.len() >= steps_left(task),
    ensures
        task_run(task, outcomes) is Finished,
    decreases outcomes.len(),
{
    match advanced(task, outcomes[0]) {
        ProgressView::Pending(next) => {
            law_every_command_ends(next, outcomes.drop_first());
        },
        ProgressView::Finished(_) => {},
    }
}

/// A command that does not switch the adapter ends in the snapshot that was taken last, or in
/// the unavailable one where that failed: whatever failed before leaves no trace.
pub proof fn law_commands_end_in_a_snapshot(task: TaskView, outcomes: Seq<TaskOutcomeView>)
    requires
        !switches(task),
        task_run(task, outcomes) is Finished,
    ensures
        exists|i: int|
            #![trigger outcomes[i]]
            {
                &&& 0 <= i < outcomes.len()
                &&& task_run(task, outcomes.take(i)) == ProgressView::Pending(TaskView::Refresh)
                &&& task_run(task, outcomes) == ProgressView::Finished(
                    match outcomes[i] {
                        TaskOutcomeView::Loaded(data) => data,
                        _ => unavailable_data(),
                    },
                )
            },
    decreases outcomes.len(),
{
    let rest = outcomes.drop_first();
    match advanced(task, outcomes[0]) {
        ProgressView::Pending(next) => {
            law_commands_end_in_a_snapshot(next, rest);
            let i = choose|i: int|
                #![trigger rest[i]]
                {
                    &&& 0 <= i < rest.len()
                    &&& task_run(next, rest.take(i)) == ProgressView::Pending(TaskView::Refresh)
                    &&& task_run(next, rest) == ProgressView::Finished(
                        match rest[i] {
                            TaskOutcomeView::Loaded(data) => data,
                            _ => unavailable_data(),
                        },
                    )
                };
            assert(outcomes.take(i + 1).drop_first() =~= rest.take(i));
            assert(outcomes.take(i + 1)[0] == outcomes[0]);
            assert(outcomes[i + 1] == rest[i]);
        },
        ProgressView::Finished(_) => {
            assert(outcomes.take(0) =~= Seq::empty());
            assert(outcomes[0] == outcomes[0]);
        },
    }
}

/// Looking for devices is stopped after fifteen seconds on the adapter on which it was started,
/// and a snapshot follows, whatever comes of the calls.
pub proof fn law_discovery_is_stopped(
    objects: Seq<ObjectView>,
    adapter: Seq<char>,
    started: TaskOutcomeView,
    slept: TaskOutcomeView,
    stopped: TaskOutcomeView,
)
    requires
        adapter_path(objects) == Some(adapter),
    ensures
        task_trace(
            TaskView::OpenToDiscover,
            seq![TaskOutcomeView::Opened(objects), started, slept, stopped],
        ) == seq![
            TaskActionView::Open,
            TaskActionView::Call(CallView::StartDiscovery { adapter }),
            TaskActionView::Sleep(15),
            TaskActionView::Call(CallView::StopDiscovery { adapter }),
            TaskActionView::Load,
        ],
{
    reveal_with_fuel(task_trace, 5);
    let outcomes = seq![TaskOutcomeView::Opened(objects), started, slept, stopped];
    assert(outcomes.drop_first() =~= seq![started, slept, stopped]);
    assert(outcomes.drop_first().drop_first() =~= seq![slept, stopped]);
    assert(outcomes.drop_first().drop_first().drop_first() =~= seq![stopped]);
    assert(outcomes.drop_first().drop_first().drop_first().drop_first() =~= Seq::empty());
    assert(task_trace(TaskView::OpenToDiscover, outcomes) =~= seq![
        TaskActionView::Open,
        TaskActionView::Call(CallView::StartDiscovery { adapter }),
        TaskActionView::Sleep(15),
        TaskActionView::Call(CallView::StopDiscovery { adapter }),
        TaskActionView::Load,
    ]);
}

/// The call acts on an adapter.
pub open spec fn needs_adapter(call: CallView) -> bool {
    call is SetPowered || call is StartDiscovery || call is StopDiscovery || call is RemoveDevice
}

/// Without an adapter no command makes a call that needs one.
pub proof fn law_no_adapter_no_adapter_call(
    data: DataView,
    command: CommandView,
    outcomes: Seq<TaskOutcomeView>,
)
    requires
        task_of(data, command) is Some,
        forall|i: int|
            0 <= i < outcomes.len() ==> match #[trigger] outcomes[i] {
                TaskOutcomeView::Opened(objects) => adapter_path(objects) is None,
                _ => true,
            },
    ensures
        forall|i: int|
            0 <= i < task_trace(task_of(data, command)->0, outcomes).len()
                ==> match #[trigger] task_trace(task_of(data, command)->0, outcomes)[i] {
                TaskActionView::Call(call) => !needs_adapter(call),
                _ => true,
            },
{
    lemma_no_adapter_call(task_of(data, command)->0, outcomes);
}

proof fn lemma_no_adapter_call(task: TaskView, outcomes: Seq<TaskOutcomeView>)
    requires
        match task_action(task) {
            TaskActionView::Call(call) => !needs_adapter(call),
            _ => true,
        },
        task matches TaskView::Discover { objects } ==> adapter_path(objects) is None,
        task matches TaskView::StartDiscovery { objects, .. } ==> adapter_path(objects) is None,
        forall|i: int|
            0 <= i < outcomes.len() ==> match #[trigger] outcomes[i] {
                TaskOutcomeView::Opened(objects) => adapter_path(objects) is None,
                _ => true,
            },
    ensures
        forall|i: int|
            0 <= i < task_trace(task, outcomes).len() ==> match #[trigger] task_trace(
                task,
                outcomes,
            )[i] {
                TaskActionView::Call(call) => !needs_adapter(call),
                _ => true,
            },
    decreases outcomes.len(),
{
    if outcomes.len() > 0 {
        let rest = outcomes.drop_first();
        assert forall|i: int| 0 <= i < rest.len() implies match #[trigger] rest[i] {
            TaskOutcomeView::Opened(objects) => adapter_path(objects) is None,
            _ => true,
        } by {
            assert(rest[i] == outcomes[i + 1]);
        }
        match advanced(task, outcomes[0]) {
            ProgressView::Pending(next) => {
                lemma_no_adapter_call(next, rest);
            },
            ProgressView::Finished(_) => {},
        }
    }
}

/// A toggle exchanges active and inactive where BlueZ could be read and then the adapter switched,
/// or no adapter was left to switch; else it ends in the snapshot that it began with. The devices
/// and the rest stay in any case.
pub proof fn law_toggle_changes_the_state_alone(data: DataView, outcomes: Seq<TaskOutcomeView>)
    requires
        data.state != BluetoothState::Unavailable,
        outcomes.len() >= 2,
    ensures
        task_of(data, CommandView::Toggle) is Some,
        ({
            let end = task_run(task_of(data, CommandView::Toggle)->0, outcomes);
            let succeeds = match outcomes[0] {
                TaskOutcomeView::Opened(objects) => adapter_path(objects) is None
                    || outcomes[1] is Done,
                _ => false,
            };
            end == ProgressView::Finished(
                if succeeds {
                    switched(data, data.state != BluetoothState::Active)
                } else {
                    data
                },
            )
        }),
{
    reveal_with_fuel(task_run, 3);
}

/// Toggling twice, both times with success, gives back the snapshot.
pub proof fn law_toggle_twice_is_nothing(
    data: DataView,
    first: Seq<ObjectView>,
    second: Seq<ObjectView>,
)
    requires
        data.state != BluetoothState::Unavailable,
    ensures
        ({
            let once = task_run(
                task_of(data, CommandView::Toggle)->0,
                seq![TaskOutcomeView::Opened(first), TaskOutcomeView::Done],
            );
            &&& once matches ProgressView::Finished(toggled)
            &&& toggled.state != data.state
            &&& task_of(toggled, CommandView::Toggle) matches Some(again)
            &&& task_run(again, seq![TaskOutcomeView::Opened(second), TaskOutcomeView::Done])
                == ProgressView::Finished(data)
        }),
{
    reveal_with_fuel(task_run, 3);
    let outcomes = seq![TaskOutcomeView::Opened(first), TaskOutcomeView::Done];
    assert(outcomes.drop_first()[0] == TaskOutcomeView::Done);
    let outcomes = seq![TaskOutcomeView::Opened(second), TaskOutcomeView::Done];
    assert(outcomes.drop_first()[0] == TaskOutcomeView::Done);
}

} // verus!
