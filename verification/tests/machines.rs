use bluetooth::calls::DbusCall;
use bluetooth::commands::{BluetoothCommand, CommandTask, Progress, TaskAction, TaskOutcome};
use bluetooth::data::{BluetoothData, BluetoothState};
use bluetooth::dbus::BluetoothDbus;
use bluetooth::listener::{Action, Outcome, ServiceEvent, State};
use bluetooth::objects::{InterfaceProperties, Interfaces, ManagedObjects};
use bluetooth::service::BluetoothService;

fn data(state: BluetoothState) -> BluetoothData {
    BluetoothData { state, devices: vec![], discovering: true }
}

fn with_adapter() -> BluetoothDbus {
    let mut interfaces = Interfaces::new();
    interfaces.insert("org.bluez.Adapter1".to_string(), InterfaceProperties::new());
    let mut objects = ManagedObjects::new();
    objects.insert("/org/bluez/hci0".to_string(), interfaces);
    BluetoothDbus::new(objects)
}

fn without_adapter() -> BluetoothDbus {
    BluetoothDbus::new(ManagedObjects::new())
}

fn set_off(state: BluetoothState, command: BluetoothCommand) -> CommandTask {
    match BluetoothService::new(data(state)).command(command) {
        Some(task) => task,
        None => panic!(),
    }
}

fn pending(task: CommandTask, outcome: TaskOutcome) -> CommandTask {
    match task.advance(outcome) {
        Progress::Pending(task) => task,
        Progress::Finished(_) => panic!(),
    }
}

fn finished(task: CommandTask, outcome: TaskOutcome) -> BluetoothData {
    match task.advance(outcome) {
        Progress::Finished(data) => data,
        Progress::Pending(_) => panic!(),
    }
}

#[test]
fn a_listener_connects_loads_and_follows() {
    let state = State::Init;
    assert_eq!(state.action(), Action::Connect);
    let (state, event) = BluetoothService::start_listening(state, Outcome::Done);
    assert_eq!(state, State::Connected);
    assert!(event.is_none());
    assert_eq!(state.action(), Action::Load);
    let loaded = Outcome::Loaded(data(BluetoothState::Active));
    let (state, event) = BluetoothService::start_listening(state, loaded);
    assert_eq!(state, State::Active);
    assert!(
        matches!(event, Some(ServiceEvent::Init(service)) if service.state == BluetoothState::Active)
    );
    assert_eq!(state.action(), Action::Subscribe);
    let (state, event) = BluetoothService::start_listening(state, Outcome::Done);
    assert_eq!(state, State::Listening);
    assert!(event.is_none());
    assert_eq!(state.action(), Action::Await);
    let (state, event) = BluetoothService::start_listening(state, Outcome::Done);
    assert_eq!(state, State::Refreshing);
    assert!(event.is_none());
    assert_eq!(state.action(), Action::Load);
    let loaded = Outcome::Loaded(data(BluetoothState::Inactive));
    let (state, event) = BluetoothService::start_listening(state, loaded);
    assert_eq!(state, State::Listening);
    assert!(
        matches!(event, Some(ServiceEvent::Update(data)) if data.state == BluetoothState::Inactive)
    );
}

#[test]
fn a_service_shows_the_snapshot_that_was_taken_last() {
    let mut state = State::Init;
    let mut shown: Option<BluetoothService> = None;
    for outcome in [
        Outcome::Done,
        Outcome::Loaded(data(BluetoothState::Inactive)),
        Outcome::Done,
        Outcome::Done,
        Outcome::Loaded(data(BluetoothState::Active)),
        Outcome::Done,
        Outcome::Failed,
    ] {
        let (next, event) = BluetoothService::start_listening(state, outcome);
        state = next;
        match event {
            Some(ServiceEvent::Init(service)) => shown = Some(service),
            Some(ServiceEvent::Update(data)) => {
                if let Some(service) = &mut shown {
                    service.update(data);
                }
            }
            None => {}
        }
    }
    assert_eq!(state, State::Listening);
    assert_eq!(shown.map(|service| service.state), Some(BluetoothState::Active));
}

#[test]
fn a_failing_snapshot_does_not_stop_the_listener() {
    let (state, event) = BluetoothService::start_listening(State::Refreshing, Outcome::Failed);
    assert_eq!(state, State::Listening);
    assert!(event.is_none());
    let (state, event) = BluetoothService::start_listening(state, Outcome::Ended);
    assert_eq!(state, State::Active);
    assert!(event.is_none());
}

#[test]
fn a_failure_before_listening_is_final() {
    for state in [State::Init, State::Connected, State::Active] {
        let (state, event) = BluetoothService::start_listening(state, Outcome::Failed);
        assert_eq!(state, State::Error);
        assert!(event.is_none());
        assert_eq!(state.action(), Action::Rest);
    }
}

#[test]
fn an_outcome_that_does_not_fit_is_a_failure() {
    let loaded = Outcome::Loaded(data(BluetoothState::Active));
    let (state, event) = BluetoothService::start_listening(State::Init, loaded);
    assert_eq!(state, State::Error);
    assert!(event.is_none());

    let task = set_off(BluetoothState::Active, BluetoothCommand::Toggle);
    assert_eq!(finished(task, TaskOutcome::Done).state, BluetoothState::Active);
    let task = set_off(BluetoothState::Active, BluetoothCommand::StartDiscovery);
    let task = pending(task, TaskOutcome::Done);
    assert!(matches!(task.action(), TaskAction::Load));
    assert_eq!(finished(task, TaskOutcome::Done).state, BluetoothState::Unavailable);
}

#[test]
fn nothing_is_toggled_without_an_adapter() {
    let service = BluetoothService::new(data(BluetoothState::Unavailable));
    assert!(service.command(BluetoothCommand::Toggle).is_none());
    assert!(service.command(BluetoothCommand::StartDiscovery).is_some());
}

#[test]
fn a_toggle_switches_the_adapter() {
    for (before, after, power) in [
        (BluetoothState::Active, BluetoothState::Inactive, false),
        (BluetoothState::Inactive, BluetoothState::Active, true),
    ] {
        let task = set_off(before, BluetoothCommand::Toggle);
        assert!(matches!(task.action(), TaskAction::Open));
        let task = pending(task, TaskOutcome::Opened(with_adapter()));
        assert!(matches!(
            task.action(),
            TaskAction::Call(DbusCall::SetPowered { adapter, value })
                if adapter == "/org/bluez/hci0" && value == power
        ));
        let end = finished(task, TaskOutcome::Done);
        assert_eq!(end.state, after);
        assert!(end.discovering);
    }
}

#[test]
fn toggling_twice_changes_nothing() {
    let task = set_off(BluetoothState::Active, BluetoothCommand::Toggle);
    let task = pending(task, TaskOutcome::Opened(with_adapter()));
    let once = finished(task, TaskOutcome::Done);
    assert_eq!(once.state, BluetoothState::Inactive);
    let task = BluetoothService::new(once).command(BluetoothCommand::Toggle).unwrap_or_else(|| panic!());
    let task = pending(task, TaskOutcome::Opened(with_adapter()));
    let twice = finished(task, TaskOutcome::Done);
    assert_eq!(twice.state, BluetoothState::Active);
    assert!(twice.discovering);
}

#[test]
fn a_failed_toggle_changes_nothing() {
    let task = set_off(BluetoothState::Active, BluetoothCommand::Toggle);
    assert_eq!(finished(task, TaskOutcome::Failed).state, BluetoothState::Active);
    let task = set_off(BluetoothState::Active, BluetoothCommand::Toggle);
    let task = pending(task, TaskOutcome::Opened(with_adapter()));
    assert_eq!(finished(task, TaskOutcome::Failed).state, BluetoothState::Active);
}

#[test]
fn a_toggle_of_an_adapter_that_is_gone_succeeds() {
    let task = set_off(BluetoothState::Active, BluetoothCommand::Toggle);
    let end = finished(task, TaskOutcome::Opened(without_adapter()));
    assert_eq!(end.state, BluetoothState::Inactive);
}

#[test]
fn discovery_is_stopped_after_a_while() {
    for outcome in [|| TaskOutcome::Done, || TaskOutcome::Failed] {
        let task = set_off(BluetoothState::Active, BluetoothCommand::StartDiscovery);
        assert!(matches!(task.action(), TaskAction::Open));
        let task = pending(task, TaskOutcome::Opened(with_adapter()));
        assert!(matches!(
            task.action(),
            TaskAction::Call(DbusCall::StartDiscovery { adapter }) if adapter == "/org/bluez/hci0"
        ));
        let task = pending(task, outcome());
        assert!(matches!(task.action(), TaskAction::Sleep(15)));
        let task = pending(task, TaskOutcome::Done);
        assert!(matches!(
            task.action(),
            TaskAction::Call(DbusCall::StopDiscovery { adapter }) if adapter == "/org/bluez/hci0"
        ));
        let task = pending(task, outcome());
        assert!(matches!(task.action(), TaskAction::Load));
        let end = finished(task, TaskOutcome::Loaded(data(BluetoothState::Active)));
        assert_eq!(end.state, BluetoothState::Active);
    }
}

#[test]
fn discovery_without_an_adapter_only_waits() {
    let task = set_off(BluetoothState::Unavailable, BluetoothCommand::StartDiscovery);
    let task = pending(task, TaskOutcome::Opened(without_adapter()));
    assert!(matches!(task.action(), TaskAction::Sleep(15)));
    let task = pending(task, TaskOutcome::Done);
    assert!(matches!(task.action(), TaskAction::Load));
}

#[test]
fn discovery_that_cannot_be_opened_loads_at_once() {
    let task = set_off(BluetoothState::Active, BluetoothCommand::StartDiscovery);
    let task = pending(task, TaskOutcome::Failed);
    assert!(matches!(task.action(), TaskAction::Load));
}

#[test]
fn device_requests_name_the_device() {
    let path = || "/org/bluez/hci0/dev_1".to_string();
    let call = |command: BluetoothCommand| {
        let task = set_off(BluetoothState::Active, command.clone());
        let task = pending(task, TaskOutcome::Opened(with_adapter()));
        task.action()
    };
    assert!(matches!(
        call(BluetoothCommand::PairDevice(path())),
        TaskAction::Call(DbusCall::Pair { device }) if device == path()
    ));
    assert!(matches!(
        call(BluetoothCommand::ConnectDevice(path())),
        TaskAction::Call(DbusCall::Connect { device }) if device == path()
    ));
    assert!(matches!(
        call(BluetoothCommand::DisconnectDevice(path())),
        TaskAction::Call(DbusCall::Disconnect { device }) if device == path()
    ));
    assert!(matches!(
        call(BluetoothCommand::RemoveDevice(path())),
        TaskAction::Call(DbusCall::RemoveDevice { adapter, device })
            if adapter == "/org/bluez/hci0" && device == path()
    ));
}

#[test]
fn a_device_is_not_removed_without_an_adapter() {
    let task = set_off(
        BluetoothState::Unavailable,
        BluetoothCommand::RemoveDevice("/org/bluez/hci0/dev_1".to_string()),
    );
    let task = pending(task, TaskOutcome::Opened(without_adapter()));
    assert!(matches!(task.action(), TaskAction::Load));
}

#[test]
fn a_request_ends_in_a_new_snapshot() {
    for outcome in [|| TaskOutcome::Done, || TaskOutcome::Failed] {
        let task = set_off(
            BluetoothState::Active,
            BluetoothCommand::PairDevice("/org/bluez/hci0/dev_1".to_string()),
        );
        let task = pending(task, TaskOutcome::Opened(without_adapter()));
        let task = pending(task, outcome());
        assert!(matches!(task.action(), TaskAction::Load));
        let end = finished(task, TaskOutcome::Loaded(data(BluetoothState::Inactive)));
        assert_eq!(end.state, BluetoothState::Inactive);
        assert!(end.discovering);
    }
}

#[test]
fn a_request_without_a_new_snapshot_ends_unavailable() {
    let task = set_off(
        BluetoothState::Active,
        BluetoothCommand::ConnectDevice("/org/bluez/hci0/dev_1".to_string()),
    );
    let task = pending(task, TaskOutcome::Failed);
    let end = finished(task, TaskOutcome::Failed);
    assert_eq!(end.state, BluetoothState::Unavailable);
    assert!(end.devices.is_empty());
    assert!(!end.discovering);
}
