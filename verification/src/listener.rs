//! The listener: connects, takes the first snapshot, and takes another with every change.

use crate::data::{BluetoothData, DataView};
use crate::service::BluetoothService;
use vstd::prelude::*;

verus! {

/// Where the listener stands.
#[derive(PartialEq, Eq, Structural, Debug, Clone, Copy)]
pub enum State {
    /// Nothing has been done.
    Init,
    /// The system bus is connected, and there is no snapshot yet.
    Connected,
    /// There was a first snapshot, and changes are not listened to.
    Active,
    /// Changes are listened to.
    Listening,
    /// A change was seen, and a snapshot is due.
    Refreshing,
    /// Listening is given up.
    Error,
}

/// What the listener does next.
#[derive(PartialEq, Eq, Structural, Debug, Clone, Copy)]
pub enum Action {
    /// Connect to the system bus.
    Connect,
    /// Take a snapshot.
    Load,
    /// Start listening to changes.
    Subscribe,
    /// Wait for the next change.
    Await,
    /// Wait for ever.
    Rest,
}

/// What came of an action.
#[derive(Debug)]
pub enum Outcome {
    /// It was done.
    Done,
    /// A snapshot was taken.
    Loaded(BluetoothData),
    /// There are no more changes to wait for.
    Ended,
    /// It failed.
    Failed,
}

/// What an [`Outcome`] stands for.
pub enum OutcomeView {
    Done,
    Loaded(DataView),
    Ended,
    Failed,
}

impl View for Outcome {
    type V = OutcomeView;

    open spec fn view(&self) -> OutcomeView {
        match *self {
            Outcome::Done => OutcomeView::Done,
            Outcome::Loaded(data) => OutcomeView::Loaded(data@),
            Outcome::Ended => OutcomeView::Ended,
            Outcome::Failed => OutcomeView::Failed,
        }
    }
}

/// What the listener tells the program.
#[derive(Debug)]
pub enum ServiceEvent {
    /// The service is there.
    Init(BluetoothService),
    /// There is a new snapshot.
    Update(BluetoothData),
}

/// What a [`ServiceEvent`] stands for.
pub enum EventView {
    Init(DataView),
    Update(DataView),
}

impl View for ServiceEvent {
    type V = EventView;

    open spec fn view(&self) -> EventView {
        match *self {
            ServiceEvent::Init(service) => EventView::Init(service@),
            ServiceEvent::Update(data) => EventView::Update(data@),
        }
    }
}

/// The event in an optional event.
pub open spec fn optional_event(event: Option<ServiceEvent>) -> Option<EventView> {
    match event {
        Some(event) => Some(event@),
        None => None,
    }
}

/// What is done in a state.
pub open spec fn action_in(state: State) -> Action {
    match state {
        State::Init => Action::Connect,
        State::Connected => Action::Load,
        State::Active => Action::Subscribe,
        State::Listening => Action::Await,
        State::Refreshing => Action::Load,
        State::Error => Action::Rest,
    }
}

/// The outcome is one that the action can have. Waiting for ever has none.
pub open spec fn answers(outcome: OutcomeView, action: Action) -> bool {
    match action {
        Action::Connect | Action::Subscribe => outcome is Done || outcome is Failed,
        Action::Load => outcome is Loaded || outcome is Failed,
        Action::Await => outcome is Done || outcome is Ended,
        Action::Rest => false,
    }
}

/// Where an outcome leads, and what the program is told.
///
/// What goes wrong before changes are listened to is final. A snapshot that fails later is
/// passed over, and once the changes end, listening starts anew. An outcome that the action
/// cannot have is final as well.
pub open spec fn step(state: State, outcome: OutcomeView) -> (State, Option<EventView>) {
    match (state, outcome) {
        (State::Init, OutcomeView::Done) => (State::Connected, None),
        (State::Connected, OutcomeView::Loaded(data)) => (
            State::Active,
            Some(EventView::Init(data)),
        ),
        (State::Active, OutcomeView::Done) => (State::Listening, None),
        (State::Listening, OutcomeView::Done) => (State::Refreshing, None),
        (State::Listening, OutcomeView::Ended) => (State::Active, None),
        (State::Refreshing, OutcomeView::Loaded(data)) => (
            State::Listening,
            Some(EventView::Update(data)),
        ),
        (State::Refreshing, OutcomeView::Failed) => (State::Listening, None),
        _ => (State::Error, None),
    }
}

impl State {
    /// What is done in this state.
    pub fn action(&self) -> (action: Action)
        ensures
            action == action_in(*self),
    {
        match self {
            State::Init => Action::Connect,
            State::Connected => Action::Load,
            State::Active => Action::Subscribe,
            State::Listening => Action::Await,
            State::Refreshing => Action::Load,
            State::Error => Action::Rest,
        }
    }
}

impl BluetoothService {
    /// One step of the listener: where the outcome of the state's action leads, and what the
    /// program is told. An outcome that the action cannot have counts as a failure that is final.
    pub fn start_listening(state: State, outcome: Outcome) -> (next: (State, Option<ServiceEvent>))
        ensures
            (next.0, optional_event(next.1)) == step(state, outcome@),
    {
        match (state, outcome) {
            (State::Init, Outcome::Done) => (State::Connected, None),
            (State::Connected, Outcome::Loaded(data)) => (
                State::Active,
                Some(ServiceEvent::Init(BluetoothService::new(data))),
            ),
            (State::Active, Outcome::Done) => (State::Listening, None),
            (State::Listening, Outcome::Done) => (State::Refreshing, None),
            (State::Listening, Outcome::Ended) => (State::Active, None),
            (State::Refreshing, Outcome::Loaded(data)) => (
                State::Listening,
                Some(ServiceEvent::Update(data)),
            ),
            (State::Refreshing, Outcome::Failed) => (State::Listening, None),
            _ => (State::Error, None),
        }
    }
}

/// Where a run of outcomes leads, and all that the program is told on the way.
pub open spec fn run(state: State, outcomes: Seq<OutcomeView>) -> (State, Seq<EventView>)
    decreases outcomes.len(),
{
    if outcomes.len() == 0 {
        (state, Seq::empty())
    } else {
        let (before, told) = run(state, outcomes.drop_last());
        let (after, event) = step(before, outcomes.last());
        match event {
            Some(event) => (after, told.push(event)),
            None => (after, told),
        }
    }
}

/// Each outcome is one that the action of its moment can have.
pub open spec fn answered(state: State, outcomes: Seq<OutcomeView>) -> bool {
    forall|i: int|
        0 <= i < outcomes.len() ==> #[trigger] answers(
            outcomes[i],
            action_in(run(state, outcomes.take(i)).0),
        )
}

/// The snapshots among the outcomes, in their order.
pub open spec fn snapshots(outcomes: Seq<OutcomeView>) -> Seq<DataView>
    decreases outcomes.len(),
{
    if outcomes.len() == 0 {
        Seq::empty()
    } else {
        match outcomes.last() {
            OutcomeView::Loaded(data) => snapshots(outcomes.drop_last()).push(data),
            _ => snapshots(outcomes.drop_last()),
        }
    }
}

/// The snapshot that an event carries.
pub open spec fn carried(event: EventView) -> DataView {
    match event {
        EventView::Init(data) => data,
        EventView::Update(data) => data,
    }
}

/// The program is told of the service once, first of all, and of new snapshots only after that;
/// before it is told, no change is listened to.
pub proof fn law_init_comes_first_and_once(outcomes: Seq<OutcomeView>)
    ensures
        ({
            let (state, told) = run(State::Init, outcomes);
            &&& forall|i: int|
                0 <= i < told.len() ==> ((#[trigger] told[i]) is Init <==> i == 0)
            &&& told.len() == 0 ==> state == State::Init || state == State::Connected || state
                == State::Error
            &&& told.len() > 0 ==> state != State::Init && state != State::Connected
        }),
    decreases outcomes.len(),
{
    if outcomes.len() > 0 {
        law_init_comes_first_and_once(outcomes.drop_last());
    }
}

/// What is done after an outcome, and what the program is told of it. After connecting a snapshot is
/// taken. The first snapshot is told as the service and followed by subscribing to changes, and
/// without it the listener rests for good. Each change is followed by a snapshot, which is told as an
/// update, and waiting goes on whether it was taken or not. When the changes end, they are
/// subscribed to again. Anything else makes the listener rest for good, and nothing else is told.
pub proof fn law_what_follows_an_outcome(outcomes: Seq<OutcomeView>)
    requires
        outcomes.len() > 0,
    ensures
        action_in(run(State::Init, Seq::empty()).0) == Action::Connect,
        ({
            let (before, told_before) = run(State::Init, outcomes.drop_last());
            let (after, told) = run(State::Init, outcomes);
            let first = told_before.len() == 0;
            &&& action_in(after) == match (action_in(before), outcomes.last()) {
                (Action::Connect, OutcomeView::Done) => Action::Load,
                (Action::Load, OutcomeView::Loaded(_)) => if first {
                    Action::Subscribe
                } else {
                    Action::Await
                },
                (Action::Load, OutcomeView::Failed) => if first {
                    Action::Rest
                } else {
                    Action::Await
                },
                (Action::Subscribe, OutcomeView::Done) => Action::Await,
                (Action::Await, OutcomeView::Done) => Action::Load,
                (Action::Await, OutcomeView::Ended) => Action::Subscribe,
                _ => Action::Rest,
            }
            &&& told == match (action_in(before), outcomes.last()) {
                (Action::Load, OutcomeView::Loaded(data)) => told_before.push(
                    if first {
                        EventView::Init(data)
                    } else {
                        EventView::Update(data)
                    },
                ),
                _ => told_before,
            }
        }),
{
    law_init_comes_first_and_once(outcomes.drop_last());
    law_init_comes_first_and_once(outcomes);
}

/// With a connection and any first snapshot the program is told of the service, and the listener
/// goes on to subscribe to changes and to wait for them.
pub proof fn law_first_snapshot_leads_to_listening(data: DataView)
    ensures
        run(State::Init, seq![OutcomeView::Done, OutcomeView::Loaded(data)]) == (
            State::Active,
            seq![EventView::Init(data)],
        ),
        run(State::Init, seq![OutcomeView::Done, OutcomeView::Loaded(data), OutcomeView::Done])
            == (State::Listening, seq![EventView::Init(data)]),
{
    reveal_with_fuel(run, 4);
    let two = seq![OutcomeView::Done, OutcomeView::Loaded(data)];
    let three = seq![OutcomeView::Done, OutcomeView::Loaded(data), OutcomeView::Done];
    assert(two.drop_last() =~= seq![OutcomeView::Done]);
    assert(seq![OutcomeView::Done].drop_last() =~= Seq::empty());
    assert(three.drop_last() =~= two);
    assert(Seq::<EventView>::empty().push(EventView::Init(data)) =~= seq![EventView::Init(data)]);
}

/// While changes are listened to, each change is followed by a snapshot, any snapshot that is taken
/// is told, and listening goes on either way.
pub proof fn law_every_change_is_followed(data: DataView)
    ensures
        action_in(run(State::Listening, seq![OutcomeView::Done]).0) == Action::Load,
        run(State::Listening, seq![OutcomeView::Done, OutcomeView::Loaded(data)]) == (
            State::Listening,
            seq![EventView::Update(data)],
        ),
        run(State::Listening, seq![OutcomeView::Done, OutcomeView::Failed]) == (
            State::Listening,
            Seq::<EventView>::empty(),
        ),
{
    reveal_with_fuel(run, 3);
    assert(seq![OutcomeView::Done].drop_last() =~= Seq::empty());
    assert(seq![OutcomeView::Done, OutcomeView::Loaded(data)].drop_last() =~= seq![
        OutcomeView::Done,
    ]);
    assert(seq![OutcomeView::Done, OutcomeView::Failed].drop_last() =~= seq![OutcomeView::Done]);
    assert(Seq::<EventView>::empty().push(EventView::Update(data)) =~= seq![
        EventView::Update(data),
    ]);
}

/// The listener gives up exactly where connecting fails, the first snapshot fails or subscribing to
/// changes fails.
pub proof fn law_when_listening_is_given_up(outcomes: Seq<OutcomeView>)
    requires
        answered(State::Init, outcomes),
    ensures
        run(State::Init, outcomes).0 == State::Error <==> exists|i: int|
            #![trigger outcomes[i]]
            {
                let (before, told) = run(State::Init, outcomes.take(i));
                &&& 0 <= i < outcomes.len()
                &&& outcomes[i] is Failed
                &&& action_in(before) == Action::Connect || action_in(before) == Action::Subscribe
                    || action_in(before) == Action::Load && told.len() == 0
            },
{
    let last = outcomes.len() - 1;
    if outcomes.len() > 0 {
        assert(outcomes.take(last) =~= outcomes.drop_last());
        assert(answers(outcomes[last], action_in(run(State::Init, outcomes.take(last)).0)));
        law_what_follows_an_outcome(outcomes);
    }
    if exists|i: int|
        #![trigger outcomes[i]]
        {
            let (before, told) = run(State::Init, outcomes.take(i));
            &&& 0 <= i < outcomes.len()
            &&& outcomes[i] is Failed
            &&& action_in(before) == Action::Connect || action_in(before) == Action::Subscribe
                || action_in(before) == Action::Load && told.len() == 0
        } {
        let i = choose|i: int|
            #![trigger outcomes[i]]
            {
                let (before, told) = run(State::Init, outcomes.take(i));
                &&& 0 <= i < outcomes.len()
                &&& outcomes[i] is Failed
                &&& action_in(before) == Action::Connect || action_in(before) == Action::Subscribe
                    || action_in(before) == Action::Load && told.len() == 0
            };
        let through = outcomes.take(i + 1);
        assert(through.drop_last() =~= outcomes.take(i));
        assert(through.last() == outcomes[i]);
        law_what_follows_an_outcome(through);
        assert(run(State::Init, through).0 == State::Error);
        if i < last {
            assert(answers(outcomes[i + 1], action_in(run(State::Init, outcomes.take(i + 1)).0)));
        }
    }
}

/// Once the listener has given up, nothing revives it and nothing more is told.
pub proof fn law_error_is_final(outcomes: Seq<OutcomeView>)
    ensures
        run(State::Error, outcomes) == (State::Error, Seq::<EventView>::empty()),
    decreases outcomes.len(),
{
    if outcomes.len() > 0 {
        law_error_is_final(outcomes.drop_last());
    }
}

/// Every snapshot that is taken is told, in order, and nothing else is.
pub proof fn law_every_snapshot_is_told(outcomes: Seq<OutcomeView>)
    requires
        answered(State::Init, outcomes),
    ensures
        run(State::Init, outcomes).1.map_values(|event: EventView| carried(event)) == snapshots(
            outcomes,
        ),
    decreases outcomes.len(),
{
    if outcomes.len() > 0 {
        let before = outcomes.drop_last();
        let (state, told) = run(State::Init, before);
        assert(before =~= outcomes.take(outcomes.len() - 1));
        assert(answers(
            outcomes[outcomes.len() - 1],
            action_in(run(State::Init, outcomes.take(outcomes.len() - 1)).0),
        ));
        assert forall|i: int| 0 <= i < before.len() implies #[trigger] answers(
            before[i],
            action_in(run(State::Init, before.take(i)).0),
        ) by {
            assert(before.take(i) =~= outcomes.take(i));
            assert(answers(outcomes[i], action_in(run(State::Init, outcomes.take(i)).0)));
        }
        law_every_snapshot_is_told(before);
        match step(state, outcomes.last()).1 {
            Some(event) => {
                assert(told.push(event).map_values(|event: EventView| carried(event))
                    =~= told.map_values(|event: EventView| carried(event)).push(carried(event)));
            },
            None => {},
        }
    } else {
        assert(run(State::Init, outcomes).1.map_values(|event: EventView| carried(event))
            =~= snapshots(outcomes));
    }
}

/// A service that takes over all that the program is told shows the snapshot that was taken last.
pub proof fn law_service_shows_the_last_snapshot(outcomes: Seq<OutcomeView>)
    requires
        answered(State::Init, outcomes),
        snapshots(outcomes).len() > 0,
    ensures
        run(State::Init, outcomes).1.len() > 0,
        carried(run(State::Init, outcomes).1.last()) == snapshots(outcomes).last(),
{
    law_every_snapshot_is_told(outcomes);
    let told = run(State::Init, outcomes).1;
    assert(told.len() == told.map_values(|event: EventView| carried(event)).len());
    assert(told.map_values(|event: EventView| carried(event)).last() == carried(told.last()));
}

/// While changes are listened to, only a failure to start listening again gives up: no failing
/// snapshot does.
pub proof fn law_listening_survives_failures(outcomes: Seq<OutcomeView>)
    requires
        answered(State::Listening, outcomes),
        forall|i: int|
            0 <= i < outcomes.len() && run(State::Listening, outcomes.take(i)).0 == State::Active
                ==> (#[trigger] outcomes[i]) !is Failed,
    ensures
        run(State::Listening, outcomes).0 == State::Active || run(State::Listening, outcomes).0
            == State::Listening || run(State::Listening, outcomes).0 == State::Refreshing,
    decreases outcomes.len(),
{
    if outcomes.len() > 0 {
        let before = outcomes.drop_last();
        let last = outcomes.len() - 1;
        assert(before =~= outcomes.take(last));
        assert(answers(outcomes[last], action_in(run(State::Listening, outcomes.take(last)).0)));
        assert forall|i: int| 0 <= i < before.len() implies #[trigger] answers(
            before[i],
            action_in(run(State::Listening, before.take(i)).0),
        ) by {
            assert(before.take(i) =~= outcomes.take(i));
            assert(answers(outcomes[i], action_in(run(State::Listening, outcomes.take(i)).0)));
        }
        assert forall|i: int|
            0 <= i < before.len() && run(State::Listening, before.take(i)).0
                == State::Active implies (#[trigger] before[i]) !is Failed by {
            assert(before.take(i) =~= outcomes.take(i));
            assert(outcomes[i] == before[i]);
        }
        law_listening_survives_failures(before);
        assert(outcomes[last] == outcomes.last());
    }
}

} // verus!
