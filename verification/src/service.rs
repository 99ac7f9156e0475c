//! The service: its snapshot, and how a snapshot is taken.

use crate::data::{BluetoothData, BluetoothState, DataView};
use crate::dbus::{adapter_state, devices, discovering, BluetoothDbus};
use crate::error::{PropertyError, PropertyErrorView};
use crate::objects::ObjectView;
use crate::rfkill::{soft_block, IoFailure, RfkillError, RfkillErrorView};
use vstd::prelude::*;

verus! {

/// The service, with its latest snapshot.
#[derive(Debug)]
pub struct BluetoothService {
    data: BluetoothData,
}

impl View for BluetoothService {
    type V = DataView;

    closed spec fn view(&self) -> DataView {
        self.data@
    }
}

impl Clone for BluetoothService {
    fn clone(&self) -> (copy: Self)
        ensures
            copy@ == self@,
    {
        BluetoothService { data: self.data.clone() }
    }
}

impl core::ops::Deref for BluetoothService {
    type Target = BluetoothData;

    fn deref(&self) -> (data: &BluetoothData)
        ensures
            data@ == self@,
    {
        &self.data
    }
}

/// Why no snapshot could be taken.
#[derive(Debug)]
pub enum LoadError {
    Property(PropertyError),
    Rfkill(RfkillError),
}

/// What a [`LoadError`] stands for.
pub enum LoadErrorView {
    Property(PropertyErrorView),
    Rfkill(RfkillErrorView),
}

impl View for LoadError {
    type V = LoadErrorView;

    open spec fn view(&self) -> LoadErrorView {
        match *self {
            LoadError::Property(error) => LoadErrorView::Property(error@),
            LoadError::Rfkill(error) => LoadErrorView::Rfkill(error@),
        }
    }
}

/// The state to show: a soft block turns an active adapter inactive and changes nothing else.
pub open spec fn shown_state(state: BluetoothState, soft_blocked: bool) -> BluetoothState {
    if state == BluetoothState::Active && soft_blocked {
        BluetoothState::Inactive
    } else {
        state
    }
}

/// The snapshot of `objects`. Where several things are wrong, the state of the adapter is
/// reported before the soft block, and the soft block before the devices.
pub open spec fn snapshot(
    objects: Seq<ObjectView>,
    rfkill: Result<Vec<u8>, IoFailure>,
) -> Result<DataView, LoadErrorView> {
    match adapter_state(objects) {
        Err(error) => Err(LoadErrorView::Property(error)),
        Ok(state) => match soft_block(rfkill) {
            Err(error) => Err(LoadErrorView::Rfkill(error)),
            Ok(soft_blocked) => match devices(objects) {
                Err(error) => Err(LoadErrorView::Property(error)),
                Ok(devices) => Ok(
                    DataView {
                        state: shown_state(state, soft_blocked),
                        devices,
                        discovering: discovering(objects),
                    },
                ),
            },
        },
    }
}

/// A snapshot that lacks only the soft block.
pub struct PendingData {
    bluetooth: BluetoothDbus,
    state: BluetoothState,
}

impl View for PendingData {
    type V = Seq<ObjectView>;

    closed spec fn view(&self) -> Seq<ObjectView> {
        self.bluetooth@
    }
}

impl PendingData {
    #[verifier::type_invariant]
    spec fn well_formed(self) -> bool {
        adapter_state(self.bluetooth@) == Ok::<_, PropertyErrorView>(self.state)
    }

    /// Completes the snapshot. `rfkill` is what came of `rfkill list bluetooth`.
    pub fn finish(self, rfkill: Result<Vec<u8>, IoFailure>) -> (data: Result<
        BluetoothData,
        LoadError,
    >)
        ensures
            match data {
                Ok(data) => snapshot(self@, rfkill) == Ok::<_, LoadErrorView>(data@),
                Err(error) => snapshot(self@, rfkill) == Err::<DataView, _>(error@),
            },
    {
        proof {
            use_type_invariant(&self);
        }
        let soft_blocked: bool = match BluetoothService::check_rfkill_soft_block(rfkill) {
            Ok(soft_blocked) => soft_blocked,
            Err(error) => return Err(LoadError::Rfkill(error)),
        };
        let state: BluetoothState = match self.state {
            BluetoothState::Active if soft_blocked => BluetoothState::Inactive,
            state => state,
        };
        match self.bluetooth.devices() {
            Ok(devices) => Ok(
                BluetoothData { state, devices, discovering: self.bluetooth.discovering() },
            ),
            Err(error) => Err(LoadError::Property(error)),
        }
    }
}

impl BluetoothService {
    /// A service with its first snapshot.
    pub fn new(data: BluetoothData) -> (service: Self)
        ensures
            service@ == data@,
    {
        BluetoothService { data }
    }

    /// Starts a snapshot of BlueZ's objects. The soft block is asked for only where the state of
    /// the adapter could be read.
    pub fn initialize_data(bluetooth: BluetoothDbus) -> (pending: Result<PendingData, LoadError>)
        ensures
            match pending {
                Ok(pending) => pending@ == bluetooth@ && adapter_state(bluetooth@) is Ok,
                Err(error) => adapter_state(bluetooth@) matches Err(fault) && error@
                    == LoadErrorView::Property(fault),
            },
    {
        match bluetooth.state() {
            Ok(state) => Ok(PendingData { bluetooth, state }),
            Err(error) => Err(LoadError::Property(error)),
        }
    }

    /// Takes over a new snapshot.
    pub fn update(&mut self, event: BluetoothData)
        ensures
            final(self)@ == event@,
    {
        self.data = event;
    }
}

} // verus!
