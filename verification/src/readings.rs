//! What a snapshot says of the machine, in terms of BlueZ's property maps and of what the `rfkill`
//! tool printed.

use crate::calls::{
    power_call, remove_call, start_discovery_call, stop_discovery_call, CallView,
};
use crate::data::{BluetoothState, DataView, DeviceView};
use crate::dbus::{
    adapter_path, adapter_properties, adapter_state, devices, discovering, powered,
};
use crate::error::PropertyErrorView;
use crate::laws::{described, is_device, law_first_adapter_is_used};
use crate::objects::{distinct_paths, ObjectView, PropertiesView};
use crate::rfkill::{
    soft_block, IoFailure, RfkillErrorView, RFKILL_BINARY, RFKILL_DEVICE, RFKILL_KIND, RFKILL_LIST,
};
use crate::service::{snapshot, LoadErrorView};
use crate::text::law_text_is_found_between_others;
use crate::values::PropertyView;
use vstd::prelude::*;
use vstd::utf8::{decode_utf8, valid_utf8};

verus! {

/// The property is there and is that boolean.
pub open spec fn has_bool(properties: PropertiesView, name: Seq<char>, value: bool) -> bool {
    properties.contains_key(name) && properties[name] == PropertyView::Bool(value)
}

/// The property is there and is that byte.
pub open spec fn has_byte(properties: PropertiesView, name: Seq<char>, value: u8) -> bool {
    properties.contains_key(name) && properties[name] == PropertyView::Byte(value)
}

/// The property is there and is that text.
pub open spec fn has_text(properties: PropertiesView, name: Seq<char>, value: Seq<char>) -> bool {
    properties.contains_key(name) && properties[name] == PropertyView::Text(value)
}

/// The property is there and is a boolean.
pub open spec fn is_bool(properties: PropertiesView, name: Seq<char>) -> bool {
    properties.contains_key(name) && properties[name] is Bool
}

/// The object is an adapter, and none before it is.
pub open spec fn first_adapter_at(objects: Seq<ObjectView>, at: int) -> bool {
    &&& 0 <= at < objects.len()
    &&& objects[at].interfaces.contains_key("org.bluez.Adapter1"@)
    &&& forall|j: int|
        0 <= j < at ==> !(#[trigger] objects[j]).interfaces.contains_key("org.bluez.Adapter1"@)
}

/// None of the objects is an adapter.
pub open spec fn no_adapter(objects: Seq<ObjectView>) -> bool {
    forall|j: int|
        0 <= j < objects.len() ==> !(#[trigger] objects[j]).interfaces.contains_key(
            "org.bluez.Adapter1"@,
        )
}

/// The properties of an adapter object.
pub open spec fn adapter_of(object: ObjectView) -> PropertiesView {
    object.interfaces["org.bluez.Adapter1"@]
}

/// Where no object is an adapter, nothing is read of one and no call is made to one.
pub proof fn law_nothing_is_read_without_adapter(
    objects: Seq<ObjectView>,
    value: bool,
    device: Seq<char>,
)
    requires
        no_adapter(objects),
    ensures
        adapter_path(objects) is None,
        adapter_properties(objects) is None,
        powered(objects) is None,
        !discovering(objects),
        adapter_state(objects) == Ok::<_, PropertyErrorView>(BluetoothState::Unavailable),
        power_call(objects, value) is None,
        start_discovery_call(objects) is None,
        stop_discovery_call(objects) is None,
        remove_call(objects, device) is None,
    decreases objects.len(),
{
    if objects.len() > 0 {
        assert(!objects[0].interfaces.contains_key("org.bluez.Adapter1"@));
        let rest = objects.drop_first();
        assert forall|j: int| 0 <= j < rest.len() implies !(
        #[trigger] rest[j]).interfaces.contains_key("org.bluez.Adapter1"@) by {
            assert(rest[j] == objects[j + 1]);
        }
        law_nothing_is_read_without_adapter(rest, value, device);
    }
}

/// What is read of the adapter is read of the first object that is one: its path, whether its
/// `Powered` is true or false, and whether its `Discovering` is true.
pub proof fn law_adapter_is_read(objects: Seq<ObjectView>, at: int)
    requires
        distinct_paths(objects),
        first_adapter_at(objects, at),
    ensures
        adapter_path(objects) == Some(objects[at].path),
        adapter_properties(objects) == Some(adapter_of(objects[at])),
        forall|value: bool|
            powered(objects) == Some(value) <==> #[trigger] has_bool(
                adapter_of(objects[at]),
                "Powered"@,
                value,
            ),
        discovering(objects) <==> has_bool(adapter_of(objects[at]), "Discovering"@, true),
        adapter_state(objects) == Ok::<_, PropertyErrorView>(BluetoothState::Active) <==> has_bool(
            adapter_of(objects[at]),
            "Powered"@,
            true,
        ),
        adapter_state(objects) == Ok::<_, PropertyErrorView>(BluetoothState::Inactive)
            <==> has_bool(adapter_of(objects[at]), "Powered"@, false),
        adapter_state(objects) == Err::<BluetoothState, _>(PropertyErrorView::AdapterPowered)
            <==> !is_bool(adapter_of(objects[at]), "Powered"@),
{
    law_first_adapter_is_used(objects);
    assert(adapter_path(objects) == Some(objects[at].path));
}

/// Calls to the adapter go to the first object that is one, and carry what they were given.
pub proof fn law_adapter_calls_go_to_the_adapter(
    objects: Seq<ObjectView>,
    at: int,
    value: bool,
    device: Seq<char>,
)
    requires
        first_adapter_at(objects, at),
    ensures
        adapter_path(objects) == Some(objects[at].path),
        power_call(objects, value) == Some(
            CallView::SetPowered { adapter: objects[at].path, value },
        ),
        start_discovery_call(objects) == Some(
            CallView::StartDiscovery { adapter: objects[at].path },
        ),
        stop_discovery_call(objects) == Some(
            CallView::StopDiscovery { adapter: objects[at].path },
        ),
        remove_call(objects, device) == Some(
            CallView::RemoveDevice { adapter: objects[at].path, device },
        ),
    decreases objects.len(),
{
    if at > 0 {
        let rest = objects.drop_first();
        assert(!objects[0].interfaces.contains_key("org.bluez.Adapter1"@));
        assert forall|j: int| 0 <= j < at - 1 implies !(
        #[trigger] rest[j]).interfaces.contains_key("org.bluez.Adapter1"@) by {
            assert(rest[j] == objects[j + 1]);
        }
        assert(rest[at - 1] == objects[at]);
        law_adapter_calls_go_to_the_adapter(rest, at - 1, value, device);
    }
}

proof fn lemma_adapter_or_none(objects: Seq<ObjectView>)
    ensures
        no_adapter(objects) || exists|at: int| first_adapter_at(objects, at),
    decreases objects.len(),
{
    if objects.len() > 0 {
        let before = objects.drop_last();
        let last = objects.len() - 1;
        lemma_adapter_or_none(before);
        if no_adapter(before) {
            assert forall|j: int| 0 <= j < last implies !(
            #[trigger] objects[j]).interfaces.contains_key("org.bluez.Adapter1"@) by {
                assert(before[j] == objects[j]);
            }
            if objects[last].interfaces.contains_key("org.bluez.Adapter1"@) {
                assert(first_adapter_at(objects, last));
            }
        } else {
            let at = choose|at: int| first_adapter_at(before, at);
            assert forall|j: int| 0 <= j < at implies !(
            #[trigger] objects[j]).interfaces.contains_key("org.bluez.Adapter1"@) by {
                assert(before[j] == objects[j]);
            }
            assert(first_adapter_at(objects, at));
        }
    }
}

/// The tool printed a text with a soft block in it.
pub open spec fn says_blocked(rfkill: Result<Vec<u8>, IoFailure>) -> bool {
    match rfkill {
        Ok(output) => valid_utf8(output@) && exists|before: Seq<char>, after: Seq<char>|
            decode_utf8(output@) == #[trigger] (before + "Soft blocked: yes"@ + after),
        Err(_) => false,
    }
}

/// What the tool did cannot be understood: it printed no text, or it failed though it exists.
pub open spec fn unreadable(rfkill: Result<Vec<u8>, IoFailure>) -> bool {
    match rfkill {
        Ok(output) => !valid_utf8(output@),
        Err(failure) => failure is Other,
    }
}

/// A machine is soft blocked exactly where the tool printed so, and a machine without the tool is
/// not. It is not known where the tool failed otherwise or printed no text, and the error then
/// tells how it failed or what it printed.
pub proof fn law_soft_block_is_what_the_tool_says(rfkill: Result<Vec<u8>, IoFailure>)
    ensures
        soft_block(rfkill) == Ok::<_, RfkillErrorView>(true) <==> says_blocked(rfkill),
        soft_block(rfkill) is Err <==> unreadable(rfkill),
        rfkill matches Err(IoFailure::Other(description)) ==> soft_block(rfkill)
            == Err::<bool, _>(RfkillErrorView::Run(description@)),
        rfkill matches Ok(output) ==> !valid_utf8(output@) ==> soft_block(rfkill)
            == Err::<bool, _>(RfkillErrorView::NotUtf8(output@)),
{
    match rfkill {
        Ok(output) => {
            law_text_is_found_between_others(decode_utf8(output@), "Soft blocked: yes"@);
        },
        Err(_) => {},
    }
}

/// The soft block is asked of `rfkill list bluetooth`, and its changes are seen at `/dev/rfkill`.
pub proof fn law_where_the_soft_block_is_asked_for()
    ensures
        RFKILL_BINARY@ == "rfkill"@,
        RFKILL_LIST@ == "list"@,
        RFKILL_KIND@ == "bluetooth"@,
        RFKILL_DEVICE@ == "/dev/rfkill"@,
{
}

/// The device has, field by field, what the properties of the object say: its alias as the name,
/// whether it is connected and paired, and of a connected device that has a battery the charge.
pub open spec fn shows(found: DeviceView, object: ObjectView) -> bool {
    let properties = object.interfaces["org.bluez.Device1"@];
    &&& object.interfaces.contains_key("org.bluez.Device1"@)
    &&& found.path == object.path
    &&& has_text(properties, "Alias"@, found.name)
    &&& has_bool(properties, "Connected"@, found.connected)
    &&& has_bool(properties, "Paired"@, found.paired)
    &&& if found.connected && object.interfaces.contains_key("org.bluez.Battery1"@) {
        found.battery is Some && has_byte(
            object.interfaces["org.bluez.Battery1"@],
            "Percentage"@,
            found.battery->0,
        )
    } else {
        found.battery is None
    }
}

/// The device at each place of the list is shown by the object at the position given for that
/// place; the positions ascend, and no device object is left out.
pub open spec fn lists(
    list: Seq<DeviceView>,
    objects: Seq<ObjectView>,
    positions: Seq<int>,
) -> bool {
    &&& positions.len() == list.len()
    &&& forall|d: int|
        #![trigger positions[d]]
        0 <= d < list.len() ==> 0 <= positions[d] < objects.len() && shows(
            list[d],
            objects[positions[d]],
        )
    &&& forall|c: int, d: int|
        0 <= c < d < list.len() ==> (#[trigger] positions[c]) < (#[trigger] positions[d])
    &&& forall|i: int|
        0 <= i < objects.len() && (#[trigger] objects[i]).interfaces.contains_key(
            "org.bluez.Device1"@,
        ) ==> positions.contains(i)
}

/// The list holds, in the order of the objects, exactly the device objects, each with what its own
/// properties say.
pub proof fn law_list_shows_the_device_objects(objects: Seq<ObjectView>, list: Seq<DeviceView>)
    requires
        devices(objects) == Ok::<_, PropertyErrorView>(list),
    ensures
        exists|positions: Seq<int>| lists(list, objects, positions),
    decreases objects.len(),
{
    if objects.len() == 0 {
        assert(lists(list, objects, Seq::empty()));
    } else {
        let before = objects.drop_last();
        let last = objects.len() - 1;
        let earlier = devices(before)->Ok_0;
        law_list_shows_the_device_objects(before, earlier);
        let old_positions = choose|positions: Seq<int>| lists(earlier, before, positions);
        assert(objects[last] == objects.last());
        if objects.last().interfaces.contains_key("org.bluez.Device1"@) {
            let positions = old_positions.push(last);
            assert(shows(list.last(), objects.last()));
            assert forall|d: int| #![trigger positions[d]] 0 <= d < list.len() implies 0
                <= positions[d] < objects.len() && shows(list[d], objects[positions[d]]) by {
                if d < earlier.len() {
                    assert(positions[d] == old_positions[d]);
                    assert(list[d] == earlier[d]);
                }
            }
            assert forall|c: int, d: int| 0 <= c < d < list.len() implies (#[trigger] positions[c])
                < (#[trigger] positions[d]) by {
                assert(positions[c] == old_positions[c]);
                if d < earlier.len() {
                    assert(positions[d] == old_positions[d]);
                }
            }
            assert forall|i: int|
                0 <= i < objects.len() && (#[trigger] objects[i]).interfaces.contains_key(
                    "org.bluez.Device1"@,
                ) implies positions.contains(i) by {
                if i < last {
                    assert(before[i] == objects[i]);
                    assert(old_positions.contains(i));
                    let d = choose|d: int| 0 <= d < old_positions.len() && old_positions[d] == i;
                    assert(positions[d] == i);
                } else {
                    assert(positions[earlier.len() as int] == i);
                }
            }
            assert(lists(list, objects, positions));
        } else {
            assert forall|d: int| #![trigger old_positions[d]] 0 <= d < list.len() implies 0
                <= old_positions[d] < objects.len() && shows(list[d], objects[old_positions[d]]) by {
                assert(objects[old_positions[d]] == before[old_positions[d]]);
            }
            assert forall|i: int|
                0 <= i < objects.len() && (#[trigger] objects[i]).interfaces.contains_key(
                    "org.bluez.Device1"@,
                ) implies old_positions.contains(i) by {
                assert(before[i] == objects[i]);
            }
            assert(lists(list, objects, old_positions));
        }
    }
}

/// What is wrong with a device object: the first of its alias, its connection, its pairing and,
/// where it is connected and has a battery, its charge that is missing or of another type.
pub open spec fn has_fault(object: ObjectView, fault: PropertyErrorView) -> bool {
    let properties = object.interfaces["org.bluez.Device1"@];
    let alias = properties.contains_key("Alias"@) && properties["Alias"@] is Text;
    let connected = is_bool(properties, "Connected"@);
    let paired = is_bool(properties, "Paired"@);
    let charges = object.interfaces["org.bluez.Battery1"@];
    &&& object.interfaces.contains_key("org.bluez.Device1"@)
    &&& match fault {
        PropertyErrorView::AdapterPowered => false,
        PropertyErrorView::DeviceAlias(path) => path == object.path && !alias,
        PropertyErrorView::DeviceConnected(path) => path == object.path && alias && !connected,
        PropertyErrorView::DevicePaired(path) => path == object.path && alias && connected
            && !paired,
        PropertyErrorView::BatteryPercentage(path) => {
            &&& path == object.path
            &&& alias && connected && paired
            &&& has_bool(properties, "Connected"@, true)
            &&& object.interfaces.contains_key("org.bluez.Battery1"@)
            &&& !(charges.contains_key("Percentage"@) && charges["Percentage"@] is Byte)
        },
    }
}

/// Nothing is wrong with the objects before that position.
pub open spec fn faultless_before(objects: Seq<ObjectView>, at: int) -> bool {
    forall|i: int, fault: PropertyErrorView|
        0 <= i < at ==> !(#[trigger] has_fault(objects[i], fault))
}

/// That fault is the first.
pub open spec fn first_fault(objects: Seq<ObjectView>, at: int, fault: PropertyErrorView) -> bool {
    &&& 0 <= at < objects.len()
    &&& has_fault(objects[at], fault)
    &&& faultless_before(objects, at)
}

/// The devices can be listed exactly where nothing is wrong with any of them, and otherwise the
/// first fault is reported.
pub proof fn law_first_fault_is_reported(objects: Seq<ObjectView>)
    ensures
        devices(objects) is Ok <==> faultless_before(objects, objects.len() as int),
        forall|fault: PropertyErrorView|
            devices(objects) == Err::<Seq<DeviceView>, _>(fault) <==> exists|at: int|
                #[trigger] first_fault(objects, at, fault),
    decreases objects.len(),
{
    if objects.len() > 0 {
        let before = objects.drop_last();
        let last = objects.len() - 1;
        law_first_fault_is_reported(before);
        assert(objects[last] == objects.last());
        assert forall|at: int| 0 <= at <= last implies faultless_before(before, at)
            == #[trigger] faultless_before(objects, at) by {
            if faultless_before(before, at) {
                assert forall|i: int, fault: PropertyErrorView| 0 <= i < at implies !(
                #[trigger] has_fault(objects[i], fault)) by {
                    assert(!has_fault(before[i], fault));
                }
            }
            if faultless_before(objects, at) {
                assert forall|i: int, fault: PropertyErrorView| 0 <= i < at implies !(
                #[trigger] has_fault(before[i], fault)) by {
                    assert(!has_fault(objects[i], fault));
                }
            }
        }
        assert(faultless_before(objects, last) == faultless_before(before, last));
        lemma_faults_of(objects.last());
        match devices(before) {
            Err(fault) => {
                let at = choose|at: int| #[trigger] first_fault(before, at, fault);
                assert(faultless_before(objects, at));
                assert(first_fault(objects, at, fault));
                lemma_one_first_fault(objects, at, fault);
                assert(has_fault(objects[at], fault));
            },
            Ok(_) => {
                if is_device(objects.last()) && described(objects.last()) is Err {
                    let fault = described(objects.last())->Err_0;
                    assert(has_fault(objects[last], fault));
                    assert(first_fault(objects, last, fault));
                    lemma_one_first_fault(objects, last, fault);
                } else {
                    assert forall|i: int, fault: PropertyErrorView|
                        0 <= i < objects.len() implies !(#[trigger] has_fault(
                        objects[i],
                        fault,
                    )) by {
                        if i < last {
                            assert(faultless_before(objects, last));
                        }
                    }
                    assert(faultless_before(objects, objects.len() as int));
                    assert forall|at: int, fault: PropertyErrorView| !(#[trigger] first_fault(
                        objects,
                        at,
                        fault,
                    )) by {}
                }
            },
        }
    } else {
        assert forall|at: int, fault: PropertyErrorView| !(#[trigger] first_fault(
            objects,
            at,
            fault,
        )) by {}
    }
}

proof fn lemma_faults_of(object: ObjectView)
    ensures
        forall|fault: PropertyErrorView|
            #[trigger] has_fault(object, fault) <==> is_device(object)
                && described(object) == Err::<DeviceView, _>(fault),
{
}

proof fn lemma_one_first_fault(objects: Seq<ObjectView>, at: int, fault: PropertyErrorView)
    requires
        first_fault(objects, at, fault),
    ensures
        forall|other_at: int, other: PropertyErrorView| #[trigger]
            first_fault(objects, other_at, other) ==> other_at == at && other == fault,
{
    lemma_faults_of(objects[at]);
    assert forall|other_at: int, other: PropertyErrorView| #[trigger]
        first_fault(objects, other_at, other) implies other_at == at && other == fault by {
        if other_at < at {
            assert(!has_fault(objects[other_at], other));
        }
        if at < other_at {
            assert(!has_fault(objects[at], fault));
        }
    }
}

/// A snapshot shows the machine as it is. The state is active exactly where the first adapter is
/// powered and there is no soft block, inactive where it is not powered or there is a soft block,
/// and unavailable where there is no adapter. Discovering is what that adapter says, and the
/// devices are those of the device objects.
pub proof fn law_snapshot_shows_the_machine(
    objects: Seq<ObjectView>,
    rfkill: Result<Vec<u8>, IoFailure>,
    data: DataView,
)
    requires
        distinct_paths(objects),
        snapshot(objects, rfkill) == Ok::<_, LoadErrorView>(data),
    ensures
        data.state == BluetoothState::Unavailable <==> no_adapter(objects),
        data.state == BluetoothState::Active <==> exists|at: int| #[trigger]
            first_adapter_at(objects, at) && has_bool(adapter_of(objects[at]), "Powered"@, true)
                && !says_blocked(rfkill),
        data.state == BluetoothState::Inactive <==> exists|at: int| #[trigger]
            first_adapter_at(objects, at) && (has_bool(
                adapter_of(objects[at]),
                "Powered"@,
                false,
            ) || says_blocked(rfkill)),
        data.discovering <==> exists|at: int| #[trigger]
            first_adapter_at(objects, at) && has_bool(
                adapter_of(objects[at]),
                "Discovering"@,
                true,
            ),
        exists|positions: Seq<int>| lists(data.devices, objects, positions),
{
    lemma_adapter_or_none(objects);
    law_soft_block_is_what_the_tool_says(rfkill);
    law_list_shows_the_device_objects(objects, data.devices);
    if no_adapter(objects) {
        law_nothing_is_read_without_adapter(objects, true, Seq::empty());
    } else {
        let at = choose|at: int| first_adapter_at(objects, at);
        law_adapter_is_read(objects, at);
        assert(has_bool(adapter_of(objects[at]), "Powered"@, true) || has_bool(
            adapter_of(objects[at]),
            "Powered"@,
            false,
        ));
        assert forall|other: int| #[trigger] first_adapter_at(objects, other) implies other
            == at by {}
    }
}

/// The first adapter, where there is one, says whether it is powered.
pub open spec fn power_is_known(objects: Seq<ObjectView>) -> bool {
    forall|at: int| #[trigger]
        first_adapter_at(objects, at) ==> is_bool(adapter_of(objects[at]), "Powered"@)
}

/// A snapshot is taken exactly where the adapter says whether it is powered, the tool is
/// understood and no device is faulty. Of several things that are wrong the first of these three
/// is reported.
pub proof fn law_when_a_snapshot_is_taken(
    objects: Seq<ObjectView>,
    rfkill: Result<Vec<u8>, IoFailure>,
)
    requires
        distinct_paths(objects),
    ensures
        snapshot(objects, rfkill) is Ok <==> power_is_known(objects) && !unreadable(rfkill)
            && faultless_before(objects, objects.len() as int),
        !power_is_known(objects) ==> snapshot(objects, rfkill) == Err::<DataView, _>(
            LoadErrorView::Property(PropertyErrorView::AdapterPowered),
        ),
        power_is_known(objects) && unreadable(rfkill) ==> snapshot(objects, rfkill) == Err::<
            DataView,
            _,
        >(
            LoadErrorView::Rfkill(
                match rfkill {
                    Ok(output) => RfkillErrorView::NotUtf8(output@),
                    Err(failure) => RfkillErrorView::Run(failure->Other_0@),
                },
            ),
        ),
        power_is_known(objects) && !unreadable(rfkill) ==> forall|at: int, fault: PropertyErrorView|
            #[trigger] first_fault(objects, at, fault) ==> snapshot(objects, rfkill) == Err::<
                DataView,
                _,
            >(LoadErrorView::Property(fault)),
{
    lemma_adapter_or_none(objects);
    law_soft_block_is_what_the_tool_says(rfkill);
    law_first_fault_is_reported(objects);
    if no_adapter(objects) {
        law_nothing_is_read_without_adapter(objects, true, Seq::empty());
        assert(power_is_known(objects));
    } else {
        let at = choose|at: int| first_adapter_at(objects, at);
        law_adapter_is_read(objects, at);
        assert forall|other: int| #[trigger] first_adapter_at(objects, other) implies other
            == at by {}
        assert(power_is_known(objects) <==> is_bool(adapter_of(objects[at]), "Powered"@));
        if power_is_known(objects) {
            assert(has_bool(adapter_of(objects[at]), "Powered"@, true) || has_bool(
                adapter_of(objects[at]),
                "Powered"@,
                false,
            ));
        }
    }
}

} // verus!
