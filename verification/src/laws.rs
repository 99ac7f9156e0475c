//! What holds of every snapshot: which objects it shows, that their order hardly matters, and that
//! nothing shows of the changes that are not followed.

use crate::data::{BluetoothState, DeviceView};
use crate::dbus::{
    adapter_path, adapter_properties, adapter_state, battery, bool_in, device, devices, discovering,
    ADAPTER_INTERFACE, DEVICE_INTERFACE,
};
use crate::error::PropertyErrorView;
use crate::objects::{
    distinct_paths, entry, interfaces_at, law_object_is_found_by_path, ObjectView, PropertiesView,
};
use crate::rfkill::{soft_block, IoFailure, RfkillErrorView};
use crate::service::{shown_state, snapshot};
use crate::signals::ChangeView;
use vstd::prelude::*;

verus! {

/// The object is an adapter.
pub open spec fn is_adapter(object: ObjectView) -> bool {
    object.interfaces.contains_key(ADAPTER_INTERFACE@)
}

/// The object is a device.
pub open spec fn is_device(object: ObjectView) -> bool {
    object.interfaces.contains_key(DEVICE_INTERFACE@)
}

/// What a device object describes, or what is wrong with it.
pub open spec fn described(object: ObjectView) -> Result<DeviceView, PropertyErrorView> {
    device(object, object.interfaces[DEVICE_INTERFACE@])
}

/// An adapter is used exactly where there is one, and then it is the first: its path is used, and
/// its own properties are read.
pub proof fn law_first_adapter_is_used(objects: Seq<ObjectView>)
    requires
        distinct_paths(objects),
    ensures
        adapter_path(objects) is None == (forall|i: int|
            0 <= i < objects.len() ==> !is_adapter(#[trigger] objects[i])),
        adapter_properties(objects) is None == adapter_path(objects) is None,
        forall|i: int|
            0 <= i < objects.len() && is_adapter(objects[i]) && (forall|j: int|
                0 <= j < i ==> !is_adapter(#[trigger] objects[j])) ==> {
                &&& adapter_path(objects) == Some((#[trigger] objects[i]).path)
                &&& adapter_properties(objects) == Some(
                    objects[i].interfaces[ADAPTER_INTERFACE@],
                )
            },
{
    lemma_adapter_path(objects);
    if adapter_path(objects) is Some {
        let k = first_adapter(objects);
        law_object_is_found_by_path(objects, k);
        assert forall|i: int|
            0 <= i < objects.len() && is_adapter(objects[i]) && (forall|j: int|
                0 <= j < i ==> !is_adapter(#[trigger] objects[j])) implies {
            &&& adapter_path(objects) == Some((#[trigger] objects[i]).path)
            &&& adapter_properties(objects) == Some(objects[i].interfaces[ADAPTER_INTERFACE@])
        } by {
            assert(i == k);
        }
    }
}

spec fn first_adapter(objects: Seq<ObjectView>) -> int
    decreases objects.len(),
{
    if objects.len() == 0 || is_adapter(objects[0]) {
        0
    } else {
        1 + first_adapter(objects.drop_first())
    }
}

proof fn lemma_adapter_path(objects: Seq<ObjectView>)
    ensures
        match adapter_path(objects) {
            None => forall|i: int| 0 <= i < objects.len() ==> !is_adapter(#[trigger] objects[i]),
            Some(path) => {
                let k = first_adapter(objects);
                &&& 0 <= k < objects.len()
                &&& is_adapter(objects[k])
                &&& objects[k].path == path
                &&& forall|i: int| 0 <= i < k ==> !is_adapter(#[trigger] objects[i])
            },
        },
    decreases objects.len(),
{
    if objects.len() > 0 && !is_adapter(objects[0]) {
        let rest = objects.drop_first();
        lemma_adapter_path(rest);
        assert forall|i: int|
            0 < i < objects.len() && !is_adapter(rest[i - 1]) implies !is_adapter(
            #[trigger] objects[i],
        ) by {
            assert(rest[i - 1] == objects[i]);
        }
        if adapter_path(objects) is None {
            assert forall|i: int| 0 <= i < objects.len() implies !is_adapter(
                #[trigger] objects[i],
            ) by {
                if i > 0 {
                    assert(!is_adapter(rest[i - 1]));
                }
            }
        } else {
            let k = first_adapter(objects);
            assert(rest[k - 1] == objects[k]);
            assert forall|i: int| 0 <= i < k implies !is_adapter(#[trigger] objects[i]) by {
                if i > 0 {
                    assert(!is_adapter(rest[i - 1]));
                }
            }
        }
    }
}

/// Bluetooth is unavailable exactly where there is no adapter.
pub proof fn law_unavailable_without_adapter(objects: Seq<ObjectView>)
    ensures
        adapter_state(objects) == Ok::<_, PropertyErrorView>(BluetoothState::Unavailable)
            <==> forall|i: int| 0 <= i < objects.len() ==> !is_adapter(#[trigger] objects[i]),
{
    lemma_adapter_path(objects);
}

/// A soft-blocked machine never shows an active adapter, and a soft block shows in nothing but
/// the state of an active one.
pub proof fn law_soft_block(
    objects: Seq<ObjectView>,
    blocked: Result<Vec<u8>, IoFailure>,
    free: Result<Vec<u8>, IoFailure>,
)
    requires
        soft_block(blocked) == Ok::<_, RfkillErrorView>(true),
        soft_block(free) == Ok::<_, RfkillErrorView>(false),
    ensures
        match (snapshot(objects, blocked), snapshot(objects, free)) {
            (Ok(dark), Ok(lit)) => {
                &&& dark.state == shown_state(lit.state, true)
                &&& dark.state != BluetoothState::Active
                &&& dark.devices == lit.devices
                &&& dark.discovering == lit.discovering
            },
            (Err(dark), Err(lit)) => dark == lit,
            _ => false,
        },
{
}

/// No device is faulty.
pub open spec fn sound(objects: Seq<ObjectView>) -> bool {
    forall|i: int|
        0 <= i < objects.len() && is_device(objects[i]) ==> described(#[trigger] objects[i]) is Ok
}

/// The devices of sound objects.
pub open spec fn listed(objects: Seq<ObjectView>) -> Seq<DeviceView>
    decreases objects.len(),
{
    if objects.len() == 0 {
        Seq::empty()
    } else if is_device(objects.last()) {
        listed(objects.drop_last()).push(described(objects.last())->Ok_0)
    } else {
        listed(objects.drop_last())
    }
}

/// The devices can be listed exactly where none of them is faulty, and otherwise what is reported
/// is what is wrong with the first faulty one.
pub proof fn law_one_faulty_device_hides_all(objects: Seq<ObjectView>)
    ensures
        devices(objects) is Ok == sound(objects),
        forall|i: int|
            0 <= i < objects.len() && is_device(objects[i]) && described(objects[i]) is Err
                && sound(objects.take(i)) ==> devices(objects)
                == Err::<Seq<DeviceView>, _>((#[trigger] described(objects[i]))->Err_0),
    decreases objects.len(),
{
    if objects.len() > 0 {
        let before = objects.drop_last();
        law_one_faulty_device_hides_all(before);
        lemma_sound_parts(objects);
        assert forall|i: int|
            0 <= i < objects.len() && is_device(objects[i]) && described(objects[i]) is Err
                && sound(objects.take(i)) implies devices(objects)
            == Err::<Seq<DeviceView>, _>((#[trigger] described(objects[i]))->Err_0) by {
            if i < before.len() {
                assert(before[i] == objects[i]);
                assert(before.take(i) =~= objects.take(i));
                assert(devices(before) == Err::<Seq<DeviceView>, _>(described(before[i])->Err_0));
            } else {
                assert(objects.take(i) =~= before);
            }
        }
    }
}

proof fn lemma_sound_parts(objects: Seq<ObjectView>)
    requires
        objects.len() > 0,
    ensures
        sound(objects) == (sound(objects.drop_last()) && (is_device(objects.last()) ==> described(
            objects.last(),
        ) is Ok)),
{
    let before = objects.drop_last();
    let last = objects.len() - 1;
    if sound(objects) {
        assert forall|i: int| 0 <= i < before.len() && is_device(before[i]) implies described(
            #[trigger] before[i],
        ) is Ok by {
            assert(before[i] == objects[i]);
            assert(described(objects[i]) is Ok);
        }
        assert(objects[last] == objects.last());
    }
    if sound(before) && (is_device(objects.last()) ==> described(objects.last()) is Ok) {
        assert forall|i: int| 0 <= i < objects.len() && is_device(objects[i]) implies described(
            #[trigger] objects[i],
        ) is Ok by {
            if i < last {
                assert(before[i] == objects[i]);
            }
        }
    }
}

proof fn lemma_listed(objects: Seq<ObjectView>)
    requires
        sound(objects),
    ensures
        devices(objects) == Ok::<_, PropertyErrorView>(listed(objects)),
    decreases objects.len(),
{
    if objects.len() > 0 {
        lemma_sound_parts(objects);
        lemma_listed(objects.drop_last());
    }
}

/// The device is what the object at that position describes, and has its path.
pub open spec fn comes_from(found: DeviceView, objects: Seq<ObjectView>, at: int) -> bool {
    &&& 0 <= at < objects.len()
    &&& is_device(objects[at])
    &&& described(objects[at]) == Ok::<_, PropertyErrorView>(found)
    &&& objects[at].path == found.path
}

/// The device is what some object describes, and has its path.
pub open spec fn has_source(found: DeviceView, objects: Seq<ObjectView>) -> bool {
    exists|at: int| comes_from(found, objects, at)
}

/// The list holds every device object once, under its own path, and nothing else.
pub proof fn law_devices_are_the_device_objects(objects: Seq<ObjectView>, list: Seq<DeviceView>)
    requires
        distinct_paths(objects),
        devices(objects) == Ok::<_, PropertyErrorView>(list),
    ensures
        forall|d: int|
            #![trigger list[d]]
            0 <= d < list.len() ==> has_source(list[d], objects),
        forall|i: int|
            0 <= i < objects.len() && is_device(#[trigger] objects[i]) ==> exists|d: int|
                0 <= d < list.len() && comes_from(#[trigger] list[d], objects, i),
        forall|c: int, d: int|
            0 <= c < d < list.len() ==> (#[trigger] list[c]).path != (#[trigger] list[d]).path,
{
    law_one_faulty_device_hides_all(objects);
    lemma_listed(objects);
    lemma_listed_come_from(objects);
    lemma_devices_are_listed(objects);
    lemma_listed_paths(objects);
}

proof fn lemma_listed_come_from(objects: Seq<ObjectView>)
    requires
        sound(objects),
    ensures
        forall|d: int|
            #![trigger listed(objects)[d]]
            0 <= d < listed(objects).len() ==> has_source(listed(objects)[d], objects),
    decreases objects.len(),
{
    if objects.len() > 0 {
        let before = objects.drop_last();
        lemma_sound_parts(objects);
        lemma_listed_come_from(before);
        assert forall|d: int|
            #![trigger listed(objects)[d]]
            0 <= d < listed(objects).len() implies has_source(listed(objects)[d], objects) by {
            if d < listed(before).len() {
                assert(listed(objects)[d] == listed(before)[d]);
                let i = choose|i: int| comes_from(listed(before)[d], before, i);
                assert(comes_from(listed(objects)[d], objects, i));
            } else {
                assert(comes_from(listed(objects)[d], objects, objects.len() - 1));
            }
        }
    }
}

proof fn lemma_devices_are_listed(objects: Seq<ObjectView>)
    requires
        sound(objects),
    ensures
        forall|i: int|
            0 <= i < objects.len() && is_device(#[trigger] objects[i]) ==> exists|d: int|
                0 <= d < listed(objects).len() && comes_from(
                    #[trigger] listed(objects)[d],
                    objects,
                    i,
                ),
    decreases objects.len(),
{
    if objects.len() > 0 {
        let before = objects.drop_last();
        lemma_sound_parts(objects);
        lemma_devices_are_listed(before);
        assert forall|i: int| 0 <= i < objects.len() && is_device(#[trigger] objects[i]) implies exists|
            d: int,
        |
            0 <= d < listed(objects).len() && comes_from(
                #[trigger] listed(objects)[d],
                objects,
                i,
            ) by {
            if i < before.len() {
                assert(is_device(before[i]));
                let d = choose|d: int|
                    0 <= d < listed(before).len() && comes_from(
                        #[trigger] listed(before)[d],
                        before,
                        i,
                    );
                assert(listed(objects)[d] == listed(before)[d]);
                assert(comes_from(listed(objects)[d], objects, i));
            } else {
                let d = listed(before).len() as int;
                assert(comes_from(listed(objects)[d], objects, i));
            }
        }
    }
}

proof fn lemma_listed_paths(objects: Seq<ObjectView>)
    requires
        sound(objects),
        distinct_paths(objects),
    ensures
        forall|c: int, d: int|
            0 <= c < d < listed(objects).len() ==> (#[trigger] listed(objects)[c]).path != (
            #[trigger] listed(objects)[d]).path,
    decreases objects.len(),
{
    if objects.len() > 0 {
        let before = objects.drop_last();
        let last = objects.len() - 1;
        lemma_sound_parts(objects);
        assert(distinct_paths(before)) by {
            assert forall|i: int, j: int| 0 <= i < j < before.len() implies (
            #[trigger] before[i]).path != (#[trigger] before[j]).path by {
                assert(objects[i].path != objects[j].path);
            }
        }
        lemma_listed_paths(before);
        lemma_listed_come_from(before);
        assert forall|c: int, d: int| 0 <= c < d < listed(objects).len() implies (
        #[trigger] listed(objects)[c]).path != (#[trigger] listed(objects)[d]).path by {
            assert(listed(objects)[c] == listed(before)[c]);
            if d < listed(before).len() {
                assert(listed(objects)[d] == listed(before)[d]);
            } else {
                let i = choose|i: int| comes_from(listed(before)[c], before, i);
                assert(objects[i].path != objects[last].path);
            }
        }
    }
}

/// A charge is shown of connected devices only.
pub proof fn law_charge_of_connected_devices_only(objects: Seq<ObjectView>, list: Seq<DeviceView>)
    requires
        devices(objects) == Ok::<_, PropertyErrorView>(list),
    ensures
        forall|d: int| 0 <= d < list.len() && (#[trigger] list[d]).battery is Some ==> list[d].connected,
    decreases objects.len(),
{
    if objects.len() > 0 {
        let before = objects.drop_last();
        let earlier = devices(before)->Ok_0;
        law_charge_of_connected_devices_only(before, earlier);
        assert forall|d: int| 0 <= d < list.len() && (#[trigger] list[d]).battery is Some implies list[d].connected by {
            if d < earlier.len() {
                assert(list[d] == earlier[d]);
            }
        }
    }
}

/// The same objects, in any order.
pub open spec fn same_objects(a: Seq<ObjectView>, b: Seq<ObjectView>) -> bool {
    a.to_multiset() == b.to_multiset()
}

proof fn lemma_sound_without(objects: Seq<ObjectView>, at: int)
    requires
        0 <= at < objects.len(),
    ensures
        sound(objects) == (sound(objects.remove(at)) && (is_device(objects[at]) ==> described(
            objects[at],
        ) is Ok)),
{
    let rest = objects.remove(at);
    if sound(objects) {
        assert forall|i: int| 0 <= i < rest.len() && is_device(rest[i]) implies described(
            #[trigger] rest[i],
        ) is Ok by {
            if i < at {
                assert(rest[i] == objects[i]);
            } else {
                assert(rest[i] == objects[i + 1]);
            }
        }
    }
    if sound(rest) && (is_device(objects[at]) ==> described(objects[at]) is Ok) {
        assert forall|i: int| 0 <= i < objects.len() && is_device(objects[i]) implies described(
            #[trigger] objects[i],
        ) is Ok by {
            if i < at {
                assert(rest[i] == objects[i]);
            } else if i > at {
                assert(rest[i - 1] == objects[i]);
            }
        }
    }
}

proof fn lemma_listed_without(objects: Seq<ObjectView>, at: int)
    requires
        0 <= at < objects.len(),
    ensures
        listed(objects).to_multiset() == if is_device(objects[at]) {
            listed(objects.remove(at)).to_multiset().insert(described(objects[at])->Ok_0)
        } else {
            listed(objects.remove(at)).to_multiset()
        },
    decreases objects.len(),
{
    broadcast use vstd::seq_lib::group_to_multiset_ensures;

    let last = objects.len() - 1;
    if at == last {
        assert(objects.remove(at) =~= objects.drop_last());
    } else {
        let before = objects.drop_last();
        let rest = objects.remove(at);
        assert(before[at] == objects[at]);
        assert(rest.drop_last() =~= before.remove(at));
        assert(rest.last() == objects.last());
        lemma_listed_without(before, at);
        let a = listed(before.remove(at)).to_multiset();
        let x = described(objects[at])->Ok_0;
        let y = described(objects.last())->Ok_0;
        assert(a.insert(x).insert(y) =~= a.insert(y).insert(x));
    }
}

/// The devices can be listed in one order of the objects exactly where they can in another, and
/// then the same devices are listed.
pub proof fn law_devices_in_any_order(a: Seq<ObjectView>, b: Seq<ObjectView>)
    requires
        same_objects(a, b),
    ensures
        devices(a) is Ok == devices(b) is Ok,
        devices(a) is Ok ==> devices(a)->Ok_0.to_multiset() == devices(b)->Ok_0.to_multiset(),
{
    law_one_faulty_device_hides_all(a);
    law_one_faulty_device_hides_all(b);
    lemma_listed_in_any_order(a, b);
    if sound(a) {
        lemma_listed(a);
        lemma_listed(b);
    }
}

proof fn lemma_listed_in_any_order(a: Seq<ObjectView>, b: Seq<ObjectView>)
    requires
        same_objects(a, b),
    ensures
        sound(a) == sound(b),
        listed(a).to_multiset() == listed(b).to_multiset(),
    decreases a.len(),
{
    broadcast use vstd::seq_lib::group_to_multiset_ensures;

    if a.len() == 0 {
        assert(b.len() == b.to_multiset().len());
        assert(a.len() == a.to_multiset().len());
        assert(a =~= b);
    } else {
        let last = a.len() - 1;
        let object = a.last();
        assert(a.contains(object)) by {
            assert(a[last] == object);
        }
        assert(b.contains(object)) by {
            assert(a.to_multiset().count(object) > 0);
        }
        let at = choose|at: int| 0 <= at < b.len() && b[at] == object;
        assert(a.remove(last).to_multiset() =~= b.remove(at).to_multiset());
        lemma_listed_in_any_order(a.remove(last), b.remove(at));
        lemma_sound_without(a, last);
        lemma_sound_without(b, at);
        lemma_listed_without(a, last);
        lemma_listed_without(b, at);
    }
}

/// At most one object is an adapter.
pub open spec fn single_adapter(objects: Seq<ObjectView>) -> bool {
    forall|i: int, j: int|
        0 <= i < objects.len() && 0 <= j < objects.len() && is_adapter(objects[i]) && is_adapter(
            objects[j],
        ) ==> (#[trigger] objects[i]) == (#[trigger] objects[j])
}

/// On a machine with at most one adapter the snapshot is the same in every order of the objects,
/// but for the order of the devices, and for which fault is reported where several are.
pub proof fn law_snapshot_in_any_order(
    a: Seq<ObjectView>,
    b: Seq<ObjectView>,
    rfkill: Result<Vec<u8>, IoFailure>,
)
    requires
        same_objects(a, b),
        distinct_paths(a),
        distinct_paths(b),
        single_adapter(a),
    ensures
        adapter_path(a) == adapter_path(b),
        match (snapshot(a, rfkill), snapshot(b, rfkill)) {
            (Ok(x), Ok(y)) => {
                &&& x.state == y.state
                &&& x.discovering == y.discovering
                &&& x.devices.to_multiset() == y.devices.to_multiset()
            },
            (Err(_), Err(_)) => true,
            _ => false,
        },
{
    broadcast use vstd::seq_lib::group_to_multiset_ensures;

    law_devices_in_any_order(a, b);
    law_first_adapter_is_used(a);
    law_first_adapter_is_used(b);
    lemma_adapter_path(a);
    lemma_adapter_path(b);
    if adapter_path(a) is Some {
        let i = first_adapter(a);
        assert(a.contains(a[i]));
        assert(b.to_multiset().count(a[i]) > 0);
        let j = choose|j: int| 0 <= j < b.len() && b[j] == a[i];
        assert(is_adapter(b[j]));
    }
    if adapter_path(b) is Some {
        let j = first_adapter(b);
        assert(b.contains(b[j]));
        assert(a.to_multiset().count(b[j]) > 0);
        let k = choose|k: int| 0 <= k < a.len() && a[k] == b[j];
        assert(is_adapter(a[k]));
        let i = first_adapter(a);
        assert(a[i] == a[k]);
        assert(adapter_properties(a) == Some(a[i].interfaces[ADAPTER_INTERFACE@]));
        assert(adapter_properties(b) == Some(b[j].interfaces[ADAPTER_INTERFACE@]));
    }
}

/// The objects after the properties of one interface of one object have changed.
pub open spec fn with_properties(
    objects: Seq<ObjectView>,
    at: int,
    interface: Seq<char>,
    properties: PropertiesView,
) -> Seq<ObjectView> {
    objects.update(
        at,
        ObjectView {
            path: objects[at].path,
            interfaces: objects[at].interfaces.insert(interface, properties),
        },
    )
}

/// Every property that differs is named by the change.
pub open spec fn tells_of(
    change: ChangeView,
    before: PropertiesView,
    after: PropertiesView,
) -> bool {
    forall|name: Seq<char>|
        entry(before, name) != entry(after, name) ==> #[trigger] change.touches(name)
}

/// A change that is passed over would not have altered the snapshot, unless it names the alias of
/// a device or whether it is paired: these two are shown and not followed.
pub proof fn law_passed_over_changes_show_nothing(
    objects: Seq<ObjectView>,
    at: int,
    change: ChangeView,
    properties: PropertiesView,
    rfkill: Result<Vec<u8>, IoFailure>,
)
    requires
        0 <= at < objects.len(),
        objects[at].interfaces.contains_key(change.interface),
        tells_of(change, objects[at].interfaces[change.interface], properties),
        !change.relevant(),
        change.interface == DEVICE_INTERFACE@ ==> !change.touches("Alias"@) && !change.touches(
            "Paired"@,
        ),
    ensures
        snapshot(with_properties(objects, at, change.interface, properties), rfkill) == snapshot(
            objects,
            rfkill,
        ),
{
    let after = with_properties(objects, at, change.interface, properties);
    let before_properties = objects[at].interfaces[change.interface];
    assert(entry(before_properties, "Powered"@) != entry(properties, "Powered"@)
        ==> change.touches("Powered"@));
    assert(entry(before_properties, "Discovering"@) != entry(properties, "Discovering"@)
        ==> change.touches("Discovering"@));
    assert(entry(before_properties, "Percentage"@) != entry(properties, "Percentage"@)
        ==> change.touches("Percentage"@));
    assert(entry(before_properties, "Connected"@) != entry(properties, "Connected"@)
        ==> change.touches("Connected"@));
    assert(entry(before_properties, "Alias"@) != entry(properties, "Alias"@) ==> change.touches(
        "Alias"@,
    ));
    assert(entry(before_properties, "Paired"@) != entry(properties, "Paired"@) ==> change.touches(
        "Paired"@,
    ));
    assert(battery(objects[at]) == battery(after[at]));
    assert forall|i: int| 0 <= i < objects.len() implies shown_alike(
        #[trigger] objects[i],
        after[i],
    ) by {}
    lemma_alike_adapter_path(objects, after);
    lemma_alike_devices(objects, after);
    match adapter_path(objects) {
        Some(path) => {
            lemma_alike_interfaces(objects, after, path);
        },
        None => {},
    }
    assert(adapter_state(objects) == adapter_state(after));
    assert(discovering(objects) == discovering(after));
}

/// The two objects show the same.
spec fn shown_alike(a: ObjectView, b: ObjectView) -> bool {
    &&& a.path == b.path
    &&& is_adapter(a) == is_adapter(b)
    &&& is_adapter(a) ==> {
        let (x, y) = (a.interfaces[ADAPTER_INTERFACE@], b.interfaces[ADAPTER_INTERFACE@]);
        &&& bool_in(x, "Powered"@) == bool_in(y, "Powered"@)
        &&& bool_in(x, "Discovering"@) == bool_in(y, "Discovering"@)
    }
    &&& is_device(a) == is_device(b)
    &&& is_device(a) ==> described(a) == described(b)
}

spec fn all_alike(a: Seq<ObjectView>, b: Seq<ObjectView>) -> bool {
    &&& a.len() == b.len()
    &&& forall|i: int| 0 <= i < a.len() ==> shown_alike(#[trigger] a[i], b[i])
}

proof fn lemma_alike_rest(a: Seq<ObjectView>, b: Seq<ObjectView>)
    requires
        all_alike(a, b),
        a.len() > 0,
    ensures
        all_alike(a.drop_first(), b.drop_first()),
        all_alike(a.drop_last(), b.drop_last()),
        shown_alike(a[0], b[0]),
        shown_alike(a.last(), b.last()),
{
    assert forall|i: int| 0 <= i < a.drop_first().len() implies shown_alike(
        #[trigger] a.drop_first()[i],
        b.drop_first()[i],
    ) by {
        assert(a.drop_first()[i] == a[i + 1]);
    }
    assert forall|i: int| 0 <= i < a.drop_last().len() implies shown_alike(
        #[trigger] a.drop_last()[i],
        b.drop_last()[i],
    ) by {
        assert(a.drop_last()[i] == a[i]);
    }
    assert(a[a.len() - 1] == a.last());
}

proof fn lemma_alike_adapter_path(a: Seq<ObjectView>, b: Seq<ObjectView>)
    requires
        all_alike(a, b),
    ensures
        adapter_path(a) == adapter_path(b),
    decreases a.len(),
{
    if a.len() > 0 {
        lemma_alike_rest(a, b);
        lemma_alike_adapter_path(a.drop_first(), b.drop_first());
    }
}

proof fn lemma_alike_interfaces(a: Seq<ObjectView>, b: Seq<ObjectView>, path: Seq<char>)
    requires
        all_alike(a, b),
    ensures
        match (interfaces_at(a, path), interfaces_at(b, path)) {
            (Some(x), Some(y)) => shown_alike(
                ObjectView { path, interfaces: x },
                ObjectView { path, interfaces: y },
            ),
            (None, None) => true,
            _ => false,
        },
    decreases a.len(),
{
    if a.len() > 0 {
        lemma_alike_rest(a, b);
        lemma_alike_interfaces(a.drop_first(), b.drop_first(), path);
        assert(a[0] == ObjectView { path: a[0].path, interfaces: a[0].interfaces });
        assert(b[0] == ObjectView { path: b[0].path, interfaces: b[0].interfaces });
    }
}

proof fn lemma_alike_devices(a: Seq<ObjectView>, b: Seq<ObjectView>)
    requires
        all_alike(a, b),
    ensures
        devices(a) == devices(b),
    decreases a.len(),
{
    if a.len() > 0 {
        lemma_alike_rest(a, b);
        lemma_alike_devices(a.drop_last(), b.drop_last());
    }
}

} // verus!
