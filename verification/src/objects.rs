//! The objects that BlueZ manages: by path, by interface, by property.

use crate::text::same_text;
use crate::values::{PropertyValue, PropertyView};
use vstd::hash_map::StringHashMap;
use vstd::prelude::*;

verus! {

/// The properties of one interface, by name.
pub type PropertiesView = Map<Seq<char>, PropertyView>;

/// The interfaces of one object, by name.
pub type InterfacesView = Map<Seq<char>, PropertiesView>;

/// The properties of one interface.
pub struct InterfaceProperties {
    entries: StringHashMap<PropertyValue>,
}

impl View for InterfaceProperties {
    type V = PropertiesView;

    closed spec fn view(&self) -> PropertiesView {
        self.entries@.map_values(|value: PropertyValue| value@)
    }
}

/// The value that a map has under a name.
pub open spec fn entry<V>(map: Map<Seq<char>, V>, name: Seq<char>) -> Option<V> {
    if map.contains_key(name) {
        Some(map[name])
    } else {
        None
    }
}

impl InterfaceProperties {
    /// No properties.
    pub fn new() -> (properties: Self)
        ensures
            properties@ == Map::<Seq<char>, PropertyView>::empty(),
    {
        let properties = InterfaceProperties { entries: StringHashMap::new() };
        assert(properties@ =~= Map::<Seq<char>, PropertyView>::empty());
        properties
    }

    /// Sets a property, in place of an earlier one of that name.
    pub fn insert(&mut self, name: String, value: PropertyValue)
        ensures
            final(self)@ == old(self)@.insert(name@, value@),
    {
        self.entries.insert(name, value);
        assert(self@ =~= old(self)@.insert(name@, value@));
    }

    /// The property of that name.
    pub fn get(&self, name: &str) -> (value: Option<&PropertyValue>)
        ensures
            match value {
                Some(value) => entry(self@, name@) == Some(value@),
                None => entry(self@, name@) is None,
            },
    {
        self.entries.get(name)
    }
}

/// The interfaces of one object.
pub struct Interfaces {
    entries: StringHashMap<InterfaceProperties>,
}

impl View for Interfaces {
    type V = InterfacesView;

    closed spec fn view(&self) -> InterfacesView {
        self.entries@.map_values(|properties: InterfaceProperties| properties@)
    }
}

impl Interfaces {
    /// No interfaces.
    pub fn new() -> (interfaces: Self)
        ensures
            interfaces@ == Map::<Seq<char>, PropertiesView>::empty(),
    {
        let interfaces = Interfaces { entries: StringHashMap::new() };
        assert(interfaces@ =~= Map::<Seq<char>, PropertiesView>::empty());
        interfaces
    }

    /// Sets an interface, in place of an earlier one of that name.
    pub fn insert(&mut self, name: String, properties: InterfaceProperties)
        ensures
            final(self)@ == old(self)@.insert(name@, properties@),
    {
        self.entries.insert(name, properties);
        assert(self@ =~= old(self)@.insert(name@, properties@));
    }

    /// The interface of that name.
    pub fn get(&self, name: &str) -> (properties: Option<&InterfaceProperties>)
        ensures
            match properties {
                Some(properties) => entry(self@, name@) == Some(properties@),
                None => entry(self@, name@) is None,
            },
    {
        self.entries.get(name)
    }

    /// Whether there is an interface of that name.
    pub fn contains(&self, name: &str) -> (found: bool)
        ensures
            found == self@.contains_key(name@),
    {
        self.entries.contains_key(name)
    }
}

/// One object: where it is and what it offers.
struct ManagedObject {
    path: String,
    interfaces: Interfaces,
}

/// What an object stands for.
pub struct ObjectView {
    pub path: Seq<char>,
    pub interfaces: InterfacesView,
}

impl View for ManagedObject {
    type V = ObjectView;

    closed spec fn view(&self) -> ObjectView {
        ObjectView { path: self.path@, interfaces: self.interfaces@ }
    }
}

/// No path occurs twice.
pub open spec fn distinct_paths(objects: Seq<ObjectView>) -> bool {
    forall|i: int, j: int|
        0 <= i < j < objects.len() ==> (#[trigger] objects[i]).path != (#[trigger] objects[j]).path
}

/// An object of that path is among `objects`.
pub open spec fn has_path(objects: Seq<ObjectView>, path: Seq<char>) -> bool {
    exists|i: int| 0 <= i < objects.len() && (#[trigger] objects[i]).path == path
}

/// The interfaces of the first object of that path.
pub open spec fn interfaces_at(objects: Seq<ObjectView>, path: Seq<char>) -> Option<InterfacesView>
    decreases objects.len(),
{
    if objects.len() == 0 {
        None
    } else if objects[0].path == path {
        Some(objects[0].interfaces)
    } else {
        interfaces_at(objects.drop_first(), path)
    }
}

/// `objects` with the interfaces of the object of that path replaced, or with a new object at
/// the end.
pub open spec fn with_object(objects: Seq<ObjectView>, object: ObjectView) -> Seq<ObjectView> {
    if has_path(objects, object.path) {
        objects.map_values(
            |other: ObjectView|
                if other.path == object.path {
                    object
                } else {
                    other
                },
        )
    } else {
        objects.push(object)
    }
}

/// The objects that BlueZ manages, in the order in which they were handed over. No path occurs
/// twice.
pub struct ManagedObjects {
    objects: Vec<ManagedObject>,
}

impl View for ManagedObjects {
    type V = Seq<ObjectView>;

    closed spec fn view(&self) -> Seq<ObjectView> {
        self.objects@.map_values(|object: ManagedObject| object@)
    }
}

impl ManagedObjects {
    #[verifier::type_invariant]
    spec fn well_formed(self) -> bool {
        distinct_paths(self@)
    }

    /// No objects.
    pub fn new() -> (objects: Self)
        ensures
            objects@ == Seq::<ObjectView>::empty(),
    {
        let objects: Vec<ManagedObject> = Vec::new();
        assert(objects@.map_values(|object: ManagedObject| object@) =~= Seq::empty());
        ManagedObjects { objects }
    }

    /// How many objects there are.
    pub fn len(&self) -> (len: usize)
        ensures
            len == self@.len(),
            distinct_paths(self@),
    {
        proof {
            use_type_invariant(self);
        }
        self.objects.len()
    }

    /// The path of the object at that position.
    pub fn path(&self, at: usize) -> (path: &str)
        requires
            at < self@.len(),
        ensures
            path@ == self@[at as int].path,
    {
        self.objects[at].path.as_str()
    }

    /// The interfaces of the object at that position.
    pub fn interfaces(&self, at: usize) -> (interfaces: &Interfaces)
        requires
            at < self@.len(),
        ensures
            interfaces@ == self@[at as int].interfaces,
    {
        &self.objects[at].interfaces
    }

    /// Sets an object: its interfaces, where there is one of that path, or else a new object
    /// after all others.
    pub fn insert(&mut self, path: String, interfaces: Interfaces)
        ensures
            final(self)@ == with_object(
                old(self)@,
                (ObjectView { path: path@, interfaces: interfaces@ }),
            ),
    {
        proof {
            use_type_invariant(&*self);
        }
        let ghost before = self@;
        let ghost object = ObjectView { path: path@, interfaces: interfaces@ };
        let mut objects: Vec<ManagedObject> = Vec::new();
        core::mem::swap(&mut objects, &mut self.objects);
        let mut at: usize = 0;
        while at < objects.len() && !same_text(objects[at].path.as_str(), path.as_str())
            invariant
                objects@.map_values(|object: ManagedObject| object@) == before,
                at <= objects@.len(),
                forall|i: int| 0 <= i < at ==> (#[trigger] before[i]).path != path@,
            decreases objects@.len() - at,
        {
            assert(before[at as int] == objects@[at as int]@);
            at = at + 1;
        }
        if at < objects.len() {
            assert(before[at as int] == objects@[at as int]@);
            objects.set(at, ManagedObject { path, interfaces });
        } else {
            objects.push(ManagedObject { path, interfaces });
        }
        assert(objects@.map_values(|object: ManagedObject| object@) =~= with_object(
            before,
            object,
        ));
        self.objects = objects;
    }

    /// The interfaces of the object of that path.
    pub fn get(&self, path: &str) -> (interfaces: Option<&Interfaces>)
        ensures
            match interfaces {
                Some(interfaces) => interfaces_at(self@, path@) == Some(interfaces@),
                None => interfaces_at(self@, path@) is None,
            },
    {
        let mut at: usize = 0;
        assert(self@.skip(0) =~= self@);
        while at < self.objects.len()
            invariant
                at <= self.objects@.len(),
                interfaces_at(self@, path@) == interfaces_at(self@.skip(at as int), path@),
            decreases self.objects@.len() - at,
        {
            let object = &self.objects[at];
            assert(self@.skip(at as int)[0] == object@);
            if same_text(object.path.as_str(), path) {
                return Some(&object.interfaces);
            }
            assert(self@.skip(at as int).drop_first() =~= self@.skip(at + 1));
            at = at + 1;
        }
        None
    }
}

/// Setting an object leaves every other object as it is and where it is. The object takes the place
/// of the one with its path, and comes after all others where there is none.
pub proof fn law_set_object_keeps_the_others(objects: Seq<ObjectView>, object: ObjectView)
    ensures
        ({
            let after = with_object(objects, object);
            let known = exists|i: int|
                0 <= i < objects.len() && (#[trigger] objects[i]).path == object.path;
            &&& after.len() == objects.len() + if known {
                0int
            } else {
                1int
            }
            &&& !known ==> after.last() == object
            &&& forall|i: int|
                0 <= i < objects.len() ==> #[trigger] after[i] == if objects[i].path
                    == object.path {
                    object
                } else {
                    objects[i]
                }
        }),
{
}

/// A value is found under a name exactly where the map has it there.
pub proof fn law_entry_is_what_the_map_has<V>(map: Map<Seq<char>, V>, name: Seq<char>, value: V)
    ensures
        entry(map, name) == Some(value) <==> map.contains_key(name) && map[name] == value,
        entry(map, name) is None <==> !map.contains_key(name),
{
}

/// Where there is an object of a path, its interfaces are found by that path, provided that no
/// path occurs twice.
pub proof fn law_object_is_found_by_path(objects: Seq<ObjectView>, i: int)
    requires
        distinct_paths(objects),
        0 <= i < objects.len(),
    ensures
        interfaces_at(objects, objects[i].path) == Some(objects[i].interfaces),
    decreases objects.len(),
{
    if i > 0 {
        let rest = objects.drop_first();
        assert(objects[0].path != objects[i].path);
        assert(rest[i - 1] == objects[i]);
        lemma_rest_is_distinct(objects);
        law_object_is_found_by_path(rest, i - 1);
    }
}

proof fn lemma_rest_is_distinct(objects: Seq<ObjectView>)
    requires
        distinct_paths(objects),
        objects.len() > 0,
    ensures
        distinct_paths(objects.drop_first()),
{
    let rest = objects.drop_first();
    assert forall|i: int, j: int| 0 <= i < j < rest.len() implies (#[trigger] rest[i]).path != (
    #[trigger] rest[j]).path by {
        assert(rest[i] == objects[i + 1]);
        assert(rest[j] == objects[j + 1]);
    }
}

/// Where there is no object of a path, nothing is found by it.
pub proof fn law_no_object_is_found(objects: Seq<ObjectView>, path: Seq<char>)
    ensures
        interfaces_at(objects, path) is None == !has_path(objects, path),
    decreases objects.len(),
{
    if objects.len() > 0 {
        let rest = objects.drop_first();
        law_no_object_is_found(rest, path);
        if objects[0].path != path {
            if has_path(objects, path) {
                let i = choose|i: int| 0 <= i < objects.len() && (#[trigger] objects[i]).path == path;
                assert(rest[i - 1] == objects[i]);
            }
            if has_path(rest, path) {
                let i = choose|i: int| 0 <= i < rest.len() && (#[trigger] rest[i]).path == path;
                assert(objects[i + 1] == rest[i]);
            }
        }
    }
}

/// Setting an object keeps the paths distinct, and finds for its path what was set and for any
/// other path what was found before.
pub proof fn law_set_object_is_found(
    objects: Seq<ObjectView>,
    object: ObjectView,
    path: Seq<char>,
)
    requires
        distinct_paths(objects),
    ensures
        distinct_paths(with_object(objects, object)),
        interfaces_at(with_object(objects, object), path) == if path == object.path {
            Some(object.interfaces)
        } else {
            interfaces_at(objects, path)
        },
{
    let after = with_object(objects, object);
    assert forall|i: int, j: int| 0 <= i < j < after.len() implies (#[trigger] after[i]).path != (
    #[trigger] after[j]).path by {
        if j < objects.len() {
            assert(objects[i].path != objects[j].path);
        }
    }
    law_no_object_is_found(objects, path);
    law_no_object_is_found(after, path);
    if path == object.path {
        if has_path(objects, path) {
            let i = choose|i: int| 0 <= i < objects.len() && (#[trigger] objects[i]).path == path;
            assert(after[i] == object);
            law_object_is_found_by_path(after, i);
        } else {
            assert(after[objects.len() as int] == object);
            law_object_is_found_by_path(after, objects.len() as int);
        }
    } else if has_path(objects, path) {
        let i = choose|i: int| 0 <= i < objects.len() && (#[trigger] objects[i]).path == path;
        assert(after[i] == objects[i]);
        law_object_is_found_by_path(objects, i);
        law_object_is_found_by_path(after, i);
    } else if has_path(after, path) {
        let i = choose|i: int| 0 <= i < after.len() && (#[trigger] after[i]).path == path;
        assert(i < objects.len());
        assert(objects[i].path == path);
    }
}

} // verus!
