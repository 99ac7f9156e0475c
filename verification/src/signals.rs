//! Which changes on the bus matter to the service.

use crate::dbus::{ADAPTER_INTERFACE, BATTERY_INTERFACE, DEVICE_INTERFACE};
use crate::service::BluetoothService;
use crate::text::same_text;
use std::collections::HashMap;
use vstd::prelude::*;
use zbus::zvariant::OwnedValue;

verus! {

#[verifier::external_type_specification]
#[verifier::external_body]
pub struct ExMessage(zbus::Message);

#[verifier::external_type_specification]
#[verifier::external_body]
pub struct ExBusError(zbus::Error);

/// The body of a `PropertiesChanged` signal, without the new values.
#[derive(Debug)]
pub struct PropertiesChanged {
    /// The interface whose properties changed.
    pub interface: String,
    /// The properties that have a new value, in no particular order.
    pub changed: Vec<String>,
    /// The properties whose new value was not sent.
    pub invalidated: Vec<String>,
}

/// What a [`PropertiesChanged`] stands for.
pub struct ChangeView {
    pub interface: Seq<char>,
    pub changed: Set<Seq<char>>,
    pub invalidated: Set<Seq<char>>,
}

/// The texts of a list.
pub open spec fn texts(list: Seq<String>) -> Set<Seq<char>> {
    Set::new(|text: Seq<char>| exists|i: int| 0 <= i < list.len() && (#[trigger] list[i])@ == text)
}

impl View for PropertiesChanged {
    type V = ChangeView;

    open spec fn view(&self) -> ChangeView {
        ChangeView {
            interface: self.interface@,
            changed: texts(self.changed@),
            invalidated: texts(self.invalidated@),
        }
    }
}

impl ChangeView {
    /// The property has a new value, sent or not.
    pub open spec fn touches(self, property: Seq<char>) -> bool {
        self.changed.contains(property) || self.invalidated.contains(property)
    }

    /// The change may alter what the service shows.
    pub open spec fn relevant(self) -> bool {
        ||| self.interface == ADAPTER_INTERFACE@ && (self.touches("Powered"@) || self.touches(
            "Discovering"@,
        ))
        ||| self.interface == DEVICE_INTERFACE@ && self.touches("Connected"@)
        ||| self.interface == BATTERY_INTERFACE@ && self.touches("Percentage"@)
    }
}

fn lists(list: &Vec<String>, text: &str) -> (found: bool)
    ensures
        found == texts(list@).contains(text@),
{
    for i in 0..list.len()
        invariant
            forall|j: int| 0 <= j < i ==> (#[trigger] list@[j])@ != text@,
    {
        if same_text(list[i].as_str(), text) {
            assert(list@[i as int]@ == text@);
            return true;
        }
    }
    false
}

impl PropertiesChanged {
    /// Whether the property has a new value, sent or not.
    pub fn touches(&self, property: &str) -> (touched: bool)
        ensures
            touched == self@.touches(property@),
    {
        lists(&self.changed, property) || lists(&self.invalidated, property)
    }

    /// Whether the change may alter what the service shows.
    pub fn relevant(&self) -> (relevant: bool)
        ensures
            relevant == self@.relevant(),
    {
        let interface: &str = self.interface.as_str();
        proof {
            reveal_strlit("org.bluez.Adapter1");
            reveal_strlit("org.bluez.Device1");
            reveal_strlit("org.bluez.Battery1");
            assert(ADAPTER_INTERFACE@.len() == 18);
            assert(DEVICE_INTERFACE@.len() == 17);
            assert(BATTERY_INTERFACE@[10] == 'B');
            assert(ADAPTER_INTERFACE@[10] == 'A');
        }
        if same_text(interface, ADAPTER_INTERFACE) {
            self.touches("Powered") || self.touches("Discovering")
        } else if same_text(interface, DEVICE_INTERFACE) {
            self.touches("Connected")
        } else if same_text(interface, BATTERY_INTERFACE) {
            self.touches("Percentage")
        } else {
            false
        }
    }
}

/// What the body of a message holds, read as an interface name, a dictionary of variants by
/// property name and a list of property names; nothing where it is none of that shape.
pub uninterp spec fn change_in(message: zbus::Message) -> Option<ChangeView>;

/// There is a change, and it may alter what the service shows.
pub open spec fn tells_relevant(change: Option<ChangeView>) -> bool {
    match change {
        Some(change) => change.relevant(),
        None => false,
    }
}

/// How many file descriptors came with a message.
pub uninterp spec fn fds_with(message: zbus::Message) -> nat;

/// The message came with file descriptors.
pub open spec fn carries_fds(message: zbus::Message) -> bool {
    fds_with(message) > 0
}

/// `Message::data` and `Data::fds`: the list of the file descriptors that came with the message,
/// of which the length is handed out.
#[verifier::external_body]
fn fd_count(message: &zbus::Message) -> (count: usize)
    ensures
        count == fds_with(*message),
{
    message.data().fds().len()
}

/// `Message::body` and `Body::deserialize`, at the three argument types of a `PropertiesChanged`
/// signal; of the dictionary the keys are handed out. What is read is what the body holds.
/// Reading fails where the body has another shape. It also fails where a file descriptor among
/// the values cannot be duplicated, so of a message that carries any nothing more is said.
#[verifier::external_body]
fn read_change(message: &zbus::Message) -> (change: Result<PropertiesChanged, zbus::Error>)
    ensures
        match change {
            Ok(change) => change_in(*message) == Some(change@),
            Err(_) => change_in(*message) is None || carries_fds(*message),
        },
{
    let body = message.body();
    let (interface, changed, invalidated): (String, HashMap<String, OwnedValue>, Vec<String>) =
        body.deserialize()?;
    Ok(PropertiesChanged { interface, changed: changed.into_keys().collect(), invalidated })
}

impl BluetoothService {
    /// Whether a message from the bus tells of a change that may alter what the service shows.
    pub fn relevant_property_changed(message: zbus::Result<zbus::Message>) -> (found: Option<()>)
        ensures
            match message {
                Err(_) => found is None,
                Ok(message) => {
                    &&& found is Some ==> tells_relevant(change_in(message))
                    &&& !carries_fds(message) ==> found is Some == tells_relevant(change_in(message))
                },
            },
    {
        let Ok(message) = message else {
            return None;
        };
        let Ok(change) = read_change(&message) else {
            return None;
        };
        if change.relevant() {
            Some(())
        } else {
            None
        }
    }

    /// Whether a message from the bus tells of a change that may alter what the service shows,
    /// where the message alone decides that. Nothing is answered of a message that carries file
    /// descriptors: whether it can be read also depends on how many of them the machine has left.
    pub fn relevance(message: zbus::Message) -> (relevant: Option<bool>)
        ensures
            relevant == if carries_fds(message) {
                None
            } else {
                Some(tells_relevant(change_in(message)))
            },
    {
        if fd_count(&message) > 0 {
            return None;
        }
        Some(BluetoothService::relevant_property_changed(Ok(message)).is_some())
    }
}

/// The list holds the text.
pub open spec fn listed_in(list: Seq<String>, text: Seq<char>) -> bool {
    exists|i: int| 0 <= i < list.len() && (#[trigger] list[i])@ == text
}

/// The change gives the property a new value, or takes its value back.
pub open spec fn names(change: PropertiesChanged, property: Seq<char>) -> bool {
    listed_in(change.changed@, property) || listed_in(change.invalidated@, property)
}

/// A change of an adapter is followed exactly where it names the power or the discovery, one of a
/// device where it names the connection, one of a battery where it names the charge, and one of
/// any other interface never, whatever else it names.
pub proof fn law_which_changes_are_followed(change: PropertiesChanged)
    ensures
        forall|property: Seq<char>| #[trigger]
            change@.touches(property) <==> names(change, property),
        tells_relevant(Some(change@)) == change@.relevant(),
        change.interface@ == "org.bluez.Adapter1"@ ==> (change@.relevant() <==> names(
            change,
            "Powered"@,
        ) || names(change, "Discovering"@)),
        change.interface@ == "org.bluez.Device1"@ ==> (change@.relevant() <==> names(
            change,
            "Connected"@,
        )),
        change.interface@ == "org.bluez.Battery1"@ ==> (change@.relevant() <==> names(
            change,
            "Percentage"@,
        )),
        change.interface@ != "org.bluez.Adapter1"@ && change.interface@ != "org.bluez.Device1"@
            && change.interface@ != "org.bluez.Battery1"@ ==> !change@.relevant(),
        !tells_relevant(None),
{
    reveal_strlit("org.bluez.Adapter1");
    reveal_strlit("org.bluez.Device1");
    reveal_strlit("org.bluez.Battery1");
    assert("org.bluez.Adapter1"@[10] == 'A');
    assert("org.bluez.Device1"@[10] == 'D');
    assert("org.bluez.Battery1"@[10] == 'B');
    assert forall|property: Seq<char>| #[trigger] change@.touches(property) <==> names(
        change,
        property,
    ) by {
        assert(texts(change.changed@).contains(property) == listed_in(change.changed@, property));
        assert(texts(change.invalidated@).contains(property) == listed_in(
            change.invalidated@,
            property,
        ));
    }
    assert(change@.touches("Powered"@) == names(change, "Powered"@));
    assert(change@.touches("Discovering"@) == names(change, "Discovering"@));
    assert(change@.touches("Connected"@) == names(change, "Connected"@));
    assert(change@.touches("Percentage"@) == names(change, "Percentage"@));
}

/// A message carries file descriptors exactly where at least one came with it.
pub proof fn law_descriptors_are_counted(message: zbus::Message)
    ensures
        carries_fds(message) <==> fds_with(message) != 0,
{
}

/// Words of ASCII letters, with one separator between each two of them.
pub open spec fn words(text: Seq<char>, separator: char) -> bool {
    &&& 0 < text.len() <= 255
    &&& text[0] != separator
    &&& text.last() != separator
    &&& forall|i: int|
        0 <= i < text.len() ==> {
            ||| 'a' <= #[trigger] text[i] <= 'z'
            ||| 'A' <= text[i] <= 'Z'
            ||| text[i] == separator && text[i + 1] != separator
        }
}

/// A bus name, an interface name, a member name, a namespace of names and an object path, none
/// of them with anything but letters and separators.
pub open spec fn plain_names(
    sender: Seq<char>,
    interface: Seq<char>,
    member: Seq<char>,
    arg0_namespace: Seq<char>,
    path_namespace: Seq<char>,
) -> bool {
    &&& words(sender, '.') && sender.contains('.')
    &&& words(interface, '.') && interface.contains('.')
    &&& words(member, '.') && !member.contains('.')
    &&& words(arg0_namespace, '.')
    &&& path_namespace.len() > 0 && path_namespace[0] == '/' && words(path_namespace.skip(1), '/')
}

/// A match rule for signals, in the notation of the bus.
pub open spec fn signal_rule_text(
    sender: Seq<char>,
    interface: Seq<char>,
    member: Seq<char>,
    arg0_namespace: Seq<char>,
    path_namespace: Seq<char>,
) -> Seq<char> {
    "type='signal',sender='"@ + sender + "',interface='"@ + interface + "',member='"@ + member
        + "',path_namespace='"@ + path_namespace + "',arg0namespace='"@ + arg0_namespace + "'"@
}

/// `MatchRule::builder` with its `msg_type` (signals), `sender`, `interface`, `member`, `arg0ns`,
/// `path_namespace` and `build`, and the rule's `to_string`. The text of a rule lists its
/// components in a fixed order, each as a key and a quoted value. Making it fails where a name is
/// not valid on the bus; which names are valid is said for plain ones only, and they are.
#[verifier::external_body]
fn signal_rule(
    sender: &str,
    interface: &str,
    member: &str,
    arg0_namespace: &str,
    path_namespace: &str,
) -> (rule: Result<String, zbus::Error>)
    ensures
        plain_names(sender@, interface@, member@, arg0_namespace@, path_namespace@) ==> rule is Ok,
        rule matches Ok(rule) ==> rule@ == signal_rule_text(
            sender@,
            interface@,
            member@,
            arg0_namespace@,
            path_namespace@,
        ),
{
    let rule = zbus::MatchRule::builder()
        .msg_type(zbus::message::Type::Signal)
        .sender(sender)?
        .interface(interface)?
        .member(member)?
        .arg0ns(arg0_namespace)?
        .path_namespace(path_namespace)?
        .build();
    Ok(rule.to_string())
}

/// A match rule could not be made.
#[derive(Debug)]
pub struct InvalidRule {
    pub cause: zbus::Error,
}

/// The rule for the `PropertiesChanged` signals of BlueZ's objects, in the notation of the bus.
pub fn properties_changed_rule() -> (rule: Result<String, InvalidRule>)
    ensures
        rule is Ok,
        rule matches Ok(rule) ==> rule@ == signal_rule_text(
            "org.bluez"@,
            "org.freedesktop.DBus.Properties"@,
            "PropertiesChanged"@,
            "org.bluez"@,
            "/org/bluez"@,
        ),
{
    proof {
        reveal_strlit("org.bluez");
        reveal_strlit("org.freedesktop.DBus.Properties");
        reveal_strlit("PropertiesChanged");
        reveal_strlit("/org/bluez");
        assert("org.bluez"@[3] == '.');
        assert("org.freedesktop.DBus.Properties"@[3] == '.');
    }
    match signal_rule(
        "org.bluez",
        "org.freedesktop.DBus.Properties",
        "PropertiesChanged",
        "org.bluez",
        "/org/bluez",
    ) {
        Ok(rule) => Ok(rule),
        Err(cause) => Err(InvalidRule { cause }),
    }
}

} // verus!
