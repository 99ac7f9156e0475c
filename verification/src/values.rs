//! Property values, as the service reads them out of D-Bus variants.

use vstd::prelude::*;
use zbus::zvariant::OwnedValue;

verus! {

/// A property value: one of the three kinds that the service reads, or any other.
#[derive(Debug)]
pub enum PropertyValue {
    Bool(bool),
    Byte(u8),
    Text(String),
    Other,
}

/// What a [`PropertyValue`] stands for.
pub enum PropertyView {
    Bool(bool),
    Byte(u8),
    Text(Seq<char>),
    Other,
}

impl View for PropertyValue {
    type V = PropertyView;

    open spec fn view(&self) -> PropertyView {
        match *self {
            PropertyValue::Bool(value) => PropertyView::Bool(value),
            PropertyValue::Byte(value) => PropertyView::Byte(value),
            PropertyValue::Text(value) => PropertyView::Text(value@),
            PropertyValue::Other => PropertyView::Other,
        }
    }
}

impl PropertyView {
    /// The value as a boolean, if it is one.
    pub open spec fn bool(self) -> Option<bool> {
        match self {
            PropertyView::Bool(value) => Some(value),
            _ => None,
        }
    }

    /// The value as a byte, if it is one.
    pub open spec fn byte(self) -> Option<u8> {
        match self {
            PropertyView::Byte(value) => Some(value),
            _ => None,
        }
    }

    /// The value as a text, if it is one.
    pub open spec fn text(self) -> Option<Seq<char>> {
        match self {
            PropertyView::Text(value) => Some(value),
            _ => None,
        }
    }
}

#[verifier::external_type_specification]
#[verifier::external_body]
pub struct ExOwnedValue(OwnedValue);

#[verifier::external_type_specification]
#[verifier::external_body]
pub struct ExVariantError(zbus::zvariant::Error);

/// What an `OwnedValue` holds: a D-Bus variant is a container of exactly one value.
pub uninterp spec fn held(value: OwnedValue) -> PropertyView;

/// `OwnedValue::try_clone`. The copy holds what the value holds. Copying fails only where a
/// file descriptor is to be duplicated, so never for a boolean, a byte or a text.
#[verifier::external_body]
fn try_clone(value: &OwnedValue) -> (copy: Result<OwnedValue, zbus::zvariant::Error>)
    ensures
        match copy {
            Ok(copy) => held(copy) == held(*value),
            Err(_) => held(*value) is Other,
        },
{
    value.try_clone()
}

/// `<bool as TryFrom<OwnedValue>>::try_from`: the boolean that the variant holds, and an error if
/// it holds anything else.
#[verifier::external_body]
fn try_bool(value: OwnedValue) -> (read: Result<bool, zbus::zvariant::Error>)
    ensures
        match read {
            Ok(read) => held(value) == PropertyView::Bool(read),
            Err(_) => held(value) !is Bool,
        },
{
    bool::try_from(value)
}

/// `<u8 as TryFrom<OwnedValue>>::try_from`: the byte that the variant holds, and an error if it
/// holds anything else.
#[verifier::external_body]
fn try_byte(value: OwnedValue) -> (read: Result<u8, zbus::zvariant::Error>)
    ensures
        match read {
            Ok(read) => held(value) == PropertyView::Byte(read),
            Err(_) => held(value) !is Byte,
        },
{
    u8::try_from(value)
}

/// `<String as TryFrom<OwnedValue>>::try_from`: the text that the variant holds, and an error if
/// it holds anything else.
#[verifier::external_body]
fn try_text(value: OwnedValue) -> (read: Result<String, zbus::zvariant::Error>)
    ensures
        match read {
            Ok(read) => held(value) == PropertyView::Text(read@),
            Err(_) => held(value) !is Text,
        },
{
    String::try_from(value)
}

impl PropertyValue {
    /// Reads a variant received from the bus.
    pub fn read(value: &OwnedValue) -> (read: PropertyValue)
        ensures
            read@ == held(*value),
    {
        let Ok(copy) = try_clone(value) else {
            return PropertyValue::Other;
        };
        if let Ok(read) = try_bool(copy) {
            return PropertyValue::Bool(read);
        }
        let Ok(copy) = try_clone(value) else {
            return PropertyValue::Other;
        };
        if let Ok(read) = try_byte(copy) {
            return PropertyValue::Byte(read);
        }
        let Ok(copy) = try_clone(value) else {
            return PropertyValue::Other;
        };
        if let Ok(read) = try_text(copy) {
            return PropertyValue::Text(read);
        }
        PropertyValue::Other
    }

    /// The value as a boolean, if it is one.
    pub fn bool(&self) -> (value: Option<bool>)
        ensures
            value == self@.bool(),
    {
        match self {
            PropertyValue::Bool(value) => Some(*value),
            _ => None,
        }
    }

    /// The value as a byte, if it is one.
    pub fn byte(&self) -> (value: Option<u8>)
        ensures
            value == self@.byte(),
    {
        match self {
            PropertyValue::Byte(value) => Some(*value),
            _ => None,
        }
    }

    /// The value as a text, if it is one.
    pub fn text(&self) -> (value: Option<String>)
        ensures
            value is Some == self@.text() is Some,
            value matches Some(value) ==> value@ == self@.text()->0,
    {
        match self {
            PropertyValue::Text(value) => Some(value.clone()),
            _ => None,
        }
    }
}

/// A value is read as a boolean, a byte or a text exactly where it is one, and as what it is.
pub proof fn law_value_is_read_as_what_it_is(value: PropertyValue)
    ensures
        value matches PropertyValue::Bool(b) ==> value@ == PropertyView::Bool(b) && value@.bool()
            == Some(b),
        value matches PropertyValue::Byte(b) ==> value@ == PropertyView::Byte(b) && value@.byte()
            == Some(b),
        value matches PropertyValue::Text(text) ==> value@ == PropertyView::Text(text@)
            && value@.text() == Some(text@),
        value !is Text ==> value@.text() is None,
        value !is Bool ==> value@.bool() is None,
        value !is Byte ==> value@.byte() is None,
        value is Other <==> value@ is Other,
{
}

} // verus!
