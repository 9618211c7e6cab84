//! The flat property record that crosses to the native engine, and the
//! functions that encode typed fields into it.

use crate::c_string::{c_string, c_text, has_nul, lemma_c_string_round_trip, terminated};
use crate::types::StringProperty;
use vstd::prelude::*;
use vstd::string::StringSliceAdditionalSpecFns;
use vstd::utf8::decode_utf8;

verus! {

/// The classification of a field that holds no personal data.
pub const PII_KIND_NONE: u32 = 0;

/// The classification of a field that the engine is to treat as personal
/// data.
pub const PII_KIND_GENERIC: u32 = 1;

/// What a property carries, as plain values: a string as its buffer.
pub enum ValueModel {
    String(Seq<u8>),
    Int64(i64),
    Time(u64),
}

/// A property as plain values: the buffer of its name, its value and its
/// classification.
pub struct PropertyModel {
    pub name: Seq<u8>,
    pub value: ValueModel,
    pub pii_kind: u32,
}

/// The value of a property, tagged by its kind. A time is a number of
/// seconds since the Unix epoch.
#[derive(Debug)]
pub enum PropertyValue {
    String(StringProperty),
    Int64(i64),
    Time(u64),
}

impl View for PropertyValue {
    type V = ValueModel;

    open spec fn view(&self) -> ValueModel {
        match self {
            PropertyValue::String(s) => ValueModel::String(s@),
            PropertyValue::Int64(v) => ValueModel::Int64(*v),
            PropertyValue::Time(v) => ValueModel::Time(*v),
        }
    }
}

impl Clone for PropertyValue {
    fn clone(&self) -> (copy: Self)
        ensures
            copy@ == self@,
    {
        match self {
            PropertyValue::String(s) => PropertyValue::String(s.clone()),
            PropertyValue::Int64(v) => PropertyValue::Int64(*v),
            PropertyValue::Time(v) => PropertyValue::Time(*v),
        }
    }
}

/// One named, typed field of an event, in the layout the engine reads. The
/// record owns the buffers of its name and of a string value, so they live
/// at least as long as any call that is handed the record.
#[derive(Debug)]
pub struct Property {
    pub name: StringProperty,
    pub value: PropertyValue,
    pub pii_kind: u32,
}

impl View for Property {
    type V = PropertyModel;

    open spec fn view(&self) -> PropertyModel {
        PropertyModel { name: self.name@, value: self.value@, pii_kind: self.pii_kind }
    }
}

impl DeepView for Property {
    type V = PropertyModel;

    open spec fn deep_view(&self) -> PropertyModel {
        self@
    }
}

impl Clone for Property {
    fn clone(&self) -> (copy: Self)
        ensures
            copy@ == self@,
    {
        Property { name: self.name.clone(), value: self.value.clone(), pii_kind: self.pii_kind }
    }
}

/// The classification that `is_pii` selects.
pub open spec fn pii_kind_of(is_pii: bool) -> u32 {
    if is_pii {
        PII_KIND_GENERIC
    } else {
        PII_KIND_NONE
    }
}

/// The record of a string field.
pub open spec fn string_record(name: Seq<u8>, value: Seq<u8>, is_pii: bool) -> PropertyModel {
    PropertyModel {
        name: c_string(name),
        value: ValueModel::String(c_string(value)),
        pii_kind: pii_kind_of(is_pii),
    }
}

/// The record of an integer field.
pub open spec fn int_record(name: Seq<u8>, value: i64) -> PropertyModel {
    PropertyModel { name: c_string(name), value: ValueModel::Int64(value), pii_kind: PII_KIND_NONE }
}

/// The record of a time field.
pub open spec fn time_record(name: Seq<u8>, seconds: u64) -> PropertyModel {
    PropertyModel { name: c_string(name), value: ValueModel::Time(seconds), pii_kind: PII_KIND_NONE }
}

/// A string field reads back as it was written: the buffer of its name and
/// the buffer of its value each hold, before the terminator, the very bytes
/// that were encoded, and these decode to the characters of the string.
pub proof fn lemma_string_record_round_trip(name: &str, value: &str, is_pii: bool)
    requires
        !has_nul(name.spec_bytes()),
        !has_nul(value.spec_bytes()),
    ensures
        c_text(string_record(name.spec_bytes(), value.spec_bytes(), is_pii).name)
            == name.spec_bytes(),
        string_record(name.spec_bytes(), value.spec_bytes(), is_pii).value
            == ValueModel::String(c_string(value.spec_bytes())),
        c_text(c_string(value.spec_bytes())) == value.spec_bytes(),
        decode_utf8(c_text(c_string(value.spec_bytes()))) == value@,
{
    lemma_c_string_round_trip(name.spec_bytes());
    lemma_c_string_round_trip(value.spec_bytes());
    vstd::utf8::encode_utf8_decode_utf8(value@);
}

/// The terminated buffer of `value`, owned by the caller.
pub fn to_c_str(value: &str) -> (buffer: Vec<u8>)
    requires
        !has_nul(value.spec_bytes()),
    ensures
        buffer@ == c_string(value.spec_bytes()),
{
    terminated(value.as_bytes())
}

/// Encodes a string field. The record owns both buffers.
pub fn string_prop(name: &str, value: &str, is_pii: bool) -> (property: Property)
    requires
        !has_nul(name.spec_bytes()),
        !has_nul(value.spec_bytes()),
    ensures
        property@ == string_record(name.spec_bytes(), value.spec_bytes(), is_pii),
{
    let mut pii_kind: u32 = PII_KIND_NONE;

    if is_pii {
        pii_kind = PII_KIND_GENERIC;
    }

    Property {
        name: StringProperty::new(name),
        value: PropertyValue::String(StringProperty::new(value)),
        pii_kind,
    }
}

/// Encodes an integer field, by value.
pub fn int_prop(name: &str, value: i64) -> (property: Property)
    requires
        !has_nul(name.spec_bytes()),
    ensures
        property@ == int_record(name.spec_bytes(), value),
{
    Property {
        name: StringProperty::new(name),
        value: PropertyValue::Int64(value),
        pii_kind: PII_KIND_NONE,
    }
}

/// Encodes a time field, by value.
pub fn time_prop(name: &str, seconds: u64) -> (property: Property)
    requires
        !has_nul(name.spec_bytes()),
    ensures
        property@ == time_record(name.spec_bytes(), seconds),
{
    Property {
        name: StringProperty::new(name),
        value: PropertyValue::Time(seconds),
        pii_kind: PII_KIND_NONE,
    }
}

} // verus!
