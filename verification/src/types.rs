//! The values a telemetry event is made of.

use crate::c_string::{
    c_string, c_text, contains_nul, has_nul, is_c_string, lemma_ascii_text,
    lemma_c_length_bound, lemma_c_string_of_text, lemma_c_string_round_trip, terminated,
    text_length,
};
use crate::conversion::{
    time_record, Property, PropertyModel, PropertyValue, ValueModel, PII_KIND_NONE,
};
use core::str::Utf8Error;
use vstd::prelude::*;
use vstd::slice::{slice_subrange, slice_to_vec};
use vstd::string::StringSliceAdditionalSpecFns;
use vstd::utf8::{decode_utf8, valid_utf8};

verus! {

/// The error of `core::str::from_utf8`, carried through as it is.
#[verifier::external_type_specification]
#[verifier::external_body]
pub struct ExUtf8Error(Utf8Error);

/// `core::str::from_utf8` accepts exactly the byte sequences that are valid
/// UTF-8, and the string slice it returns covers the bytes it was given.
pub assume_specification<'a>[ core::str::from_utf8 ](bytes: &'a [u8]) -> (text: Result<
    &'a str,
    Utf8Error,
>)
    ensures
        text is Ok <==> valid_utf8(bytes@),
        text is Ok ==> text->Ok_0.spec_bytes() == bytes@,
;

/// A string in the form the native engine reads: UTF-8 bytes followed by one
/// terminating zero byte, owned by this value for as long as it lives.
#[derive(Debug)]
pub struct StringProperty {
    bytes: Vec<u8>,
}

impl View for StringProperty {
    type V = Seq<u8>;

    /// The whole buffer, terminator included.
    closed spec fn view(&self) -> Seq<u8> {
        self.bytes@
    }
}

impl DeepView for StringProperty {
    type V = Seq<u8>;

    open spec fn deep_view(&self) -> Seq<u8> {
        self@
    }
}

impl Clone for StringProperty {
    fn clone(&self) -> (copy: Self)
        ensures
            copy.wf(),
            copy@ == self@,
    {
        proof {
            use_type_invariant(self);
        }
        StringProperty { bytes: slice_to_vec(self.bytes.as_slice()) }
    }
}

impl StringProperty {
    /// The buffer is a terminated string whose text is valid UTF-8.
    #[verifier::type_invariant]
    pub closed spec fn wf(&self) -> bool {
        &&& is_c_string(self.bytes@)
        &&& valid_utf8(c_text(self.bytes@))
    }

    /// The bytes of the string itself, without the terminator.
    pub open spec fn text(&self) -> Seq<u8> {
        c_text(self@)
    }

    /// Every string property is the buffer of its own text: the text holds
    /// no zero byte, is valid UTF-8, and is followed by the one terminator.
    pub proof fn lemma_buffer_of_text(&self)
        requires
            self.wf(),
        ensures
            is_c_string(self@),
            valid_utf8(self.text()),
            self@ == c_string(self.text()),
            !has_nul(self.text()),
    {
        lemma_c_string_of_text(self@);
    }

    /// Encodes `value`. The value may hold no zero byte: the terminator must
    /// be the only one.
    pub fn new(value: &str) -> (property: Self)
        requires
            !has_nul(value.spec_bytes()),
        ensures
            property.wf(),
            property@ == c_string(value.spec_bytes()),
            property.text() == value.spec_bytes(),
    {
        let bytes = terminated(value.as_bytes());
        proof {
            lemma_c_string_round_trip(value.spec_bytes());
            vstd::utf8::encode_utf8_valid_utf8(value@);
        }
        StringProperty { bytes }
    }

    /// Encodes `value` where it can be encoded: `None` where it holds a zero
    /// byte.
    pub fn try_new(value: &str) -> (property: Option<Self>)
        ensures
            property is Some <==> !has_nul(value.spec_bytes()),
            property is Some ==> property->Some_0.wf() && property->Some_0@ == c_string(
                value.spec_bytes(),
            ),
    {
        if contains_nul(value.as_bytes()) {
            None
        } else {
            Some(StringProperty::new(value))
        }
    }

    /// Whether the two strings are the same, byte for byte.
    pub fn equals(&self, other: &StringProperty) -> (same: bool)
        ensures
            same == (self@ == other@),
    {
        let a = self.bytes.as_slice();
        let b = other.bytes.as_slice();
        if a.len() != b.len() {
            return false;
        }
        let mut i: usize = 0;
        while i < a.len()
            invariant
                a@ == self@,
                b@ == other@,
                a@.len() == b@.len(),
                i <= a@.len(),
                forall|j: int| 0 <= j < i ==> a@[j] == b@[j],
            decreases a.len() - i,
        {
            if a[i] != b[i] {
                return false;
            }
            i += 1;
        }
        proof {
            assert(a@ =~= b@);
        }
        true
    }

    /// The buffer, terminator included, borrowed for as long as the value
    /// lives.
    pub fn as_slice(&self) -> (bytes: &[u8])
        ensures
            bytes@ == self@,
    {
        self.bytes.as_slice()
    }

    /// A copy of the buffer, terminator included.
    pub fn as_bytes(&self) -> (bytes: Vec<u8>)
        ensures
            bytes@ == self@,
    {
        slice_to_vec(self.bytes.as_slice())
    }

    /// Reads the buffer back as a reader on the native side does: up to the
    /// first zero byte, as UTF-8. This succeeds on every value, and yields the
    /// characters that were encoded.
    pub fn to_str(&self) -> (text: Result<&str, Utf8Error>)
        ensures
            text is Ok,
            text->Ok_0.spec_bytes() == self.text(),
            text->Ok_0@ == decode_utf8(self.text()),
    {
        proof {
            use_type_invariant(self);
            lemma_c_length_bound(self.bytes@);
        }
        let buffer = self.bytes.as_slice();
        let length = match text_length(buffer) {
            Some(length) => length,
            None => 0,
        };
        let text = core::str::from_utf8(slice_subrange(buffer, 0, length));
        proof {
            assert(buffer@.subrange(0, length as int) =~= c_text(buffer@));
            if let Ok(s) = text {
                vstd::utf8::encode_utf8_decode_utf8(s@);
            }
        }
        text
    }
}

/// The bytes of the text `name`.
pub open spec fn name_text() -> Seq<u8> {
    seq![0x6eu8, 0x61u8, 0x6du8, 0x65u8]
}

/// The bytes of the text `time`.
pub open spec fn time_text() -> Seq<u8> {
    seq![0x74u8, 0x69u8, 0x6du8, 0x65u8]
}

/// The name of the field that carries an event's name.
pub fn name_property() -> (property: StringProperty)
    ensures
        property.wf(),
        property@ == c_string(name_text()),
{
    proof {
        reveal_strlit("name");
        lemma_ascii_text("name");
        assert("name".spec_bytes() =~= name_text());
    }
    StringProperty::new("name")
}

/// The name of the field that carries an event's time.
pub fn time_property() -> (property: StringProperty)
    ensures
        property.wf(),
        property@ == c_string(time_text()),
{
    proof {
        reveal_strlit("time");
        lemma_ascii_text("time");
        assert("time".spec_bytes() =~= time_text());
    }
    StringProperty::new("time")
}

/// The empty string: a buffer that holds the terminator and nothing else.
pub fn empty_string() -> (property: StringProperty)
    ensures
        property.wf(),
        property@ == c_string(Seq::<u8>::empty()),
{
    proof {
        reveal_strlit("");
        lemma_ascii_text("");
        assert("".spec_bytes() =~= Seq::<u8>::empty());
    }
    StringProperty::new("")
}

/// The value of a field as its author gives it.
#[derive(Debug)]
pub enum TelemetryProperty {
    String(StringProperty),
    Int(i64),
}

impl View for TelemetryProperty {
    type V = ValueModel;

    open spec fn view(&self) -> ValueModel {
        match self {
            TelemetryProperty::String(s) => ValueModel::String(s@),
            TelemetryProperty::Int(v) => ValueModel::Int64(*v),
        }
    }
}

impl Clone for TelemetryProperty {
    fn clone(&self) -> (copy: Self)
        ensures
            copy@ == self@,
    {
        match self {
            TelemetryProperty::String(s) => TelemetryProperty::String(s.clone()),
            TelemetryProperty::Int(v) => TelemetryProperty::Int(*v),
        }
    }
}

impl TelemetryProperty {
    /// The value in the form in which it crosses to the engine.
    pub fn to_value(&self) -> (value: PropertyValue)
        ensures
            value@ == self@,
    {
        match self {
            TelemetryProperty::String(s) => PropertyValue::String(s.clone()),
            TelemetryProperty::Int(v) => PropertyValue::Int64(*v),
        }
    }
}

/// An event as plain values: the buffer of its name, its fields in the
/// order in which their names were first added, each as the buffer of the
/// name and the value, and the time in seconds since the Unix epoch.
pub struct ItemModel {
    pub name: Seq<u8>,
    pub data: Seq<(Seq<u8>, ValueModel)>,
    pub time: Option<i64>,
}

impl ItemModel {
    /// No two fields have the same name.
    pub open spec fn keys_unique(self) -> bool {
        forall|i: int, j: int|
            0 <= i < j < self.data.len() ==> (#[trigger] self.data[i]).0 != (
            #[trigger] self.data[j]).0
    }

    /// Whether a field is named `key`.
    pub open spec fn has_key(self, key: Seq<u8>) -> bool {
        exists|i: int| 0 <= i < self.data.len() && (#[trigger] self.data[i]).0 == key
    }

    /// The place of the field named `key`, where there is one.
    pub open spec fn position(self, key: Seq<u8>) -> int {
        choose|i: int| 0 <= i < self.data.len() && (#[trigger] self.data[i]).0 == key
    }

    /// The value of the field named `key`.
    pub open spec fn lookup(self, key: Seq<u8>) -> Option<ValueModel> {
        if self.has_key(key) {
            Some(self.data[self.position(key)].1)
        } else {
            None
        }
    }

    /// The event with the field `key` set to `value`: a field of that name
    /// keeps its place and takes the value, a new name goes to the end.
    pub open spec fn with_property(self, key: Seq<u8>, value: ValueModel) -> ItemModel {
        if self.has_key(key) {
            ItemModel { data: self.data.update(self.position(key), (key, value)), ..self }
        } else {
            ItemModel { data: self.data.push((key, value)), ..self }
        }
    }
}

/// The record of one field of an event.
pub open spec fn field_record(field: (Seq<u8>, ValueModel)) -> PropertyModel {
    PropertyModel { name: field.0, value: field.1, pii_kind: PII_KIND_NONE }
}

/// The records that carry an event's name and, where it has one, its time.
pub open spec fn item_head(item: ItemModel) -> Seq<PropertyModel> {
    let name = PropertyModel {
        name: c_string(name_text()),
        value: ValueModel::String(item.name),
        pii_kind: PII_KIND_NONE,
    };
    match item.time {
        Some(seconds) => seq![name, time_record(time_text(), seconds as u64)],
        None => seq![name],
    }
}

/// The property array of an event: its name, its time where it has one, and
/// its fields in their order.
pub open spec fn item_properties(item: ItemModel) -> Seq<PropertyModel> {
    item_head(item) + item.data.map_values(|field: (Seq<u8>, ValueModel)| field_record(field))
}

/// One field of an event.
#[derive(Debug)]
struct Field {
    name: StringProperty,
    value: TelemetryProperty,
}

/// A named event with its fields. The fields are kept in the order in
/// which their names were first added, no name twice, so that the property
/// array of an event is the same on every run.
#[derive(Debug)]
pub struct TelemetryItem {
    name: StringProperty,
    data: Vec<Field>,
    time: Option<i64>,
}

impl View for TelemetryItem {
    type V = ItemModel;

    closed spec fn view(&self) -> ItemModel {
        ItemModel {
            name: self.name@,
            data: Seq::new(self.data@.len(), |i: int| (self.data@[i].name@, self.data@[i].value@)),
            time: self.time,
        }
    }
}

impl Clone for TelemetryItem {
    fn clone(&self) -> (copy: Self)
        ensures
            copy@ == self@,
    {
        let mut data: Vec<Field> = Vec::with_capacity(self.data.len());
        let mut i: usize = 0;
        while i < self.data.len()
            invariant
                i <= self.data@.len(),
                data@.len() == i,
                forall|k: int|
                    0 <= k < i ==> data@[k].name@ == self.data@[k].name@ && data@[k].value@
                        == self.data@[k].value@,
            decreases self.data.len() - i,
        {
            data.push(Field { name: self.data[i].name.clone(), value: self.data[i].value.clone() });
            i += 1;
        }
        let copy = TelemetryItem { name: self.name.clone(), data, time: self.time };
        proof {
            assert(copy@.data =~= self@.data);
        }
        copy
    }
}

impl TelemetryItem {
    /// No two fields of the event have the same name.
    pub open spec fn wf(&self) -> bool {
        self@.keys_unique()
    }

    /// An event named `name`, without fields and without a time.
    pub fn new(name: &str) -> (item: TelemetryItem)
        requires
            !has_nul(name.spec_bytes()),
        ensures
            item.wf(),
            item@ == (ItemModel {
                name: c_string(name.spec_bytes()),
                data: Seq::empty(),
                time: None,
            }),
    {
        let item = TelemetryItem { name: StringProperty::new(name), data: Vec::new(), time: None };
        proof {
            assert(item@.data =~= Seq::empty());
        }
        item
    }

    /// An event named `name` that happened `time` seconds after the Unix
    /// epoch, without fields.
    pub fn new_with_time(name: &str, time: i64) -> (item: TelemetryItem)
        requires
            !has_nul(name.spec_bytes()),
        ensures
            item.wf(),
            item@ == (ItemModel {
                name: c_string(name.spec_bytes()),
                data: Seq::empty(),
                time: Some(time),
            }),
    {
        let item = TelemetryItem {
            name: StringProperty::new(name),
            data: Vec::new(),
            time: Some(time),
        };
        proof {
            assert(item@.data =~= Seq::empty());
        }
        item
    }

    /// Sets the field `name` to `value`. A field of that name keeps its
    /// place and takes the new value; a new name is added after the others.
    pub fn add_property(&mut self, name: &str, value: TelemetryProperty)
        requires
            old(self).wf(),
            !has_nul(name.spec_bytes()),
        ensures
            final(self).wf(),
            final(self)@ == old(self)@.with_property(c_string(name.spec_bytes()), value@),
    {
        let key = StringProperty::new(name);
        let ghost before = self@;
        let mut i: usize = 0;
        while i < self.data.len()
            invariant
                *self == *old(self),
                before == self@,
                key@ == c_string(name.spec_bytes()),
                before.data.len() == self.data@.len(),
                before.keys_unique(),
                i <= self.data@.len(),
                forall|k: int| 0 <= k < i ==> (#[trigger] before.data[k]).0 != key@,
            decreases self.data.len() - i,
        {
            if self.data[i].name.equals(&key) {
                proof {
                    assert(before.data[i as int].0 == key@);
                    assert(before.has_key(key@));
                    let chosen = before.position(key@);
                    if chosen < i {
                        assert(before.data[chosen].0 != before.data[i as int].0);
                    }
                    if i < chosen {
                        assert(before.data[i as int].0 != before.data[chosen].0);
                    }
                    assert(before.position(key@) == i as int);
                }
                self.data.set(i, Field { name: key, value });
                proof {
                    assert(self@.data =~= before.data.update(i as int, (key@, value@)));
                    assert(self@.name == before.name && self@.time == before.time);
                    assert(self@ == before.with_property(key@, value@));
                    lemma_with_property(before, key@, value@);
                }
                return;
            }
            i += 1;
        }
        self.data.push(Field { name: key, value });
        proof {
            assert(!before.has_key(key@));
            assert(self@.data =~= before.data.push((key@, value@)));
            lemma_with_property(before, key@, value@);
        }
    }

    /// The property array of the event, built afresh: the event itself is
    /// left as it is.
    pub fn to_evt(&self) -> (properties: Box<Vec<Property>>)
        ensures
            properties.deep_view() == item_properties(self@),
    {
        let mut properties: Vec<Property> = Vec::new();

        properties.push(
            Property {
                name: name_property(),
                value: PropertyValue::String(self.name.clone()),
                pii_kind: PII_KIND_NONE,
            },
        );

        if let Some(time) = self.time {
            let seconds = #[verifier::truncate]
            (time as u64);

            properties.push(
                Property {
                    name: time_property(),
                    value: PropertyValue::Time(seconds),
                    pii_kind: PII_KIND_NONE,
                },
            );
        }
        let ghost head = item_head(self@);
        assert(properties.deep_view() =~= head);

        let mut i: usize = 0;
        while i < self.data.len()
            invariant
                i <= self.data@.len(),
                head == item_head(self@),
                properties@.len() == head.len() + i,
                forall|k: int| 0 <= k < head.len() ==> (#[trigger] properties@[k])@ == head[k],
                forall|k: int|
                    0 <= k < i ==> (#[trigger] properties@[head.len() + k])@ == field_record(
                        self@.data[k],
                    ),
            decreases self.data.len() - i,
        {
            let field = &self.data[i];
            properties.push(
                Property {
                    name: field.name.clone(),
                    value: field.value.to_value(),
                    pii_kind: PII_KIND_NONE,
                },
            );
            i += 1;
        }
        proof {
            let fields = self@.data.map_values(|field: (Seq<u8>, ValueModel)| field_record(field));
            assert(fields.len() == self.data@.len());
            assert forall|k: int| 0 <= k < properties@.len() implies properties.deep_view()[k]
                == item_properties(self@)[k] by {
                if k < head.len() {
                    assert(properties@[k]@ == head[k]);
                } else {
                    assert(properties@[head.len() + (k - head.len())]@ == field_record(
                        self@.data[k - head.len()],
                    ));
                    assert(fields[k - head.len()] == field_record(self@.data[k - head.len()]));
                }
            }
            assert(properties.deep_view() =~= item_properties(self@));
        }
        Box::new(properties)
    }
}

/// Setting a field keeps the names distinct, makes the field read as the
/// value given, and leaves every other field, the name and the time as they
/// were.
pub proof fn lemma_with_property(item: ItemModel, key: Seq<u8>, value: ValueModel)
    requires
        item.keys_unique(),
    ensures
        item.with_property(key, value).keys_unique(),
        item.with_property(key, value).lookup(key) == Some(value),
        forall|other: Seq<u8>|
            other != key ==> item.with_property(key, value).lookup(other) == item.lookup(other),
        item.with_property(key, value).name == item.name,
        item.with_property(key, value).time == item.time,
        item.with_property(key, value).data.len() == if item.has_key(key) {
            item.data.len()
        } else {
            item.data.len() + 1
        },
{
    let after = item.with_property(key, value);
    let at = if item.has_key(key) {
        item.position(key)
    } else {
        item.data.len() as int
    };
    assert(after.data[at] == (key, value));
    assert forall|i: int, j: int| 0 <= i < j < after.data.len() implies (#[trigger] after.data[i]).0
        != (#[trigger] after.data[j]).0 by {
        if i != at && j != at {
            assert(after.data[i] == item.data[i]);
            assert(after.data[j] == item.data[j]);
        } else if i == at {
            assert(after.data[j] == item.data[j]);
            if item.has_key(key) {
                assert(item.data[i].0 != item.data[j].0);
            }
        } else {
            assert(after.data[i] == item.data[i]);
            if item.has_key(key) {
                assert(item.data[i].0 != item.data[j].0);
            }
        }
    }
    assert(after.has_key(key));
    let found = after.position(key);
    if found < at {
        assert(after.data[found].0 != after.data[at].0);
    }
    if at < found {
        assert(after.data[at].0 != after.data[found].0);
    }
    assert forall|other: Seq<u8>| other != key implies after.lookup(other) == item.lookup(
        other,
    ) by {
        if item.has_key(other) {
            let p = item.position(other);
            assert(after.data[p] == item.data[p]);
            assert(after.has_key(other));
            let q = after.position(other);
            assert(after.data[q] == item.data[q]);
            if p < q {
                assert(item.data[p].0 != item.data[q].0);
            }
            if q < p {
                assert(item.data[q].0 != item.data[p].0);
            }
        } else if after.has_key(other) {
            let q = after.position(other);
            assert(after.data[q] == item.data[q]);
        }
    }
}

} // verus!
