//! Tagged objects as the backend delivers them: a type tag and a bag of
//! named fields, with nothing yet known about either.

use crate::text::spec_chars;
use vstd::prelude::*;

verus! {

/// The value of one field of a tagged object.
#[derive(Debug)]
pub enum RawValue {
    /// A 32-bit integer, such as an identifier or a Unix timestamp.
    Int(i32),
    /// A 64-bit integer, such as an amount of money in minor units.
    Long(i64),
    /// A boolean.
    Bool(bool),
    /// A string.
    Text(String),
    /// A nested tagged object.
    Object(Box<RawTaggedObject>),
    /// An array of values.
    Array(Vec<RawValue>),
}

/// A named field of a tagged object.
#[derive(Debug)]
pub struct RawField {
    pub name: String,
    pub value: RawValue,
}

/// A record delivered by the backend: a type tag and named fields.
///
/// Where a name occurs more than once, the last occurrence is the field.
#[derive(Debug)]
pub struct RawTaggedObject {
    pub tag: String,
    pub fields: Vec<RawField>,
}

/// The value that `fields` holds under `name`: that of the last field so
/// named, if there is one.
pub open spec fn spec_lookup(fields: Seq<RawField>, name: Seq<char>) -> Option<RawValue>
    decreases fields.len(),
{
    if fields.len() == 0 {
        None
    } else if fields.last().name@ == name {
        Some(fields.last().value)
    } else {
        spec_lookup(fields.drop_last(), name)
    }
}

/// A field added at the end is the field of its name from then on, and
/// changes the field of no other name.
pub proof fn lemma_lookup_after_push(fields: Seq<RawField>, field: RawField, name: Seq<char>)
    ensures
        spec_lookup(fields.push(field), name) == if field.name@ == name {
            Some(field.value)
        } else {
            spec_lookup(fields, name)
        },
{
    assert(fields.push(field).drop_last() =~= fields);
}

/// Whether every value in `values` is a nested object.
pub open spec fn spec_all_objects(values: Seq<RawValue>) -> bool {
    forall|i: int| 0 <= i < values.len() ==> #[trigger] values[i] is Object
}

/// The nested objects in `values`, in order; meaningful where
/// [`spec_all_objects`] holds.
pub open spec fn spec_unboxed(values: Seq<RawValue>) -> Seq<RawTaggedObject> {
    Seq::new(values.len(), |i: int| *values[i]->Object_0)
}

impl RawTaggedObject {
    /// The value of the field `name`, if the object has one.
    pub open spec fn spec_field(&self, name: Seq<char>) -> Option<RawValue> {
        spec_lookup(self.fields@, name)
    }

    /// The field `name` read as a 32-bit integer.
    pub open spec fn spec_int(&self, name: Seq<char>) -> Option<i32> {
        match self.spec_field(name) {
            Some(RawValue::Int(v)) => Some(v),
            _ => None,
        }
    }

    /// The field `name` read as a 64-bit integer.
    pub open spec fn spec_long(&self, name: Seq<char>) -> Option<i64> {
        match self.spec_field(name) {
            Some(RawValue::Long(v)) => Some(v),
            _ => None,
        }
    }

    /// The field `name` read as a boolean.
    pub open spec fn spec_flag(&self, name: Seq<char>) -> Option<bool> {
        match self.spec_field(name) {
            Some(RawValue::Bool(v)) => Some(v),
            _ => None,
        }
    }

    /// The field `name` read as a string.
    pub open spec fn spec_string(&self, name: Seq<char>) -> Option<String> {
        match self.spec_field(name) {
            Some(RawValue::Text(v)) => Some(v),
            _ => None,
        }
    }

    /// The characters of the field `name` read as a string.
    pub open spec fn spec_text(&self, name: Seq<char>) -> Option<Seq<char>> {
        spec_chars(self.spec_string(name))
    }

    /// The field `name` read as a nested object.
    pub open spec fn spec_object(&self, name: Seq<char>) -> Option<RawTaggedObject> {
        match self.spec_field(name) {
            Some(RawValue::Object(v)) => Some(*v),
            _ => None,
        }
    }

    /// The field `name` read as an array.
    pub open spec fn spec_array(&self, name: Seq<char>) -> Option<Seq<RawValue>> {
        match self.spec_field(name) {
            Some(RawValue::Array(v)) => Some(v@),
            _ => None,
        }
    }

    /// The field `name` read as an array of nested objects.
    pub open spec fn spec_objects(&self, name: Seq<char>) -> Option<Seq<RawTaggedObject>> {
        match self.spec_array(name) {
            Some(values) if spec_all_objects(values) => Some(spec_unboxed(values)),
            _ => None,
        }
    }

    /// An object tagged `tag`, without fields.
    pub fn new(tag: &str) -> (r: RawTaggedObject)
        ensures
            r.tag@ == tag@,
            r.fields@.len() == 0,
            forall|name: Seq<char>| r.spec_field(name) is None,
    {
        RawTaggedObject { tag: tag.to_owned(), fields: Vec::new() }
    }

    /// The object with the field `name` set to `value`. The tag and the
    /// fields of other names stay as they are.
    pub fn with(self, name: &str, value: RawValue) -> (r: RawTaggedObject)
        ensures
            r.tag == self.tag,
            r.spec_field(name@) == Some(value),
            forall|other: Seq<char>| other != name@ ==> r.spec_field(other) == self.spec_field(other),
    {
        let mut object = self;
        let field = RawField { name: name.to_owned(), value };
        proof {
            assert forall|other: Seq<char>|
                spec_lookup(object.fields@.push(field), other) == if field.name@ == other {
                    Some(field.value)
                } else {
                    spec_lookup(object.fields@, other)
                } by {
                lemma_lookup_after_push(object.fields@, field, other);
            }
        }
        object.fields.push(field);
        object
    }

    /// The object with the field `name` set to the 32-bit integer `value`.
    pub fn with_int(self, name: &str, value: i32) -> (r: RawTaggedObject)
        ensures
            r.tag == self.tag,
            r.spec_field(name@) == Some(RawValue::Int(value)),
            forall|other: Seq<char>| other != name@ ==> r.spec_field(other) == self.spec_field(other),
    {
        self.with(name, RawValue::Int(value))
    }

    /// The object with the field `name` set to the 64-bit integer `value`.
    pub fn with_long(self, name: &str, value: i64) -> (r: RawTaggedObject)
        ensures
            r.tag == self.tag,
            r.spec_field(name@) == Some(RawValue::Long(value)),
            forall|other: Seq<char>| other != name@ ==> r.spec_field(other) == self.spec_field(other),
    {
        self.with(name, RawValue::Long(value))
    }

    /// The object with the field `name` set to the boolean `value`.
    pub fn with_flag(self, name: &str, value: bool) -> (r: RawTaggedObject)
        ensures
            r.tag == self.tag,
            r.spec_field(name@) == Some(RawValue::Bool(value)),
            forall|other: Seq<char>| other != name@ ==> r.spec_field(other) == self.spec_field(other),
    {
        self.with(name, RawValue::Bool(value))
    }

    /// The object with the field `name` set to the string `value`.
    pub fn with_text(self, name: &str, value: &str) -> (r: RawTaggedObject)
        ensures
            r.tag == self.tag,
            r.spec_text(name@) == Some(value@),
            forall|other: Seq<char>| other != name@ ==> r.spec_field(other) == self.spec_field(other),
    {
        self.with(name, RawValue::Text(value.to_owned()))
    }

    /// The object with the field `name` set to the nested object `value`.
    pub fn with_object(self, name: &str, value: RawTaggedObject) -> (r: RawTaggedObject)
        ensures
            r.tag == self.tag,
            r.spec_object(name@) == Some(value),
            forall|other: Seq<char>| other != name@ ==> r.spec_field(other) == self.spec_field(other),
    {
        self.with(name, RawValue::Object(Box::new(value)))
    }

    /// The object with the field `name` set to the array `values`.
    pub fn with_array(self, name: &str, values: Vec<RawValue>) -> (r: RawTaggedObject)
        ensures
            r.tag == self.tag,
            r.spec_array(name@) == Some(values@),
            forall|other: Seq<char>| other != name@ ==> r.spec_field(other) == self.spec_field(other),
    {
        self.with(name, RawValue::Array(values))
    }

    /// Looks up the field `name`.
    pub fn get_field(&self, name: &str) -> (r: Option<&RawValue>)
        ensures
            match r {
                Some(v) => self.spec_field(name@) == Some(*v),
                None => self.spec_field(name@) is None,
            },
    {
        let mut i: usize = self.fields.len();
        assert(self.fields@.subrange(0, i as int) =~= self.fields@);
        while i > 0
            invariant
                i <= self.fields.len(),
                spec_lookup(self.fields@, name@) == spec_lookup(
                    self.fields@.subrange(0, i as int),
                    name@,
                ),
            decreases i,
        {
            i = i - 1;
            proof {
                let upto = self.fields@.subrange(0, i + 1);
                assert(upto.last() == self.fields@[i as int]);
                assert(upto.drop_last() =~= self.fields@.subrange(0, i as int));
            }
            if *self.fields[i].name.as_str() == *name {
                return Some(&self.fields[i].value);
            }
        }
        None
    }

    /// Reads the field `name` as a 32-bit integer. A field that is absent,
    /// or holds a value of another type, gives `None`.
    pub fn get_int(&self, name: &str) -> (r: Option<i32>)
        ensures
            r == self.spec_int(name@),
    {
        match self.get_field(name) {
            Some(RawValue::Int(v)) => Some(*v),
            _ => None,
        }
    }

    /// Reads the field `name` as a 64-bit integer. A field that is absent,
    /// or holds a value of another type, gives `None`.
    pub fn get_long(&self, name: &str) -> (r: Option<i64>)
        ensures
            r == self.spec_long(name@),
    {
        match self.get_field(name) {
            Some(RawValue::Long(v)) => Some(*v),
            _ => None,
        }
    }

    /// Reads the field `name` as a boolean. A field that is absent, or
    /// holds a value of another type, gives `None`.
    pub fn get_flag(&self, name: &str) -> (r: Option<bool>)
        ensures
            r == self.spec_flag(name@),
    {
        match self.get_field(name) {
            Some(RawValue::Bool(v)) => Some(*v),
            _ => None,
        }
    }

    /// Reads the field `name` as a string. A field that is absent, or holds
    /// a value of another type, gives `None`.
    pub fn get_text(&self, name: &str) -> (r: Option<&String>)
        ensures
            match r {
                Some(s) => self.spec_string(name@) == Some(*s),
                None => self.spec_string(name@) is None,
            },
    {
        match self.get_field(name) {
            Some(RawValue::Text(v)) => Some(v),
            _ => None,
        }
    }

    /// Reads the field `name` as a nested object. A field that is absent,
    /// or holds a value of another type, gives `None`.
    pub fn get_object(&self, name: &str) -> (r: Option<&RawTaggedObject>)
        ensures
            match r {
                Some(o) => self.spec_object(name@) == Some(*o),
                None => self.spec_object(name@) is None,
            },
    {
        match self.get_field(name) {
            Some(RawValue::Object(v)) => Some(&**v),
            _ => None,
        }
    }

    /// Reads the field `name` as an array. A field that is absent, or holds
    /// a value of another type, gives `None`.
    pub fn get_array(&self, name: &str) -> (r: Option<&Vec<RawValue>>)
        ensures
            match r {
                Some(values) => self.spec_array(name@) == Some(values@),
                None => self.spec_array(name@) is None,
            },
    {
        match self.get_field(name) {
            Some(RawValue::Array(v)) => Some(v),
            _ => None,
        }
    }
}

impl RawValue {
    /// The nested object that the value is, if it is one.
    pub fn as_object(&self) -> (r: Option<&RawTaggedObject>)
        ensures
            match r {
                Some(o) => *self == RawValue::Object(Box::new(*o)),
                None => !(self is Object),
            },
    {
        match self {
            RawValue::Object(v) => Some(&**v),
            _ => None,
        }
    }
}

} // verus!
