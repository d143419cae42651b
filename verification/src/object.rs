//! The dynamic tagged-union value: the single currency type crossing the
//! host/foreign boundary.

use vstd::prelude::*;

use crate::array::Array;
use crate::dictionary::Dictionary;
use crate::error::FromObjectError;
use crate::string::NvimString;
use crate::value::Value;

verus! {

broadcast use vstd::std_specs::vec::group_vec_axioms, vstd::seq::group_seq_axioms;

/// A boolean crossing the boundary.
pub type Boolean = bool;

/// A 64-bit signed integer crossing the boundary.
pub type Integer = i64;

/// An opaque reference into the foreign runtime's closure registry.
pub type LuaRef = i32;

/// The raw 64-bit pattern of a float crossing the boundary. Floats are
/// stored and moved by this layer, never computed with.
pub type FloatBits = u64;

/// The tag discriminating which payload a dynamic value holds.
#[allow(non_camel_case_types)]
#[derive(Copy, Clone, Debug, PartialEq, Eq, Structural)]
pub enum ObjectType {
    kObjectTypeNil,
    kObjectTypeBoolean,
    kObjectTypeInteger,
    kObjectTypeFloat,
    kObjectTypeString,
    kObjectTypeArray,
    kObjectTypeDictionary,
    kObjectTypeLuaRef,
}

/// The payload of a dynamic value, one variant per tag. Kept private: the
/// public interface only hands payloads out through tag-checked accessors.
#[derive(Debug)]
pub(crate) enum ObjectData {
    Nil,
    Boolean(bool),
    Integer(i64),
    Float(u64),
    Str(NvimString),
    Array(Array),
    Dictionary(Dictionary),
    LuaRef(i32),
}

/// A dynamic tagged-union value.
///
/// Exactly one payload variant is active at a time; every accessor checks
/// the tag before touching the payload, so reading a mismatched payload is
/// impossible through this interface. The value exclusively owns its
/// payload: cloning a buffer/sequence/mapping value deep-copies the payload,
/// and dropping releases it exactly once (both fall out of single ownership
/// of the payload field).
#[derive(Debug)]
pub struct Object {
    pub(crate) data: ObjectData,
}

/// The model of an object: the single recursive abstraction function that
/// the [`View`] impls of [`Object`], [`Array`] and [`Dictionary`] share.
pub(crate) open spec fn obj_view(o: Object) -> Value
    decreases o, 1int,
{
    match o.data {
        ObjectData::Nil => Value::Nil,
        ObjectData::Boolean(b) => Value::Bool(b),
        ObjectData::Integer(i) => Value::Int(i),
        ObjectData::Float(bits) => Value::Float(bits),
        ObjectData::Str(s) => Value::Str(s@),
        ObjectData::Array(a) => Value::List(objs_view(a.items@)),
        ObjectData::Dictionary(d) => Value::Dict(pairs_view(d.pairs@)),
        ObjectData::LuaRef(r) => Value::Fun(r),
    }
}

/// The models of a sequence of objects, elementwise. The index guard keeps
/// the recursion well-founded: out-of-range indices are never evaluated by
/// `Seq::new`, but the recursive call must still be seen to shrink.
pub(crate) open spec fn objs_view(s: Seq<Object>) -> Seq<Value>
    decreases s, 0int,
{
    Seq::new(
        s.len(),
        |i: int| if 0 <= i < s.len() { obj_view(s[i]) } else { Value::Nil },
    )
}

/// The models of a sequence of key/value pairs, elementwise.
pub(crate) open spec fn pairs_view(s: Seq<(NvimString, Object)>) -> Seq<(Seq<u8>, Value)>
    decreases s, 0int,
{
    Seq::new(
        s.len(),
        |i: int| if 0 <= i < s.len() { (s[i].0@, obj_view(s[i].1)) } else { (Seq::empty(), Value::Nil) },
    )
}

impl View for Object {
    type V = Value;

    closed spec fn view(&self) -> Value {
        obj_view(*self)
    }
}

impl DeepView for Object {
    type V = Value;

    open spec fn deep_view(&self) -> Value {
        self.view()
    }
}

/// A dynamic value's view is its model.
pub(crate) broadcast proof fn lemma_object_view(o: Object)
    ensures
        #[trigger] o@ == obj_view(o),
{
}

impl Object {
    /// Returns a new object with type `kObjectTypeNil`.
    pub fn nil() -> (r: Self)
        ensures
            r@ == Value::Nil,
    {
        Object { data: ObjectData::Nil }
    }

    /// Returns `true` if the object is nil.
    pub fn is_nil(&self) -> (b: bool)
        ensures
            b == (self@ is Nil),
    {
        match &self.data {
            ObjectData::Nil => true,
            _ => false,
        }
    }

    /// Returns `true` if the object is anything but nil.
    pub fn is_some(&self) -> (b: bool)
        ensures
            b == !(self@ is Nil),
    {
        !self.is_nil()
    }

    /// Returns the tag of the object.
    pub fn object_type(&self) -> (t: ObjectType)
        ensures
            t == self@.tag(),
    {
        match &self.data {
            ObjectData::Nil => ObjectType::kObjectTypeNil,
            ObjectData::Boolean(_) => ObjectType::kObjectTypeBoolean,
            ObjectData::Integer(_) => ObjectType::kObjectTypeInteger,
            ObjectData::Float(_) => ObjectType::kObjectTypeFloat,
            ObjectData::Str(_) => ObjectType::kObjectTypeString,
            ObjectData::Array(_) => ObjectType::kObjectTypeArray,
            ObjectData::Dictionary(_) => ObjectType::kObjectTypeDictionary,
            ObjectData::LuaRef(_) => ObjectType::kObjectTypeLuaRef,
        }
    }

    /// Wraps a boolean.
    pub fn from_bool(b: bool) -> (r: Self)
        ensures
            r@ == Value::Bool(b),
    {
        Object { data: ObjectData::Boolean(b) }
    }

    /// Wraps an integer.
    pub fn from_integer(i: i64) -> (r: Self)
        ensures
            r@ == Value::Int(i),
    {
        Object { data: ObjectData::Integer(i) }
    }

    /// Wraps a float given by its raw 64-bit pattern.
    pub fn from_float_bits(bits: u64) -> (r: Self)
        ensures
            r@ == Value::Float(bits),
    {
        Object { data: ObjectData::Float(bits) }
    }

    /// Wraps a byte buffer.
    pub fn from_nvim_string(s: NvimString) -> (r: Self)
        ensures
            r@ == Value::Str(s@),
    {
        Object { data: ObjectData::Str(s) }
    }

    /// Wraps a sequence.
    pub fn from_array(a: Array) -> (r: Self)
        ensures
            r@ == Value::List(a@),
    {
        proof {
            crate::array::lemma_array_view(a);
        }
        Object { data: ObjectData::Array(a) }
    }

    /// Wraps an ordered mapping.
    pub fn from_dictionary(d: Dictionary) -> (r: Self)
        ensures
            r@ == Value::Dict(d@),
    {
        proof {
            crate::dictionary::lemma_dictionary_view(d);
        }
        Object { data: ObjectData::Dictionary(d) }
    }

    /// Wraps a closure-registry reference.
    pub fn from_luaref(luaref: LuaRef) -> (r: Self)
        ensures
            r@ == Value::Fun(luaref),
    {
        Object { data: ObjectData::LuaRef(luaref) }
    }

    /// Lends the object to a foreign call as a non-owning view: the callee
    /// sees the same value but must not release or retain it.
    pub fn non_owning<'a>(&'a self) -> (r: crate::nonowning::NonOwning<'a, Object>)
        ensures
            r@ == self@,
    {
        crate::nonowning::NonOwning::new(self)
    }

    /// Extracts the unit value, failing with a primitive-mismatch error
    /// carrying the expected and actual tags unless the object is nil.
    pub fn try_into_unit(self) -> (r: Result<(), FromObjectError>)
        ensures
            match r {
                Ok(()) => self@ is Nil,
                Err(e) => !(self@ is Nil) && e == (FromObjectError::Primitive {
                    expected: ObjectType::kObjectTypeNil,
                    actual: self@.tag(),
                }),
            },
    {
        match self.data {
            ObjectData::Nil => Ok(()),
            _ => Err(FromObjectError::Primitive {
                expected: ObjectType::kObjectTypeNil,
                actual: self.object_type(),
            }),
        }
    }

    /// Extracts the inner boolean, failing with a primitive-mismatch error
    /// carrying the expected and actual tags on any other tag.
    pub fn try_into_bool(self) -> (r: Result<bool, FromObjectError>)
        ensures
            match r {
                Ok(b) => self@ == Value::Bool(b),
                Err(e) => !(self@ is Bool) && e == (FromObjectError::Primitive {
                    expected: ObjectType::kObjectTypeBoolean,
                    actual: self@.tag(),
                }),
            },
    {
        match self.data {
            ObjectData::Boolean(b) => Ok(b),
            _ => Err(FromObjectError::Primitive {
                expected: ObjectType::kObjectTypeBoolean,
                actual: self.object_type(),
            }),
        }
    }

    /// Extracts the inner integer, failing with a primitive-mismatch error
    /// carrying the expected and actual tags on any other tag.
    pub fn try_into_integer(self) -> (r: Result<i64, FromObjectError>)
        ensures
            match r {
                Ok(i) => self@ == Value::Int(i),
                Err(e) => !(self@ is Int) && e == (FromObjectError::Primitive {
                    expected: ObjectType::kObjectTypeInteger,
                    actual: self@.tag(),
                }),
            },
    {
        match self.data {
            ObjectData::Integer(i) => Ok(i),
            _ => Err(FromObjectError::Primitive {
                expected: ObjectType::kObjectTypeInteger,
                actual: self.object_type(),
            }),
        }
    }

    /// Extracts the inner float pattern, failing with a primitive-mismatch
    /// error carrying the expected and actual tags on any other tag.
    pub fn try_into_float_bits(self) -> (r: Result<u64, FromObjectError>)
        ensures
            match r {
                Ok(bits) => self@ == Value::Float(bits),
                Err(e) => !(self@ is Float) && e == (FromObjectError::Primitive {
                    expected: ObjectType::kObjectTypeFloat,
                    actual: self@.tag(),
                }),
            },
    {
        match self.data {
            ObjectData::Float(bits) => Ok(bits),
            _ => Err(FromObjectError::Primitive {
                expected: ObjectType::kObjectTypeFloat,
                actual: self.object_type(),
            }),
        }
    }

    /// Extracts the inner byte buffer, failing with a primitive-mismatch
    /// error carrying the expected and actual tags on any other tag.
    pub fn try_into_string(self) -> (r: Result<NvimString, FromObjectError>)
        ensures
            match r {
                Ok(s) => self@ == Value::Str(s@),
                Err(e) => !(self@ is Str) && e == (FromObjectError::Primitive {
                    expected: ObjectType::kObjectTypeString,
                    actual: self@.tag(),
                }),
            },
    {
        match self.data {
            ObjectData::Str(s) => Ok(s),
            _ => Err(FromObjectError::Primitive {
                expected: ObjectType::kObjectTypeString,
                actual: self.object_type(),
            }),
        }
    }

    /// Extracts the inner sequence, failing with a primitive-mismatch error
    /// carrying the expected and actual tags on any other tag.
    pub fn try_into_array(self) -> (r: Result<Array, FromObjectError>)
        ensures
            match r {
                Ok(a) => self@ == Value::List(a@),
                Err(e) => !(self@ is List) && e == (FromObjectError::Primitive {
                    expected: ObjectType::kObjectTypeArray,
                    actual: self@.tag(),
                }),
            },
    {
        match self.data {
            ObjectData::Array(a) => {
                proof {
                    crate::array::lemma_array_view(a);
                }
                Ok(a)
            },
            _ => Err(FromObjectError::Primitive {
                expected: ObjectType::kObjectTypeArray,
                actual: self.object_type(),
            }),
        }
    }

    /// Extracts the inner mapping, failing with a primitive-mismatch error
    /// carrying the expected and actual tags on any other tag.
    pub fn try_into_dict(self) -> (r: Result<Dictionary, FromObjectError>)
        ensures
            match r {
                Ok(d) => self@ == Value::Dict(d@),
                Err(e) => !(self@ is Dict) && e == (FromObjectError::Primitive {
                    expected: ObjectType::kObjectTypeDictionary,
                    actual: self@.tag(),
                }),
            },
    {
        match self.data {
            ObjectData::Dictionary(d) => {
                proof {
                    crate::dictionary::lemma_dictionary_view(d);
                }
                Ok(d)
            },
            _ => Err(FromObjectError::Primitive {
                expected: ObjectType::kObjectTypeDictionary,
                actual: self.object_type(),
            }),
        }
    }

    /// Extracts the inner closure-registry reference, failing with a
    /// primitive-mismatch error carrying the expected and actual tags on any
    /// other tag.
    pub fn try_into_luaref(self) -> (r: Result<LuaRef, FromObjectError>)
        ensures
            match r {
                Ok(luaref) => self@ == Value::Fun(luaref),
                Err(e) => !(self@ is Fun) && e == (FromObjectError::Primitive {
                    expected: ObjectType::kObjectTypeLuaRef,
                    actual: self@.tag(),
                }),
            },
    {
        match self.data {
            ObjectData::LuaRef(luaref) => Ok(luaref),
            _ => Err(FromObjectError::Primitive {
                expected: ObjectType::kObjectTypeLuaRef,
                actual: self.object_type(),
            }),
        }
    }
}

impl Object {
    /// Copies the value, deep-copying any buffer/sequence/mapping payload;
    /// the other variants have no heap payload and are copied cheaply.
    pub(crate) fn deep_clone(&self) -> (r: Object)
        ensures
            r@ == self@,
        decreases *self, 1int,
    {
        match &self.data {
            ObjectData::Nil => Object { data: ObjectData::Nil },
            ObjectData::Boolean(b) => Object { data: ObjectData::Boolean(*b) },
            ObjectData::Integer(i) => Object { data: ObjectData::Integer(*i) },
            ObjectData::Float(bits) => Object { data: ObjectData::Float(*bits) },
            ObjectData::Str(s) => Object { data: ObjectData::Str(s.clone()) },
            ObjectData::Array(a) => {
                let c = a.deep_clone();
                proof {
                    crate::array::lemma_array_view(*a);
                    crate::array::lemma_array_view(c);
                }
                Object { data: ObjectData::Array(c) }
            },
            ObjectData::Dictionary(d) => {
                let c = d.deep_clone();
                proof {
                    crate::dictionary::lemma_dictionary_view(*d);
                    crate::dictionary::lemma_dictionary_view(c);
                }
                Object { data: ObjectData::Dictionary(c) }
            },
            ObjectData::LuaRef(r) => Object { data: ObjectData::LuaRef(*r) },
        }
    }

    /// Compares two values structurally: tag first, then payload by
    /// tag-specific rules (byte-for-byte for buffers, elementwise for
    /// sequences and mappings, bit patterns for floats).
    pub(crate) fn deep_eq(&self, other: &Object) -> (r: bool)
        ensures
            r == (self@ == other@),
        decreases *self, 1int,
    {
        match (&self.data, &other.data) {
            (ObjectData::Nil, ObjectData::Nil) => true,
            (ObjectData::Boolean(a), ObjectData::Boolean(b)) => a == b,
            (ObjectData::Integer(a), ObjectData::Integer(b)) => a == b,
            (ObjectData::Float(a), ObjectData::Float(b)) => a == b,
            (ObjectData::Str(a), ObjectData::Str(b)) => a == b,
            (ObjectData::Array(a), ObjectData::Array(b)) => {
                proof {
                    crate::array::lemma_array_view(*a);
                    crate::array::lemma_array_view(*b);
                }
                a.deep_eq(b)
            },
            (ObjectData::Dictionary(a), ObjectData::Dictionary(b)) => {
                proof {
                    crate::dictionary::lemma_dictionary_view(*a);
                    crate::dictionary::lemma_dictionary_view(*b);
                }
                a.deep_eq(b)
            },
            (ObjectData::LuaRef(a), ObjectData::LuaRef(b)) => a == b,
            _ => false,
        }
    }
}

impl Clone for Object {
    /// Cloning deep-copies any buffer/sequence/mapping payload.
    fn clone(&self) -> (r: Self)
        ensures
            r@ == self@,
    {
        self.deep_clone()
    }
}

impl PartialEq for Object {
    /// Equality compares the tag first, then the payload by tag-specific
    /// rules.
    fn eq(&self, other: &Self) -> (r: bool)
    {
        self.deep_eq(other)
    }
}

impl vstd::std_specs::cmp::PartialEqSpecImpl for Object {
    open spec fn obeys_eq_spec() -> bool {
        true
    }

    open spec fn eq_spec(&self, other: &Object) -> bool {
        self@ == other@
    }
}

impl From<String> for Object {
    /// Wraps text as a byte-buffer object. The contracted route is
    /// [`Object::from_nvim_string`]; this impl only lets callers use the
    /// std conversion idiom.
    fn from(s: String) -> (r: Self)
    {
        Object::from_nvim_string(NvimString::from_string(s))
    }
}

impl vstd::std_specs::convert::FromSpecImpl<String> for Object {
    open spec fn obeys_from_spec() -> bool {
        false
    }

    open spec fn from_spec(s: String) -> Object {
        vstd::pervasive::arbitrary()
    }
}

impl From<&str> for Object {
    /// Wraps a string slice as a byte-buffer object. The contracted route
    /// is [`Object::from_nvim_string`]; this impl only lets callers use the
    /// std conversion idiom.
    fn from(s: &str) -> (r: Self)
    {
        Object::from_nvim_string(NvimString::from_str(s))
    }
}

impl vstd::std_specs::convert::FromSpecImpl<&str> for Object {
    open spec fn obeys_from_spec() -> bool {
        false
    }

    open spec fn from_spec(s: &str) -> Object {
        vstd::pervasive::arbitrary()
    }
}

impl TryFrom<Object> for String {
    type Error = FromObjectError;

    /// Extracts text from a byte-buffer object: fails with a
    /// primitive-mismatch error on any other tag, and with an
    /// invalid-encoding error on a buffer that is not valid UTF-8. The
    /// contracted route is [`Object::try_into_string`] followed by
    /// [`NvimString::into_string`]; this impl only lets callers use the std
    /// conversion idiom.
    fn try_from(obj: Object) -> (r: Result<String, FromObjectError>)
    {
        match obj.try_into_string() {
            Ok(s) => s.into_string(),
            Err(e) => Err(e),
        }
    }
}

impl vstd::std_specs::convert::TryFromSpecImpl<Object> for String {
    open spec fn obeys_try_from_spec() -> bool {
        false
    }

    open spec fn try_from_spec(obj: Object) -> Result<String, FromObjectError> {
        vstd::pervasive::arbitrary()
    }
}

impl Default for Object {
    /// The default object is nil.
    fn default() -> (r: Self)
        ensures
            r@ == Value::Nil,
    {
        Object::nil()
    }
}

} // verus!
