//! The mathematical model of a dynamic value.
//!
//! Every [`crate::Object`], [`crate::Array`] and [`crate::Dictionary`] is
//! abstracted by a [`Value`]: contracts throughout the crate are stated over
//! this model rather than over the executable representations.

use vstd::prelude::*;

verus! {

/// The model of a dynamic tagged-union value: one variant per tag.
///
/// Byte buffers are modelled by their content bytes (terminator excluded),
/// sequences by the sequence of their element models, and mappings by the
/// insertion-ordered sequence of their key/value pair models. A float is
/// carried as its raw 64-bit pattern: this layer stores and moves floats but
/// never computes with them.
pub enum Value {
    Nil,
    Bool(bool),
    Int(i64),
    Float(u64),
    Str(Seq<u8>),
    List(Seq<Value>),
    Dict(Seq<(Seq<u8>, Value)>),
    Fun(i32),
}

impl Value {
    /// The tag of a model value.
    pub open spec fn tag(self) -> crate::object::ObjectType {
        match self {
            Value::Nil => crate::object::ObjectType::kObjectTypeNil,
            Value::Bool(_) => crate::object::ObjectType::kObjectTypeBoolean,
            Value::Int(_) => crate::object::ObjectType::kObjectTypeInteger,
            Value::Float(_) => crate::object::ObjectType::kObjectTypeFloat,
            Value::Str(_) => crate::object::ObjectType::kObjectTypeString,
            Value::List(_) => crate::object::ObjectType::kObjectTypeArray,
            Value::Dict(_) => crate::object::ObjectType::kObjectTypeDictionary,
            Value::Fun(_) => crate::object::ObjectType::kObjectTypeLuaRef,
        }
    }
}

/// Tag-safety at the model level: the tag alone determines which arm of the
/// union is active, so an accessor that checks the tag can never read the
/// wrong arm.
pub proof fn lemma_tag_determines_arm(v: Value)
    ensures
        (v.tag() == crate::object::ObjectType::kObjectTypeNil <==> v is Nil),
        (v.tag() == crate::object::ObjectType::kObjectTypeBoolean <==> v is Bool),
        (v.tag() == crate::object::ObjectType::kObjectTypeInteger <==> v is Int),
        (v.tag() == crate::object::ObjectType::kObjectTypeFloat <==> v is Float),
        (v.tag() == crate::object::ObjectType::kObjectTypeString <==> v is Str),
        (v.tag() == crate::object::ObjectType::kObjectTypeArray <==> v is List),
        (v.tag() == crate::object::ObjectType::kObjectTypeDictionary <==> v is Dict),
        (v.tag() == crate::object::ObjectType::kObjectTypeLuaRef <==> v is Fun),
{
}

} // verus!
