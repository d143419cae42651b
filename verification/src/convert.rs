//! The conversion bridge: generic, bidirectional translation between host
//! structured types and dynamic values.
//!
//! The bridge is open-ended: any host type that states its encoding
//! ([`ToObject::encode_model`]) and its decoding ([`FromObject::decode_model`])
//! participates, without the bridge itself changing. The two directions are
//! proved inverse for every participating type through the [`Roundtrip`]
//! obligation; [`lemma_bridge_roundtrip`] states the law once for all of
//! them.

use vstd::prelude::*;

use crate::array::{drop_nils, Array};
use crate::error::{Error, FromObjectError};
use crate::object::{Object, ObjectType};
use crate::string::NvimString;
use crate::value::Value;

verus! {

broadcast use vstd::std_specs::vec::group_vec_axioms, vstd::seq::group_seq_axioms;

/// Host value → dynamic value.
pub trait ToObject: Sized + DeepView {
    /// The model of the dynamic value this host value encodes to.
    spec fn encode_model(m: Self::V) -> Value;

    /// Encodes the host value into a dynamic value.
    fn to_obj(self) -> (r: Result<Object, Error>)
        ensures
            r matches Ok(o) && o@ == Self::encode_model(self.deep_view()),
    ;
}

/// Dynamic value → host value.
pub trait FromObject: Sized + DeepView {
    /// The host-value model a dynamic-value model decodes to, if it decodes
    /// at all.
    spec fn decode_model(v: Value) -> Option<Self::V>;

    /// Decodes a dynamic value into a host value: succeeds exactly on the
    /// dynamic values whose model decodes, and fails with a structured,
    /// recoverable error on every other.
    fn from_obj(obj: Object) -> (r: Result<Self, Error>)
        ensures
            match Self::decode_model(obj@) {
                Some(m) => r matches Ok(x) && x.deep_view() == m,
                None => r is Err,
            },
    ;
}

/// The round-trip obligation: a type whose two bridge directions are
/// inverses. Every host type both encodable and decodable is expected to
/// carry this proof.
pub trait Roundtrip: ToObject + FromObject {
    /// Law: decoding an encoded value gives the value back.
    proof fn roundtrip(m: Self::V)
        ensures
            Self::decode_model(Self::encode_model(m)) == Some(m),
    ;
}

/// The obligation of types whose encoding is never the nil value.
///
/// Sequences drop nil entries and optionals read nil as absence, so only
/// nil-free element encodings survive a trip through `Vec<T>` or wrapped in
/// `Option<T>` unchanged: this marker is what those impls demand of their
/// element type.
pub trait NonNilEncoding: ToObject {
    /// Law: no value of this type encodes to nil.
    proof fn encodes_non_nil(m: Self::V)
        ensures
            !(Self::encode_model(m) is Nil),
    ;
}

/// UTF-8 encoding is injective: distinct texts have distinct encodings.
pub(crate) proof fn lemma_encode_utf8_injective(a: Seq<char>, b: Seq<char>)
    ensures
        a != b ==> vstd::utf8::encode_utf8(a) != vstd::utf8::encode_utf8(b),
{
    broadcast use vstd::utf8::encode_utf8_valid_utf8, vstd::utf8::encode_utf8_decode_utf8;

    if vstd::utf8::encode_utf8(a) == vstd::utf8::encode_utf8(b) {
        assert(vstd::utf8::decode_utf8(vstd::utf8::encode_utf8(a)) == a);
        assert(vstd::utf8::decode_utf8(vstd::utf8::encode_utf8(b)) == b);
    }
}

/// Encodes a typed host value into a dynamic value: the entry point binding
/// functions push their arguments through. Encoding never fails.
pub fn encode<T: ToObject>(x: T) -> (o: Object)
    ensures
        o@ == T::encode_model(x.deep_view()),
{
    match x.to_obj() {
        Ok(o) => o,
        Err(e) => {
            proof {
                assert(false);
            }
            Object::nil()
        },
    }
}

/// Decodes a dynamic value back into a typed host value, or fails with a
/// structured decode error: the entry point binding functions pull foreign
/// results through.
pub fn decode<T: FromObject>(obj: Object) -> (r: Result<T, Error>)
    ensures
        match T::decode_model(obj@) {
            Some(m) => r matches Ok(x) && x.deep_view() == m,
            None => r is Err,
        },
{
    T::from_obj(obj)
}

/// Round-trip law of the conversion bridge: for every host type that
/// carries the [`Roundtrip`] obligation, decoding the encoding of a value
/// gives the value back, at the level of the two models.
pub proof fn lemma_bridge_roundtrip<T: Roundtrip>(x: T)
    ensures
        T::decode_model(T::encode_model(x.deep_view())) == Some(x.deep_view()),
{
    T::roundtrip(x.deep_view());
}

impl ToObject for bool {
    open spec fn encode_model(m: bool) -> Value {
        Value::Bool(m)
    }

    fn to_obj(self) -> (r: Result<Object, Error>)
    {
        Ok(Object::from_bool(self))
    }
}

impl FromObject for bool {
    open spec fn decode_model(v: Value) -> Option<bool> {
        match v {
            Value::Bool(b) => Some(b),
            _ => None,
        }
    }

    fn from_obj(obj: Object) -> (r: Result<Self, Error>)
    {
        match obj.try_into_bool() {
            Ok(b) => Ok(b),
            Err(e) => Err(Error::FromObject(e)),
        }
    }
}

impl Roundtrip for bool {
    proof fn roundtrip(m: bool) {
    }
}

impl NonNilEncoding for bool {
    proof fn encodes_non_nil(m: bool) {
    }
}

impl ToObject for i64 {
    open spec fn encode_model(m: i64) -> Value {
        Value::Int(m)
    }

    fn to_obj(self) -> (r: Result<Object, Error>)
    {
        Ok(Object::from_integer(self))
    }
}

impl FromObject for i64 {
    open spec fn decode_model(v: Value) -> Option<i64> {
        match v {
            Value::Int(i) => Some(i),
            _ => None,
        }
    }

    fn from_obj(obj: Object) -> (r: Result<Self, Error>)
    {
        match obj.try_into_integer() {
            Ok(i) => Ok(i),
            Err(e) => Err(Error::FromObject(e)),
        }
    }
}

impl Roundtrip for i64 {
    proof fn roundtrip(m: i64) {
    }
}

impl NonNilEncoding for i64 {
    proof fn encodes_non_nil(m: i64) {
    }
}

impl ToObject for () {
    open spec fn encode_model(m: ()) -> Value {
        Value::Nil
    }

    fn to_obj(self) -> (r: Result<Object, Error>)
    {
        Ok(Object::nil())
    }
}

impl FromObject for () {
    open spec fn decode_model(v: Value) -> Option<()> {
        match v {
            Value::Nil => Some(()),
            _ => None,
        }
    }

    fn from_obj(obj: Object) -> (r: Result<Self, Error>)
    {
        match obj.try_into_unit() {
            Ok(u) => Ok(u),
            Err(e) => Err(Error::FromObject(e)),
        }
    }
}

impl Roundtrip for () {
    proof fn roundtrip(m: ()) {
    }
}

/// Builds the secondary-conversion failure for an integer that was
/// extracted but does not fit the narrower host type named by `into`.
fn out_of_range(into: &str) -> (r: Error)
    ensures
        r matches Error::FromObject(FromObjectError::Secondary {
            primitive: ObjectType::kObjectTypeInteger,
            ..
        }),
{
    Error::FromObject(FromObjectError::secondary(
        ObjectType::kObjectTypeInteger,
        into.to_owned(),
        "integer out of range".to_owned(),
    ))
}

impl ToObject for u8 {
    open spec fn encode_model(m: u8) -> Value {
        Value::Int(m as i64)
    }

    fn to_obj(self) -> (r: Result<Object, Error>)
    {
        Ok(Object::from_integer(self as i64))
    }
}

impl FromObject for u8 {
    open spec fn decode_model(v: Value) -> Option<u8> {
        match v {
            Value::Int(i) => if 0 <= i <= u8::MAX { Some(i as u8) } else { None },
            _ => None,
        }
    }

    fn from_obj(obj: Object) -> (r: Result<Self, Error>)
    {
        match obj.try_into_integer() {
            Ok(i) => if 0 <= i && i <= u8::MAX as i64 {
                Ok(i as u8)
            } else {
                Err(out_of_range("u8"))
            },
            Err(e) => Err(Error::FromObject(e)),
        }
    }
}

impl Roundtrip for u8 {
    proof fn roundtrip(m: u8) {
    }
}

impl NonNilEncoding for u8 {
    proof fn encodes_non_nil(m: u8) {
    }
}

impl ToObject for i32 {
    open spec fn encode_model(m: i32) -> Value {
        Value::Int(m as i64)
    }

    fn to_obj(self) -> (r: Result<Object, Error>)
    {
        Ok(Object::from_integer(self as i64))
    }
}

impl FromObject for i32 {
    open spec fn decode_model(v: Value) -> Option<i32> {
        match v {
            Value::Int(i) => if i32::MIN <= i <= i32::MAX { Some(i as i32) } else { None },
            _ => None,
        }
    }

    fn from_obj(obj: Object) -> (r: Result<Self, Error>)
    {
        match obj.try_into_integer() {
            Ok(i) => if i32::MIN as i64 <= i && i <= i32::MAX as i64 {
                Ok(i as i32)
            } else {
                Err(out_of_range("i32"))
            },
            Err(e) => Err(Error::FromObject(e)),
        }
    }
}

impl Roundtrip for i32 {
    proof fn roundtrip(m: i32) {
    }
}

impl NonNilEncoding for i32 {
    proof fn encodes_non_nil(m: i32) {
    }
}

impl ToObject for u32 {
    open spec fn encode_model(m: u32) -> Value {
        Value::Int(m as i64)
    }

    fn to_obj(self) -> (r: Result<Object, Error>)
    {
        Ok(Object::from_integer(self as i64))
    }
}

impl FromObject for u32 {
    open spec fn decode_model(v: Value) -> Option<u32> {
        match v {
            Value::Int(i) => if 0 <= i <= u32::MAX { Some(i as u32) } else { None },
            _ => None,
        }
    }

    fn from_obj(obj: Object) -> (r: Result<Self, Error>)
    {
        match obj.try_into_integer() {
            Ok(i) => if 0 <= i && i <= u32::MAX as i64 {
                Ok(i as u32)
            } else {
                Err(out_of_range("u32"))
            },
            Err(e) => Err(Error::FromObject(e)),
        }
    }
}

impl Roundtrip for u32 {
    proof fn roundtrip(m: u32) {
    }
}

impl NonNilEncoding for u32 {
    proof fn encodes_non_nil(m: u32) {
    }
}

impl FromObject for usize {
    open spec fn decode_model(v: Value) -> Option<usize> {
        match v {
            Value::Int(i) => if 0 <= i <= usize::MAX { Some(i as usize) } else { None },
            _ => None,
        }
    }

    fn from_obj(obj: Object) -> (r: Result<Self, Error>)
    {
        match obj.try_into_integer() {
            Ok(i) => if 0 <= i && i as u64 <= usize::MAX as u64 {
                Ok(i as usize)
            } else {
                Err(out_of_range("usize"))
            },
            Err(e) => Err(Error::FromObject(e)),
        }
    }
}

impl ToObject for i8 {
    open spec fn encode_model(m: i8) -> Value {
        Value::Int(m as i64)
    }

    fn to_obj(self) -> (r: Result<Object, Error>)
    {
        Ok(Object::from_integer(self as i64))
    }
}

impl FromObject for i8 {
    open spec fn decode_model(v: Value) -> Option<i8> {
        match v {
            Value::Int(i) => if i8::MIN <= i <= i8::MAX { Some(i as i8) } else { None },
            _ => None,
        }
    }

    fn from_obj(obj: Object) -> (r: Result<Self, Error>)
    {
        match obj.try_into_integer() {
            Ok(i) => if i8::MIN as i64 <= i && i <= i8::MAX as i64 {
                Ok(i as i8)
            } else {
                Err(out_of_range("i8"))
            },
            Err(e) => Err(Error::FromObject(e)),
        }
    }
}

impl Roundtrip for i8 {
    proof fn roundtrip(m: i8) {
    }
}

impl NonNilEncoding for i8 {
    proof fn encodes_non_nil(m: i8) {
    }
}

impl ToObject for i16 {
    open spec fn encode_model(m: i16) -> Value {
        Value::Int(m as i64)
    }

    fn to_obj(self) -> (r: Result<Object, Error>)
    {
        Ok(Object::from_integer(self as i64))
    }
}

impl FromObject for i16 {
    open spec fn decode_model(v: Value) -> Option<i16> {
        match v {
            Value::Int(i) => if i16::MIN <= i <= i16::MAX { Some(i as i16) } else { None },
            _ => None,
        }
    }

    fn from_obj(obj: Object) -> (r: Result<Self, Error>)
    {
        match obj.try_into_integer() {
            Ok(i) => if i16::MIN as i64 <= i && i <= i16::MAX as i64 {
                Ok(i as i16)
            } else {
                Err(out_of_range("i16"))
            },
            Err(e) => Err(Error::FromObject(e)),
        }
    }
}

impl Roundtrip for i16 {
    proof fn roundtrip(m: i16) {
    }
}

impl NonNilEncoding for i16 {
    proof fn encodes_non_nil(m: i16) {
    }
}

impl ToObject for u16 {
    open spec fn encode_model(m: u16) -> Value {
        Value::Int(m as i64)
    }

    fn to_obj(self) -> (r: Result<Object, Error>)
    {
        Ok(Object::from_integer(self as i64))
    }
}

impl FromObject for u16 {
    open spec fn decode_model(v: Value) -> Option<u16> {
        match v {
            Value::Int(i) => if 0 <= i <= u16::MAX { Some(i as u16) } else { None },
            _ => None,
        }
    }

    fn from_obj(obj: Object) -> (r: Result<Self, Error>)
    {
        match obj.try_into_integer() {
            Ok(i) => if 0 <= i && i <= u16::MAX as i64 {
                Ok(i as u16)
            } else {
                Err(out_of_range("u16"))
            },
            Err(e) => Err(Error::FromObject(e)),
        }
    }
}

impl Roundtrip for u16 {
    proof fn roundtrip(m: u16) {
    }
}

impl NonNilEncoding for u16 {
    proof fn encodes_non_nil(m: u16) {
    }
}

impl FromObject for u64 {
    open spec fn decode_model(v: Value) -> Option<u64> {
        match v {
            Value::Int(i) => if 0 <= i { Some(i as u64) } else { None },
            _ => None,
        }
    }

    fn from_obj(obj: Object) -> (r: Result<Self, Error>)
    {
        match obj.try_into_integer() {
            Ok(i) => if 0 <= i {
                Ok(i as u64)
            } else {
                Err(out_of_range("u64"))
            },
            Err(e) => Err(Error::FromObject(e)),
        }
    }
}

impl FromObject for isize {
    open spec fn decode_model(v: Value) -> Option<isize> {
        match v {
            Value::Int(i) => if isize::MIN <= i <= isize::MAX { Some(i as isize) } else { None },
            _ => None,
        }
    }

    fn from_obj(obj: Object) -> (r: Result<Self, Error>)
    {
        match obj.try_into_integer() {
            Ok(i) => if isize::MIN as i64 <= i && i <= isize::MAX as i64 {
                Ok(i as isize)
            } else {
                Err(out_of_range("isize"))
            },
            Err(e) => Err(Error::FromObject(e)),
        }
    }
}

impl ToObject for String {
    open spec fn encode_model(m: Seq<char>) -> Value {
        Value::Str(vstd::utf8::encode_utf8(m))
    }

    fn to_obj(self) -> (r: Result<Object, Error>)
    {
        Ok(Object::from_nvim_string(NvimString::from_string(self)))
    }
}

impl FromObject for String {
    open spec fn decode_model(v: Value) -> Option<Seq<char>> {
        match v {
            Value::Str(b) => if vstd::utf8::valid_utf8(b) {
                Some(vstd::utf8::decode_utf8(b))
            } else {
                None
            },
            _ => None,
        }
    }

    fn from_obj(obj: Object) -> (r: Result<Self, Error>)
    {
        match obj.try_into_string() {
            Ok(s) => match s.into_string() {
                Ok(text) => Ok(text),
                Err(e) => Err(Error::FromObject(e)),
            },
            Err(e) => Err(Error::FromObject(e)),
        }
    }
}

impl Roundtrip for String {
    proof fn roundtrip(m: Seq<char>) {
        broadcast use vstd::utf8::encode_utf8_valid_utf8, vstd::utf8::encode_utf8_decode_utf8;

    }
}

impl NonNilEncoding for String {
    proof fn encodes_non_nil(m: Seq<char>) {
    }
}

impl ToObject for NvimString {
    open spec fn encode_model(m: Seq<u8>) -> Value {
        Value::Str(m)
    }

    fn to_obj(self) -> (r: Result<Object, Error>)
    {
        Ok(Object::from_nvim_string(self))
    }
}

impl FromObject for NvimString {
    open spec fn decode_model(v: Value) -> Option<Seq<u8>> {
        match v {
            Value::Str(b) => Some(b),
            _ => None,
        }
    }

    fn from_obj(obj: Object) -> (r: Result<Self, Error>)
    {
        match obj.try_into_string() {
            Ok(s) => Ok(s),
            Err(e) => Err(Error::FromObject(e)),
        }
    }
}

impl Roundtrip for NvimString {
    proof fn roundtrip(m: Seq<u8>) {
    }
}

impl NonNilEncoding for NvimString {
    proof fn encodes_non_nil(m: Seq<u8>) {
    }
}

impl ToObject for Object {
    open spec fn encode_model(m: Value) -> Value {
        m
    }

    fn to_obj(self) -> (r: Result<Object, Error>)
    {
        Ok(self)
    }
}

impl FromObject for Object {
    open spec fn decode_model(v: Value) -> Option<Value> {
        Some(v)
    }

    fn from_obj(obj: Object) -> (r: Result<Self, Error>)
    {
        Ok(obj)
    }
}

impl Roundtrip for Object {
    proof fn roundtrip(m: Value) {
    }
}

impl<T: ToObject> ToObject for Option<T> {
    open spec fn encode_model(m: Option<T::V>) -> Value {
        match m {
            None => Value::Nil,
            Some(inner) => T::encode_model(inner),
        }
    }

    fn to_obj(self) -> (r: Result<Object, Error>)
    {
        match self {
            None => Ok(Object::nil()),
            Some(x) => x.to_obj(),
        }
    }
}

impl<T: FromObject> FromObject for Option<T> {
    open spec fn decode_model(v: Value) -> Option<Option<T::V>> {
        if v is Nil {
            Some(None)
        } else {
            match T::decode_model(v) {
                Some(m) => Some(Some(m)),
                None => None,
            }
        }
    }

    fn from_obj(obj: Object) -> (r: Result<Self, Error>)
    {
        if obj.is_nil() {
            Ok(None)
        } else {
            match T::from_obj(obj) {
                Ok(x) => Ok(Some(x)),
                Err(e) => Err(e),
            }
        }
    }
}

impl<T: Roundtrip + NonNilEncoding> Roundtrip for Option<T> {
    proof fn roundtrip(m: Option<T::V>) {
        match m {
            None => {},
            Some(inner) => {
                T::encodes_non_nil(inner);
                T::roundtrip(inner);
            },
        }
    }
}

/// The elementwise encoding of a sequence of host-value models.
pub open spec fn encode_all<T: ToObject>(ms: Seq<T::V>) -> Seq<Value> {
    Seq::new(ms.len(), |i: int| T::encode_model(ms[i]))
}

impl<T: ToObject> ToObject for Vec<T> {
    /// A sequence encodes its elements in order, except that elements whose
    /// encoding is nil are dropped: an absent entry must not appear as an
    /// explicit nil inside a sequence.
    open spec fn encode_model(m: Seq<T::V>) -> Value {
        Value::List(drop_nils(encode_all::<T>(m)))
    }

    fn to_obj(self) -> (r: Result<Object, Error>)
    {
        let ghost all = self.deep_view();
        let mut rest = self;
        let mut objs: Vec<Object> = Vec::new();
        proof {
            assert(objs.deep_view() + encode_all::<T>(rest.deep_view())
                =~= encode_all::<T>(all));
        }
        while rest.len() > 0
            invariant
                encode_all::<T>(all) == objs.deep_view() + encode_all::<T>(rest.deep_view()),
            decreases rest@.len(),
        {
            let ghost rest_before = rest.deep_view();
            let ghost objs_before = objs.deep_view();
            let x = rest.remove(0);
            proof {
                assert(rest.deep_view() =~= rest_before.drop_first());
                assert(encode_all::<T>(rest_before).drop_first()
                    =~= encode_all::<T>(rest.deep_view()));
            }
            match x.to_obj() {
                Ok(o) => {
                    objs.push(o);
                    proof {
                        assert(objs.deep_view() =~= objs_before.push(o@));
                        assert(objs_before + encode_all::<T>(rest_before)
                            =~= objs.deep_view() + encode_all::<T>(rest.deep_view()));
                    }
                },
                Err(e) => {
                    proof {
                        assert(false);
                    }
                    return Err(e);
                },
            }
        }
        proof {
            assert(encode_all::<T>(rest.deep_view()) =~= Seq::<Value>::empty());
            assert(objs.deep_view() =~= objs.deep_view() + Seq::<Value>::empty());
        }
        Ok(Object::from_array(Array::from_objects(objs)))
    }
}

impl<T: FromObject> FromObject for Vec<T> {
    /// A sequence decodes exactly when every element decodes, elementwise
    /// and in order.
    open spec fn decode_model(v: Value) -> Option<Seq<T::V>> {
        match v {
            Value::List(vs) => if forall|i: int|
                0 <= i < vs.len() ==> (#[trigger] T::decode_model(vs[i])) is Some {
                Some(Seq::new(vs.len(), |i: int| T::decode_model(vs[i]).unwrap()))
            } else {
                None
            },
            _ => None,
        }
    }

    fn from_obj(obj: Object) -> (r: Result<Self, Error>)
    {
        let arr = match obj.try_into_array() {
            Ok(arr) => arr,
            Err(e) => {
                return Err(Error::FromObject(e));
            },
        };
        let ghost vs = arr@;
        let mut it = arr.into_iter();
        let mut out: Vec<T> = Vec::new();
        while it.len() > 0
            invariant
                obj@ == Value::List(vs),
                out.deep_view().len() + it@.len() == vs.len(),
                it@ == vs.skip(out.deep_view().len() as int),
                forall|j: int| 0 <= j < out.deep_view().len()
                    ==> #[trigger] T::decode_model(vs[j]) == Some(out.deep_view()[j]),
            decreases it@.len(),
        {
            let ghost k = out.deep_view().len() as int;
            let ghost out_before = out.deep_view();
            let o = it.next().unwrap();
            proof {
                assert(o@ == vs[k]);
                assert(vs.skip(k).drop_first() =~= vs.skip(k + 1));
            }
            let idx = out.len();
            match T::from_obj(o) {
                Ok(x) => {
                    out.push(x);
                    proof {
                        assert(out.deep_view() =~= out_before.push(x.deep_view()));
                    }
                },
                Err(e) => {
                    proof {
                        assert(obj@ == Value::List(vs));
                        assert(T::decode_model(vs[k]) is None);
                        assert(Self::decode_model(Value::List(vs)) is None);
                        assert(Self::decode_model(obj@) is None);
                    }
                    return Err(wrap_at_index(idx, e));
                },
            }
        }
        proof {
            assert(it@.len() == 0);
            if forall|i: int| 0 <= i < vs.len() ==> (#[trigger] T::decode_model(vs[i])) is Some {
                assert(out.deep_view() =~= Seq::new(
                    vs.len(),
                    |i: int| T::decode_model(vs[i]).unwrap(),
                ));
            }
        }
        Ok(out)
    }
}

/// Wraps an element-decode failure with the index at which it occurred, so
/// the failure's position inside the sequence stays diagnosable.
fn wrap_at_index(index: usize, e: Error) -> (r: Error)
    ensures
        r is FromObject <==> e is FromObject,
{
    match e {
        Error::FromObject(cause) => Error::FromObject(FromObjectError::AtIndex {
            index,
            cause: Box::new(cause),
        }),
        other => other,
    }
}

impl<T: Roundtrip + NonNilEncoding> Roundtrip for Vec<T> {
    proof fn roundtrip(m: Seq<T::V>) {
        let es = encode_all::<T>(m);
        assert forall|i: int| 0 <= i < es.len() implies !(#[trigger] es[i] is Nil) by {
            T::encodes_non_nil(m[i]);
        }
        crate::array::lemma_drop_nils_identity(es);
        assert forall|i: int| 0 <= i < es.len() implies (#[trigger] T::decode_model(es[i]))
            == Some(m[i]) by {
            T::roundtrip(m[i]);
        }
        assert(Seq::new(es.len(), |i: int| T::decode_model(es[i]).unwrap()) =~= m);
    }
}

impl<T: ToObject> NonNilEncoding for Vec<T> {
    proof fn encodes_non_nil(m: Seq<T::V>) {
    }
}

} // verus!
