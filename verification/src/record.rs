//! A sample host record wired into the conversion bridge.
//!
//! The bridge is open-ended: a structured host type joins it by stating how
//! its fields encode into an ordered mapping and how they decode back. This
//! record shows the pattern, including the treatment of optional fields —
//! an absent optional is *omitted* from the mapping on encode (not written
//! as an explicit nil), and on decode both a missing key and a nil value
//! read back as absent. Missing *required* fields fail with an error naming
//! the field, and a failure inside a field is wrapped with the field's name
//! so the path to the mismatch stays diagnosable.

use vstd::prelude::*;

use crate::convert::{FromObject, NonNilEncoding, Roundtrip, ToObject};
use crate::dictionary::{lookup, Dictionary};
use crate::error::{Error, FromObjectError};
use crate::object::Object;
use crate::string::NvimString;
use crate::value::Value;

verus! {

broadcast use vstd::std_specs::vec::group_vec_axioms, vstd::seq::group_seq_axioms;

/// A host record with one required text field, one optional counter and a
/// sequence of tags.
#[derive(Clone, Debug, PartialEq)]
pub struct Record {
    pub name: String,
    pub count: Option<i64>,
    pub tags: Vec<String>,
}

/// The model of a [`Record`].
pub struct RecordModel {
    pub name: Seq<char>,
    pub count: Option<i64>,
    pub tags: Seq<Seq<char>>,
}

impl DeepView for Record {
    type V = RecordModel;

    open spec fn deep_view(&self) -> RecordModel {
        RecordModel {
            name: self.name.deep_view(),
            count: self.count.deep_view(),
            tags: self.tags.deep_view(),
        }
    }
}

/// The mapping a record encodes to: `name` and `tags` always, `count` only
/// when present — never as an explicit nil.
pub open spec fn record_pairs(m: RecordModel) -> Seq<(Seq<u8>, Value)> {
    let name_pair = (
        vstd::utf8::encode_utf8("name"@),
        <String as ToObject>::encode_model(m.name),
    );
    let tags_pair = (
        vstd::utf8::encode_utf8("tags"@),
        <Vec<String> as ToObject>::encode_model(m.tags),
    );
    match m.count {
        None => seq![name_pair, tags_pair],
        Some(c) => seq![
            name_pair,
            (vstd::utf8::encode_utf8("count"@), Value::Int(c)),
            tags_pair,
        ],
    }
}

impl ToObject for Record {
    open spec fn encode_model(m: RecordModel) -> Value {
        Value::Dict(record_pairs(m))
    }

    fn to_obj(self) -> (r: Result<Object, Error>)
    {
        let ghost m = self.deep_view();
        let mut pairs: Vec<(NvimString, Object)> = Vec::new();
        let name_obj = match self.name.to_obj() {
            Ok(o) => o,
            Err(e) => {
                proof {
                    assert(false);
                }
                return Err(e);
            },
        };
        pairs.push((NvimString::from_str("name"), name_obj));
        match self.count {
            Some(c) => {
                pairs.push((NvimString::from_str("count"), Object::from_integer(c)));
            },
            None => {},
        }
        let tags_obj = match self.tags.to_obj() {
            Ok(o) => o,
            Err(e) => {
                proof {
                    assert(false);
                }
                return Err(e);
            },
        };
        pairs.push((NvimString::from_str("tags"), tags_obj));
        proof {
            assert(pairs.deep_view() =~= record_pairs(m));
        }
        Ok(Object::from_dictionary(Dictionary::from_pairs(pairs)))
    }
}

impl FromObject for Record {
    /// A mapping decodes to a record when its `name` key holds text, its
    /// `tags` key holds a sequence of text, and its `count` key — if
    /// present at all — holds an integer or nil. Lookups take the first
    /// match, so a duplicated key is read at its first occurrence only.
    open spec fn decode_model(v: Value) -> Option<RecordModel> {
        match v {
            Value::Dict(pairs) => {
                let name_v = lookup(pairs, vstd::utf8::encode_utf8("name"@));
                let count_v = lookup(pairs, vstd::utf8::encode_utf8("count"@));
                let tags_v = lookup(pairs, vstd::utf8::encode_utf8("tags"@));
                match (name_v, tags_v) {
                    (Some(nv), Some(tv)) => {
                        let name_m = <String as FromObject>::decode_model(nv);
                        let tags_m = <Vec<String> as FromObject>::decode_model(tv);
                        let count_m = match count_v {
                            None => Some(None),
                            Some(cv) => <Option<i64> as FromObject>::decode_model(cv),
                        };
                        match (name_m, count_m, tags_m) {
                            (Some(name), Some(count), Some(tags)) => Some(RecordModel {
                                name,
                                count,
                                tags,
                            }),
                            _ => None,
                        }
                    },
                    _ => None,
                }
            },
            _ => None,
        }
    }

    fn from_obj(obj: Object) -> (r: Result<Self, Error>)
    {
        let dict = match obj.try_into_dict() {
            Ok(d) => d,
            Err(e) => {
                return Err(Error::FromObject(e));
            },
        };
        let name = match dict.get(&NvimString::from_str("name")) {
            None => {
                return Err(missing_field("name"));
            },
            Some(o) => match <String as FromObject>::from_obj(o.clone()) {
                Ok(n) => n,
                Err(e) => {
                    return Err(wrap_at_field("name", e));
                },
            },
        };
        let count = match dict.get(&NvimString::from_str("count")) {
            None => None,
            Some(o) => match <Option<i64> as FromObject>::from_obj(o.clone()) {
                Ok(c) => c,
                Err(e) => {
                    return Err(wrap_at_field("count", e));
                },
            },
        };
        let tags = match dict.get(&NvimString::from_str("tags")) {
            None => {
                return Err(missing_field("tags"));
            },
            Some(o) => match <Vec<String> as FromObject>::from_obj(o.clone()) {
                Ok(t) => t,
                Err(e) => {
                    return Err(wrap_at_field("tags", e));
                },
            },
        };
        Ok(Record { name, count, tags })
    }
}

/// Builds the failure for a required record field that the mapping does not
/// hold, naming the field.
fn missing_field(field: &str) -> (r: Error)
    ensures
        r matches Error::FromObject(FromObjectError::MissingField { .. }),
{
    Error::FromObject(FromObjectError::MissingField { field: field.to_owned() })
}

/// Wraps a field-decode failure with the field's name, so the failure's
/// path through the record stays diagnosable.
fn wrap_at_field(field: &str, e: Error) -> (r: Error)
    ensures
        r is FromObject <==> e is FromObject,
{
    match e {
        Error::FromObject(cause) => Error::FromObject(FromObjectError::AtField {
            field: field.to_owned(),
            cause: Box::new(cause),
        }),
        other => other,
    }
}

/// The three field keys are pairwise distinct byte sequences.
proof fn lemma_record_keys_distinct()
    ensures
        vstd::utf8::encode_utf8("name"@) != vstd::utf8::encode_utf8("count"@),
        vstd::utf8::encode_utf8("name"@) != vstd::utf8::encode_utf8("tags"@),
        vstd::utf8::encode_utf8("count"@) != vstd::utf8::encode_utf8("tags"@),
{
    reveal_strlit("name");
    reveal_strlit("count");
    reveal_strlit("tags");
    crate::convert::lemma_encode_utf8_injective("name"@, "count"@);
    crate::convert::lemma_encode_utf8_injective("name"@, "tags"@);
    crate::convert::lemma_encode_utf8_injective("count"@, "tags"@);
}

impl Roundtrip for Record {
    proof fn roundtrip(m: RecordModel) {
        broadcast use vstd::utf8::encode_utf8_valid_utf8, vstd::utf8::encode_utf8_decode_utf8;

        lemma_record_keys_distinct();
        let pairs = record_pairs(m);
        let name_key = vstd::utf8::encode_utf8("name"@);
        let count_key = vstd::utf8::encode_utf8("count"@);
        let tags_key = vstd::utf8::encode_utf8("tags"@);
        <String as Roundtrip>::roundtrip(m.name);
        <Vec<String> as Roundtrip>::roundtrip(m.tags);
        match m.count {
            None => {
                let rest = pairs.drop_first();
                assert(rest.drop_first().len() == 0);
                assert(lookup(rest.drop_first(), count_key) is None);
                assert(lookup(rest, count_key) is None);
                assert(lookup(pairs, count_key) is None);
                assert(lookup(rest, tags_key)
                    == Some(<Vec<String> as ToObject>::encode_model(m.tags)));
                assert(lookup(pairs, tags_key)
                    == Some(<Vec<String> as ToObject>::encode_model(m.tags)));
                assert(lookup(pairs, name_key)
                    == Some(<String as ToObject>::encode_model(m.name)));
            },
            Some(c) => {
                let rest = pairs.drop_first();
                assert(lookup(rest, count_key) == Some(Value::Int(c)));
                assert(lookup(pairs, count_key) == Some(Value::Int(c)));
                assert(rest.drop_first().first().0 == tags_key);
                assert(lookup(rest.drop_first(), tags_key)
                    == Some(<Vec<String> as ToObject>::encode_model(m.tags)));
                assert(lookup(rest, tags_key)
                    == Some(<Vec<String> as ToObject>::encode_model(m.tags)));
                assert(lookup(pairs, tags_key)
                    == Some(<Vec<String> as ToObject>::encode_model(m.tags)));
                assert(lookup(pairs, name_key)
                    == Some(<String as ToObject>::encode_model(m.name)));
            },
        }
    }
}

impl NonNilEncoding for Record {
    proof fn encodes_non_nil(m: RecordModel) {
    }
}

} // verus!
