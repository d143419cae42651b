//! A marshaling layer for exchanging structured values with a
//! dynamically-typed foreign runtime across a C-ABI-style boundary.
//!
//! The single currency type crossing the boundary is [`Object`], a tagged
//! union over nil, booleans, integers, floats, byte buffers, sequences,
//! ordered mappings and closure-registry handles. Byte buffers are
//! [`NvimString`] values: length-tracked, null-terminated, and not required
//! to hold valid text. The conversion bridge ([`ToObject`] / [`FromObject`])
//! translates host structured types to and from [`Object`] compositionally,
//! and the closure registry tracks the lifecycle of host closures exposed to
//! the foreign runtime as opaque handles.

mod array;
mod convert;
mod dictionary;
mod error;
mod luafun;
mod nonowning;
mod object;
pub mod opts;
mod record;
mod string;
mod types;
mod value;

pub use array::{drop_nils, lemma_drop_nils_identity, Array, ArrayIterator};
pub use convert::{decode, encode, encode_all, lemma_bridge_roundtrip, FromObject, NonNilEncoding, Roundtrip, ToObject};
pub use dictionary::{lookup, Dictionary};
pub use error::{same_from_object_error, same_library_error, Error, FromObjectError};
pub use luafun::{begin_outcome, lemma_calling_discipline, callback_disposition, error_text, interpret_call_status, CallStatus, CallbackDisposition, ClosureKind, ClosureRegistry, LuaFun, SlotState};
pub use nonowning::NonOwning;
pub use object::{Boolean, FloatBits, Integer, LuaRef, Object, ObjectType};
pub use record::{record_pairs, Record, RecordModel};
pub use string::{lemma_byte_buffer_roundtrip, NvimString};
pub use types::{command_addr_tag, option_scope_tag, CommandAddr, OptionScope};
pub use value::{lemma_tag_determines_arm, Value};
