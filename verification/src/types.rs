//! Enumerated values that cross the boundary as canonical tag strings.
//!
//! A sum type without payload is marshaled as a byte buffer holding its
//! snake-case tag: encoding writes the tag, decoding recognises exactly the
//! eight tags and rejects every other buffer.

use vstd::prelude::*;

use crate::convert::{lemma_encode_utf8_injective, FromObject, NonNilEncoding, Roundtrip, ToObject};
use crate::error::{Error, FromObjectError};
use crate::object::{Object, ObjectType};
use crate::string::NvimString;
use crate::value::Value;

verus! {

/// Where a user command's range of lines is counted from.
#[allow(missing_docs)]
#[derive(Copy, Clone, Debug, PartialEq, Eq, Structural)]
pub enum CommandAddr {
    Lines,
    Arguments,
    Buffers,
    LoadedBuffers,
    Windows,
    Tabs,
    Quickfix,
    Other,
}

/// The canonical tag each addressing mode is written as.
pub open spec fn command_addr_tag(a: CommandAddr) -> Seq<char> {
    match a {
        CommandAddr::Lines => "lines"@,
        CommandAddr::Arguments => "arguments"@,
        CommandAddr::Buffers => "buffers"@,
        CommandAddr::LoadedBuffers => "loaded_buffers"@,
        CommandAddr::Windows => "windows"@,
        CommandAddr::Tabs => "tabs"@,
        CommandAddr::Quickfix => "quickfix"@,
        CommandAddr::Other => "other"@,
    }
}

impl DeepView for CommandAddr {
    type V = CommandAddr;

    open spec fn deep_view(&self) -> CommandAddr {
        *self
    }
}

impl CommandAddr {
    /// Writes the addressing mode as its canonical tag buffer.
    pub fn as_nvim_string(&self) -> (r: NvimString)
        ensures
            r@ == vstd::utf8::encode_utf8(command_addr_tag(*self)),
    {
        match self {
            CommandAddr::Lines => NvimString::from_str("lines"),
            CommandAddr::Arguments => NvimString::from_str("arguments"),
            CommandAddr::Buffers => NvimString::from_str("buffers"),
            CommandAddr::LoadedBuffers => NvimString::from_str("loaded_buffers"),
            CommandAddr::Windows => NvimString::from_str("windows"),
            CommandAddr::Tabs => NvimString::from_str("tabs"),
            CommandAddr::Quickfix => NvimString::from_str("quickfix"),
            CommandAddr::Other => NvimString::from_str("other"),
        }
    }
}

impl ToObject for CommandAddr {
    open spec fn encode_model(m: CommandAddr) -> Value {
        Value::Str(vstd::utf8::encode_utf8(command_addr_tag(m)))
    }

    fn to_obj(self) -> (r: Result<Object, Error>)
    {
        Ok(Object::from_nvim_string(self.as_nvim_string()))
    }
}

impl FromObject for CommandAddr {
    /// A buffer decodes to the addressing mode whose tag it spells, if any.
    open spec fn decode_model(v: Value) -> Option<CommandAddr> {
        match v {
            Value::Str(b) => if exists|a: CommandAddr|
                vstd::utf8::encode_utf8(command_addr_tag(a)) == b {
                Some(choose|a: CommandAddr| vstd::utf8::encode_utf8(command_addr_tag(a)) == b)
            } else {
                None
            },
            _ => None,
        }
    }

    fn from_obj(obj: Object) -> (r: Result<Self, Error>)
    {
        let s = match obj.try_into_string() {
            Ok(s) => s,
            Err(e) => {
                return Err(Error::FromObject(e));
            },
        };
        let found: Option<CommandAddr> = if s == "lines" {
            Some(CommandAddr::Lines)
        } else if s == "arguments" {
            Some(CommandAddr::Arguments)
        } else if s == "buffers" {
            Some(CommandAddr::Buffers)
        } else if s == "loaded_buffers" {
            Some(CommandAddr::LoadedBuffers)
        } else if s == "windows" {
            Some(CommandAddr::Windows)
        } else if s == "tabs" {
            Some(CommandAddr::Tabs)
        } else if s == "quickfix" {
            Some(CommandAddr::Quickfix)
        } else if s == "other" {
            Some(CommandAddr::Other)
        } else {
            None
        };
        match found {
            Some(a) => {
                proof {
                    lemma_command_addr_tag_injective();
                    let m = choose|x: CommandAddr|
                        vstd::utf8::encode_utf8(command_addr_tag(x)) == s@;
                    assert(vstd::utf8::encode_utf8(command_addr_tag(a)) == s@);
                    lemma_encode_utf8_injective(command_addr_tag(m), command_addr_tag(a));
                }
                Ok(a)
            },
            None => {
                proof {
                    lemma_command_addr_tag_injective();
                    assert(Self::decode_model(obj@) is None) by {
                        if exists|a: CommandAddr|
                            vstd::utf8::encode_utf8(command_addr_tag(a)) == s@ {
                            let a = choose|a: CommandAddr|
                                vstd::utf8::encode_utf8(command_addr_tag(a)) == s@;
                            lemma_encode_utf8_injective(command_addr_tag(a), "lines"@);
                            lemma_encode_utf8_injective(command_addr_tag(a), "arguments"@);
                            lemma_encode_utf8_injective(command_addr_tag(a), "buffers"@);
                            lemma_encode_utf8_injective(command_addr_tag(a), "loaded_buffers"@);
                            lemma_encode_utf8_injective(command_addr_tag(a), "windows"@);
                            lemma_encode_utf8_injective(command_addr_tag(a), "tabs"@);
                            lemma_encode_utf8_injective(command_addr_tag(a), "quickfix"@);
                            lemma_encode_utf8_injective(command_addr_tag(a), "other"@);
                        }
                    }
                }
                Err(Error::FromObject(FromObjectError::secondary(
                    ObjectType::kObjectTypeString,
                    "CommandAddr".to_owned(),
                    "not a known addressing mode".to_owned(),
                )))
            },
        }
    }
}

/// Distinct addressing modes have distinct tags.
proof fn lemma_command_addr_tag_injective()
    ensures
        forall|a: CommandAddr, b: CommandAddr| a != b ==> command_addr_tag(a)
            != command_addr_tag(b),
{
    reveal_strlit("lines");
    reveal_strlit("arguments");
    reveal_strlit("buffers");
    reveal_strlit("loaded_buffers");
    reveal_strlit("windows");
    reveal_strlit("tabs");
    reveal_strlit("quickfix");
    reveal_strlit("other");
    // The tags differ pairwise in their length or in their first character.
    assert forall|a: CommandAddr, b: CommandAddr| a != b implies command_addr_tag(a)
        != command_addr_tag(b) by {
        if command_addr_tag(a) == command_addr_tag(b) {
            assert(command_addr_tag(a).len() == command_addr_tag(b).len());
            assert(command_addr_tag(a)[0] == command_addr_tag(b)[0]);
        }
    }
}

impl Roundtrip for CommandAddr {
    proof fn roundtrip(m: CommandAddr) {
        lemma_command_addr_tag_injective();
        let b = vstd::utf8::encode_utf8(command_addr_tag(m));
        assert(exists|a: CommandAddr| vstd::utf8::encode_utf8(command_addr_tag(a)) == b);
        let a = choose|a: CommandAddr| vstd::utf8::encode_utf8(command_addr_tag(a)) == b;
        lemma_encode_utf8_injective(command_addr_tag(a), command_addr_tag(m));
    }
}

impl NonNilEncoding for CommandAddr {
    proof fn encodes_non_nil(m: CommandAddr) {
    }
}

/// Whether an option is read or written at the global or at the local
/// scope.
#[allow(missing_docs)]
#[derive(Copy, Clone, Debug, PartialEq, Eq, Structural)]
pub enum OptionScope {
    Global,
    Local,
}

/// The canonical tag each scope is written as.
pub open spec fn option_scope_tag(s: OptionScope) -> Seq<char> {
    match s {
        OptionScope::Global => "global"@,
        OptionScope::Local => "local"@,
    }
}

impl OptionScope {
    /// Writes the scope as its canonical tag buffer.
    pub fn as_nvim_string(&self) -> (r: NvimString)
        ensures
            r@ == vstd::utf8::encode_utf8(option_scope_tag(*self)),
    {
        match self {
            OptionScope::Global => NvimString::from_str("global"),
            OptionScope::Local => NvimString::from_str("local"),
        }
    }
}

} // verus!
