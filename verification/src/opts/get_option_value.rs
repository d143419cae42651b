//! Options passed when reading or writing an editor option's value.

use vstd::prelude::*;

use crate::convert::{encode, ToObject};
use crate::nonowning::NonOwning;
use crate::object::Object;
use crate::types::{option_scope_tag, OptionScope};
use crate::value::Value;

verus! {

/// Options scoping an option read or write: an explicit global/local scope,
/// or a particular window or buffer.
#[derive(Debug, Default)]
pub struct OptionValueOpts {
    pub scope: Object,
    pub window: Option<i32>,
    pub buffer: Option<i32>,
}

/// Builds [`OptionValueOpts`].
#[derive(Debug, Default)]
pub struct OptionValueOptsBuilder {
    pub scope: Object,
    pub window: Option<i32>,
    pub buffer: Option<i32>,
}

impl OptionValueOpts {
    /// Starts building options with no scope set.
    pub fn builder() -> (b: OptionValueOptsBuilder)
        ensures
            b.scope@ == Value::Nil,
            b.window is None,
            b.buffer is None,
    {
        OptionValueOptsBuilder { scope: Object::nil(), window: None, buffer: None }
    }
}

impl OptionValueOptsBuilder {
    /// Sets the scope, written as its canonical tag.
    pub fn scope(self, scope: OptionScope) -> (r: Self)
        ensures
            r.scope@ == Value::Str(vstd::utf8::encode_utf8(option_scope_tag(scope))),
            r.window == self.window,
            r.buffer == self.buffer,
    {
        OptionValueOptsBuilder {
            scope: Object::from_nvim_string(scope.as_nvim_string()),
            ..self
        }
    }

    /// Scopes the access to one window.
    pub fn window(self, window: i32) -> (r: Self)
        ensures
            r.window == Some(window),
            r.scope@ == self.scope@,
            r.buffer == self.buffer,
    {
        OptionValueOptsBuilder { window: Some(window), ..self }
    }

    /// Scopes the access to one buffer.
    pub fn buffer(self, buffer: i32) -> (r: Self)
        ensures
            r.buffer == Some(buffer),
            r.scope@ == self.scope@,
            r.window == self.window,
    {
        OptionValueOptsBuilder { buffer: Some(buffer), ..self }
    }

    /// Finishes building.
    pub fn build(&self) -> (r: OptionValueOpts)
        ensures
            r.scope@ == self.scope@,
            r.window == self.window,
            r.buffer == self.buffer,
    {
        OptionValueOpts {
            scope: self.scope.clone(),
            window: self.window,
            buffer: self.buffer,
        }
    }
}

/// The wire shape an option access takes its options in: the handles are
/// given as values, the scope buffer is lent.
pub struct KeyDictOption<'a> {
    pub buf: Object,
    pub win: Object,
    pub scope: NonOwning<'a, Object>,
}

impl OptionValueOpts {
    /// Lays the options out as the keyset the foreign call reads: an unset
    /// window or buffer crosses as nil.
    pub fn to_keydict<'a>(&'a self) -> (r: KeyDictOption<'a>)
        ensures
            r.buf@ == <Option<i32> as ToObject>::encode_model(self.buffer.deep_view()),
            r.win@ == <Option<i32> as ToObject>::encode_model(self.window.deep_view()),
            r.scope@ == self.scope@,
    {
        KeyDictOption {
            buf: encode(self.buffer),
            win: encode(self.window),
            scope: self.scope.non_owning(),
        }
    }
}

} // verus!
