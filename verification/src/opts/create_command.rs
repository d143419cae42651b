//! Options passed when creating a user command.

use vstd::prelude::*;

use crate::convert::{encode, ToObject};
use crate::luafun::LuaFun;
use crate::nonowning::NonOwning;
use crate::object::Object;
use crate::string::NvimString;
use crate::types::{command_addr_tag, CommandAddr};
use crate::value::Value;

verus! {

/// Options of a user command: addressing mode, bang/bar/register support,
/// a default count, a description, and a preview callback.
#[allow(missing_docs)]
#[derive(Debug, Default)]
pub struct CreateCommandOpts {
    pub addr: Object,
    pub bang: Option<bool>,
    pub bar: Option<bool>,
    pub complete: Object,
    pub count: Option<i64>,
    pub desc: Object,
    pub force: Option<bool>,
    pub keepscript: Option<bool>,
    pub nargs: Object,
    pub preview: Object,
    pub range: Object,
    pub register: Option<bool>,
}

/// Builds [`CreateCommandOpts`] a field at a time.
#[allow(missing_docs)]
#[derive(Debug, Default)]
pub struct CreateCommandOptsBuilder {
    pub addr: Object,
    pub bang: Option<bool>,
    pub bar: Option<bool>,
    pub complete: Object,
    pub count: Option<i64>,
    pub desc: Object,
    pub force: Option<bool>,
    pub keepscript: Option<bool>,
    pub nargs: Object,
    pub preview: Object,
    pub range: Object,
    pub register: Option<bool>,
}

impl CreateCommandOpts {
    /// Starts building options with every field unset.
    pub fn builder() -> (b: CreateCommandOptsBuilder)
        ensures
            b.addr@ == Value::Nil,
            b.bang is None,
            b.bar is None,
            b.complete@ == Value::Nil,
            b.count is None,
            b.desc@ == Value::Nil,
            b.force is None,
            b.keepscript is None,
            b.nargs@ == Value::Nil,
            b.preview@ == Value::Nil,
            b.range@ == Value::Nil,
            b.register is None,
    {
        CreateCommandOptsBuilder {
            addr: Object::nil(),
            bang: None,
            bar: None,
            complete: Object::nil(),
            count: None,
            desc: Object::nil(),
            force: None,
            keepscript: None,
            nargs: Object::nil(),
            preview: Object::nil(),
            range: Object::nil(),
            register: None,
        }
    }
}

impl CreateCommandOptsBuilder {
    /// Sets the command's addressing mode, written as its canonical tag.
    pub fn addr(self, addr: CommandAddr) -> (r: Self)
        ensures
            r == (CreateCommandOptsBuilder { addr: r.addr, ..self }),
            r.addr@ == Value::Str(vstd::utf8::encode_utf8(command_addr_tag(addr))),
    {
        CreateCommandOptsBuilder {
            addr: Object::from_nvim_string(addr.as_nvim_string()),
            ..self
        }
    }

    /// Sets whether the command can take a `!` modifier.
    pub fn bang(self, bang: bool) -> (r: Self)
        ensures
            r == (CreateCommandOptsBuilder { bang: Some(bang), ..self }),
    {
        CreateCommandOptsBuilder { bang: Some(bang), ..self }
    }

    /// Sets whether the command can be followed by a `|` and another
    /// command.
    pub fn bar(self, bar: bool) -> (r: Self)
        ensures
            r == (CreateCommandOptsBuilder { bar: Some(bar), ..self }),
    {
        CreateCommandOptsBuilder { bar: Some(bar), ..self }
    }

    /// Sets the command's default count.
    pub fn count(self, count: i64) -> (r: Self)
        ensures
            r == (CreateCommandOptsBuilder { count: Some(count), ..self }),
    {
        CreateCommandOptsBuilder { count: Some(count), ..self }
    }

    /// Sets the command's description.
    pub fn desc(self, desc: &str) -> (r: Self)
        ensures
            r == (CreateCommandOptsBuilder { desc: r.desc, ..self }),
            r.desc@ == Value::Str(vstd::utf8::encode_utf8(desc@)),
    {
        CreateCommandOptsBuilder {
            desc: Object::from_nvim_string(NvimString::from_str(desc)),
            ..self
        }
    }

    /// Sets whether an existing command of the same name is overridden.
    pub fn force(self, force: bool) -> (r: Self)
        ensures
            r == (CreateCommandOptsBuilder { force: Some(force), ..self }),
    {
        CreateCommandOptsBuilder { force: Some(force), ..self }
    }

    /// Sets whether script-local mappings of the command keep their script
    /// context.
    pub fn keepscript(self, keepscript: bool) -> (r: Self)
        ensures
            r == (CreateCommandOptsBuilder { keepscript: Some(keepscript), ..self }),
    {
        CreateCommandOptsBuilder { keepscript: Some(keepscript), ..self }
    }

    /// Sets the preview callback, given as an installed closure handle.
    pub fn preview<A, R>(self, fun: &LuaFun<A, R>) -> (r: Self)
        ensures
            r == (CreateCommandOptsBuilder { preview: r.preview, ..self }),
            r.preview@ == Value::Fun(fun@),
    {
        CreateCommandOptsBuilder {
            preview: Object::from_luaref(fun.luaref()),
            ..self
        }
    }

    /// Sets whether the command can take a register argument.
    pub fn register(self, register: bool) -> (r: Self)
        ensures
            r == (CreateCommandOptsBuilder { register: Some(register), ..self }),
    {
        CreateCommandOptsBuilder { register: Some(register), ..self }
    }

    /// Finishes building: the options hold exactly the fields set so far.
    pub fn build(&self) -> (r: CreateCommandOpts)
        ensures
            r.addr@ == self.addr@,
            r.bang == self.bang,
            r.bar == self.bar,
            r.complete@ == self.complete@,
            r.count == self.count,
            r.desc@ == self.desc@,
            r.force == self.force,
            r.keepscript == self.keepscript,
            r.nargs@ == self.nargs@,
            r.preview@ == self.preview@,
            r.range@ == self.range@,
            r.register == self.register,
    {
        CreateCommandOpts {
            addr: self.addr.clone(),
            bang: self.bang,
            bar: self.bar,
            complete: self.complete.clone(),
            count: self.count,
            desc: self.desc.clone(),
            force: self.force,
            keepscript: self.keepscript,
            nargs: self.nargs.clone(),
            preview: self.preview.clone(),
            range: self.range.clone(),
            register: self.register,
        }
    }
}

/// The wire shape a create-user-command call takes its options in: the
/// object-valued fields are lent, the flags cross as values (nil when
/// unset).
#[allow(missing_docs)]
pub struct KeyDictUserCommand<'a> {
    pub bar: Object,
    pub addr: NonOwning<'a, Object>,
    pub bang: Object,
    pub desc: NonOwning<'a, Object>,
    pub count: Object,
    pub force: Object,
    pub nargs: NonOwning<'a, Object>,
    pub range: NonOwning<'a, Object>,
    pub preview: NonOwning<'a, Object>,
    pub complete: NonOwning<'a, Object>,
    pub register: Object,
    pub keepscript: Object,
}

impl CreateCommandOpts {
    /// Lays the options out as the keyset the foreign call reads.
    pub fn to_keydict<'a>(&'a self) -> (r: KeyDictUserCommand<'a>)
        ensures
            r.bar@ == <Option<bool> as ToObject>::encode_model(self.bar.deep_view()),
            r.addr@ == self.addr@,
            r.bang@ == <Option<bool> as ToObject>::encode_model(self.bang.deep_view()),
            r.desc@ == self.desc@,
            r.count@ == <Option<i64> as ToObject>::encode_model(self.count.deep_view()),
            r.force@ == <Option<bool> as ToObject>::encode_model(self.force.deep_view()),
            r.nargs@ == self.nargs@,
            r.range@ == self.range@,
            r.preview@ == self.preview@,
            r.complete@ == self.complete@,
            r.register@ == <Option<bool> as ToObject>::encode_model(self.register.deep_view()),
            r.keepscript@ == <Option<bool> as ToObject>::encode_model(
                self.keepscript.deep_view(),
            ),
    {
        KeyDictUserCommand {
            bar: encode(self.bar),
            addr: self.addr.non_owning(),
            bang: encode(self.bang),
            desc: self.desc.non_owning(),
            count: encode(self.count),
            force: encode(self.force),
            nargs: self.nargs.non_owning(),
            range: self.range.non_owning(),
            preview: self.preview.non_owning(),
            complete: self.complete.non_owning(),
            register: encode(self.register),
            keepscript: encode(self.keepscript),
        }
    }
}

} // verus!
