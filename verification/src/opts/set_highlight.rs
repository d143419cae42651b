//! Options passed when defining a highlight group.

use vstd::prelude::*;

use crate::convert::{encode, ToObject};
use crate::nonowning::NonOwning;
use crate::object::Object;
use crate::string::NvimString;
use crate::value::Value;

verus! {

/// Attributes of a highlight group: colors and text decorations, each
/// optional.
#[allow(missing_docs)]
#[derive(Debug, Default)]
pub struct SetHighlightOpts {
    pub fg: Object,
    pub bg: Object,
    pub special: Object,
    pub blend: Option<u8>,
    pub bold: Option<bool>,
    pub standout: Option<bool>,
    pub underline: Option<bool>,
    pub underlineline: Option<bool>,
    pub undercurl: Option<bool>,
    pub underdot: Option<bool>,
    pub underdash: Option<bool>,
    pub strikethrough: Option<bool>,
    pub italic: Option<bool>,
    pub reverse: Option<bool>,
    pub nocombine: Option<bool>,
    pub link: Object,
    pub default: Option<bool>,
    pub ctermfg: Object,
    pub ctermbg: Object,
    pub cterm: Object,
}

/// Builds [`SetHighlightOpts`] a field at a time.
#[allow(missing_docs)]
#[derive(Debug, Default)]
pub struct SetHighlightOptsBuilder {
    pub fg: Object,
    pub bg: Object,
    pub special: Object,
    pub blend: Option<u8>,
    pub bold: Option<bool>,
    pub standout: Option<bool>,
    pub underline: Option<bool>,
    pub underlineline: Option<bool>,
    pub undercurl: Option<bool>,
    pub underdot: Option<bool>,
    pub underdash: Option<bool>,
    pub strikethrough: Option<bool>,
    pub italic: Option<bool>,
    pub reverse: Option<bool>,
    pub nocombine: Option<bool>,
    pub link: Object,
    pub default: Option<bool>,
    pub ctermfg: Object,
    pub ctermbg: Object,
    pub cterm: Object,
}

impl SetHighlightOpts {
    /// Starts building options with every attribute unset.
    pub fn builder() -> (b: SetHighlightOptsBuilder)
        ensures
            b.fg@ == Value::Nil,
            b.bg@ == Value::Nil,
            b.special@ == Value::Nil,
            b.blend is None,
            b.bold is None,
            b.standout is None,
            b.underline is None,
            b.underlineline is None,
            b.undercurl is None,
            b.underdot is None,
            b.underdash is None,
            b.strikethrough is None,
            b.italic is None,
            b.reverse is None,
            b.nocombine is None,
            b.link@ == Value::Nil,
            b.default is None,
            b.ctermfg@ == Value::Nil,
            b.ctermbg@ == Value::Nil,
            b.cterm@ == Value::Nil,
    {
        SetHighlightOptsBuilder {
            fg: Object::nil(),
            bg: Object::nil(),
            special: Object::nil(),
            blend: None,
            bold: None,
            standout: None,
            underline: None,
            underlineline: None,
            undercurl: None,
            underdot: None,
            underdash: None,
            strikethrough: None,
            italic: None,
            reverse: None,
            nocombine: None,
            link: Object::nil(),
            default: None,
            ctermfg: Object::nil(),
            ctermbg: Object::nil(),
            cterm: Object::nil(),
        }
    }
}

impl SetHighlightOptsBuilder {
    /// Sets the foreground color by name.
    pub fn fg(self, fg: &str) -> (r: Self)
        ensures
            r == (SetHighlightOptsBuilder { fg: r.fg, ..self }),
            r.fg@ == Value::Str(vstd::utf8::encode_utf8(fg@)),
    {
        SetHighlightOptsBuilder {
            fg: Object::from_nvim_string(NvimString::from_str(fg)),
            ..self
        }
    }

    /// Sets the background color by name.
    pub fn bg(self, bg: &str) -> (r: Self)
        ensures
            r == (SetHighlightOptsBuilder { bg: r.bg, ..self }),
            r.bg@ == Value::Str(vstd::utf8::encode_utf8(bg@)),
    {
        SetHighlightOptsBuilder {
            bg: Object::from_nvim_string(NvimString::from_str(bg)),
            ..self
        }
    }

    /// Sets the color of underlines and similar decorations by name.
    pub fn special(self, special: &str) -> (r: Self)
        ensures
            r == (SetHighlightOptsBuilder { special: r.special, ..self }),
            r.special@ == Value::Str(vstd::utf8::encode_utf8(special@)),
    {
        SetHighlightOptsBuilder {
            special: Object::from_nvim_string(NvimString::from_str(special)),
            ..self
        }
    }

    /// Links this group to another highlight group by name.
    pub fn link(self, link: &str) -> (r: Self)
        ensures
            r == (SetHighlightOptsBuilder { link: r.link, ..self }),
            r.link@ == Value::Str(vstd::utf8::encode_utf8(link@)),
    {
        SetHighlightOptsBuilder {
            link: Object::from_nvim_string(NvimString::from_str(link)),
            ..self
        }
    }

    /// Sets the terminal background color by name.
    pub fn ctermbg(self, ctermbg: &str) -> (r: Self)
        ensures
            r == (SetHighlightOptsBuilder { ctermbg: r.ctermbg, ..self }),
            r.ctermbg@ == Value::Str(vstd::utf8::encode_utf8(ctermbg@)),
    {
        SetHighlightOptsBuilder {
            ctermbg: Object::from_nvim_string(NvimString::from_str(ctermbg)),
            ..self
        }
    }

    /// Sets the terminal foreground color by name.
    pub fn ctermfg(self, ctermfg: &str) -> (r: Self)
        ensures
            r == (SetHighlightOptsBuilder { ctermfg: r.ctermfg, ..self }),
            r.ctermfg@ == Value::Str(vstd::utf8::encode_utf8(ctermfg@)),
    {
        SetHighlightOptsBuilder {
            ctermfg: Object::from_nvim_string(NvimString::from_str(ctermfg)),
            ..self
        }
    }

    /// Sets the terminal text decorations, comma-separated.
    pub fn cterm(self, cterm: &str) -> (r: Self)
        ensures
            r == (SetHighlightOptsBuilder { cterm: r.cterm, ..self }),
            r.cterm@ == Value::Str(vstd::utf8::encode_utf8(cterm@)),
    {
        SetHighlightOptsBuilder {
            cterm: Object::from_nvim_string(NvimString::from_str(cterm)),
            ..self
        }
    }

    /// Sets the blend level.
    pub fn blend(self, blend: u8) -> (r: Self)
        ensures
            r == (SetHighlightOptsBuilder { blend: Some(blend), ..self }),
    {
        SetHighlightOptsBuilder { blend: Some(blend), ..self }
    }

    /// Sets whether the text is bold.
    pub fn bold(self, bold: bool) -> (r: Self)
        ensures
            r == (SetHighlightOptsBuilder { bold: Some(bold), ..self }),
    {
        SetHighlightOptsBuilder { bold: Some(bold), ..self }
    }

    /// Sets whether the text is italic.
    pub fn italic(self, italic: bool) -> (r: Self)
        ensures
            r == (SetHighlightOptsBuilder { italic: Some(italic), ..self }),
    {
        SetHighlightOptsBuilder { italic: Some(italic), ..self }
    }

    /// Sets whether the text is underlined.
    pub fn underline(self, underline: bool) -> (r: Self)
        ensures
            r == (SetHighlightOptsBuilder { underline: Some(underline), ..self }),
    {
        SetHighlightOptsBuilder { underline: Some(underline), ..self }
    }

    /// Sets whether the text is struck through.
    pub fn strikethrough(self, strikethrough: bool) -> (r: Self)
        ensures
            r == (SetHighlightOptsBuilder { strikethrough: Some(strikethrough), ..self }),
    {
        SetHighlightOptsBuilder { strikethrough: Some(strikethrough), ..self }
    }

    /// Sets whether foreground and background are swapped.
    pub fn reverse(self, reverse: bool) -> (r: Self)
        ensures
            r == (SetHighlightOptsBuilder { reverse: Some(reverse), ..self }),
    {
        SetHighlightOptsBuilder { reverse: Some(reverse), ..self }
    }

    /// Finishes building: the options hold exactly the attributes set so
    /// far.
    pub fn build(&self) -> (r: SetHighlightOpts)
        ensures
            r.fg@ == self.fg@,
            r.bg@ == self.bg@,
            r.special@ == self.special@,
            r.blend == self.blend,
            r.bold == self.bold,
            r.standout == self.standout,
            r.underline == self.underline,
            r.underlineline == self.underlineline,
            r.undercurl == self.undercurl,
            r.underdot == self.underdot,
            r.underdash == self.underdash,
            r.strikethrough == self.strikethrough,
            r.italic == self.italic,
            r.reverse == self.reverse,
            r.nocombine == self.nocombine,
            r.link@ == self.link@,
            r.default == self.default,
            r.ctermfg@ == self.ctermfg@,
            r.ctermbg@ == self.ctermbg@,
            r.cterm@ == self.cterm@,
    {
        SetHighlightOpts {
            fg: self.fg.clone(),
            bg: self.bg.clone(),
            special: self.special.clone(),
            blend: self.blend,
            bold: self.bold,
            standout: self.standout,
            underline: self.underline,
            underlineline: self.underlineline,
            undercurl: self.undercurl,
            underdot: self.underdot,
            underdash: self.underdash,
            strikethrough: self.strikethrough,
            italic: self.italic,
            reverse: self.reverse,
            nocombine: self.nocombine,
            link: self.link.clone(),
            default: self.default,
            ctermfg: self.ctermfg.clone(),
            ctermbg: self.ctermbg.clone(),
            cterm: self.cterm.clone(),
        }
    }
}

/// The wire shape a set-highlight call takes its options in: colors and
/// links are lent, decorations cross as values (nil when unset), and the
/// keys the options never set cross as nil.
#[allow(missing_docs)]
pub struct KeyDictHighlight<'a> {
    pub bg: NonOwning<'a, Object>,
    pub fg: NonOwning<'a, Object>,
    pub sp: Object,
    pub bold: Object,
    pub link: NonOwning<'a, Object>,
    pub temp: Object,
    pub blend: Object,
    pub cterm: NonOwning<'a, Object>,
    pub global: Object,
    pub italic: Object,
    pub special: NonOwning<'a, Object>,
    pub ctermbg: NonOwning<'a, Object>,
    pub ctermfg: NonOwning<'a, Object>,
    pub default: Object,
    pub reverse: Object,
    pub fallback: Object,
    pub standout: Object,
    pub underdot: Object,
    pub nocombine: Object,
    pub undercurl: Object,
    pub underdash: Object,
    pub underline: Object,
    pub background: Object,
    pub foreground: Object,
    pub strikethrough: Object,
    pub underlineline: Object,
}

impl SetHighlightOpts {
    /// Lays the options out as the keyset the foreign call reads.
    pub fn to_keydict<'a>(&'a self) -> (r: KeyDictHighlight<'a>)
        ensures
            r.bg@ == self.bg@,
            r.fg@ == self.fg@,
            r.sp@ == Value::Nil,
            r.bold@ == <Option<bool> as ToObject>::encode_model(self.bold.deep_view()),
            r.link@ == self.link@,
            r.temp@ == Value::Nil,
            r.blend@ == <Option<u8> as ToObject>::encode_model(self.blend.deep_view()),
            r.cterm@ == self.cterm@,
            r.global@ == Value::Nil,
            r.italic@ == <Option<bool> as ToObject>::encode_model(self.italic.deep_view()),
            r.special@ == self.special@,
            r.ctermbg@ == self.ctermbg@,
            r.ctermfg@ == self.ctermfg@,
            r.default@ == <Option<bool> as ToObject>::encode_model(self.default.deep_view()),
            r.reverse@ == <Option<bool> as ToObject>::encode_model(self.reverse.deep_view()),
            r.fallback@ == Value::Nil,
            r.standout@ == <Option<bool> as ToObject>::encode_model(self.standout.deep_view()),
            r.underdot@ == <Option<bool> as ToObject>::encode_model(self.underdot.deep_view()),
            r.nocombine@ == <Option<bool> as ToObject>::encode_model(self.nocombine.deep_view()),
            r.undercurl@ == <Option<bool> as ToObject>::encode_model(self.undercurl.deep_view()),
            r.underdash@ == <Option<bool> as ToObject>::encode_model(self.underdash.deep_view()),
            r.underline@ == <Option<bool> as ToObject>::encode_model(self.underline.deep_view()),
            r.background@ == Value::Nil,
            r.foreground@ == Value::Nil,
            r.strikethrough@ == <Option<bool> as ToObject>::encode_model(
                self.strikethrough.deep_view(),
            ),
            r.underlineline@ == <Option<bool> as ToObject>::encode_model(
                self.underlineline.deep_view(),
            ),
    {
        KeyDictHighlight {
            bg: self.bg.non_owning(),
            fg: self.fg.non_owning(),
            sp: Object::nil(),
            bold: encode(self.bold),
            link: self.link.non_owning(),
            temp: Object::nil(),
            blend: encode(self.blend),
            cterm: self.cterm.non_owning(),
            global: Object::nil(),
            italic: encode(self.italic),
            special: self.special.non_owning(),
            ctermbg: self.ctermbg.non_owning(),
            ctermfg: self.ctermfg.non_owning(),
            default: encode(self.default),
            reverse: encode(self.reverse),
            fallback: Object::nil(),
            standout: encode(self.standout),
            underdot: encode(self.underdot),
            nocombine: encode(self.nocombine),
            undercurl: encode(self.undercurl),
            underdash: encode(self.underdash),
            underline: encode(self.underline),
            background: Object::nil(),
            foreground: Object::nil(),
            strikethrough: encode(self.strikethrough),
            underlineline: encode(self.underlineline),
        }
    }
}

} // verus!
