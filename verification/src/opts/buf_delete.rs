//! Options passed to a buffer-delete call.

use vstd::prelude::*;

use crate::dictionary::Dictionary;
use crate::object::Object;
use crate::string::NvimString;
use crate::value::Value;

verus! {

/// Options for deleting a buffer: force the deletion even for a changed
/// buffer, or merely unload it.
#[derive(Clone, Debug, Default, PartialEq, Eq, Structural)]
pub struct BufDeleteOpts {
    pub force: Option<bool>,
    pub unload: Option<bool>,
}

/// Builds [`BufDeleteOpts`] a field at a time; every field may be left
/// unset.
#[derive(Clone, Debug, Default)]
pub struct BufDeleteOptsBuilder {
    pub force: Option<bool>,
    pub unload: Option<bool>,
}

impl BufDeleteOpts {
    /// Starts building options with every field unset.
    pub fn builder() -> (b: BufDeleteOptsBuilder)
        ensures
            b.force is None,
            b.unload is None,
    {
        BufDeleteOptsBuilder { force: None, unload: None }
    }

    /// The mapping the options cross the boundary as: one pair per *set*
    /// field; an unset field is omitted, not written as nil.
    pub open spec fn pairs(self) -> Seq<(Seq<u8>, Value)> {
        let f = match self.force {
            None => Seq::<(Seq<u8>, Value)>::empty(),
            Some(b) => seq![(vstd::utf8::encode_utf8("force"@), Value::Bool(b))],
        };
        let u = match self.unload {
            None => Seq::<(Seq<u8>, Value)>::empty(),
            Some(b) => seq![(vstd::utf8::encode_utf8("unload"@), Value::Bool(b))],
        };
        f + u
    }

    /// Writes the options as the mapping the foreign call takes.
    pub fn to_dictionary(&self) -> (d: Dictionary)
        ensures
            d@ == self.pairs(),
    {
        let mut pairs: Vec<(NvimString, Object)> = Vec::new();
        match self.force {
            Some(b) => {
                pairs.push((NvimString::from_str("force"), Object::from_bool(b)));
            },
            None => {},
        }
        match self.unload {
            Some(b) => {
                pairs.push((NvimString::from_str("unload"), Object::from_bool(b)));
            },
            None => {},
        }
        proof {
            assert(pairs.deep_view() =~= self.pairs());
        }
        Dictionary::from_pairs(pairs)
    }
}

impl BufDeleteOptsBuilder {
    /// Sets whether the deletion is forced.
    pub fn force(self, force: bool) -> (r: Self)
        ensures
            r.force == Some(force),
            r.unload == self.unload,
    {
        BufDeleteOptsBuilder { force: Some(force), ..self }
    }

    /// Sets whether the buffer is merely unloaded.
    pub fn unload(self, unload: bool) -> (r: Self)
        ensures
            r.unload == Some(unload),
            r.force == self.force,
    {
        BufDeleteOptsBuilder { unload: Some(unload), ..self }
    }

    /// Finishes building: the options hold exactly the fields set so far.
    pub fn build(&self) -> (r: BufDeleteOpts)
        ensures
            r.force == self.force,
            r.unload == self.unload,
    {
        BufDeleteOpts { force: self.force, unload: self.unload }
    }
}

} // verus!
