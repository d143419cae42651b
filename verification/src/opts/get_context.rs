//! Options passed to a get-context call.

use vstd::prelude::*;

use crate::array::Array;
use crate::convert::encode_all;
use crate::nonowning::NonOwning;
use crate::object::Object;
use crate::string::NvimString;
use crate::value::Value;

verus! {

broadcast use vstd::std_specs::vec::group_vec_axioms, vstd::seq::group_seq_axioms;

/// Options selecting which parts of the editor context a get-context call
/// returns; an unset selection means everything.
#[derive(Debug, Default)]
pub struct GetContextOpts {
    pub types: Object,
}

/// Builds [`GetContextOpts`].
#[derive(Debug, Default)]
pub struct GetContextOptsBuilder {
    pub types: Object,
}

impl GetContextOpts {
    /// Starts building options with no selection.
    pub fn builder() -> (b: GetContextOptsBuilder)
        ensures
            b.types@ == Value::Nil,
    {
        GetContextOptsBuilder { types: Object::nil() }
    }
}

impl GetContextOptsBuilder {
    /// Selects the context parts by name.
    pub fn types(self, types: Vec<NvimString>) -> (r: Self)
        ensures
            r.types@ == Value::List(encode_all::<NvimString>(types.deep_view())),
    {
        let ghost names = types.deep_view();
        let mut rest = types;
        let mut objs: Vec<Object> = Vec::new();
        proof {
            assert(objs.deep_view() + encode_all::<NvimString>(rest.deep_view())
                =~= encode_all::<NvimString>(names));
        }
        while rest.len() > 0
            invariant
                encode_all::<NvimString>(names) == objs.deep_view()
                    + encode_all::<NvimString>(rest.deep_view()),
            decreases rest@.len(),
        {
            let ghost rest_before = rest.deep_view();
            let ghost objs_before = objs.deep_view();
            let s = rest.remove(0);
            proof {
                assert(rest.deep_view() =~= rest_before.drop_first());
            }
            objs.push(Object::from_nvim_string(s));
            proof {
                assert(objs.deep_view() =~= objs_before.push(Value::Str(s@)));
                assert(objs_before + encode_all::<NvimString>(rest_before)
                    =~= objs.deep_view() + encode_all::<NvimString>(rest.deep_view()));
            }
        }
        proof {
            assert(encode_all::<NvimString>(rest.deep_view()) =~= Seq::<Value>::empty());
            assert(objs.deep_view() =~= objs.deep_view() + Seq::<Value>::empty());
        }
        GetContextOptsBuilder { types: Object::from_array(Array::from_vec(objs)) }
    }

    /// Finishes building.
    pub fn build(&self) -> (r: GetContextOpts)
        ensures
            r.types@ == self.types@,
    {
        GetContextOpts { types: self.types.clone() }
    }
}

/// The wire shape a get-context call takes its options in: the selection is
/// lent, not given away.
pub struct KeyDictContext<'a> {
    pub types: NonOwning<'a, Object>,
}

impl GetContextOpts {
    /// Lays the options out as the keyset the foreign call reads.
    pub fn to_keydict<'a>(&'a self) -> (r: KeyDictContext<'a>)
        ensures
            r.types@ == self.types@,
    {
        KeyDictContext { types: self.types.non_owning() }
    }
}

} // verus!
