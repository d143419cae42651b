//! The insertion-ordered mapping of byte-buffer keys to dynamic values.

use vstd::prelude::*;

use crate::object::Object;
use crate::string::NvimString;
use crate::value::Value;

verus! {

broadcast use vstd::std_specs::vec::group_vec_axioms, vstd::seq::group_seq_axioms, crate::object::lemma_object_view;

/// An insertion-ordered sequence of key/value pairs: the boundary's
/// "dictionary" shape.
///
/// Duplicate keys are permitted to exist simultaneously; lookup by key
/// returns the first match only. The view is the sequence of pair models in
/// insertion order.
#[derive(Debug)]
pub struct Dictionary {
    pub(crate) pairs: Vec<(NvimString, Object)>,
}

impl View for Dictionary {
    type V = Seq<(Seq<u8>, Value)>;

    closed spec fn view(&self) -> Seq<(Seq<u8>, Value)> {
        crate::object::pairs_view(self.pairs@)
    }
}

/// A mapping's view is the elementwise model of its pairs.
pub(crate) broadcast proof fn lemma_dictionary_view(d: Dictionary)
    ensures
        #[trigger] d@ == crate::object::pairs_view(d.pairs@),
{
}

impl DeepView for Dictionary {
    type V = Seq<(Seq<u8>, Value)>;

    open spec fn deep_view(&self) -> Seq<(Seq<u8>, Value)> {
        self.view()
    }
}

impl Dictionary {
    /// Creates an empty mapping.
    pub fn new() -> (r: Self)
        ensures
            r@ == Seq::<(Seq<u8>, Value)>::empty(),
    {
        let r = Dictionary { pairs: Vec::new() };
        proof {
            assert(r@ =~= Seq::<(Seq<u8>, Value)>::empty());
        }
        r
    }

    /// Returns the number of pairs.
    pub fn len(&self) -> (n: usize)
        ensures
            n == self@.len(),
    {
        self.pairs.len()
    }

    /// Returns `true` if the mapping holds no pairs.
    pub fn is_empty(&self) -> (b: bool)
        ensures
            b == (self@.len() == 0),
    {
        self.pairs.len() == 0
    }

    /// Copies the mapping, deep-copying every key and value.
    pub(crate) fn deep_clone(&self) -> (r: Dictionary)
        ensures
            r@ == self@,
        decreases *self, 0int,
    {
        let n = self.pairs.len();
        let mut pairs: Vec<(NvimString, Object)> = Vec::new();
        let mut i: usize = 0;
        while i < n
            invariant
                n == self.pairs@.len(),
                0 <= i <= n,
                pairs@.len() == i,
                forall|j: int| 0 <= j < i ==> pairs@[j].0@ == self.pairs@[j].0@
                    && crate::object::obj_view(pairs@[j].1)
                        == crate::object::obj_view(self.pairs@[j].1),
            decreases n - i,
        {
            let key = self.pairs[i].0.clone();
            let value = self.pairs[i].1.deep_clone();
            pairs.push((key, value));
            i += 1;
        }
        let r = Dictionary { pairs };
        proof {
            assert(r@ =~= self@);
        }
        r
    }

    /// Compares two mappings pairwise: keys byte-for-byte, values
    /// structurally, in insertion order.
    pub(crate) fn deep_eq(&self, other: &Dictionary) -> (r: bool)
        ensures
            r == (self@ == other@),
        decreases *self, 0int,
    {
        let n = self.pairs.len();
        if n != other.pairs.len() {
            proof {
                assert(self@.len() != other@.len());
            }
            return false;
        }
        let mut i: usize = 0;
        while i < n
            invariant
                n == self.pairs@.len() == other.pairs@.len(),
                0 <= i <= n,
                forall|j: int| 0 <= j < i ==> self.pairs@[j].0@ == other.pairs@[j].0@
                    && crate::object::obj_view(self.pairs@[j].1)
                        == crate::object::obj_view(other.pairs@[j].1),
            decreases n - i,
        {
            if !(self.pairs[i].0 == other.pairs[i].0) {
                proof {
                    assert(self@[i as int] != other@[i as int]);
                }
                return false;
            }
            if !self.pairs[i].1.deep_eq(&other.pairs[i].1) {
                proof {
                    assert(self@[i as int] != other@[i as int]);
                }
                return false;
            }
            i += 1;
        }
        proof {
            assert(self@ =~= other@);
        }
        true
    }

    /// Appends a key/value pair at the end, preserving insertion order.
    /// A key already present is *not* replaced: the new pair coexists with
    /// the old one, and lookup keeps returning the first.
    pub fn push(&mut self, key: NvimString, value: Object)
        ensures
            final(self)@ == old(self)@.push((key@, value@)),
    {
        self.pairs.push((key, value));
        proof {
            assert(self@ =~= old(self)@.push((key@, value@)));
        }
    }
}

/// The value under the *first* pair of `pairs` whose key is `key`, if any:
/// duplicate keys may coexist, and lookup never sees past the first.
pub open spec fn lookup(pairs: Seq<(Seq<u8>, Value)>, key: Seq<u8>) -> Option<Value>
    decreases pairs.len(),
{
    if pairs.len() == 0 {
        None
    } else if pairs.first().0 == key {
        Some(pairs.first().1)
    } else {
        lookup(pairs.drop_first(), key)
    }
}

impl Dictionary {
    /// Builds a mapping from a vector of key/value pairs, keeping the
    /// order and any duplicate keys as given.
    pub fn from_pairs(vec: Vec<(NvimString, Object)>) -> (r: Self)
        ensures
            r@ == vec.deep_view(),
    {
        let r = Dictionary { pairs: vec };
        proof {
            assert(r@ =~= r.pairs.deep_view());
        }
        r
    }

    /// Looks a key up by its bytes, returning a borrow of the value under
    /// the first matching pair, or `None` if no key matches.
    pub fn get(&self, key: &NvimString) -> (r: Option<&Object>)
        ensures
            match r {
                Some(o) => lookup(self@, key@) == Some(o@),
                None => lookup(self@, key@) is None,
            },
    {
        let n = self.pairs.len();
        let mut i: usize = 0;
        proof {
            assert(self.pairs@.skip(0) =~= self.pairs@);
        }
        while i < n
            invariant
                n == self.pairs@.len(),
                0 <= i <= n,
                lookup(self@, key@) == lookup(
                    crate::object::pairs_view(self.pairs@.skip(i as int)),
                    key@,
                ),
            decreases n - i,
        {
            let ghost tail = self.pairs@.skip(i as int);
            proof {
                lemma_pairs_view_drop_first(tail);
                assert(self.pairs@.skip(i as int + 1) =~= tail.drop_first());
            }
            if self.pairs[i].0 == *key {
                return Some(&self.pairs[i].1);
            }
            i += 1;
        }
        proof {
            assert(crate::object::pairs_view(self.pairs@.skip(n as int))
                =~= Seq::<(Seq<u8>, Value)>::empty());
        }
        None
    }
}

/// The model of a nonempty pair sequence peels off its head pair.
proof fn lemma_pairs_view_drop_first(s: Seq<(NvimString, Object)>)
    requires
        s.len() > 0,
    ensures
        crate::object::pairs_view(s).drop_first()
            == crate::object::pairs_view(s.drop_first()),
        crate::object::pairs_view(s).first() == (s.first().0@, crate::object::obj_view(s.first().1)),
{
    assert(crate::object::pairs_view(s).drop_first()
        =~= crate::object::pairs_view(s.drop_first()));
}

impl Clone for Dictionary {
    /// Cloning deep-copies every key and value.
    fn clone(&self) -> (r: Self)
        ensures
            r@ == self@,
    {
        self.deep_clone()
    }
}

impl PartialEq for Dictionary {
    /// Equality is structural: pairwise over the two mappings, in insertion
    /// order.
    fn eq(&self, other: &Self) -> (r: bool)
    {
        self.deep_eq(other)
    }
}

impl vstd::std_specs::cmp::PartialEqSpecImpl for Dictionary {
    open spec fn obeys_eq_spec() -> bool {
        true
    }

    open spec fn eq_spec(&self, other: &Dictionary) -> bool {
        self@ == other@
    }
}

} // verus!
