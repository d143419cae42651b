//! The growable sequence of dynamic values.

use vstd::prelude::*;

use crate::object::Object;
use crate::value::Value;

verus! {

broadcast use vstd::std_specs::vec::group_vec_axioms, vstd::seq::group_seq_axioms, crate::object::lemma_object_view;

/// An owned, contiguous, insertion-ordered sequence of dynamic values.
///
/// The sequence exclusively owns every element; its view is the sequence of
/// its elements' models.
#[derive(Debug)]
pub struct Array {
    pub(crate) items: Vec<Object>,
}

impl View for Array {
    type V = Seq<Value>;

    closed spec fn view(&self) -> Seq<Value> {
        crate::object::objs_view(self.items@)
    }
}

/// A sequence's view is the elementwise model of its items.
pub(crate) broadcast proof fn lemma_array_view(a: Array)
    ensures
        #[trigger] a@ == crate::object::objs_view(a.items@),
{
}

impl Array {
    /// Creates an empty sequence.
    pub fn new() -> (r: Self)
        ensures
            r@ == Seq::<Value>::empty(),
    {
        let r = Array { items: Vec::new() };
        proof {
            assert(r@ =~= Seq::<Value>::empty());
        }
        r
    }

    /// Returns the number of elements.
    pub fn len(&self) -> (n: usize)
        ensures
            n == self@.len(),
    {
        self.items.len()
    }

    /// Returns `true` if the sequence holds no elements.
    pub fn is_empty(&self) -> (b: bool)
        ensures
            b == (self@.len() == 0),
    {
        self.items.len() == 0
    }

    /// Copies the sequence, deep-copying every element.
    pub(crate) fn deep_clone(&self) -> (r: Array)
        ensures
            r@ == self@,
        decreases *self, 0int,
    {
        let n = self.items.len();
        let mut items: Vec<Object> = Vec::new();
        let mut i: usize = 0;
        while i < n
            invariant
                n == self.items@.len(),
                0 <= i <= n,
                items@.len() == i,
                forall|j: int| 0 <= j < i ==> crate::object::obj_view(items@[j])
                    == crate::object::obj_view(self.items@[j]),
            decreases n - i,
        {
            items.push(self.items[i].deep_clone());
            i += 1;
        }
        let r = Array { items };
        proof {
            assert(r@ =~= self@);
        }
        r
    }

    /// Compares two sequences elementwise.
    pub(crate) fn deep_eq(&self, other: &Array) -> (r: bool)
        ensures
            r == (self@ == other@),
        decreases *self, 0int,
    {
        let n = self.items.len();
        if n != other.items.len() {
            proof {
                assert(self@.len() != other@.len());
            }
            return false;
        }
        let mut i: usize = 0;
        while i < n
            invariant
                n == self.items@.len() == other.items@.len(),
                0 <= i <= n,
                forall|j: int| 0 <= j < i ==> crate::object::obj_view(self.items@[j])
                    == crate::object::obj_view(other.items@[j]),
            decreases n - i,
        {
            if !self.items[i].deep_eq(&other.items[i]) {
                proof {
                    assert(self@[i as int] != other@[i as int]);
                }
                return false;
            }
            i += 1;
        }
        proof {
            assert(self@ =~= other@);
        }
        true
    }

    /// Appends an element, transferring its ownership into the sequence.
    pub fn push(&mut self, obj: Object)
        ensures
            final(self)@ == old(self)@.push(obj@),
    {
        self.items.push(obj);
        proof {
            assert(self@ =~= old(self)@.push(obj@));
        }
    }
}

/// The subsequence of `s` with every nil entry dropped, in order.
pub open spec fn drop_nils(s: Seq<Value>) -> Seq<Value>
    decreases s.len(),
{
    if s.len() == 0 {
        Seq::empty()
    } else if s.first() is Nil {
        drop_nils(s.drop_first())
    } else {
        seq![s.first()] + drop_nils(s.drop_first())
    }
}

/// Dropping nils from a sequence without nil entries changes nothing.
pub proof fn lemma_drop_nils_identity(s: Seq<Value>)
    requires
        forall|i: int| 0 <= i < s.len() ==> !(#[trigger] s[i] is Nil),
    ensures
        drop_nils(s) == s,
    decreases s.len(),
{
    if s.len() > 0 {
        lemma_drop_nils_identity(s.drop_first());
        assert(seq![s.first()] + s.drop_first() =~= s);
    } else {
        assert(drop_nils(s) =~= s);
    }
}

/// The view of a vector of objects, elementwise, is its deep view.
pub(crate) proof fn lemma_objs_deep_view(v: Vec<Object>)
    ensures
        crate::object::objs_view(v@) == v.deep_view(),
{
    assert(crate::object::objs_view(v@) =~= v.deep_view());
}

impl DeepView for Array {
    type V = Seq<Value>;

    open spec fn deep_view(&self) -> Seq<Value> {
        self.view()
    }
}

impl Array {
    /// Wraps a vector of objects as a sequence, keeping every element.
    pub fn from_vec(vec: Vec<Object>) -> (r: Self)
        ensures
            r@ == vec.deep_view(),
    {
        proof {
            lemma_objs_deep_view(vec);
        }
        Array { items: vec }
    }

    /// Builds a sequence from a source of objects, dropping every nil
    /// entry. Absent entries of optional-valued sources are encoded as nil,
    /// so an all-absent source degenerates to an empty sequence rather than
    /// a list of nils: absent fields must not round-trip as explicit nils
    /// inside sequences.
    pub fn from_objects(vec: Vec<Object>) -> (r: Self)
        ensures
            r@ == drop_nils(vec.deep_view()),
    {
        proof {
            lemma_objs_deep_view(vec);
        }
        let mut rest = vec;
        let mut items: Vec<Object> = Vec::new();
        let ghost all = rest@;
        while rest.len() > 0
            invariant
                drop_nils(crate::object::objs_view(all))
                    == crate::object::objs_view(items@)
                        + drop_nils(crate::object::objs_view(rest@)),
            decreases rest@.len(),
        {
            let ghost rest_before = rest@;
            let ghost items_before = items@;
            let o = rest.remove(0);
            proof {
                lemma_objs_view_drop_first(rest_before);
                assert(rest@ =~= rest_before.drop_first());
            }
            if o.is_some() {
                items.push(o);
                proof {
                    assert(crate::object::objs_view(items@)
                        =~= crate::object::objs_view(items_before).push(
                            crate::object::obj_view(o),
                        ));
                    assert(crate::object::objs_view(items_before)
                        + drop_nils(crate::object::objs_view(rest_before))
                        =~= crate::object::objs_view(items@)
                            + drop_nils(crate::object::objs_view(rest@)));
                }
            }
        }
        proof {
            assert(crate::object::objs_view(rest@) =~= Seq::<Value>::empty());
            assert(crate::object::objs_view(items@)
                =~= crate::object::objs_view(items@) + Seq::<Value>::empty());
        }
        let r = Array { items };
        proof {
            assert(r@ =~= drop_nils(crate::object::objs_view(all)));
        }
        r
    }

    /// Turns the sequence into an ownership-transferring iterator over its
    /// elements.
    pub fn into_iter(self) -> (r: ArrayIterator)
        ensures
            r@ == self@,
    {
        ArrayIterator { rest: self.items }
    }
}

/// A view of a sequence of objects shifts with the sequence: the model of
/// the tail is the tail of the model.
proof fn lemma_objs_view_drop_first(s: Seq<Object>)
    requires
        s.len() > 0,
    ensures
        crate::object::objs_view(s).drop_first() == crate::object::objs_view(s.drop_first()),
        crate::object::objs_view(s).first() == crate::object::obj_view(s.first()),
{
    assert(crate::object::objs_view(s).drop_first()
        =~= crate::object::objs_view(s.drop_first()));
}

/// An ownership-transferring iterator over a sequence's elements.
///
/// Each call of `next` hands the caller full ownership of the front
/// element. Elements not yet yielded stay owned by the iterator, so
/// dropping it mid-iteration releases exactly the remaining elements:
/// already-yielded elements are the caller's responsibility, and nothing is
/// released twice. The view is the sequence of models of the elements still
/// to be yielded.
pub struct ArrayIterator {
    rest: Vec<Object>,
}

impl View for ArrayIterator {
    type V = Seq<Value>;

    closed spec fn view(&self) -> Seq<Value> {
        crate::object::objs_view(self.rest@)
    }
}

impl ArrayIterator {
    /// Yields ownership of the next element, or `None` once every element
    /// has been yielded.
    pub fn next(&mut self) -> (r: Option<Object>)
        ensures
            match r {
                Some(o) => old(self)@.len() > 0 && o@ == old(self)@.first()
                    && final(self)@ == old(self)@.drop_first(),
                None => old(self)@.len() == 0 && final(self)@ == old(self)@,
            },
    {
        if self.rest.len() == 0 {
            None
        } else {
            let o = self.rest.remove(0);
            proof {
                lemma_objs_view_drop_first(old(self).rest@);
                assert(self.rest@ =~= old(self).rest@.drop_first());
            }
            Some(o)
        }
    }

    /// Returns how many elements are still to be yielded.
    pub fn len(&self) -> (n: usize)
        ensures
            n == self@.len(),
    {
        self.rest.len()
    }
}

impl Clone for Array {
    /// Cloning deep-copies every element.
    fn clone(&self) -> (r: Self)
        ensures
            r@ == self@,
    {
        self.deep_clone()
    }
}

impl PartialEq for Array {
    /// Equality is structural: elementwise over the two sequences.
    fn eq(&self, other: &Self) -> (r: bool)
    {
        self.deep_eq(other)
    }
}

impl vstd::std_specs::cmp::PartialEqSpecImpl for Array {
    open spec fn obeys_eq_spec() -> bool {
        true
    }

    open spec fn eq_spec(&self, other: &Array) -> bool {
        self@ == other@
    }
}

} // verus!
