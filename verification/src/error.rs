//! The error taxonomy of the marshaling layer.
//!
//! Every error here is a recoverable, typed value: foreign-supplied data is
//! untrusted, so a mismatched tag is an expected outcome, never a crash.

use vstd::prelude::*;

use crate::object::ObjectType;

verus! {

/// An error raised while turning a dynamic value back into a host value.
#[derive(Debug)]
pub enum FromObjectError {
    /// A tag-checked accessor was invoked against the wrong active tag.
    /// Carries the tag the caller expected and the tag actually found.
    Primitive { expected: ObjectType, actual: ObjectType },
    /// A primitive was extracted successfully but failed a secondary
    /// conversion (an integer out of range for a narrower host type, bytes
    /// that are not valid text). Carries the primitive's tag, the name of
    /// the host type the conversion was into, and the underlying cause.
    Secondary { primitive: ObjectType, into: String, source: String },
    /// A required field of a record was absent from the mapping being
    /// decoded. Names the missing field.
    MissingField { field: String },
    /// A failure while decoding a record field: names the field, and wraps
    /// the failure met inside it, so the path to the mismatch is preserved.
    AtField { field: String, cause: Box<FromObjectError> },
    /// A failure while decoding a sequence element: carries the element's
    /// index and wraps the failure met inside it.
    AtIndex { index: usize, cause: Box<FromObjectError> },
}

impl FromObjectError {
    /// Builds a secondary-conversion failure from the primitive tag that was
    /// extracted, the name of the host type the value would not convert
    /// into, and the cause.
    pub fn secondary(primitive: ObjectType, into: String, source: String) -> (r: Self)
        ensures
            r == (FromObjectError::Secondary { primitive, into, source }),
    {
        FromObjectError::Secondary { primitive, into, source }
    }
}

/// Decode errors compare by shape and position: two secondary-conversion
/// failures are the same error whenever the primitive tag and the target
/// type agree, whatever the underlying causes were.
pub open spec fn same_from_object_error(a: FromObjectError, b: FromObjectError) -> bool
    decreases a,
{
    match (a, b) {
        (
            FromObjectError::Primitive { expected: e1, actual: a1 },
            FromObjectError::Primitive { expected: e2, actual: a2 },
        ) => e1 == e2 && a1 == a2,
        (
            FromObjectError::Secondary { primitive: p1, into: i1, source: _ },
            FromObjectError::Secondary { primitive: p2, into: i2, source: _ },
        ) => p1 == p2 && i1@ == i2@,
        (
            FromObjectError::MissingField { field: f1 },
            FromObjectError::MissingField { field: f2 },
        ) => f1@ == f2@,
        (
            FromObjectError::AtField { field: f1, cause: c1 },
            FromObjectError::AtField { field: f2, cause: c2 },
        ) => f1@ == f2@ && same_from_object_error(*c1, *c2),
        (
            FromObjectError::AtIndex { index: x1, cause: c1 },
            FromObjectError::AtIndex { index: x2, cause: c2 },
        ) => x1 == x2 && same_from_object_error(*c1, *c2),
        _ => false,
    }
}

impl FromObjectError {
    /// Compares two decode errors, ignoring the underlying cause text of
    /// secondary failures.
    fn error_eq(&self, other: &FromObjectError) -> (r: bool)
        ensures
            r == same_from_object_error(*self, *other),
        decreases *self,
    {
        match (self, other) {
            (
                FromObjectError::Primitive { expected: e1, actual: a1 },
                FromObjectError::Primitive { expected: e2, actual: a2 },
            ) => *e1 == *e2 && *a1 == *a2,
            (
                FromObjectError::Secondary { primitive: p1, into: i1, source: _ },
                FromObjectError::Secondary { primitive: p2, into: i2, source: _ },
            ) => *p1 == *p2 && *i1 == *i2,
            (
                FromObjectError::MissingField { field: f1 },
                FromObjectError::MissingField { field: f2 },
            ) => *f1 == *f2,
            (
                FromObjectError::AtField { field: f1, cause: c1 },
                FromObjectError::AtField { field: f2, cause: c2 },
            ) => *f1 == *f2 && c1.error_eq(c2),
            (
                FromObjectError::AtIndex { index: x1, cause: c1 },
                FromObjectError::AtIndex { index: x2, cause: c2 },
            ) => *x1 == *x2 && c1.error_eq(c2),
            _ => false,
        }
    }
}

impl PartialEq for FromObjectError {
    /// Two errors are equal when they describe the same failure at the same
    /// position; the cause text of a secondary failure is not compared.
    fn eq(&self, other: &Self) -> (r: bool)
    {
        self.error_eq(other)
    }
}

impl vstd::std_specs::cmp::PartialEqSpecImpl for FromObjectError {
    open spec fn obeys_eq_spec() -> bool {
        true
    }

    open spec fn eq_spec(&self, other: &FromObjectError) -> bool {
        same_from_object_error(*self, *other)
    }
}

/// Any failure the marshaling layer can surface to a binding-level caller.
#[derive(Debug)]
pub enum Error {
    /// Decoding a dynamic value into a host value failed.
    FromObject(FromObjectError),
    /// A closure-registry handle was called after it was released.
    HandleReleased,
    /// A mutable closure was re-entered while an invocation of it was still
    /// on the call stack.
    RecursiveCall,
    /// A once-only closure was called a second time.
    CalledMoreThanOnce,
    /// An error the foreign runtime itself reported: passed through, not
    /// reinterpreted.
    ForeignError(String),
    /// The foreign runtime reported running out of memory while performing
    /// a call.
    ForeignOutOfMemory(String),
}

/// Library errors compare by kind; decode errors compare as
/// [`same_from_object_error`] does, and foreign errors by their message.
pub open spec fn same_library_error(a: Error, b: Error) -> bool {
    match (a, b) {
        (Error::FromObject(e1), Error::FromObject(e2)) => same_from_object_error(e1, e2),
        (Error::HandleReleased, Error::HandleReleased) => true,
        (Error::RecursiveCall, Error::RecursiveCall) => true,
        (Error::CalledMoreThanOnce, Error::CalledMoreThanOnce) => true,
        (Error::ForeignError(m1), Error::ForeignError(m2)) => m1@ == m2@,
        (Error::ForeignOutOfMemory(m1), Error::ForeignOutOfMemory(m2)) => m1@ == m2@,
        _ => false,
    }
}

impl PartialEq for Error {
    /// Two library errors are equal when they report the same failure.
    fn eq(&self, other: &Self) -> (r: bool)
    {
        match (self, other) {
            (Error::FromObject(e1), Error::FromObject(e2)) => e1.error_eq(e2),
            (Error::HandleReleased, Error::HandleReleased) => true,
            (Error::RecursiveCall, Error::RecursiveCall) => true,
            (Error::CalledMoreThanOnce, Error::CalledMoreThanOnce) => true,
            (Error::ForeignError(m1), Error::ForeignError(m2)) => *m1 == *m2,
            (Error::ForeignOutOfMemory(m1), Error::ForeignOutOfMemory(m2)) => *m1 == *m2,
            _ => false,
        }
    }
}

impl vstd::std_specs::cmp::PartialEqSpecImpl for Error {
    open spec fn obeys_eq_spec() -> bool {
        true
    }

    open spec fn eq_spec(&self, other: &Error) -> bool {
        same_library_error(*self, *other)
    }
}

} // verus!
