//! A request field that may be given a value, given as `null`, or left out.
use vstd::prelude::*;

verus! {

/// Tri-state field of a request: a value, an explicit `null`, or absent.
pub enum MaybeUndefined<T> {
    /// The field was sent as `null`.
    Null,
    /// The field was sent with a value.
    Value(T),
    /// The field was not sent at all.
    Undefined,
}

impl<T> MaybeUndefined<T> {
    /// The value of the field, where one was sent.
    pub open spec fn to_option(self) -> Option<T> {
        match self {
            MaybeUndefined::Value(v) => Some(v),
            _ => None,
        }
    }

    /// Whether the field was sent with a value.
    pub fn is_some(&self) -> (b: bool)
        ensures
            b == (*self is Value),
    {
        match self {
            MaybeUndefined::Value(_) => true,
            _ => false,
        }
    }

    /// The value of the field as an `Option`: an explicit `null` and an
    /// absent field both give `None`.
    pub fn into_option(self) -> (o: Option<T>)
        ensures
            o == self.to_option(),
    {
        match self {
            MaybeUndefined::Value(v) => Some(v),
            _ => None,
        }
    }
}

/// A field sent with a value gives that value; a field sent as `null` or
/// left out gives none.
pub proof fn lemma_to_option<T>(f: MaybeUndefined<T>)
    ensures
        f matches MaybeUndefined::Value(v) ==> f.to_option() == Some(v),
        f is Null ==> f.to_option() is None,
        f is Undefined ==> f.to_option() is None,
{
}

} // verus!
