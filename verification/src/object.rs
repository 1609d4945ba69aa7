use vstd::prelude::*;

verus! {

/// A value kept in a `BLOB` column as a BSON document.
#[derive(Clone, Debug, PartialEq, Eq, PartialOrd, Ord)]
pub struct BsonObject<T>(T);

impl<T> View for BsonObject<T> {
    type V = T;

    /// The value that the column stands for.
    closed spec fn view(&self) -> T {
        self.0
    }
}

impl<T> BsonObject<T> {
    pub fn new(v: T) -> (r: Self)
        ensures
            r@ == v,
    {
        Self(v)
    }

    pub fn unwrap(self) -> (v: T)
        ensures
            v == self@,
    {
        self.0
    }

    /// The wrapped value names the wrapper.
    pub proof fn lemma_view(self, other: Self)
        ensures
            self@ == other@ ==> self == other,
    {
    }
}

/// A value kept in a `TEXT` column as a JSON document.
#[derive(Clone, Debug, PartialEq, Eq, PartialOrd, Ord)]
pub struct JsonObject<T>(T);

impl<T> View for JsonObject<T> {
    type V = T;

    /// The value that the column stands for.
    closed spec fn view(&self) -> T {
        self.0
    }
}

impl<T> JsonObject<T> {
    pub fn new(v: T) -> (r: Self)
        ensures
            r@ == v,
    {
        Self(v)
    }

    pub fn unwrap(self) -> (v: T)
        ensures
            v == self@,
    {
        self.0
    }

    /// The wrapped value names the wrapper.
    pub proof fn lemma_view(self, other: Self)
        ensures
            self@ == other@ ==> self == other,
    {
    }
}

} // verus!
