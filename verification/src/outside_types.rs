//! Sample source types that live, in a real build, in a crate of their own:
//! mirrors of them exercise conversion across a crate boundary.

use vstd::prelude::*;

verus! {

/// A record whose first field is private outside its crate.
#[derive(Debug, Clone, PartialEq, Default)]
pub struct NonPubFieldStructA {
    p: u64,
    pub d: u64,
    pub vals: Vec<String>,
}

impl NonPubFieldStructA {
    /// The private field, as contracts speak of it.
    pub closed spec fn spec_p(&self) -> u64 {
        self.p
    }

    pub fn new(p: u64, d: u64, vals: Vec<String>) -> (r: NonPubFieldStructA)
        ensures
            r.spec_p() == p,
            r.deep_view() == (p, d, vals.deep_view()),
    {
        NonPubFieldStructA { p, d, vals }
    }

    pub fn get_p(&self) -> (r: u64)
        ensures
            r == self.spec_p(),
            r == self.deep_view().0,
    {
        self.p
    }
}

impl DeepView for NonPubFieldStructA {
    type V = (u64, u64, Seq<Seq<char>>);

    closed spec fn deep_view(&self) -> Self::V {
        (self.p, self.d, self.vals.deep_view())
    }
}

/// A plain record used as a field type by several mirrors.
#[derive(Debug, Clone, PartialEq, Default)]
pub struct OutsideStructA {
    pub p: u64,
    pub d: u64,
    pub vals: Vec<String>,
}

impl DeepView for OutsideStructA {
    type V = (u64, u64, Seq<Seq<char>>);

    open spec fn deep_view(&self) -> Self::V {
        (self.p, self.d, self.vals.deep_view())
    }
}

/// A record with generic type parameters.
#[derive(Debug, Clone, PartialEq, Default)]
pub struct GenericStructA<X, Y> {
    pub p: u64,
    pub d: X,
    pub vals: Vec<Y>,
}

impl<X: DeepView, Y: DeepView> DeepView for GenericStructA<X, Y> {
    type V = (u64, X::V, Seq<Y::V>);

    open spec fn deep_view(&self) -> Self::V {
        (self.p, self.d.deep_view(), self.vals.deep_view())
    }
}

/// A record with a const generic parameter.
#[derive(Debug, Clone, PartialEq)]
pub struct GenericConstantStructA<const XVAL: usize> {
    pub p: u64,
    pub d: [i128; XVAL],
}

impl<const XVAL: usize> DeepView for GenericConstantStructA<XVAL> {
    type V = (u64, Seq<i128>);

    open spec fn deep_view(&self) -> Self::V {
        (self.p, self.d.deep_view())
    }
}

} // verus!
