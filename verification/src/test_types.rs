//! Sample source types for the conversion trait — a record with a private
//! field, records with generic type, const and lifetime parameters — and the
//! mirrors of the private-field record, which live beside it because their
//! conversions read its fields.

use vstd::prelude::*;

use crate::RedefinedConvert;

verus! {

/// A record with a private field, reachable only through its accessor.
#[derive(Debug, Clone, PartialEq, Default)]
pub struct PrivateFieldStruct {
    p: u64,
    pub d: u64,
    pub vals: Vec<String>,
}

impl PrivateFieldStruct {
    /// The private field, as contracts speak of it.
    pub closed spec fn spec_p(&self) -> u64 {
        self.p
    }

    pub fn new(p: u64, d: u64, vals: Vec<String>) -> (r: PrivateFieldStruct)
        ensures
            r.spec_p() == p,
            r.deep_view() == (p, d, vals.deep_view()),
    {
        PrivateFieldStruct { p, d, vals }
    }

    pub fn get_p(&self) -> (r: u64)
        ensures
            r == self.spec_p(),
            r == self.deep_view().0,
    {
        self.p
    }
}

impl DeepView for PrivateFieldStruct {
    type V = (u64, u64, Seq<Seq<char>>);

    closed spec fn deep_view(&self) -> Self::V {
        (self.p, self.d, self.vals.deep_view())
    }
}

/// The structural mirror of [`PrivateFieldStruct`]: its forward conversion
/// obtains the private field through the accessor expression of a `func`
/// directive, and its backward conversion is the container-level override
/// expression calling the source's constructor.
#[derive(Debug, Clone, PartialEq, Default)]
pub struct NonPubFieldStructB {
    pub p: u64,
    pub d: u64,
    pub vals: Vec<String>,
}

impl RedefinedConvert<PrivateFieldStruct> for NonPubFieldStructB {
    open spec fn converts(&self, src: &PrivateFieldStruct) -> bool {
        (self.p, self.d, self.vals.deep_view()) == src.deep_view()
    }

    proof fn lemma_converts_determines_source(
        &self,
        x: &PrivateFieldStruct,
        y: &PrivateFieldStruct,
    ) {
    }

    fn from_source(src: PrivateFieldStruct) -> (r: NonPubFieldStructB) {
        let p = src.get_p();
        let r = NonPubFieldStructB {
            p: RedefinedConvert::from_source(p),
            d: RedefinedConvert::from_source(src.d),
            vals: RedefinedConvert::from_source(src.vals),
        };
        proof {
            assert forall|i: int| 0 <= i < r.vals.deep_view().len() implies r.vals.deep_view()[i]
                == src.vals.deep_view()[i] by {
                assert(r.vals@[i].converts(&src.vals@[i]));
            }
            assert(r.vals.deep_view() =~= src.vals.deep_view());
        }
        r
    }

    fn to_source(self) -> (r: PrivateFieldStruct) {
        let r = PrivateFieldStruct::new(self.p, self.d, self.vals);
        r
    }
}

/// A mirror of [`PrivateFieldStruct`] both of whose conversion directions
/// are container-level override expressions.
#[derive(Debug, Clone, PartialEq, Default)]
pub struct ToFromSourceFieldStructB {
    pub p: u64,
    pub d: u64,
    pub vals: Vec<String>,
}

impl ToFromSourceFieldStructB {
    /// The forward override expression's target.
    pub fn new(val: PrivateFieldStruct) -> (r: ToFromSourceFieldStructB)
        ensures
            (r.p, r.d, r.vals.deep_view()) == val.deep_view(),
    {
        let p = val.get_p();
        ToFromSourceFieldStructB { p, d: val.d, vals: val.vals }
    }
}

impl RedefinedConvert<PrivateFieldStruct> for ToFromSourceFieldStructB {
    open spec fn converts(&self, src: &PrivateFieldStruct) -> bool {
        (self.p, self.d, self.vals.deep_view()) == src.deep_view()
    }

    proof fn lemma_converts_determines_source(
        &self,
        x: &PrivateFieldStruct,
        y: &PrivateFieldStruct,
    ) {
    }

    fn from_source(src: PrivateFieldStruct) -> (r: ToFromSourceFieldStructB) {
        ToFromSourceFieldStructB::new(src)
    }

    fn to_source(self) -> (r: PrivateFieldStruct) {
        PrivateFieldStruct::new(self.p, self.d, self.vals)
    }
}

/// A record with generic type parameters.
#[derive(Debug, Clone, PartialEq, Default)]
pub struct GenericTypeStruct<X, Y> {
    pub p: u64,
    pub d: X,
    pub vals: Vec<Y>,
}

impl<X, Y> GenericTypeStruct<X, Y> {
    pub fn new(d: X, vals: Vec<Y>) -> (r: GenericTypeStruct<X, Y>)
        ensures
            r.p == 0,
            r.d == d,
            r.vals == vals,
    {
        GenericTypeStruct { p: 0, d, vals }
    }
}

impl<X: DeepView, Y: DeepView> DeepView for GenericTypeStruct<X, Y> {
    type V = (u64, X::V, Seq<Y::V>);

    open spec fn deep_view(&self) -> Self::V {
        (self.p, self.d.deep_view(), self.vals.deep_view())
    }
}

/// A record with a const generic parameter.
#[derive(Debug, Clone, PartialEq)]
pub struct GenericConstantStruct<const XVAL: usize> {
    pub p: u64,
    pub d: [i128; XVAL],
}

impl<const XVAL: usize> GenericConstantStruct<XVAL> {
    pub fn new(d: [i128; XVAL]) -> (r: GenericConstantStruct<XVAL>)
        ensures
            r.p == 0,
            r.d == d,
    {
        GenericConstantStruct { p: 0, d }
    }
}

impl<const XVAL: usize> DeepView for GenericConstantStruct<XVAL> {
    type V = (u64, Seq<i128>);

    open spec fn deep_view(&self) -> Self::V {
        (self.p, self.d.deep_view())
    }
}

/// A record with lifetime parameters.
#[derive(Debug, Clone, PartialEq)]
pub struct GenericLifetimeStruct<'a, 'b> {
    pub p: &'a u64,
    pub d: &'b [i128; 10],
}

} // verus!
