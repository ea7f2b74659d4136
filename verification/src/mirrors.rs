//! Worked mirror pairs: source types together with their mirrors and the
//! conversion implementations the engine emits for them — plain records,
//! positional records, tagged unions, generic records converted generically,
//! and records whose mirrors substitute a field's type.

use vstd::prelude::*;

use crate::outside_types::{GenericConstantStructA, GenericStructA, OutsideStructA};
use crate::test_types::{GenericConstantStruct, GenericTypeStruct};
use crate::RedefinedConvert;

verus! {

/// Two string vectors in the elementwise conversion relation hold the same
/// characters.
proof fn lemma_string_vec_converts_deep_view(m: &Vec<String>, s: &Vec<String>)
    requires
        m.converts(s),
    ensures
        m.deep_view() == s.deep_view(),
{
    assert forall|i: int| 0 <= i < m.deep_view().len() implies m.deep_view()[i]
        == s.deep_view()[i] by {
        assert(m@[i].converts(&s@[i]));
    }
    assert(m.deep_view() =~= s.deep_view());
}

/// A plain record source.
#[derive(Debug, Clone, PartialEq, Default)]
pub struct StructA {
    pub p: u64,
    pub d: u64,
    pub vals: Vec<String>,
}

impl DeepView for StructA {
    type V = (u64, u64, Seq<Seq<char>>);

    open spec fn deep_view(&self) -> Self::V {
        (self.p, self.d, self.vals.deep_view())
    }
}

/// The structural mirror of [`StructA`].
#[derive(Debug, Clone, PartialEq, Default)]
pub struct StructB {
    pub p: u64,
    pub d: u64,
    pub vals: Vec<String>,
}

impl RedefinedConvert<StructA> for StructB {
    open spec fn converts(&self, src: &StructA) -> bool {
        &&& self.p == src.p
        &&& self.d == src.d
        &&& self.vals.converts(&src.vals)
    }

    proof fn lemma_converts_determines_source(&self, x: &StructA, y: &StructA) {
        self.vals.lemma_converts_determines_source(&x.vals, &y.vals);
    }

    fn from_source(src: StructA) -> (r: StructB) {
        StructB {
            p: RedefinedConvert::from_source(src.p),
            d: RedefinedConvert::from_source(src.d),
            vals: RedefinedConvert::from_source(src.vals),
        }
    }

    fn to_source(self) -> (r: StructA) {
        StructA { p: self.p.to_source(), d: self.d.to_source(), vals: self.vals.to_source() }
    }
}

/// A positional record source.
#[derive(Debug, Clone, PartialEq, Default)]
pub struct UnnamedStructA(pub u64, pub String);

impl DeepView for UnnamedStructA {
    type V = (u64, Seq<char>);

    open spec fn deep_view(&self) -> Self::V {
        (self.0, self.1.deep_view())
    }
}

/// The structural mirror of [`UnnamedStructA`].
#[derive(Debug, Clone, PartialEq, Default)]
pub struct UnnamedStructB(pub u64, pub String);

impl RedefinedConvert<UnnamedStructA> for UnnamedStructB {
    open spec fn converts(&self, src: &UnnamedStructA) -> bool {
        self.0 == src.0 && self.1 == src.1
    }

    proof fn lemma_converts_determines_source(&self, x: &UnnamedStructA, y: &UnnamedStructA) {
    }

    fn from_source(src: UnnamedStructA) -> (r: UnnamedStructB) {
        UnnamedStructB(RedefinedConvert::from_source(src.0), RedefinedConvert::from_source(src.1))
    }

    fn to_source(self) -> (r: UnnamedStructA) {
        UnnamedStructA(self.0.to_source(), self.1.to_source())
    }
}

/// A tagged-union source with a unit variant and a positional variant.
#[derive(Debug, Clone, PartialEq)]
pub enum EnumA {
    A,
    B,
    C(u64),
}

impl DeepView for EnumA {
    type V = EnumA;

    open spec fn deep_view(&self) -> Self::V {
        *self
    }
}

/// The structural mirror of [`EnumA`].
#[derive(Debug, Clone, PartialEq)]
pub enum EnumB {
    A,
    B,
    C(u64),
}

impl RedefinedConvert<EnumA> for EnumB {
    open spec fn converts(&self, src: &EnumA) -> bool {
        match (self, src) {
            (EnumB::A, EnumA::A) => true,
            (EnumB::B, EnumA::B) => true,
            (EnumB::C(v), EnumA::C(s)) => v == s,
            _ => false,
        }
    }

    proof fn lemma_converts_determines_source(&self, x: &EnumA, y: &EnumA) {
    }

    fn from_source(src: EnumA) -> (r: EnumB) {
        match src {
            EnumA::A => EnumB::A,
            EnumA::B => EnumB::B,
            EnumA::C(x0) => EnumB::C(RedefinedConvert::from_source(x0)),
        }
    }

    fn to_source(self) -> (r: EnumA) {
        match self {
            EnumB::A => EnumA::A,
            EnumB::B => EnumA::B,
            EnumB::C(x0) => EnumA::C(RedefinedConvert::to_source(x0)),
        }
    }
}

/// The mirror of both generic record sources, converted generically: each of
/// the mirror's type parameters is constrained to convert against the
/// corresponding source parameter, so one implementation serves every
/// instantiation.
#[derive(Debug, Clone, PartialEq, Default)]
pub struct GenericStructB<X, Y> {
    pub p: u64,
    pub d: X,
    pub vals: Vec<Y>,
}

impl<
    XR: DeepView,
    YR: DeepView,
    X: RedefinedConvert<XR>,
    Y: RedefinedConvert<YR>,
> RedefinedConvert<GenericTypeStruct<XR, YR>> for GenericStructB<X, Y> {
    open spec fn converts(&self, src: &GenericTypeStruct<XR, YR>) -> bool {
        &&& self.p == src.p
        &&& self.d.converts(&src.d)
        &&& self.vals.converts(&src.vals)
    }

    proof fn lemma_converts_determines_source(
        &self,
        x: &GenericTypeStruct<XR, YR>,
        y: &GenericTypeStruct<XR, YR>,
    ) {
        self.d.lemma_converts_determines_source(&x.d, &y.d);
        self.vals.lemma_converts_determines_source(&x.vals, &y.vals);
    }

    fn from_source(src: GenericTypeStruct<XR, YR>) -> (r: GenericStructB<X, Y>) {
        GenericStructB {
            p: RedefinedConvert::from_source(src.p),
            d: RedefinedConvert::from_source(src.d),
            vals: RedefinedConvert::from_source(src.vals),
        }
    }

    fn to_source(self) -> (r: GenericTypeStruct<XR, YR>) {
        GenericTypeStruct {
            p: self.p.to_source(),
            d: self.d.to_source(),
            vals: self.vals.to_source(),
        }
    }
}

impl<
    XR: DeepView,
    YR: DeepView,
    X: RedefinedConvert<XR>,
    Y: RedefinedConvert<YR>,
> RedefinedConvert<GenericStructA<XR, YR>> for GenericStructB<X, Y> {
    open spec fn converts(&self, src: &GenericStructA<XR, YR>) -> bool {
        &&& self.p == src.p
        &&& self.d.converts(&src.d)
        &&& self.vals.converts(&src.vals)
    }

    proof fn lemma_converts_determines_source(
        &self,
        x: &GenericStructA<XR, YR>,
        y: &GenericStructA<XR, YR>,
    ) {
        self.d.lemma_converts_determines_source(&x.d, &y.d);
        self.vals.lemma_converts_determines_source(&x.vals, &y.vals);
    }

    fn from_source(src: GenericStructA<XR, YR>) -> (r: GenericStructB<X, Y>) {
        GenericStructB {
            p: RedefinedConvert::from_source(src.p),
            d: RedefinedConvert::from_source(src.d),
            vals: RedefinedConvert::from_source(src.vals),
        }
    }

    fn to_source(self) -> (r: GenericStructA<XR, YR>) {
        GenericStructA {
            p: self.p.to_source(),
            d: self.d.to_source(),
            vals: self.vals.to_source(),
        }
    }
}

/// The mirror of both const-generic record sources.
#[derive(Debug, Clone, PartialEq)]
pub struct GenericConstantStructB<const XVAL: usize> {
    pub p: u64,
    pub d: [i128; XVAL],
}

impl<const XVAL: usize> RedefinedConvert<GenericConstantStruct<XVAL>> for GenericConstantStructB<
    XVAL,
> {
    open spec fn converts(&self, src: &GenericConstantStruct<XVAL>) -> bool {
        self.p == src.p && self.d == src.d
    }

    proof fn lemma_converts_determines_source(
        &self,
        x: &GenericConstantStruct<XVAL>,
        y: &GenericConstantStruct<XVAL>,
    ) {
    }

    fn from_source(src: GenericConstantStruct<XVAL>) -> (r: GenericConstantStructB<XVAL>) {
        GenericConstantStructB {
            p: RedefinedConvert::from_source(src.p),
            d: RedefinedConvert::from_source(src.d),
        }
    }

    fn to_source(self) -> (r: GenericConstantStruct<XVAL>) {
        GenericConstantStruct { p: self.p.to_source(), d: self.d.to_source() }
    }
}

impl<const XVAL: usize> RedefinedConvert<GenericConstantStructA<XVAL>> for GenericConstantStructB<
    XVAL,
> {
    open spec fn converts(&self, src: &GenericConstantStructA<XVAL>) -> bool {
        self.p == src.p && self.d == src.d
    }

    proof fn lemma_converts_determines_source(
        &self,
        x: &GenericConstantStructA<XVAL>,
        y: &GenericConstantStructA<XVAL>,
    ) {
    }

    fn from_source(src: GenericConstantStructA<XVAL>) -> (r: GenericConstantStructB<XVAL>) {
        GenericConstantStructB {
            p: RedefinedConvert::from_source(src.p),
            d: RedefinedConvert::from_source(src.d),
        }
    }

    fn to_source(self) -> (r: GenericConstantStructA<XVAL>) {
        GenericConstantStructA { p: self.p.to_source(), d: self.d.to_source() }
    }
}

/// The structural mirror of [`OutsideStructA`]: a mirror across a crate
/// boundary.
#[derive(Debug, Clone, PartialEq, Default)]
pub struct OutsideStructB {
    pub p: u64,
    pub d: u64,
    pub vals: Vec<String>,
}

/// The conversion relation between [`OutsideStructB`] and its source, as a
/// free predicate so that generic mirrors with an [`OutsideStructB`] field
/// can share it.
pub open spec fn outside_struct_converts(m: &OutsideStructB, s: &OutsideStructA) -> bool {
    &&& m.p == s.p
    &&& m.d == s.d
    &&& m.vals.deep_view() == s.vals.deep_view()
}

impl RedefinedConvert<OutsideStructA> for OutsideStructB {
    open spec fn converts(&self, src: &OutsideStructA) -> bool {
        outside_struct_converts(self, src)
    }

    proof fn lemma_converts_determines_source(&self, x: &OutsideStructA, y: &OutsideStructA) {
    }

    fn from_source(src: OutsideStructA) -> (r: OutsideStructB) {
        let r = OutsideStructB {
            p: RedefinedConvert::from_source(src.p),
            d: RedefinedConvert::from_source(src.d),
            vals: RedefinedConvert::from_source(src.vals),
        };
        proof {
            lemma_string_vec_converts_deep_view(&r.vals, &src.vals);
        }
        r
    }

    fn to_source(self) -> (r: OutsideStructA) {
        let r = OutsideStructA {
            p: self.p.to_source(),
            d: self.d.to_source(),
            vals: self.vals.to_source(),
        };
        proof {
            lemma_string_vec_converts_deep_view(&self.vals, &r.vals);
        }
        r
    }
}

/// A generic record that is its own source: its mirror is generated fresh.
#[derive(Debug, Clone, PartialEq, Default)]
pub struct SelfSourceStructA<X, Y> {
    pub p: String,
    pub c: Y,
    pub d: Vec<X>,
}

impl<X: DeepView, Y: DeepView> DeepView for SelfSourceStructA<X, Y> {
    type V = (Seq<char>, Y::V, Seq<X::V>);

    open spec fn deep_view(&self) -> Self::V {
        (self.p.deep_view(), self.c.deep_view(), self.d.deep_view())
    }
}

/// The generated mirror of [`SelfSourceStructA`].
#[derive(Debug, Clone, PartialEq, Default)]
pub struct SelfSourceStructARedefined<X, Y> {
    pub p: String,
    pub c: Y,
    pub d: Vec<X>,
}

impl<
    XR: DeepView,
    YR: DeepView,
    X: RedefinedConvert<XR>,
    Y: RedefinedConvert<YR>,
> RedefinedConvert<SelfSourceStructA<XR, YR>> for SelfSourceStructARedefined<X, Y> {
    open spec fn converts(&self, src: &SelfSourceStructA<XR, YR>) -> bool {
        &&& self.p == src.p
        &&& self.c.converts(&src.c)
        &&& self.d.converts(&src.d)
    }

    proof fn lemma_converts_determines_source(
        &self,
        x: &SelfSourceStructA<XR, YR>,
        y: &SelfSourceStructA<XR, YR>,
    ) {
        self.c.lemma_converts_determines_source(&x.c, &y.c);
        self.d.lemma_converts_determines_source(&x.d, &y.d);
    }

    fn from_source(src: SelfSourceStructA<XR, YR>) -> (r: SelfSourceStructARedefined<X, Y>) {
        SelfSourceStructARedefined {
            p: RedefinedConvert::from_source(src.p),
            c: RedefinedConvert::from_source(src.c),
            d: RedefinedConvert::from_source(src.d),
        }
    }

    fn to_source(self) -> (r: SelfSourceStructA<XR, YR>) {
        SelfSourceStructA { p: self.p.to_source(), c: self.c.to_source(), d: self.d.to_source() }
    }
}

/// A generic record whose mirror substitutes the type of one field.
#[derive(Debug, Clone, PartialEq, Default)]
pub struct SelfSourceStructWithAttributeA<X> {
    pub p: String,
    pub c: OutsideStructA,
    pub d: Vec<X>,
}

impl<X: DeepView> DeepView for SelfSourceStructWithAttributeA<X> {
    type V = (Seq<char>, (u64, u64, Seq<Seq<char>>), Seq<X::V>);

    open spec fn deep_view(&self) -> Self::V {
        (self.p.deep_view(), self.c.deep_view(), self.d.deep_view())
    }
}

/// The generated mirror of [`SelfSourceStructWithAttributeA`]: its `c` field
/// is retyped to the substituted mirror type.
#[derive(Debug, Clone, PartialEq, Default)]
pub struct SelfSourceStructWithAttributeARedefined<X> {
    pub p: String,
    pub c: OutsideStructB,
    pub d: Vec<X>,
}

/// The conversion relation between the mirror and source of
/// [`SelfSourceStructWithAttributeA`], as a free predicate so that mirrors
/// nesting this pair can share it.
pub open spec fn attr_struct_converts<XR: DeepView, X: RedefinedConvert<XR>>(
    m: &SelfSourceStructWithAttributeARedefined<X>,
    s: &SelfSourceStructWithAttributeA<XR>,
) -> bool {
    &&& m.p == s.p
    &&& outside_struct_converts(&m.c, &s.c)
    &&& m.d.converts(&s.d)
}

impl<XR: DeepView, X: RedefinedConvert<XR>> RedefinedConvert<
    SelfSourceStructWithAttributeA<XR>,
> for SelfSourceStructWithAttributeARedefined<X> {
    open spec fn converts(&self, src: &SelfSourceStructWithAttributeA<XR>) -> bool {
        attr_struct_converts(self, src)
    }

    proof fn lemma_converts_determines_source(
        &self,
        x: &SelfSourceStructWithAttributeA<XR>,
        y: &SelfSourceStructWithAttributeA<XR>,
    ) {
        self.d.lemma_converts_determines_source(&x.d, &y.d);
    }

    fn from_source(src: SelfSourceStructWithAttributeA<XR>) -> (r:
        SelfSourceStructWithAttributeARedefined<X>) {
        SelfSourceStructWithAttributeARedefined {
            p: RedefinedConvert::from_source(src.p),
            c: RedefinedConvert::from_source(src.c),
            d: RedefinedConvert::from_source(src.d),
        }
    }

    fn to_source(self) -> (r: SelfSourceStructWithAttributeA<XR>) {
        SelfSourceStructWithAttributeA {
            p: self.p.to_source(),
            c: self.c.to_source(),
            d: self.d.to_source(),
        }
    }
}

/// A generic record one of whose fields is itself a type with a mirror, left
/// to the default rewriting policy.
#[derive(Debug, Clone, PartialEq, Default)]
pub struct SelfSourceStructWithDefaultAttributeA<X> {
    pub p: String,
    pub c: SelfSourceStructWithAttributeA<X>,
    pub d: Vec<X>,
}

impl<X: DeepView> DeepView for SelfSourceStructWithDefaultAttributeA<X> {
    type V = (Seq<char>, (Seq<char>, (u64, u64, Seq<Seq<char>>), Seq<X::V>), Seq<X::V>);

    open spec fn deep_view(&self) -> Self::V {
        (self.p.deep_view(), self.c.deep_view(), self.d.deep_view())
    }
}

/// The generated mirror of [`SelfSourceStructWithDefaultAttributeA`]: its
/// `c` field is retyped to the nested field type's own mirror.
#[derive(Debug, Clone, PartialEq, Default)]
pub struct SelfSourceStructWithDefaultAttributeARedefined<X> {
    pub p: String,
    pub c: SelfSourceStructWithAttributeARedefined<X>,
    pub d: Vec<X>,
}

impl<XR: DeepView, X: RedefinedConvert<XR>> RedefinedConvert<
    SelfSourceStructWithDefaultAttributeA<XR>,
> for SelfSourceStructWithDefaultAttributeARedefined<X> {
    open spec fn converts(&self, src: &SelfSourceStructWithDefaultAttributeA<XR>) -> bool {
        &&& self.p == src.p
        &&& attr_struct_converts(&self.c, &src.c)
        &&& self.d.converts(&src.d)
    }

    proof fn lemma_converts_determines_source(
        &self,
        x: &SelfSourceStructWithDefaultAttributeA<XR>,
        y: &SelfSourceStructWithDefaultAttributeA<XR>,
    ) {
        self.c.d.lemma_converts_determines_source(&x.c.d, &y.c.d);
        self.d.lemma_converts_determines_source(&x.d, &y.d);
    }

    fn from_source(src: SelfSourceStructWithDefaultAttributeA<XR>) -> (r:
        SelfSourceStructWithDefaultAttributeARedefined<X>) {
        SelfSourceStructWithDefaultAttributeARedefined {
            p: RedefinedConvert::from_source(src.p),
            c: RedefinedConvert::from_source(src.c),
            d: RedefinedConvert::from_source(src.d),
        }
    }

    fn to_source(self) -> (r: SelfSourceStructWithDefaultAttributeA<XR>) {
        SelfSourceStructWithDefaultAttributeA {
            p: self.p.to_source(),
            c: self.c.to_source(),
            d: self.d.to_source(),
        }
    }
}

/// A generic tagged union that is its own source.
#[derive(Debug, Clone, PartialEq)]
pub enum SelfSourceEnumA<X, Y> {
    P,
    C(Y),
    D { d: Vec<X> },
}

/// The structural content of a [`SelfSourceEnumA`] value.
pub enum SelfSourceEnumAView<XV, YV> {
    P,
    C(YV),
    D { d: Seq<XV> },
}

impl<X: DeepView, Y: DeepView> DeepView for SelfSourceEnumA<X, Y> {
    type V = SelfSourceEnumAView<X::V, Y::V>;

    open spec fn deep_view(&self) -> Self::V {
        match self {
            SelfSourceEnumA::P => SelfSourceEnumAView::P,
            SelfSourceEnumA::C(y) => SelfSourceEnumAView::C(y.deep_view()),
            SelfSourceEnumA::D { d } => SelfSourceEnumAView::D { d: d.deep_view() },
        }
    }
}

/// The generated mirror of [`SelfSourceEnumA`].
#[derive(Debug, Clone, PartialEq)]
pub enum SelfSourceEnumARedefined<X, Y> {
    P,
    C(Y),
    D { d: Vec<X> },
}

impl<
    XR: DeepView,
    YR: DeepView,
    X: RedefinedConvert<XR>,
    Y: RedefinedConvert<YR>,
> RedefinedConvert<SelfSourceEnumA<XR, YR>> for SelfSourceEnumARedefined<X, Y> {
    open spec fn converts(&self, src: &SelfSourceEnumA<XR, YR>) -> bool {
        match (self, src) {
            (SelfSourceEnumARedefined::P, SelfSourceEnumA::P) => true,
            (SelfSourceEnumARedefined::C(v), SelfSourceEnumA::C(s)) => v.converts(s),
            (
                SelfSourceEnumARedefined::D { d: v },
                SelfSourceEnumA::D { d: s },
            ) => v.converts(s),
            _ => false,
        }
    }

    proof fn lemma_converts_determines_source(
        &self,
        x: &SelfSourceEnumA<XR, YR>,
        y: &SelfSourceEnumA<XR, YR>,
    ) {
        match (self, x, y) {
            (
                SelfSourceEnumARedefined::C(v),
                SelfSourceEnumA::C(a),
                SelfSourceEnumA::C(b),
            ) => {
                v.lemma_converts_determines_source(a, b);
            }
            (
                SelfSourceEnumARedefined::D { d: v },
                SelfSourceEnumA::D { d: a },
                SelfSourceEnumA::D { d: b },
            ) => {
                v.lemma_converts_determines_source(a, b);
            }
            _ => {}
        }
    }

    fn from_source(src: SelfSourceEnumA<XR, YR>) -> (r: SelfSourceEnumARedefined<X, Y>) {
        match src {
            SelfSourceEnumA::P => SelfSourceEnumARedefined::P,
            SelfSourceEnumA::C(x0) => SelfSourceEnumARedefined::C(
                RedefinedConvert::from_source(x0),
            ),
            SelfSourceEnumA::D { d } => SelfSourceEnumARedefined::D {
                d: RedefinedConvert::from_source(d),
            },
        }
    }

    fn to_source(self) -> (r: SelfSourceEnumA<XR, YR>) {
        match self {
            SelfSourceEnumARedefined::P => SelfSourceEnumA::P,
            SelfSourceEnumARedefined::C(x0) => SelfSourceEnumA::C(
                RedefinedConvert::to_source(x0),
            ),
            SelfSourceEnumARedefined::D { d } => SelfSourceEnumA::D {
                d: RedefinedConvert::to_source(d),
            },
        }
    }
}

/// A generic tagged union one of whose variant fields is itself a type with
/// a mirror, left to the default rewriting policy.
#[derive(Debug, Clone, PartialEq)]
pub enum SelfSourceEnumWithDefaultAttributeA<X> {
    P,
    C(X),
    D { d: SelfSourceStructWithAttributeA<X> },
}

/// The structural content of a [`SelfSourceEnumWithDefaultAttributeA`] value.
pub enum SelfSourceEnumWithDefaultAttributeAView<XV> {
    P,
    C(XV),
    D { d: (Seq<char>, (u64, u64, Seq<Seq<char>>), Seq<XV>) },
}

impl<X: DeepView> DeepView for SelfSourceEnumWithDefaultAttributeA<X> {
    type V = SelfSourceEnumWithDefaultAttributeAView<X::V>;

    open spec fn deep_view(&self) -> Self::V {
        match self {
            SelfSourceEnumWithDefaultAttributeA::P => SelfSourceEnumWithDefaultAttributeAView::P,
            SelfSourceEnumWithDefaultAttributeA::C(x) => SelfSourceEnumWithDefaultAttributeAView::C(
                x.deep_view(),
            ),
            SelfSourceEnumWithDefaultAttributeA::D { d } => {
                SelfSourceEnumWithDefaultAttributeAView::D { d: d.deep_view() }
            }
        }
    }
}

/// The generated mirror of [`SelfSourceEnumWithDefaultAttributeA`].
#[derive(Debug, Clone, PartialEq)]
pub enum SelfSourceEnumWithDefaultAttributeARedefined<X> {
    P,
    C(X),
    D { d: SelfSourceStructWithAttributeARedefined<X> },
}

impl<XR: DeepView, X: RedefinedConvert<XR>> RedefinedConvert<
    SelfSourceEnumWithDefaultAttributeA<XR>,
> for SelfSourceEnumWithDefaultAttributeARedefined<X> {
    open spec fn converts(&self, src: &SelfSourceEnumWithDefaultAttributeA<XR>) -> bool {
        match (self, src) {
            (
                SelfSourceEnumWithDefaultAttributeARedefined::P,
                SelfSourceEnumWithDefaultAttributeA::P,
            ) => true,
            (
                SelfSourceEnumWithDefaultAttributeARedefined::C(v),
                SelfSourceEnumWithDefaultAttributeA::C(s),
            ) => v.converts(s),
            (
                SelfSourceEnumWithDefaultAttributeARedefined::D { d: v },
                SelfSourceEnumWithDefaultAttributeA::D { d: s },
            ) => attr_struct_converts(v, s),
            _ => false,
        }
    }

    proof fn lemma_converts_determines_source(
        &self,
        x: &SelfSourceEnumWithDefaultAttributeA<XR>,
        y: &SelfSourceEnumWithDefaultAttributeA<XR>,
    ) {
        match (self, x, y) {
            (
                SelfSourceEnumWithDefaultAttributeARedefined::C(v),
                SelfSourceEnumWithDefaultAttributeA::C(a),
                SelfSourceEnumWithDefaultAttributeA::C(b),
            ) => {
                v.lemma_converts_determines_source(a, b);
            }
            (
                SelfSourceEnumWithDefaultAttributeARedefined::D { d: v },
                SelfSourceEnumWithDefaultAttributeA::D { d: a },
                SelfSourceEnumWithDefaultAttributeA::D { d: b },
            ) => {
                v.d.lemma_converts_determines_source(&a.d, &b.d);
            }
            _ => {}
        }
    }

    fn from_source(src: SelfSourceEnumWithDefaultAttributeA<XR>) -> (r:
        SelfSourceEnumWithDefaultAttributeARedefined<X>) {
        match src {
            SelfSourceEnumWithDefaultAttributeA::P => {
                SelfSourceEnumWithDefaultAttributeARedefined::P
            }
            SelfSourceEnumWithDefaultAttributeA::C(x0) => {
                SelfSourceEnumWithDefaultAttributeARedefined::C(RedefinedConvert::from_source(x0))
            }
            SelfSourceEnumWithDefaultAttributeA::D { d } => {
                SelfSourceEnumWithDefaultAttributeARedefined::D {
                    d: RedefinedConvert::from_source(d),
                }
            }
        }
    }

    fn to_source(self) -> (r: SelfSourceEnumWithDefaultAttributeA<XR>) {
        match self {
            SelfSourceEnumWithDefaultAttributeARedefined::P => {
                SelfSourceEnumWithDefaultAttributeA::P
            }
            SelfSourceEnumWithDefaultAttributeARedefined::C(x0) => {
                SelfSourceEnumWithDefaultAttributeA::C(RedefinedConvert::to_source(x0))
            }
            SelfSourceEnumWithDefaultAttributeARedefined::D { d } => {
                SelfSourceEnumWithDefaultAttributeA::D { d: RedefinedConvert::to_source(d) }
            }
        }
    }
}

/// A generic tagged union whose mirror substitutes the type of one variant
/// field.
#[derive(Debug, Clone, PartialEq)]
pub enum SelfEnumWithAttributeA<X> {
    P,
    C(OutsideStructA),
    D { d: Vec<X> },
}

/// The structural content of a [`SelfEnumWithAttributeA`] value.
pub enum SelfEnumWithAttributeAView<XV> {
    P,
    C((u64, u64, Seq<Seq<char>>)),
    D { d: Seq<XV> },
}

impl<X: DeepView> DeepView for SelfEnumWithAttributeA<X> {
    type V = SelfEnumWithAttributeAView<X::V>;

    open spec fn deep_view(&self) -> Self::V {
        match self {
            SelfEnumWithAttributeA::P => SelfEnumWithAttributeAView::P,
            SelfEnumWithAttributeA::C(c) => SelfEnumWithAttributeAView::C(c.deep_view()),
            SelfEnumWithAttributeA::D { d } => SelfEnumWithAttributeAView::D { d: d.deep_view() },
        }
    }
}

/// The generated mirror of [`SelfEnumWithAttributeA`].
#[derive(Debug, Clone, PartialEq)]
pub enum SelfEnumWithAttributeARedefined<X> {
    P,
    C(OutsideStructB),
    D { d: Vec<X> },
}

impl<XR: DeepView, X: RedefinedConvert<XR>> RedefinedConvert<SelfEnumWithAttributeA<XR>> for
    SelfEnumWithAttributeARedefined<X> {
    open spec fn converts(&self, src: &SelfEnumWithAttributeA<XR>) -> bool {
        match (self, src) {
            (SelfEnumWithAttributeARedefined::P, SelfEnumWithAttributeA::P) => true,
            (
                SelfEnumWithAttributeARedefined::C(v),
                SelfEnumWithAttributeA::C(s),
            ) => outside_struct_converts(v, s),
            (
                SelfEnumWithAttributeARedefined::D { d: v },
                SelfEnumWithAttributeA::D { d: s },
            ) => v.converts(s),
            _ => false,
        }
    }

    proof fn lemma_converts_determines_source(
        &self,
        x: &SelfEnumWithAttributeA<XR>,
        y: &SelfEnumWithAttributeA<XR>,
    ) {
        match (self, x, y) {
            (
                SelfEnumWithAttributeARedefined::C(v),
                SelfEnumWithAttributeA::C(a),
                SelfEnumWithAttributeA::C(b),
            ) => {}
            (
                SelfEnumWithAttributeARedefined::D { d: v },
                SelfEnumWithAttributeA::D { d: a },
                SelfEnumWithAttributeA::D { d: b },
            ) => {
                v.lemma_converts_determines_source(a, b);
            }
            _ => {}
        }
    }

    fn from_source(src: SelfEnumWithAttributeA<XR>) -> (r: SelfEnumWithAttributeARedefined<X>) {
        match src {
            SelfEnumWithAttributeA::P => SelfEnumWithAttributeARedefined::P,
            SelfEnumWithAttributeA::C(x0) => SelfEnumWithAttributeARedefined::C(
                RedefinedConvert::from_source(x0),
            ),
            SelfEnumWithAttributeA::D { d } => SelfEnumWithAttributeARedefined::D {
                d: RedefinedConvert::from_source(d),
            },
        }
    }

    fn to_source(self) -> (r: SelfEnumWithAttributeA<XR>) {
        match self {
            SelfEnumWithAttributeARedefined::P => SelfEnumWithAttributeA::P,
            SelfEnumWithAttributeARedefined::C(x0) => SelfEnumWithAttributeA::C(
                RedefinedConvert::to_source(x0),
            ),
            SelfEnumWithAttributeARedefined::D { d } => SelfEnumWithAttributeA::D {
                d: RedefinedConvert::to_source(d),
            },
        }
    }
}

} // verus!
