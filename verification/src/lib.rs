//! Attribute-driven type mirroring: given a data type declaration annotated
//! with directives, derive a structurally parallel "mirror" type and the two
//! conversion procedures that translate values between the original type and
//! its mirror.
//!
//! The crate has two halves. The conversion half is the `RedefinedConvert`
//! trait together with its implementations for the base types and for the
//! containers that mirrored fields may use; `convert_round_trip` states the
//! round-trip law once for every implementation. The derivation half is a
//! miniature compiler pass: a directive parser, a schema builder, a
//! type-reference rewriter, and the emitters that render the mirror type and
//! its conversion procedures.

use vstd::prelude::*;

pub mod convert;
pub mod decl;
pub mod derive;
pub mod enums;
pub mod errors;
pub mod mirrors;
pub mod new_types;
pub mod outer;
pub mod outside_types;
pub mod primitives;
pub mod redefined_types;
pub mod remote;
pub mod structs;
pub mod symbol;
pub mod test_types;
pub mod text;
pub mod type_attr;
pub mod type_expr;

verus! {

/// Conversion between a mirror type and its source type `O`.
///
/// `converts` is the conversion relation: it holds between a mirror value and
/// every source value that the mirror faithfully represents. Both conversion
/// procedures land in this relation, and `lemma_converts_determines_source`
/// obliges every implementation to show that a mirror value pins its source
/// down (up to `deep_view`, the structural content of the value). Together
/// these give the round-trip law, stated once in [`convert_round_trip`].
pub trait RedefinedConvert<O: DeepView>: Sized {
    /// The conversion relation between a mirror value and a source value.
    spec fn converts(&self, src: &O) -> bool;

    /// A mirror value determines the structural content of its source.
    proof fn lemma_converts_determines_source(&self, x: &O, y: &O)
        requires
            self.converts(x),
            self.converts(y),
        ensures
            x.deep_view() == y.deep_view(),
    ;

    /// Forward conversion: build the mirror of a source value.
    fn from_source(src: O) -> (r: Self)
        ensures
            r.converts(&src),
    ;

    /// Backward conversion: rebuild the source value of a mirror.
    fn to_source(self) -> (r: O)
        ensures
            self.converts(&r),
    ;
}

/// Round-trip law: converting a source value forward to its mirror and back
/// yields a value with the same structural content, for every implementation
/// of `RedefinedConvert`.
pub fn convert_round_trip<O: DeepView, T: RedefinedConvert<O>>(src: O) -> (r: O)
    ensures
        r.deep_view() == src.deep_view(),
{
    let ghost orig = src;
    let mirror = T::from_source(src);
    let r = mirror.to_source();
    proof {
        mirror.lemma_converts_determines_source(&orig, &r);
    }
    r
}

impl RedefinedConvert<u64> for u64 {
    open spec fn converts(&self, src: &u64) -> bool {
        self == src
    }

    proof fn lemma_converts_determines_source(&self, x: &u64, y: &u64) {
    }

    fn from_source(src: u64) -> (r: u64) {
        src
    }

    fn to_source(self) -> (r: u64) {
        self
    }
}

} // verus!
