//! The model of one annotated type declaration: the input of a derivation.
//!
//! A declaration owns its name, generic parameters, visibility, shape (a
//! record or a tagged union), the token blocks of the engine's own
//! annotations, and the verbatim texts of any other attributes, which are
//! copied through untouched.

use vstd::prelude::*;

use crate::type_attr::{spec_no_attrs_parse, AttrToken};
use crate::type_expr::TypeExpr;

verus! {

/// One generic parameter of a declaration.
#[derive(Debug, PartialEq, Eq)]
pub enum GenericParam {
    /// A type parameter, with its default's type text if one is written;
    /// a defaulted parameter is dropped from the emitted constraint
    /// machinery.
    TypeParam { ident: String, default: Option<String> },
    /// A const parameter, with its type text (for example `usize`).
    ConstParam { ident: String, ty: String },
    /// A lifetime parameter, without the leading apostrophe.
    LifetimeParam { ident: String },
}

/// One field of a record or of a variant.
#[derive(Debug)]
pub struct FieldDef {
    /// The field's name; positional fields have none.
    pub ident: Option<String>,
    /// The field's visibility text (for example `pub`), if any.
    pub vis: Option<String>,
    /// The field's type expression.
    pub ty: TypeExpr,
    /// The argument tokens of the field's own directive annotation, if one
    /// is attached.
    pub directive_tokens: Option<Vec<AttrToken>>,
    /// Verbatim texts of the field's other attributes, copied through.
    pub other_attrs: Vec<String>,
}

/// The fields of a record declaration.
#[derive(Debug)]
pub struct StructData {
    pub fields: Vec<FieldDef>,
    /// Whether the fields are named (`{ .. }`) or positional (`( .. )`).
    pub is_named: bool,
}

/// One variant of a tagged union.
#[derive(Debug)]
pub struct VariantDef {
    pub ident: String,
    pub fields: VariantFields,
    /// The text of the variant's explicit discriminant expression, if one is
    /// written; the mirror declaration carries it verbatim.
    pub discriminant: Option<String>,
    /// The argument tokens of the variant's own directive annotation, if
    /// one is attached.
    pub directive_tokens: Option<Vec<AttrToken>>,
    /// Verbatim texts of the variant's other attributes, copied through.
    pub other_attrs: Vec<String>,
}

/// The field list of one variant.
#[derive(Debug)]
pub enum VariantFields {
    Unit,
    Named(Vec<FieldDef>),
    Unnamed(Vec<FieldDef>),
}

/// The variants of a tagged-union declaration.
#[derive(Debug)]
pub struct EnumData {
    pub variants: Vec<VariantDef>,
}

/// The shape of a declaration.
#[derive(Debug)]
pub enum DataShape {
    Struct(StructData),
    Enum(EnumData),
}

/// One annotated type declaration, ready for derivation.
#[derive(Debug)]
pub struct TypeDeclaration {
    /// The declared type's name.
    pub ident: String,
    /// The declaration's visibility text (for example `pub`), if any.
    pub vis: Option<String>,
    /// The declaration's generic parameters, in order.
    pub generics: Vec<GenericParam>,
    /// The argument tokens of the container-directive annotation, if any.
    pub container_tokens: Option<Vec<AttrToken>>,
    /// The argument tokens of the linked-source annotation, if any.
    pub source_tokens: Option<Vec<AttrToken>>,
    /// Verbatim texts of the declaration's other attributes.
    pub other_attrs: Vec<String>,
    /// The record fields or tagged-union variants.
    pub data: DataShape,
}

/// Whether a field's directive annotation has no parse at all.
pub open spec fn spec_field_directives_unparsable(d: FieldDef) -> bool {
    match d.directive_tokens {
        Option::Some(toks) => spec_no_attrs_parse(toks@, 0),
        Option::None => false,
    }
}

/// Whether a variant's directive annotation has no parse at all.
pub open spec fn spec_variant_directives_unparsable(v: VariantDef) -> bool {
    match v.directive_tokens {
        Option::Some(toks) => spec_no_attrs_parse(toks@, 0),
        Option::None => false,
    }
}

/// Whether a named variant of `v` declares a field without a name.
pub open spec fn spec_variant_nameless_field(v: VariantDef) -> bool {
    match v.fields {
        VariantFields::Named(decls) => exists|j: int|
            0 <= j < decls@.len() && (#[trigger] decls@[j]).ident is None,
        _ => false,
    }
}

/// Why resolving a record's fields can fail: some field's directives have no
/// parse, or a named record declares a field without a name.
pub open spec fn spec_struct_parse_failure(d: StructData) -> bool {
    exists|i: int|
        0 <= i < d.fields@.len() && (spec_field_directives_unparsable(#[trigger] d.fields@[i]) || (
        d.is_named && d.fields@[i].ident is None))
}

/// Why resolving a union's variants can fail: some variant's directives have
/// no parse, or a named variant declares a field without a name.
pub open spec fn spec_enum_parse_failure(d: EnumData) -> bool {
    exists|i: int|
        0 <= i < d.variants@.len() && (spec_variant_directives_unparsable(
            #[trigger] d.variants@[i],
        ) || spec_variant_nameless_field(d.variants@[i]))
}

/// The names of the declaration's type parameters that have no default, in
/// order: the parameters the rewriter skips and the constraint machinery
/// ranges over.
pub open spec fn spec_type_param_names(generics: Seq<GenericParam>) -> Seq<Seq<char>>
    decreases generics.len(),
{
    if generics.len() == 0 {
        Seq::empty()
    } else {
        let rest = spec_type_param_names(generics.drop_last());
        match generics.last() {
            GenericParam::TypeParam { ident, default } => if default is None {
                rest.push(ident@)
            } else {
                rest
            },
            _ => rest,
        }
    }
}

/// Collects the names of the type parameters without defaults, in order.
pub fn type_param_names(generics: &Vec<GenericParam>) -> (r: Vec<String>)
    ensures
        r@.len() == spec_type_param_names(generics@).len(),
        forall|j: int|
            0 <= j < r@.len() ==> (#[trigger] r@[j])@ == spec_type_param_names(generics@)[j],
{
    let mut r: Vec<String> = Vec::new();
    let mut i: usize = 0;
    while i < generics.len()
        invariant
            i <= generics@.len(),
            r@.len() == spec_type_param_names(generics@.subrange(0, i as int)).len(),
            forall|j: int|
                0 <= j < r@.len() ==> (#[trigger] r@[j])@ == spec_type_param_names(
                    generics@.subrange(0, i as int),
                )[j],
        decreases generics@.len() - i,
    {
        let ghost pre = generics@.subrange(0, i as int);
        match &generics[i] {
            GenericParam::TypeParam { ident, default } => {
                if default.is_none() {
                    r.push(ident.clone());
                }
            }
            _ => {}
        }
        i += 1;
        proof {
            let post = generics@.subrange(0, i as int);
            assert(post.drop_last() =~= pre);
            assert(post.last() == generics@[i - 1]);
        }
    }
    proof {
        assert(generics@.subrange(0, generics@.len() as int) =~= generics@);
    }
    r
}

} // verus!
