//! The tagged-union transformer: produces the two conversion procedure
//! bodies for an enum declaration as one exhaustive match per direction,
//! with one arm per variant in declaration order and no default arm.
//!
//! Unit variants convert to the same-named unit variant; named-field
//! variants destructure by field name and reconstruct with each field
//! converted; positional variants destructure into synthesized placeholder
//! bindings and reconstruct positionally.

use vstd::prelude::*;

use crate::decl::{spec_enum_parse_failure, spec_variant_directives_unparsable,
    spec_variant_nameless_field, EnumData, FieldDef, VariantDef, VariantFields};
use crate::errors::DeriveError;
use crate::text::{spec_decimal_digits, usize_to_string};
use crate::type_attr::{spec_attrs_parse, ContainerAttributes, TypeAttribute};

verus! {

/// The field list of one resolved variant: nothing, field names, or a count
/// of positional fields.
pub enum VariantShape {
    Unit,
    Named(Vec<String>),
    Unnamed(usize),
}

/// One variant, resolved for conversion emission.
pub struct EnumField {
    pub ident: String,
    pub shape: VariantShape,
    pub field_attrs: Vec<TypeAttribute>,
}

/// A tagged union's resolved variant list.
pub struct EnumContainer {
    pub fields: Vec<EnumField>,
}

/// `Type::Variant`.
pub open spec fn spec_variant_path(ty: Seq<char>, variant: Seq<char>) -> Seq<char> {
    ty + "::"@ + variant
}

/// The destructuring bindings of the first `k` field names: `a, b, `.
pub open spec fn spec_bindings(names: Seq<String>, k: int) -> Seq<char>
    decreases k,
{
    if k <= 0 {
        Seq::empty()
    } else {
        spec_bindings(names, k - 1) + names[k - 1]@ + ", "@
    }
}

/// The forward reconstruction of the first `k` named fields.
pub open spec fn spec_named_from(names: Seq<String>, k: int) -> Seq<char>
    decreases k,
{
    if k <= 0 {
        Seq::empty()
    } else {
        spec_named_from(names, k - 1) + names[k - 1]@ + ": RedefinedConvert::from_source("@
            + names[k - 1]@ + "), "@
    }
}

/// The backward reconstruction of the first `k` named fields.
pub open spec fn spec_named_to(names: Seq<String>, k: int) -> Seq<char>
    decreases k,
{
    if k <= 0 {
        Seq::empty()
    } else {
        spec_named_to(names, k - 1) + names[k - 1]@ + ": RedefinedConvert::to_source("@ + names[k
            - 1]@ + "), "@
    }
}

/// The synthesized positional bindings `x0, x1, ` for `k` fields.
pub open spec fn spec_x_bindings(k: int) -> Seq<char>
    decreases k,
{
    if k <= 0 {
        Seq::empty()
    } else {
        spec_x_bindings(k - 1) + "x"@ + spec_decimal_digits((k - 1) as nat) + ", "@
    }
}

/// The forward conversions of `k` positional bindings.
pub open spec fn spec_x_from(k: int) -> Seq<char>
    decreases k,
{
    if k <= 0 {
        Seq::empty()
    } else {
        spec_x_from(k - 1) + "RedefinedConvert::from_source(x"@ + spec_decimal_digits(
            (k - 1) as nat,
        ) + "), "@
    }
}

/// The backward conversions of `k` positional bindings.
pub open spec fn spec_x_to(k: int) -> Seq<char>
    decreases k,
{
    if k <= 0 {
        Seq::empty()
    } else {
        spec_x_to(k - 1) + "RedefinedConvert::to_source(x"@ + spec_decimal_digits((k - 1) as nat)
            + "), "@
    }
}

/// The forward match arm of one variant: destructure a source-side value,
/// reconstruct the same-named target-side variant with each field converted.
pub open spec fn spec_arm_from(f: EnumField, source_type: Seq<char>, target_type: Seq<char>)
    -> Seq<char> {
    match f.shape {
        VariantShape::Unit => spec_variant_path(source_type, f.ident@) + " => "@
            + spec_variant_path(target_type, f.ident@) + ", "@,
        VariantShape::Named(names) => spec_variant_path(source_type, f.ident@) + " { "@
            + spec_bindings(names@, names@.len() as int) + "} => "@ + spec_variant_path(
            target_type,
            f.ident@,
        ) + " { "@ + spec_named_from(names@, names@.len() as int) + "}, "@,
        VariantShape::Unnamed(k) => spec_variant_path(source_type, f.ident@) + "("@
            + spec_x_bindings(k as int) + ") => "@ + spec_variant_path(target_type, f.ident@)
            + "("@ + spec_x_from(k as int) + "), "@,
    }
}

/// The backward match arm of one variant.
pub open spec fn spec_arm_to(f: EnumField, source_type: Seq<char>, target_type: Seq<char>)
    -> Seq<char> {
    match f.shape {
        VariantShape::Unit => spec_variant_path(target_type, f.ident@) + " => "@
            + spec_variant_path(source_type, f.ident@) + ", "@,
        VariantShape::Named(names) => spec_variant_path(target_type, f.ident@) + " { "@
            + spec_bindings(names@, names@.len() as int) + "} => "@ + spec_variant_path(
            source_type,
            f.ident@,
        ) + " { "@ + spec_named_to(names@, names@.len() as int) + "}, "@,
        VariantShape::Unnamed(k) => spec_variant_path(target_type, f.ident@) + "("@
            + spec_x_bindings(k as int) + ") => "@ + spec_variant_path(source_type, f.ident@)
            + "("@ + spec_x_to(k as int) + "), "@,
    }
}

/// The concatenated forward arms of the first `k` variants.
pub open spec fn spec_arms_from(
    fields: Seq<EnumField>,
    k: int,
    source_type: Seq<char>,
    target_type: Seq<char>,
) -> Seq<char>
    decreases k,
{
    if k <= 0 {
        Seq::empty()
    } else {
        spec_arms_from(fields, k - 1, source_type, target_type) + spec_arm_from(
            fields[k - 1],
            source_type,
            target_type,
        )
    }
}

/// The concatenated backward arms of the first `k` variants.
pub open spec fn spec_arms_to(
    fields: Seq<EnumField>,
    k: int,
    source_type: Seq<char>,
    target_type: Seq<char>,
) -> Seq<char>
    decreases k,
{
    if k <= 0 {
        Seq::empty()
    } else {
        spec_arms_to(fields, k - 1, source_type, target_type) + spec_arm_to(
            fields[k - 1],
            source_type,
            target_type,
        )
    }
}

/// The full forward-conversion body of a tagged union.
pub open spec fn spec_enum_from_source(
    c: EnumContainer,
    source_type: Seq<char>,
    target_type: Seq<char>,
) -> Seq<char> {
    "match src { "@ + spec_arms_from(c.fields@, c.fields@.len() as int, source_type, target_type)
        + "}"@
}

/// The full backward-conversion body of a tagged union.
pub open spec fn spec_enum_to_source(
    c: EnumContainer,
    source_type: Seq<char>,
    target_type: Seq<char>,
) -> Seq<char> {
    "match self { "@ + spec_arms_to(c.fields@, c.fields@.len() as int, source_type, target_type)
        + "}"@
}

/// Exhaustiveness of the generated matches: in both directions the body is
/// one match whose arms are exactly the variants' arms in declaration order
/// — each variant contributes exactly one arm, every arm begins with that
/// variant's own pattern path, and no default arm exists, so a variant added
/// to the source without regenerating breaks compilation rather than
/// falling through silently.
pub proof fn lemma_enum_conversion_exhaustive(
    c: EnumContainer,
    source_type: Seq<char>,
    target_type: Seq<char>,
)
    ensures
        spec_enum_from_source(c, source_type, target_type) == "match src { "@ + spec_arms_from(
            c.fields@,
            c.fields@.len() as int,
            source_type,
            target_type,
        ) + "}"@,
        spec_enum_to_source(c, source_type, target_type) == "match self { "@ + spec_arms_to(
            c.fields@,
            c.fields@.len() as int,
            source_type,
            target_type,
        ) + "}"@,
        forall|i: int|
            0 <= i < c.fields@.len() ==> spec_arms_from(c.fields@, i + 1, source_type, target_type)
                == spec_arms_from(c.fields@, i, source_type, target_type) + spec_arm_from(
                #[trigger] c.fields@[i],
                source_type,
                target_type,
            ),
        forall|i: int|
            0 <= i < c.fields@.len() ==> spec_arms_to(c.fields@, i + 1, source_type, target_type)
                == spec_arms_to(c.fields@, i, source_type, target_type) + spec_arm_to(
                #[trigger] c.fields@[i],
                source_type,
                target_type,
            ),
        forall|i: int|
            0 <= i < c.fields@.len() ==> spec_arm_from(
                #[trigger] c.fields@[i],
                source_type,
                target_type,
            ).subrange(
                0,
                spec_variant_path(source_type, c.fields@[i].ident@).len() as int,
            ) == spec_variant_path(source_type, c.fields@[i].ident@),
        forall|i: int|
            0 <= i < c.fields@.len() ==> spec_arm_to(
                #[trigger] c.fields@[i],
                source_type,
                target_type,
            ).subrange(
                0,
                spec_variant_path(target_type, c.fields@[i].ident@).len() as int,
            ) == spec_variant_path(target_type, c.fields@[i].ident@),
{
    assert forall|i: int| 0 <= i < c.fields@.len() implies spec_arm_from(
        #[trigger] c.fields@[i],
        source_type,
        target_type,
    ).subrange(0, spec_variant_path(source_type, c.fields@[i].ident@).len() as int)
        == spec_variant_path(source_type, c.fields@[i].ident@) by {
        let path = spec_variant_path(source_type, c.fields@[i].ident@);
        let arm = spec_arm_from(c.fields@[i], source_type, target_type);
        assert(arm.subrange(0, path.len() as int) =~= path);
    }
    assert forall|i: int| 0 <= i < c.fields@.len() implies spec_arm_to(
        #[trigger] c.fields@[i],
        source_type,
        target_type,
    ).subrange(0, spec_variant_path(target_type, c.fields@[i].ident@).len() as int)
        == spec_variant_path(target_type, c.fields@[i].ident@) by {
        let path = spec_variant_path(target_type, c.fields@[i].ident@);
        let arm = spec_arm_to(c.fields@[i], source_type, target_type);
        assert(arm.subrange(0, path.len() as int) =~= path);
    }
}

/// Whether `n` is the declared name of field `d`.
pub open spec fn spec_named_field_resolves(n: String, d: FieldDef) -> bool {
    d.ident is Some && n@ == d.ident->0@
}

/// Whether the resolved variant `f` stands for the declared variant `d`.
pub open spec fn spec_variant_resolves(f: EnumField, d: VariantDef) -> bool {
    &&& f.ident@ == d.ident@
    &&& match (f.shape, d.fields) {
        (VariantShape::Unit, VariantFields::Unit) => true,
        (VariantShape::Named(names), VariantFields::Named(decls)) => {
            &&& names@.len() == decls@.len()
            &&& forall|j: int|
                0 <= j < names@.len() ==> spec_named_field_resolves(
                    #[trigger] names@[j],
                    decls@[j],
                )
        },
        (VariantShape::Unnamed(k), VariantFields::Unnamed(decls)) => k == decls@.len(),
        _ => false,
    }
    &&& match d.directive_tokens {
        Option::Some(toks) => spec_attrs_parse(toks@, 0, f.field_attrs@),
        Option::None => f.field_attrs@.len() == 0,
    }
}

/// Whether the resolved container `c` stands for the declared union `d`.
pub open spec fn spec_enum_container_resolves(c: EnumContainer, d: EnumData) -> bool {
    &&& c.fields@.len() == d.variants@.len()
    &&& forall|i: int|
        0 <= i < c.fields@.len() ==> spec_variant_resolves(#[trigger] c.fields@[i], d.variants@[i])
}

impl EnumField {
    /// A fresh resolved variant with no directives yet.
    pub fn new(ident: String, shape: VariantShape) -> (r: EnumField)
        ensures
            r.ident == ident,
            r.shape == shape,
            r.field_attrs@.len() == 0,
    {
        EnumField { ident, shape, field_attrs: Vec::new() }
    }

    /// Parses the variant's directive annotation into its directive list. A
    /// failure means the annotation has no parse at all; the variant is then
    /// left as it was.
    pub fn parse_attributes_for_field(&mut self, variant: &VariantDef) -> (r: Result<
        (),
        DeriveError,
    >)
        ensures
            final(self).ident == old(self).ident,
            final(self).shape == old(self).shape,
            match r {
                Result::Ok(()) => match variant.directive_tokens {
                    Option::Some(toks) => spec_attrs_parse(toks@, 0, final(self).field_attrs@),
                    Option::None => final(self).field_attrs@.len() == 0,
                },
                Result::Err(_) => final(self).field_attrs == old(self).field_attrs
                    && spec_variant_directives_unparsable(*variant),
            },
    {
        match &variant.directive_tokens {
            Option::Some(toks) => {
                let parsed = ContainerAttributes::parse(toks)?;
                self.field_attrs = parsed.0;
                Result::Ok(())
            }
            Option::None => {
                self.field_attrs = Vec::new();
                Result::Ok(())
            }
        }
    }

    /// The forward match arm of this variant.
    pub fn from_source_tokens(&self, source_type: &str, target_type: &str) -> (r: String)
        ensures
            r@ == spec_arm_from(*self, source_type@, target_type@),
    {
        let mut out = source_type.to_owned();
        out.append("::");
        out.append(self.ident.as_str());
        match &self.shape {
            VariantShape::Unit => {
                out.append(" => ");
                out.append(target_type);
                out.append("::");
                out.append(self.ident.as_str());
                out.append(", ");
            }
            VariantShape::Named(names) => {
                out.append(" { ");
                let mut i: usize = 0;
                while i < names.len()
                    invariant
                        i <= names@.len(),
                        out@ == spec_variant_path(source_type@, self.ident@) + " { "@
                            + spec_bindings(names@, i as int),
                    decreases names@.len() - i,
                {
                    out.append(names[i].as_str());
                    out.append(", ");
                    i += 1;
                }
                out.append("} => ");
                out.append(target_type);
                out.append("::");
                out.append(self.ident.as_str());
                out.append(" { ");
                let ghost mid = out@;
                let mut i: usize = 0;
                while i < names.len()
                    invariant
                        i <= names@.len(),
                        out@ == mid + spec_named_from(names@, i as int),
                    decreases names@.len() - i,
                {
                    out.append(names[i].as_str());
                    out.append(": RedefinedConvert::from_source(");
                    out.append(names[i].as_str());
                    out.append("), ");
                    i += 1;
                }
                out.append("}, ");
            }
            VariantShape::Unnamed(k) => {
                let k = *k;
                out.append("(");
                let mut i: usize = 0;
                while i < k
                    invariant
                        i <= k,
                        out@ == spec_variant_path(source_type@, self.ident@) + "("@
                            + spec_x_bindings(i as int),
                    decreases k - i,
                {
                    out.append("x");
                    let digits = usize_to_string(i);
                    out.append(digits.as_str());
                    out.append(", ");
                    i += 1;
                }
                out.append(") => ");
                out.append(target_type);
                out.append("::");
                out.append(self.ident.as_str());
                out.append("(");
                let ghost mid = out@;
                let mut i: usize = 0;
                while i < k
                    invariant
                        i <= k,
                        out@ == mid + spec_x_from(i as int),
                    decreases k - i,
                {
                    out.append("RedefinedConvert::from_source(x");
                    let digits = usize_to_string(i);
                    out.append(digits.as_str());
                    out.append("), ");
                    i += 1;
                }
                out.append("), ");
            }
        }
        out
    }

    /// The backward match arm of this variant.
    pub fn to_source_tokens(&self, source_type: &str, target_type: &str) -> (r: String)
        ensures
            r@ == spec_arm_to(*self, source_type@, target_type@),
    {
        let mut out = target_type.to_owned();
        out.append("::");
        out.append(self.ident.as_str());
        match &self.shape {
            VariantShape::Unit => {
                out.append(" => ");
                out.append(source_type);
                out.append("::");
                out.append(self.ident.as_str());
                out.append(", ");
            }
            VariantShape::Named(names) => {
                out.append(" { ");
                let mut i: usize = 0;
                while i < names.len()
                    invariant
                        i <= names@.len(),
                        out@ == spec_variant_path(target_type@, self.ident@) + " { "@
                            + spec_bindings(names@, i as int),
                    decreases names@.len() - i,
                {
                    out.append(names[i].as_str());
                    out.append(", ");
                    i += 1;
                }
                out.append("} => ");
                out.append(source_type);
                out.append("::");
                out.append(self.ident.as_str());
                out.append(" { ");
                let ghost mid = out@;
                let mut i: usize = 0;
                while i < names.len()
                    invariant
                        i <= names@.len(),
                        out@ == mid + spec_named_to(names@, i as int),
                    decreases names@.len() - i,
                {
                    out.append(names[i].as_str());
                    out.append(": RedefinedConvert::to_source(");
                    out.append(names[i].as_str());
                    out.append("), ");
                    i += 1;
                }
                out.append("}, ");
            }
            VariantShape::Unnamed(k) => {
                let k = *k;
                out.append("(");
                let mut i: usize = 0;
                while i < k
                    invariant
                        i <= k,
                        out@ == spec_variant_path(target_type@, self.ident@) + "("@
                            + spec_x_bindings(i as int),
                    decreases k - i,
                {
                    out.append("x");
                    let digits = usize_to_string(i);
                    out.append(digits.as_str());
                    out.append(", ");
                    i += 1;
                }
                out.append(") => ");
                out.append(source_type);
                out.append("::");
                out.append(self.ident.as_str());
                out.append("(");
                let ghost mid = out@;
                let mut i: usize = 0;
                while i < k
                    invariant
                        i <= k,
                        out@ == mid + spec_x_to(i as int),
                    decreases k - i,
                {
                    out.append("RedefinedConvert::to_source(x");
                    let digits = usize_to_string(i);
                    out.append(digits.as_str());
                    out.append("), ");
                    i += 1;
                }
                out.append("), ");
            }
        }
        out
    }
}

/// Collects the field names of a named variant; a nameless field among them
/// is a hard failure.
fn variant_field_names(decls: &Vec<FieldDef>) -> (r: Result<Vec<String>, DeriveError>)
    ensures
        match r {
            Result::Ok(names) => {
                &&& names@.len() == decls@.len()
                &&& forall|m: int|
                    0 <= m < names@.len() ==> spec_named_field_resolves(
                        #[trigger] names@[m],
                        decls@[m],
                    )
            },
            Result::Err(e) => e matches DeriveError::DirectiveSyntax { .. } && exists|j: int|
                0 <= j < decls@.len() && (#[trigger] decls@[j]).ident is None,
        },
{
    let mut names: Vec<String> = Vec::new();
    let mut j: usize = 0;
    while j < decls.len()
        invariant
            j <= decls@.len(),
            names@.len() == j,
            forall|m: int| 0 <= m < j ==> spec_named_field_resolves(#[trigger] names@[m], decls@[m]),
        decreases decls@.len() - j,
    {
        match &decls[j].ident {
            Option::Some(id) => {
                let cloned = id.clone();
                names.push(cloned);
            }
            Option::None => {
                proof {
                    reveal_strlit("field");
                }
                return Result::Err(
                    DeriveError::DirectiveSyntax {
                        directive: "field".to_owned(),
                        expected: "a named field in a named variant".to_owned(),
                    },
                );
            }
        }
        j += 1;
    }
    Result::Ok(names)
}

impl EnumContainer {
    /// Resolves a tagged union's declared variants. A failure means some
    /// variant's directives have no parse, or a named variant declares a
    /// nameless field.
    pub fn parse_new(data_enum: &EnumData) -> (r: Result<EnumContainer, DeriveError>)
        ensures
            match r {
                Result::Ok(c) => spec_enum_container_resolves(c, *data_enum),
                Result::Err(_) => spec_enum_parse_failure(*data_enum),
            },
    {
        let mut fields: Vec<EnumField> = Vec::new();
        let mut i: usize = 0;
        while i < data_enum.variants.len()
            invariant
                i <= data_enum.variants@.len(),
                fields@.len() == i,
                forall|j: int|
                    0 <= j < i ==> spec_variant_resolves(
                        #[trigger] fields@[j],
                        data_enum.variants@[j],
                    ),
            decreases data_enum.variants@.len() - i,
        {
            let d = &data_enum.variants[i];
            let shape = match &d.fields {
                VariantFields::Unit => VariantShape::Unit,
                VariantFields::Named(decls) => {
                    let names = match variant_field_names(decls) {
                        Result::Ok(names) => names,
                        Result::Err(e) => {
                            proof {
                                assert(spec_variant_nameless_field(
                                    data_enum.variants@[i as int],
                                ));
                            }
                            return Result::Err(e);
                        }
                    };
                    VariantShape::Named(names)
                }
                VariantFields::Unnamed(decls) => VariantShape::Unnamed(decls.len()),
            };
            let mut f = EnumField::new(d.ident.clone(), shape);
            match f.parse_attributes_for_field(d) {
                Result::Ok(()) => {}
                Result::Err(e) => {
                    proof {
                        assert(spec_variant_directives_unparsable(data_enum.variants@[i as int]));
                    }
                    return Result::Err(e);
                }
            }
            fields.push(f);
            i += 1;
        }
        Result::Ok(EnumContainer { fields })
    }

    /// The forward-conversion body: one exhaustive match over the source
    /// value with one arm per variant, in declaration order.
    pub fn from_source_tokens(&self, source_type: &str, target_type: &str) -> (r: String)
        ensures
            r@ == spec_enum_from_source(*self, source_type@, target_type@),
    {
        let mut out = String::new();
        out.append("match src { ");
        let mut i: usize = 0;
        while i < self.fields.len()
            invariant
                i <= self.fields@.len(),
                out@ == "match src { "@ + spec_arms_from(self.fields@, i as int, source_type@,
                    target_type@),
            decreases self.fields@.len() - i,
        {
            let arm = self.fields[i].from_source_tokens(source_type, target_type);
            out.append(arm.as_str());
            i += 1;
        }
        out.append("}");
        out
    }

    /// The backward-conversion body: one exhaustive match over the mirror
    /// value with one arm per variant, in declaration order.
    pub fn to_source_tokens(&self, source_type: &str, target_type: &str) -> (r: String)
        ensures
            r@ == spec_enum_to_source(*self, source_type@, target_type@),
    {
        let mut out = String::new();
        out.append("match self { ");
        let mut i: usize = 0;
        while i < self.fields.len()
            invariant
                i <= self.fields@.len(),
                out@ == "match self { "@ + spec_arms_to(self.fields@, i as int, source_type@,
                    target_type@),
            decreases self.fields@.len() - i,
        {
            let arm = self.fields[i].to_source_tokens(source_type, target_type);
            out.append(arm.as_str());
            i += 1;
        }
        out.append("}");
        out
    }
}

} // verus!
