//! Generate-new-type mode: for a declaration without a linked source, emit a
//! brand-new mirror declaration whose field types are rewritten, preserving
//! field order, names and visibility, and carrying the engine's own markers
//! so that a further derivation pass emits the conversions.

use vstd::prelude::*;

use crate::decl::{spec_field_directives_unparsable, DataShape, FieldDef, GenericParam,
    StructData, EnumData, TypeDeclaration, VariantDef, VariantFields};
use crate::errors::DeriveError;
use crate::outer::{find_attr, OuterContainer};
use crate::redefined_types::{spec_impl_generics_text, spec_name_list};
use crate::text::{spec_mirror_suffix, with_mirror_suffix};
use crate::type_attr::{spec_attrs_parse, spec_find_attr, AttrToken, ContainerAttributes,
    TypeAttribute};
use crate::type_expr::{parse_type_to_redefined, render_type, rewrites_to, spec_type_supported,
    spec_type_text, TypeExpr, TypeMapEntry};

verus! {

/// The per-field override map named by a `field` directive.
pub open spec fn spec_field_overrides(attrs: Seq<TypeAttribute>) -> Seq<TypeMapEntry> {
    match spec_find_attr(attrs, "field"@) {
        Option::Some(attr) => match attr.list_tuple_idents {
            Option::Some(l) => Seq::new(
                l@.len(),
                |i: int| TypeMapEntry { source: l@[i].0, target: l@[i].1 },
            ),
            Option::None => Seq::empty(),
        },
        Option::None => Seq::empty(),
    }
}

/// Whether the field's directives blanket-disable the default rewrite.
pub open spec fn spec_field_policy(attrs: Seq<TypeAttribute>) -> bool {
    spec_find_attr(attrs, "same_fields"@) is None
}

/// The declaration text of one mirror field, given its rewritten type.
pub open spec fn spec_field_decl_text(d: FieldDef, u: TypeExpr) -> Seq<char> {
    spec_attr_texts(d.other_attrs@, d.other_attrs@.len() as int) + (match d.vis {
        Option::Some(v) => v@ + " "@,
        Option::None => Seq::empty(),
    }) + (match d.ident {
        Option::Some(id) => id@ + ": "@,
        Option::None => Seq::empty(),
    }) + spec_type_text(u)
}

/// The concatenation of the first `k` attribute texts, each followed by a
/// space.
pub open spec fn spec_attr_texts(attrs: Seq<String>, k: int) -> Seq<char>
    decreases k,
{
    if k <= 0 {
        Seq::empty()
    } else {
        spec_attr_texts(attrs, k - 1) + attrs[k - 1]@ + " "@
    }
}

/// Whether `text` is the mirror declaration text of field `d` under the
/// declared generic parameters to skip: the field's directives parse, its
/// type rewrites under them, and the text spells the rewritten field.
pub open spec fn spec_field_decl_resolves(d: FieldDef, skip: Seq<String>, text: Seq<char>) -> bool {
    exists|attrs: Seq<TypeAttribute>, u: TypeExpr|
        {
            &&& #[trigger] spec_attrs_of_field(d, attrs)
            &&& #[trigger] rewrites_to(
                d.ty,
                spec_field_overrides(attrs),
                skip,
                spec_field_policy(attrs),
                u,
            )
            &&& text == spec_field_decl_text(d, u)
        }
}

/// Whether `attrs` is the parse of the field's directive annotation.
pub open spec fn spec_attrs_of_field(d: FieldDef, attrs: Seq<TypeAttribute>) -> bool {
    match d.directive_tokens {
        Option::Some(toks) => spec_attrs_parse(toks@, 0, attrs),
        Option::None => attrs.len() == 0,
    }
}

/// Why emitting one mirror field can fail: its directives have no parse, or
/// its type has an unsupported shape.
pub open spec fn spec_field_emit_failure(d: FieldDef) -> bool {
    spec_field_directives_unparsable(d) || !spec_type_supported(d.ty)
}

/// Why emitting one mirror variant can fail: some field of it can fail.
pub open spec fn spec_variant_emit_failure(v: VariantDef) -> bool {
    exists|j: int|
        0 <= j < spec_variant_fields(v).len() && spec_field_emit_failure(
            #[trigger] spec_variant_fields(v)[j],
        )
}

/// Whether a declaration's container annotation has no parse at all.
pub open spec fn spec_container_unparsable(container_tokens: Option<Vec<AttrToken>>) -> bool {
    match container_tokens {
        Option::Some(toks) => crate::type_attr::spec_no_attrs_parse(toks@, 0),
        Option::None => false,
    }
}

/// Why emitting a whole mirror declaration can fail: its container
/// annotation has no parse, or some field (of the record, or of some
/// variant) can fail.
pub open spec fn spec_new_type_failure(input: TypeDeclaration) -> bool {
    ||| spec_container_unparsable(input.container_tokens)
    ||| match input.data {
        DataShape::Struct(sd) => exists|i: int|
            0 <= i < sd.fields@.len() && spec_field_emit_failure(#[trigger] sd.fields@[i]),
        DataShape::Enum(ed) => exists|i: int|
            0 <= i < ed.variants@.len() && spec_variant_emit_failure(#[trigger] ed.variants@[i]),
    }
}

/// Renders one mirror field: its passthrough attributes, visibility and name
/// are preserved, and its type is rewritten — skipping the declared generic
/// parameters, honouring the field's own override map, and honouring its
/// blanket policy directives.
pub fn parse_field(field: &FieldDef, generics_skip_remote: &Vec<String>) -> (r: Result<
    String,
    DeriveError,
>)
    ensures
        match r {
            Result::Ok(text) => spec_field_decl_resolves(*field, generics_skip_remote@, text@),
            Result::Err(_) => spec_field_emit_failure(*field),
        },
{
    let field_attrs: Vec<TypeAttribute> = match &field.directive_tokens {
        Option::Some(toks) => ContainerAttributes::parse(toks)?.0,
        Option::None => Vec::new(),
    };
    // The per-field override map, and the blanket policy.
    let policy = find_attr(&field_attrs, "same_fields").is_none();
    let mut overrides: Vec<TypeMapEntry> = Vec::new();
    match find_attr(&field_attrs, "field") {
        Option::Some(attr) => match &attr.list_tuple_idents {
            Option::Some(l) => {
                let mut j: usize = 0;
                while j < l.len()
                    invariant
                        j <= l@.len(),
                        overrides@.len() == j,
                        forall|m: int|
                            0 <= m < j ==> #[trigger] overrides@[m] == (TypeMapEntry {
                                source: l@[m].0,
                                target: l@[m].1,
                            }),
                    decreases l@.len() - j,
                {
                    let (a, b) = (l[j].0.clone(), l[j].1.clone());
                    overrides.push(TypeMapEntry { source: a, target: b });
                    j += 1;
                }
            }
            Option::None => {}
        },
        Option::None => {}
    }
    proof {
        assert(overrides@ =~= spec_field_overrides(field_attrs@));
    }
    let rewritten = match parse_type_to_redefined(&field.ty, &overrides, generics_skip_remote,
        policy) {
        Result::Ok(rewritten) => rewritten,
        Result::Err(e) => {
            return Result::Err(e);
        }
    };
    // Render the field.
    let mut out = String::new();
    let mut i: usize = 0;
    while i < field.other_attrs.len()
        invariant
            i <= field.other_attrs@.len(),
            out@ == spec_attr_texts(field.other_attrs@, i as int),
        decreases field.other_attrs@.len() - i,
    {
        out.append(field.other_attrs[i].as_str());
        out.append(" ");
        i += 1;
    }
    match &field.vis {
        Option::Some(v) => {
            out.append(v.as_str());
            out.append(" ");
        }
        Option::None => {}
    }
    match &field.ident {
        Option::Some(id) => {
            out.append(id.as_str());
            out.append(": ");
        }
        Option::None => {}
    }
    let ty_text = render_type(&rewritten);
    out.append(ty_text.as_str());
    proof {
        assert(spec_attrs_of_field(*field, field_attrs@));
        assert(spec_field_overrides(field_attrs@) =~= overrides@);
        assert(rewrites_to(
            field.ty,
            spec_field_overrides(field_attrs@),
            generics_skip_remote@,
            spec_field_policy(field_attrs@),
            rewritten,
        ));
        assert(out@ == spec_field_decl_text(*field, rewritten));
    }
    Result::Ok(out)
}



/// The comma-joined names of the first `k` entries.
pub open spec fn spec_comma_names(names: Seq<String>, k: int) -> Seq<char>
    decreases k,
{
    if k <= 0 {
        Seq::empty()
    } else {
        spec_comma_names(names, k - 1) + names[k - 1]@ + ", "@
    }
}

/// The comma-joined field or variant texts of the first `k` entries.
pub open spec fn spec_joined_texts(texts: Seq<String>, k: int) -> Seq<char>
    decreases k,
{
    if k <= 0 {
        Seq::empty()
    } else {
        spec_joined_texts(texts, k - 1) + texts[k - 1]@ + ", "@
    }
}

/// The extra derive identifiers named by `derive` directives, in order.
pub open spec fn spec_derives(attrs: Seq<TypeAttribute>) -> Seq<String>
    decreases attrs.len(),
{
    if attrs.len() == 0 {
        Seq::empty()
    } else {
        let rest = spec_derives(attrs.drop_last());
        let a = attrs.last();
        if a.symbol.s@ == "derive"@ {
            match a.list_idents {
                Option::Some(l) => rest + l@,
                Option::None => rest,
            }
        } else {
            rest
        }
    }
}

/// The forwarded attribute texts named by `other` directives, in order.
pub open spec fn spec_others(attrs: Seq<TypeAttribute>) -> Seq<String>
    decreases attrs.len(),
{
    if attrs.len() == 0 {
        Seq::empty()
    } else {
        let rest = spec_others(attrs.drop_last());
        let a = attrs.last();
        if a.symbol.s@ == "other"@ {
            match a.list_other_attrs {
                Option::Some(l) => rest + l@,
                Option::None => rest,
            }
        } else {
            rest
        }
    }
}

/// Copies a string list.
fn clone_strings(v: &Vec<String>) -> (r: Vec<String>)
    ensures
        r@ == v@,
{
    let mut r: Vec<String> = Vec::new();
    let mut i: usize = 0;
    while i < v.len()
        invariant
            i <= v@.len(),
            r@ =~= v@.subrange(0, i as int),
        decreases v@.len() - i,
    {
        r.push(v[i].clone());
        i += 1;
        proof {
            assert(v@.subrange(0, i as int) =~= v@.subrange(0, i - 1).push(v@[i - 1]));
        }
    }
    proof {
        assert(v@.subrange(0, v@.len() as int) =~= v@);
    }
    r
}

/// The derive identifiers of the first `n` directives.
fn collect_derives(attrs: &Vec<TypeAttribute>, n: usize) -> (r: Vec<String>)
    requires
        n <= attrs@.len(),
    ensures
        r@ == spec_derives(attrs@.subrange(0, n as int)),
    decreases n,
{
    proof {
        reveal_strlit("derive");
    }
    if n == 0 {
        proof {
            assert(attrs@.subrange(0, 0) =~= Seq::<TypeAttribute>::empty());
        }
        Vec::new()
    } else {
        let mut r = collect_derives(attrs, n - 1);
        let attr = &attrs[n - 1];
        proof {
            assert(attrs@.subrange(0, n as int).drop_last() =~= attrs@.subrange(0, n - 1));
            assert(attrs@.subrange(0, n as int).last() == attrs@[n - 1]);
        }
        if crate::text::str_eq(attr.symbol.s, "derive") {
            match &attr.list_idents {
                Option::Some(l) => {
                    let mut more = clone_strings(l);
                    let ghost before = r@;
                    r.append(&mut more);
                    proof {
                        assert(r@ == before + l@);
                    }
                }
                Option::None => {}
            }
        }
        r
    }
}

/// The forwarded attribute texts of the first `n` directives.
fn collect_others(attrs: &Vec<TypeAttribute>, n: usize) -> (r: Vec<String>)
    requires
        n <= attrs@.len(),
    ensures
        r@ == spec_others(attrs@.subrange(0, n as int)),
    decreases n,
{
    proof {
        reveal_strlit("other");
    }
    if n == 0 {
        proof {
            assert(attrs@.subrange(0, 0) =~= Seq::<TypeAttribute>::empty());
        }
        Vec::new()
    } else {
        let mut r = collect_others(attrs, n - 1);
        let attr = &attrs[n - 1];
        proof {
            assert(attrs@.subrange(0, n as int).drop_last() =~= attrs@.subrange(0, n - 1));
            assert(attrs@.subrange(0, n as int).last() == attrs@[n - 1]);
        }
        if crate::text::str_eq(attr.symbol.s, "other") {
            match &attr.list_other_attrs {
                Option::Some(l) => {
                    let mut more = clone_strings(l);
                    let ghost before = r@;
                    r.append(&mut more);
                    proof {
                        assert(r@ == before + l@);
                    }
                }
                Option::None => {}
            }
        }
        r
    }
}

/// Collects the derive identifiers and forwarded attribute texts of a
/// declaration's container directives; the derive list always starts with
/// the engine's own marker, so that the emitted mirror type is derived in
/// turn.
pub fn parse_attributes(container_tokens: &Option<Vec<AttrToken>>) -> (r: Result<
    (Vec<String>, Vec<String>),
    DeriveError,
>)
    ensures
        match r {
            Result::Ok((derive_attrs, new_attrs)) => exists|attrs: Seq<TypeAttribute>|
                {
                    &&& #[trigger] spec_container_attrs_of(*container_tokens, attrs)
                    &&& derive_attrs@.len() == 1 + spec_derives(attrs).len()
                    &&& derive_attrs@[0]@ == "Redefined"@
                    &&& forall|j: int|
                        1 <= j < derive_attrs@.len() ==> derive_attrs@[j] == spec_derives(attrs)[j
                            - 1]
                    &&& new_attrs@ == spec_others(attrs)
                },
            Result::Err(_) => spec_container_unparsable(*container_tokens),
        },
{
    let attrs: Vec<TypeAttribute> = match container_tokens {
        Option::Some(toks) => ContainerAttributes::parse(toks)?.0,
        Option::None => Vec::new(),
    };
    let mut rest = collect_derives(&attrs, attrs.len());
    let mut derive_attrs: Vec<String> = Vec::new();
    derive_attrs.push("Redefined".to_owned());
    derive_attrs.append(&mut rest);
    let new_attrs = collect_others(&attrs, attrs.len());
    proof {
        assert(attrs@.subrange(0, attrs@.len() as int) =~= attrs@);
        assert(spec_container_attrs_of(*container_tokens, attrs@));
    }
    Result::Ok((derive_attrs, new_attrs))
}

/// Whether `attrs` is the parse of a declaration's container annotation.
pub open spec fn spec_container_attrs_of(
    container_tokens: Option<Vec<AttrToken>>,
    attrs: Seq<TypeAttribute>,
) -> bool {
    match container_tokens {
        Option::Some(toks) => spec_attrs_parse(toks@, 0, attrs),
        Option::None => attrs.len() == 0,
    }
}

/// Whether `texts` renders each declared field of `fields` in order.
pub open spec fn spec_fields_decl_resolve(
    fields: Seq<FieldDef>,
    skip: Seq<String>,
    texts: Seq<String>,
) -> bool {
    &&& texts.len() == fields.len()
    &&& forall|i: int|
        0 <= i < fields.len() ==> spec_field_decl_resolves(fields[i], skip, (#[trigger] texts[i])@)
}

/// The header of an emitted mirror declaration: its derive list, the
/// linked-source marker pointing back at the original, the forwarded
/// attributes, and the visibility.
pub open spec fn spec_decl_header(
    struct_name: Seq<char>,
    derives: Seq<String>,
    headers: Seq<String>,
    vis: Option<String>,
) -> Seq<char> {
    "#[derive("@ + spec_comma_names(derives, derives.len() as int) + ")] #[redefined("@
        + struct_name + ")] "@ + spec_attr_texts(headers, headers.len() as int) + (match vis {
        Option::Some(v) => v@ + " "@,
        Option::None => Seq::empty(),
    })
}

/// Renders the whole mirror record declaration.
pub fn parse_new_struct(
    data_struct: &StructData,
    struct_name: &String,
    new_struct_name: &String,
    generics: &Vec<GenericParam>,
    visibility: &Option<String>,
    derive_attrs: &Vec<String>,
    header_attrs: &Vec<String>,
    generics_skip_remote: &Vec<String>,
) -> (r: Result<String, DeriveError>)
    ensures
        match r {
            Result::Ok(text) => exists|texts: Seq<String>|
                {
                    &&& #[trigger] spec_fields_decl_resolve(
                        data_struct.fields@,
                        generics_skip_remote@,
                        texts,
                    )
                    &&& text@ == spec_decl_header(struct_name@, derive_attrs@, header_attrs@,
                        *visibility) + "struct "@ + new_struct_name@ + spec_impl_generics_text(
                        generics@,
                        Seq::empty(),
                    ) + (if data_struct.is_named {
                        " { "@ + spec_joined_texts(texts, texts.len() as int) + "}"@
                    } else {
                        "("@ + spec_joined_texts(texts, texts.len() as int) + ");"@
                    })
                },
            Result::Err(_) => exists|i: int|
                0 <= i < data_struct.fields@.len() && spec_field_emit_failure(
                    #[trigger] data_struct.fields@[i],
                ),
        },
{
    let mut texts: Vec<String> = Vec::new();
    let mut i: usize = 0;
    while i < data_struct.fields.len()
        invariant
            i <= data_struct.fields@.len(),
            texts@.len() == i,
            forall|j: int|
                0 <= j < i ==> spec_field_decl_resolves(
                    data_struct.fields@[j],
                    generics_skip_remote@,
                    (#[trigger] texts@[j])@,
                ),
        decreases data_struct.fields@.len() - i,
    {
        let t = match parse_field(&data_struct.fields[i], generics_skip_remote) {
            Result::Ok(t) => t,
            Result::Err(e) => {
                proof {
                    assert(spec_field_emit_failure(data_struct.fields@[i as int]));
                }
                return Result::Err(e);
            }
        };
        texts.push(t);
        i += 1;
    }
    let mut out = render_decl_header(struct_name, derive_attrs, header_attrs, visibility);
    out.append("struct ");
    out.append(new_struct_name.as_str());
    let g = render_generics_decls(generics);
    out.append(g.as_str());
    if data_struct.is_named {
        out.append(" { ");
    } else {
        out.append("(");
    }
    let ghost mid = out@;
    let mut i: usize = 0;
    while i < texts.len()
        invariant
            i <= texts@.len(),
            out@ == mid + spec_joined_texts(texts@, i as int),
        decreases texts@.len() - i,
    {
        out.append(texts[i].as_str());
        out.append(", ");
        i += 1;
    }
    if data_struct.is_named {
        out.append("}");
    } else {
        out.append(");");
    }
    proof {
        assert(spec_fields_decl_resolve(data_struct.fields@, generics_skip_remote@, texts@));
    }
    Result::Ok(out)
}

/// Renders the common declaration header.
fn render_decl_header(
    struct_name: &String,
    derive_attrs: &Vec<String>,
    header_attrs: &Vec<String>,
    visibility: &Option<String>,
) -> (r: String)
    ensures
        r@ == spec_decl_header(struct_name@, derive_attrs@, header_attrs@, *visibility),
{
    let mut out = String::new();
    out.append("#[derive(");
    let mut i: usize = 0;
    while i < derive_attrs.len()
        invariant
            i <= derive_attrs@.len(),
            out@ == "#[derive("@ + spec_comma_names(derive_attrs@, i as int),
        decreases derive_attrs@.len() - i,
    {
        out.append(derive_attrs[i].as_str());
        out.append(", ");
        i += 1;
    }
    out.append(")] #[redefined(");
    out.append(struct_name.as_str());
    out.append(")] ");
    let ghost mid = out@;
    let mut i: usize = 0;
    while i < header_attrs.len()
        invariant
            i <= header_attrs@.len(),
            out@ == mid + spec_attr_texts(header_attrs@, i as int),
        decreases header_attrs@.len() - i,
    {
        out.append(header_attrs[i].as_str());
        out.append(" ");
        i += 1;
    }
    match visibility {
        Option::Some(v) => {
            out.append(v.as_str());
            out.append(" ");
        }
        Option::None => {}
    }
    out
}

/// Renders a declaration-side generic parameter list.
fn render_generics_decls(generics: &Vec<GenericParam>) -> (r: String)
    ensures
        r@ == spec_impl_generics_text(generics@, Seq::empty()),
{
    let mut out = String::new();
    if generics.len() > 0 {
        out.append("<");
        let mut i: usize = 0;
        while i < generics.len()
            invariant
                i <= generics@.len(),
                out@ == "<"@ + crate::redefined_types::spec_param_decls(generics@, i as int),
            decreases generics@.len() - i,
        {
            match &generics[i] {
                GenericParam::TypeParam { ident, default } => {
                    out.append(ident.as_str());
                    match default {
                        Option::Some(d) => {
                            out.append(" = ");
                            out.append(d.as_str());
                        }
                        Option::None => {}
                    }
                }
                GenericParam::ConstParam { ident, ty } => {
                    out.append("const ");
                    out.append(ident.as_str());
                    out.append(": ");
                    out.append(ty.as_str());
                }
                GenericParam::LifetimeParam { ident } => {
                    out.append("'");
                    out.append(ident.as_str());
                }
            }
            out.append(", ");
            i += 1;
        }
        out.append(">");
        proof {
            assert(spec_name_list(Seq::<Seq<char>>::empty(), 0) =~= Seq::<char>::empty());
        }
    }
    out
}

/// Whether `text` renders the declared variant `v` of a mirror union.
/// The declared fields of a variant, as one list.
pub open spec fn spec_variant_fields(v: VariantDef) -> Seq<FieldDef> {
    match v.fields {
        VariantFields::Unit => Seq::empty(),
        VariantFields::Named(decls) => decls@,
        VariantFields::Unnamed(decls) => decls@,
    }
}

pub open spec fn spec_variant_decl_resolves(
    v: VariantDef,
    skip: Seq<String>,
    text: Seq<char>,
) -> bool {
    if v.discriminant is Some {
        text == spec_attr_texts(v.other_attrs@, v.other_attrs@.len() as int) + v.ident@ + " = "@
            + v.discriminant->0@
    } else {
        spec_variant_body_resolves(v, skip, text)
    }
}

/// Whether `text` renders the declared variant `v` with its field list.
pub open spec fn spec_variant_body_resolves(
    v: VariantDef,
    skip: Seq<String>,
    text: Seq<char>,
) -> bool {
    exists|texts: Seq<String>|
        {
            &&& #[trigger] spec_fields_decl_resolve(spec_variant_fields(v), skip, texts)
            &&& text == spec_attr_texts(v.other_attrs@, v.other_attrs@.len() as int) + v.ident@
                + (match v.fields {
                VariantFields::Unit => Seq::<char>::empty(),
                VariantFields::Named(_) => " { "@ + spec_joined_texts(texts, texts.len() as int)
                    + "}"@,
                VariantFields::Unnamed(_) => "("@ + spec_joined_texts(texts, texts.len() as int)
                    + ")"@,
            })
        }
}

/// Renders one variant of the mirror union, with each field's type
/// rewritten.
pub fn parse_enum_variant(variant: &VariantDef, generics_skip_remote: &Vec<String>) -> (r: Result<
    String,
    DeriveError,
>)
    ensures
        match r {
            Result::Ok(text) => spec_variant_decl_resolves(*variant, generics_skip_remote@,
                text@),
            Result::Err(_) => spec_variant_emit_failure(*variant),
        },
{
    let mut out = String::new();
    let mut i: usize = 0;
    while i < variant.other_attrs.len()
        invariant
            i <= variant.other_attrs@.len(),
            out@ == spec_attr_texts(variant.other_attrs@, i as int),
        decreases variant.other_attrs@.len() - i,
    {
        out.append(variant.other_attrs[i].as_str());
        out.append(" ");
        i += 1;
    }
    out.append(variant.ident.as_str());
    match &variant.discriminant {
        Option::Some(d) => {
            out.append(" = ");
            out.append(d.as_str());
            return Result::Ok(out);
        }
        Option::None => {}
    }
    let decls: &Vec<FieldDef> = match &variant.fields {
        VariantFields::Unit => {
            proof {
                let texts = Seq::<String>::empty();
                assert(spec_fields_decl_resolve(
                    spec_variant_fields(*variant),
                    generics_skip_remote@,
                    texts,
                ));
                assert(out@ =~= spec_attr_texts(
                    variant.other_attrs@,
                    variant.other_attrs@.len() as int,
                ) + variant.ident@ + Seq::<char>::empty());
            }
            return Result::Ok(out);
        }
        VariantFields::Named(decls) => decls,
        VariantFields::Unnamed(decls) => decls,
    };
    let mut texts: Vec<String> = Vec::new();
    let mut i: usize = 0;
    while i < decls.len()
        invariant
            spec_variant_fields(*variant) == decls@,
            i <= decls@.len(),
            texts@.len() == i,
            forall|j: int|
                0 <= j < i ==> spec_field_decl_resolves(
                    decls@[j],
                    generics_skip_remote@,
                    (#[trigger] texts@[j])@,
                ),
        decreases decls@.len() - i,
    {
        let t = match parse_field(&decls[i], generics_skip_remote) {
            Result::Ok(t) => t,
            Result::Err(e) => {
                proof {
                    assert(spec_field_emit_failure(spec_variant_fields(*variant)[i as int]));
                }
                return Result::Err(e);
            }
        };
        texts.push(t);
        i += 1;
    }
    let named = match &variant.fields {
        VariantFields::Named(_) => true,
        _ => false,
    };
    if named {
        out.append(" { ");
    } else {
        out.append("(");
    }
    let ghost mid = out@;
    let mut i: usize = 0;
    while i < texts.len()
        invariant
            i <= texts@.len(),
            out@ == mid + spec_joined_texts(texts@, i as int),
        decreases texts@.len() - i,
    {
        out.append(texts[i].as_str());
        out.append(", ");
        i += 1;
    }
    if named {
        out.append("}");
    } else {
        out.append(")");
    }
    proof {
        assert(spec_fields_decl_resolve(spec_variant_fields(*variant), generics_skip_remote@,
            texts@));
        if named {
            assert(out@ =~= spec_attr_texts(variant.other_attrs@, variant.other_attrs@.len() as int)
                + variant.ident@ + (" { "@ + spec_joined_texts(texts@, texts@.len() as int)
                + "}"@));
        } else {
            assert(out@ =~= spec_attr_texts(variant.other_attrs@, variant.other_attrs@.len() as int)
                + variant.ident@ + ("("@ + spec_joined_texts(texts@, texts@.len() as int) + ")"@));
        }
    }
    Result::Ok(out)
}

/// Renders the whole mirror union declaration.
pub fn parse_new_enum(
    data_enum: &EnumData,
    enum_name: &String,
    new_enum_name: &String,
    generics: &Vec<GenericParam>,
    visibility: &Option<String>,
    derive_attrs: &Vec<String>,
    header_attrs: &Vec<String>,
    generics_skip_remote: &Vec<String>,
) -> (r: Result<String, DeriveError>)
    ensures
        match r {
            Result::Ok(text) => exists|vtexts: Seq<String>|
                {
                    &&& vtexts.len() == data_enum.variants@.len()
                    &&& forall|i: int|
                        0 <= i < vtexts.len() ==> spec_variant_decl_resolves(
                            data_enum.variants@[i],
                            generics_skip_remote@,
                            (#[trigger] vtexts[i])@,
                        )
                    &&& text@ == spec_decl_header(enum_name@, derive_attrs@, header_attrs@,
                        *visibility) + "enum "@ + new_enum_name@ + spec_impl_generics_text(
                        generics@,
                        Seq::empty(),
                    ) + " { "@ + spec_joined_texts(vtexts, vtexts.len() as int) + "}"@
                },
            Result::Err(_) => exists|i: int|
                0 <= i < data_enum.variants@.len() && spec_variant_emit_failure(
                    #[trigger] data_enum.variants@[i],
                ),
        },
{
    let mut vtexts: Vec<String> = Vec::new();
    let mut i: usize = 0;
    while i < data_enum.variants.len()
        invariant
            i <= data_enum.variants@.len(),
            vtexts@.len() == i,
            forall|j: int|
                0 <= j < i ==> spec_variant_decl_resolves(
                    data_enum.variants@[j],
                    generics_skip_remote@,
                    (#[trigger] vtexts@[j])@,
                ),
        decreases data_enum.variants@.len() - i,
    {
        let t = match parse_enum_variant(&data_enum.variants[i], generics_skip_remote) {
            Result::Ok(t) => t,
            Result::Err(e) => {
                proof {
                    assert(spec_variant_emit_failure(data_enum.variants@[i as int]));
                }
                return Result::Err(e);
            }
        };
        vtexts.push(t);
        i += 1;
    }
    let mut out = render_decl_header(enum_name, derive_attrs, header_attrs, visibility);
    out.append("enum ");
    out.append(new_enum_name.as_str());
    let g = render_generics_decls(generics);
    out.append(g.as_str());
    out.append(" { ");
    let ghost mid = out@;
    let mut i: usize = 0;
    while i < vtexts.len()
        invariant
            i <= vtexts@.len(),
            out@ == mid + spec_joined_texts(vtexts@, i as int),
        decreases vtexts@.len() - i,
    {
        out.append(vtexts[i].as_str());
        out.append(", ");
        i += 1;
    }
    out.append("}");
    Result::Ok(out)
}

/// The names of all type parameters, defaulted ones included: the rewriter
/// skips each of them.
pub open spec fn spec_all_type_param_names(gs: Seq<GenericParam>) -> Seq<String>
    decreases gs.len(),
{
    if gs.len() == 0 {
        Seq::empty()
    } else {
        let rest = spec_all_type_param_names(gs.drop_last());
        match gs.last() {
            GenericParam::TypeParam { ident, .. } => rest.push(ident),
            _ => rest,
        }
    }
}

/// Collects the names of all type parameters, defaulted ones included.
fn all_type_param_names(generics: &Vec<GenericParam>) -> (r: Vec<String>)
    ensures
        r@.len() == spec_all_type_param_names(generics@).len(),
        forall|j: int|
            0 <= j < r@.len() ==> (#[trigger] r@[j])@ == spec_all_type_param_names(generics@)[j]@,
    decreases generics@.len(),
{
    let mut r: Vec<String> = Vec::new();
    let mut i: usize = 0;
    while i < generics.len()
        invariant
            i <= generics@.len(),
            r@.len() == spec_all_type_param_names(generics@.subrange(0, i as int)).len(),
            forall|j: int|
                0 <= j < r@.len() ==> (#[trigger] r@[j])@ == spec_all_type_param_names(
                    generics@.subrange(0, i as int),
                )[j]@,
        decreases generics@.len() - i,
    {
        let ghost pre = generics@.subrange(0, i as int);
        match &generics[i] {
            GenericParam::TypeParam { ident, .. } => {
                r.push(ident.clone());
            }
            _ => {}
        }
        i += 1;
        proof {
            let post = generics@.subrange(0, i as int);
            assert(post.drop_last() =~= pre);
            assert(post.last() == generics@[i - 1]);
        }
    }
    proof {
        assert(generics@.subrange(0, generics@.len() as int) =~= generics@);
    }
    r
}

/// The declaration's generic parameters as the emitted mirror uses them: a
/// remote derivation drops defaults, so that the mirror declares every
/// parameter plainly.
pub open spec fn spec_effective_generics(gs: Seq<GenericParam>, is_remote: bool) -> Seq<
    GenericParam,
> {
    if is_remote {
        Seq::new(
            gs.len(),
            |i: int|
                match gs[i] {
                    GenericParam::TypeParam { ident, .. } => GenericParam::TypeParam {
                        ident,
                        default: Option::None,
                    },
                    other => other,
                },
        )
    } else {
        gs
    }
}

/// Whether `text` is the emitted mirror declaration of `input`: its header
/// carries the engine's derive marker and the forwarded attributes, the new
/// type is named after the original with the mirror suffix, and `body` is
/// its rewritten field or variant list.
pub open spec fn spec_new_type_emits(
    target: Seq<char>,
    input: TypeDeclaration,
    is_remote: bool,
    derive_attrs: Seq<String>,
    header_attrs: Seq<String>,
    body: Seq<char>,
    text: Seq<char>,
) -> bool {
    let gs = spec_effective_generics(input.generics@, is_remote);
    &&& exists|attrs: Seq<TypeAttribute>|
        {
            &&& #[trigger] spec_container_attrs_of(input.container_tokens, attrs)
            &&& derive_attrs.len() == 1 + spec_derives(attrs).len()
            &&& derive_attrs[0]@ == "Redefined"@
        }
    &&& text == spec_decl_header(target, derive_attrs, header_attrs, input.vis) + (
    match input.data {
        DataShape::Struct(_) => "struct "@,
        DataShape::Enum(_) => "enum "@,
    }) + target + spec_mirror_suffix() + spec_impl_generics_text(gs, Seq::empty()) + body
}

/// Emits the mirror declaration for a declaration without a linked source:
/// a brand-new type named after the original with the mirror suffix, its
/// field types rewritten, carrying the engine's markers so that a further
/// derivation pass emits the conversion procedures.
pub fn parse_type_without_source(outer: OuterContainer, input: &TypeDeclaration, is_remote: bool)
    -> (r: Result<String, DeriveError>)
    ensures
        match r {
            Result::Ok(text) => exists|
                derive_attrs: Seq<String>,
                header_attrs: Seq<String>,
                body: Seq<char>,
            |
                #[trigger] spec_new_type_emits(
                    outer.target_type@,
                    *input,
                    is_remote,
                    derive_attrs,
                    header_attrs,
                    body,
                    text@,
                ),
            Result::Err(_) => spec_new_type_failure(*input),
        },
{
    // Drop generic-parameter defaults for a remote derivation.
    let mut input_generics: Vec<GenericParam> = Vec::new();
    let mut i: usize = 0;
    while i < input.generics.len()
        invariant
            i <= input.generics@.len(),
            input_generics@.len() == i,
            forall|j: int|
                0 <= j < i ==> input_generics@[j] == spec_effective_generics(
                    input.generics@,
                    is_remote,
                )[j],
        decreases input.generics@.len() - i,
    {
        let p = match &input.generics[i] {
            GenericParam::TypeParam { ident, default } => GenericParam::TypeParam {
                ident: ident.clone(),
                default: if is_remote {
                    Option::None
                } else {
                    match default {
                        Option::Some(d) => Option::Some(d.clone()),
                        Option::None => Option::None,
                    }
                },
            },
            GenericParam::ConstParam { ident, ty } => GenericParam::ConstParam {
                ident: ident.clone(),
                ty: ty.clone(),
            },
            GenericParam::LifetimeParam { ident } => GenericParam::LifetimeParam {
                ident: ident.clone(),
            },
        };
        input_generics.push(p);
        i += 1;
    }
    proof {
        assert(input_generics@ =~= spec_effective_generics(input.generics@, is_remote));
    }
    // The mirror's name: the original's with the mirror suffix.
    let source_type = with_mirror_suffix(outer.target_type.as_str());
    let generic_vec = all_type_param_names(&input_generics);
    let (derive_attrs, new_attrs) = parse_attributes(&input.container_tokens)?;
    // Forwarded attributes: the declaration's other attributes, then those
    // named by `other` directives.
    let mut header_attrs: Vec<String> = Vec::new();
    let mut i: usize = 0;
    while i < input.other_attrs.len()
        invariant
            i <= input.other_attrs@.len(),
            header_attrs@ =~= input.other_attrs@.subrange(0, i as int),
        decreases input.other_attrs@.len() - i,
    {
        header_attrs.push(input.other_attrs[i].clone());
        i += 1;
        proof {
            assert(input.other_attrs@.subrange(0, i as int) =~= input.other_attrs@.subrange(
                0,
                i - 1,
            ).push(input.other_attrs@[i - 1]));
        }
    }
    let mut new_attrs = new_attrs;
    header_attrs.append(&mut new_attrs);
    let ghost gs = spec_effective_generics(input.generics@, is_remote);
    let ghost skip = spec_all_type_param_names(gs);
    proof {
        assert forall|j: int| 0 <= j < generic_vec@.len() implies (#[trigger] generic_vec@[j])@
            == skip[j]@ by {}
        assert(generic_vec@.len() == skip.len());
    }
    match &input.data {
        DataShape::Struct(data_struct) => {
            let text = parse_new_struct(
                data_struct,
                &outer.target_type,
                &source_type,
                &input_generics,
                &input.vis,
                &derive_attrs,
                &header_attrs,
                &generic_vec,
            )?;
            proof {
                let texts = choose|texts: Seq<String>|
                    #[trigger] spec_fields_decl_resolve(data_struct.fields@, generic_vec@, texts)
                        && text@ == spec_decl_header(outer.target_type@, derive_attrs@,
                        header_attrs@, input.vis) + "struct "@ + source_type@
                        + spec_impl_generics_text(input_generics@, Seq::empty()) + (
                    if data_struct.is_named {
                        " { "@ + spec_joined_texts(texts, texts.len() as int) + "}"@
                    } else {
                        "("@ + spec_joined_texts(texts, texts.len() as int) + ");"@
                    });
                let body = if data_struct.is_named {
                    " { "@ + spec_joined_texts(texts, texts.len() as int) + "}"@
                } else {
                    "("@ + spec_joined_texts(texts, texts.len() as int) + ");"@
                };
                assert(input_generics@ == gs);
                assert(text@ =~= spec_decl_header(outer.target_type@, derive_attrs@,
                    header_attrs@, input.vis) + "struct "@ + outer.target_type@
                    + spec_mirror_suffix() + spec_impl_generics_text(gs, Seq::empty()) + body);
                assert(spec_new_type_emits(outer.target_type@, *input, is_remote, derive_attrs@,
                    header_attrs@, body, text@));
            }
            Result::Ok(text)
        }
        DataShape::Enum(data_enum) => {
            let text = parse_new_enum(
                data_enum,
                &outer.target_type,
                &source_type,
                &input_generics,
                &input.vis,
                &derive_attrs,
                &header_attrs,
                &generic_vec,
            )?;
            proof {
                let vtexts = choose|vtexts: Seq<String>|
                    {
                        &&& vtexts.len() == data_enum.variants@.len()
                        &&& forall|i: int|
                            0 <= i < vtexts.len() ==> spec_variant_decl_resolves(
                                data_enum.variants@[i],
                                generic_vec@,
                                (#[trigger] vtexts[i])@,
                            )
                        &&& text@ == spec_decl_header(outer.target_type@, derive_attrs@,
                            header_attrs@, input.vis) + "enum "@ + source_type@
                            + spec_impl_generics_text(input_generics@, Seq::empty()) + " { "@
                            + spec_joined_texts(vtexts, vtexts.len() as int) + "}"@
                    };
                let body = " { "@ + spec_joined_texts(vtexts, vtexts.len() as int) + "}"@;
                assert(input_generics@ == gs);
                assert(text@ =~= spec_decl_header(outer.target_type@, derive_attrs@,
                    header_attrs@, input.vis) + "enum "@ + outer.target_type@
                    + spec_mirror_suffix() + spec_impl_generics_text(gs, Seq::empty()) + body);
                assert(spec_new_type_emits(outer.target_type@, *input, is_remote, derive_attrs@,
                    header_attrs@, body, text@));
            }
            Result::Ok(text)
        }
    }
}

} // verus!
