//! The conversion emitter: assembles the final paired conversion procedures
//! for a linked-source derivation, under the generic-parameter and
//! constraint machinery that lets a generic mirror convert generically.
//!
//! A non-generic declaration is emitted directly. A generic one gets one
//! constraint per corresponding parameter pair, stating that the target
//! parameter converts against the source parameter — named by an explicit
//! `generics` binding, or by the positional convenience of suffixing the
//! target parameter's name. A declaration marked `transmute` replaces both
//! structural bodies with a raw same-layout reinterpretation; that the two
//! layouts agree is the user's obligation, documented and not verified here.

use vstd::prelude::*;

use crate::decl::{spec_enum_parse_failure, spec_struct_parse_failure, DataShape, GenericParam,
    StructData, EnumData};
use crate::enums::{spec_enum_container_resolves, spec_enum_from_source, spec_enum_to_source,
    EnumContainer};
use crate::errors::DeriveError;
use crate::symbol::spec_has_symbol;
use crate::outer::{spec_attr_symbols, OuterContainer};
use crate::structs::{spec_struct_container_resolves, spec_struct_from_source,
    spec_struct_to_source, StructContainer};
use crate::type_attr::{spec_find_attr, TypeAttribute};

verus! {

/// A fully resolved derivation for a linked-source declaration: both
/// conversion bodies and the rendered generics machinery. Built once,
/// consumed by [`RedefinedContainer::finalize`]; never mutated.
pub struct RedefinedContainer {
    pub source_type: String,
    pub target_type: String,
    pub source_generics_tokens: String,
    pub target_generics: String,
    pub impl_generics_tokens: String,
    pub where_clause: Option<String>,
    pub to_source_tokens: String,
    pub from_source_tokens: String,
}

/// The two structural conversion bodies of a declaration.
pub struct TraitContainer {
    pub from_source: String,
    pub to_source: String,
}

/// The declaration-side text of one generic parameter; a type parameter
/// carries its default's text, as the declaration wrote it.
pub open spec fn spec_param_decl(p: GenericParam) -> Seq<char> {
    match p {
        GenericParam::TypeParam { ident, default } => match default {
            Option::Some(d) => ident@ + " = "@ + d@,
            Option::None => ident@,
        },
        GenericParam::ConstParam { ident, ty } => "const "@ + ident@ + ": "@ + ty@,
        GenericParam::LifetimeParam { ident } => "'"@ + ident@,
    }
}

/// The argument-side text of one generic parameter.
pub open spec fn spec_param_arg(p: GenericParam) -> Seq<char> {
    match p {
        GenericParam::TypeParam { ident, .. } => ident@,
        GenericParam::ConstParam { ident, .. } => ident@,
        GenericParam::LifetimeParam { ident } => "'"@ + ident@,
    }
}

/// The synthesized source-side names of the non-defaulted type parameters,
/// in order: the explicit binding's names where one is given, the target
/// parameter's name with an `R` appended otherwise.
pub open spec fn spec_source_names(gs: Seq<GenericParam>, binding: Option<Seq<String>>) -> Seq<
    Seq<char>,
>
    decreases gs.len(),
{
    if gs.len() == 0 {
        Seq::empty()
    } else {
        let rest = spec_source_names(gs.drop_last(), binding);
        match gs.last() {
            GenericParam::TypeParam { ident, default } => {
                if default is None {
                    rest.push(
                        match binding {
                            Option::Some(b) => if rest.len() < b.len() {
                                b[rest.len() as int]@
                            } else {
                                ident@ + "R"@
                            },
                            Option::None => ident@ + "R"@,
                        },
                    )
                } else {
                    rest
                }
            }
            _ => rest,
        }
    }
}

/// The argument list of the source type: lifetimes and const parameters
/// unchanged, non-defaulted type parameters replaced by their source-side
/// names, defaulted ones dropped.
pub open spec fn spec_source_args(gs: Seq<GenericParam>, binding: Option<Seq<String>>) -> Seq<
    Seq<char>,
>
    decreases gs.len(),
{
    if gs.len() == 0 {
        Seq::empty()
    } else {
        let rest = spec_source_args(gs.drop_last(), binding);
        match gs.last() {
            GenericParam::TypeParam { ident, default } => {
                if default is None {
                    rest.push(
                        match binding {
                            Option::Some(b) => if spec_source_names(gs.drop_last(), binding).len()
                                < b.len() {
                                b[spec_source_names(gs.drop_last(), binding).len() as int]@
                            } else {
                                ident@ + "R"@
                            },
                            Option::None => ident@ + "R"@,
                        },
                    )
                } else {
                    rest
                }
            }
            GenericParam::ConstParam { ident, .. } => rest.push(ident@),
            GenericParam::LifetimeParam { ident } => rest.push("'"@ + ident@),
        }
    }
}

/// The concatenated declarations of the first `k` parameters, each followed
/// by a comma.
pub open spec fn spec_param_decls(gs: Seq<GenericParam>, k: int) -> Seq<char>
    decreases k,
{
    if k <= 0 {
        Seq::empty()
    } else {
        spec_param_decls(gs, k - 1) + spec_param_decl(gs[k - 1]) + ", "@
    }
}

/// The concatenated arguments of the first `k` parameters, each followed by
/// a comma.
pub open spec fn spec_param_args(gs: Seq<GenericParam>, k: int) -> Seq<char>
    decreases k,
{
    if k <= 0 {
        Seq::empty()
    } else {
        spec_param_args(gs, k - 1) + spec_param_arg(gs[k - 1]) + ", "@
    }
}

/// The concatenation of the first `k` names, each followed by a comma.
pub open spec fn spec_name_list(names: Seq<Seq<char>>, k: int) -> Seq<char>
    decreases k,
{
    if k <= 0 {
        Seq::empty()
    } else {
        spec_name_list(names, k - 1) + names[k - 1] + ", "@
    }
}

/// The impl-side generic parameter list: the declaration's own parameters
/// followed by the synthesized source type parameters.
pub open spec fn spec_impl_generics_text(
    gs: Seq<GenericParam>,
    srcs: Seq<Seq<char>>,
) -> Seq<char> {
    if gs.len() == 0 && srcs.len() == 0 {
        Seq::empty()
    } else {
        "<"@ + spec_param_decls(gs, gs.len() as int) + spec_name_list(srcs, srcs.len() as int)
            + ">"@
    }
}

/// The target type's generic argument list.
pub open spec fn spec_target_generics_text(gs: Seq<GenericParam>) -> Seq<char> {
    if gs.len() == 0 {
        Seq::empty()
    } else {
        "<"@ + spec_param_args(gs, gs.len() as int) + ">"@
    }
}

/// The source type's generic argument list.
pub open spec fn spec_source_generics_text(
    gs: Seq<GenericParam>,
    binding: Option<Seq<String>>,
) -> Seq<char> {
    if gs.len() == 0 {
        Seq::empty()
    } else {
        "<"@ + spec_name_list(
            spec_source_args(gs, binding),
            spec_source_args(gs, binding).len() as int,
        ) + ">"@
    }
}

/// The constraint clause: one conversion bound per corresponding pair of
/// target and source type parameters.
pub open spec fn spec_where_pairs(
    targets: Seq<Seq<char>>,
    sources: Seq<Seq<char>>,
    k: int,
) -> Seq<char>
    decreases k,
{
    if k <= 0 {
        Seq::empty()
    } else {
        spec_where_pairs(targets, sources, k - 1) + targets[k - 1]
            + ": redefined::RedefinedConvert<"@ + sources[k - 1] + ">, "@
    }
}

/// The names of the non-defaulted type parameters, in order.
pub open spec fn spec_target_names(gs: Seq<GenericParam>) -> Seq<Seq<char>>
    decreases gs.len(),
{
    if gs.len() == 0 {
        Seq::empty()
    } else {
        let rest = spec_target_names(gs.drop_last());
        match gs.last() {
            GenericParam::TypeParam { ident, default } => if default is None {
                rest.push(ident@)
            } else {
                rest
            },
            _ => rest,
        }
    }
}

/// The full constraint clause text, or nothing for a declaration without
/// non-defaulted type parameters.
pub open spec fn spec_where_clause_text(
    gs: Seq<GenericParam>,
    binding: Option<Seq<String>>,
) -> Option<Seq<char>> {
    let targets = spec_target_names(gs);
    if targets.len() == 0 {
        Option::None
    } else {
        Option::Some(
            "where "@ + spec_where_pairs(
                targets,
                spec_source_names(gs, binding),
                targets.len() as int,
            ),
        )
    }
}

/// The generic binding named by a `generics` directive, if one is present.
pub open spec fn spec_generic_binding(attrs: Seq<TypeAttribute>) -> Option<Seq<String>> {
    match spec_find_attr(attrs, "generics"@) {
        Option::Some(attr) => match attr.list_idents {
            Option::Some(l) => Option::Some(l@),
            Option::None => Option::None,
        },
        Option::None => Option::None,
    }
}

/// The raw-reinterpretation forward body for a source type text.
pub open spec fn spec_raw_from_source(source_with_generics: Seq<char>) -> Seq<char> {
    "core::mem::transmute::<"@ + source_with_generics + ", Self>(src)"@
}

/// The raw-reinterpretation backward body for a source type text.
pub open spec fn spec_raw_to_source(source_with_generics: Seq<char>) -> Seq<char> {
    "core::mem::transmute::<Self, "@ + source_with_generics + ">(self)"@
}

/// The rendered generics machinery of one derivation.
pub struct GenericsPlan {
    pub impl_generics: String,
    pub target_generics: String,
    pub source_generics: String,
    pub where_clause: Option<String>,
}

/// Whether a plan renders the generics machinery of `gs` under `binding`.
pub open spec fn spec_generics_plan_resolves(
    plan: GenericsPlan,
    gs: Seq<GenericParam>,
    binding: Option<Seq<String>>,
) -> bool {
    &&& plan.impl_generics@ == spec_impl_generics_text(gs, spec_source_names(gs, binding))
    &&& plan.target_generics@ == spec_target_generics_text(gs)
    &&& plan.source_generics@ == spec_source_generics_text(gs, binding)
    &&& match (plan.where_clause, spec_where_clause_text(gs, binding)) {
        (Option::Some(w), Option::Some(t)) => w@ == t,
        (Option::None, Option::None) => true,
        _ => false,
    }
}

/// Renders the generic-parameter and constraint machinery: the impl
/// parameter list, the two argument lists, and the constraint clause pairing
/// each target type parameter with its source counterpart. An explicit
/// binding must name exactly as many parameters as the declaration has
/// non-defaulted type parameters.
pub fn build_generics_with_where_clause(
    ty_generics: &Vec<GenericParam>,
    binding: Option<&Vec<String>>,
) -> (r: Result<GenericsPlan, DeriveError>)
    ensures
        match r {
            Result::Ok(plan) => {
                &&& spec_generics_plan_resolves(
                    plan,
                    ty_generics@,
                    match binding {
                        Option::Some(b) => Option::Some(b@),
                        Option::None => Option::None,
                    },
                )
                &&& match binding {
                    Option::Some(b) => b@.len() == spec_target_names(ty_generics@).len(),
                    Option::None => true,
                }
            },
            Result::Err(e) => e matches DeriveError::GenericArityMismatch { expected, found }
                && match binding {
                Option::Some(b) => expected == spec_target_names(ty_generics@).len() && found
                    == b@.len() && b@.len() != spec_target_names(ty_generics@).len(),
                Option::None => false,
            },
        },
{
    let ghost binding_view: Option<Seq<String>> = match binding {
        Option::Some(b) => Option::Some(b@),
        Option::None => Option::None,
    };
    // One pass: the target and source names of the non-defaulted type
    // parameters, and the source type's full argument list.
    let mut targets: Vec<String> = Vec::new();
    let mut sources: Vec<String> = Vec::new();
    let mut args: Vec<String> = Vec::new();
    let mut i: usize = 0;
    while i < ty_generics.len()
        invariant
            binding_view == (match binding {
                Option::Some(b) => Option::Some(b@),
                Option::None => Option::<Seq<String>>::None,
            }),
            i <= ty_generics@.len(),
            targets@.len() == spec_target_names(ty_generics@.subrange(0, i as int)).len(),
            forall|j: int|
                0 <= j < targets@.len() ==> (#[trigger] targets@[j])@ == spec_target_names(
                    ty_generics@.subrange(0, i as int),
                )[j],
            sources@.len() == spec_source_names(
                ty_generics@.subrange(0, i as int),
                binding_view,
            ).len(),
            forall|j: int|
                0 <= j < sources@.len() ==> (#[trigger] sources@[j])@ == spec_source_names(
                    ty_generics@.subrange(0, i as int),
                    binding_view,
                )[j],
            targets@.len() == sources@.len(),
            args@.len() == spec_source_args(
                ty_generics@.subrange(0, i as int),
                binding_view,
            ).len(),
            forall|j: int|
                0 <= j < args@.len() ==> (#[trigger] args@[j])@ == spec_source_args(
                    ty_generics@.subrange(0, i as int),
                    binding_view,
                )[j],
        decreases ty_generics@.len() - i,
    {
        let ghost pre = ty_generics@.subrange(0, i as int);
        match &ty_generics[i] {
            GenericParam::TypeParam { ident, default } => {
                if default.is_none() {
                    targets.push(ident.clone());
                    let source_name = match binding {
                        Option::Some(b) => {
                            if sources.len() < b.len() {
                                b[sources.len()].clone()
                            } else {
                                let mut n = ident.clone();
                                n.append("R");
                                n
                            }
                        }
                        Option::None => {
                            let mut n = ident.clone();
                            n.append("R");
                            n
                        }
                    };
                    args.push(source_name.clone());
                    sources.push(source_name);
                }
            }
            GenericParam::ConstParam { ident, .. } => {
                args.push(ident.clone());
            }
            GenericParam::LifetimeParam { ident } => {
                let mut n = String::new();
                n.append("'");
                n.append(ident.as_str());
                args.push(n);
            }
        }
        i += 1;
        proof {
            let post = ty_generics@.subrange(0, i as int);
            assert(post.drop_last() =~= pre);
            assert(post.last() == ty_generics@[i - 1]);
        }
    }
    proof {
        assert(ty_generics@.subrange(0, ty_generics@.len() as int) =~= ty_generics@);
    }
    // An explicit binding must be 1:1 with the type parameters.
    match binding {
        Option::Some(b) => {
            if b.len() != targets.len() {
                return Result::Err(
                    DeriveError::GenericArityMismatch { expected: targets.len(), found: b.len() },
                );
            }
        }
        Option::None => {}
    }
    // Render the impl-side parameter list.
    let mut impl_generics = String::new();
    if ty_generics.len() > 0 || sources.len() > 0 {
        impl_generics.append("<");
        let mut i: usize = 0;
        while i < ty_generics.len()
            invariant
                i <= ty_generics@.len(),
                impl_generics@ == "<"@ + spec_param_decls(ty_generics@, i as int),
            decreases ty_generics@.len() - i,
        {
            match &ty_generics[i] {
                GenericParam::TypeParam { ident, default } => {
                    impl_generics.append(ident.as_str());
                    match default {
                        Option::Some(d) => {
                            impl_generics.append(" = ");
                            impl_generics.append(d.as_str());
                        }
                        Option::None => {}
                    }
                }
                GenericParam::ConstParam { ident, ty } => {
                    impl_generics.append("const ");
                    impl_generics.append(ident.as_str());
                    impl_generics.append(": ");
                    impl_generics.append(ty.as_str());
                }
                GenericParam::LifetimeParam { ident } => {
                    impl_generics.append("'");
                    impl_generics.append(ident.as_str());
                }
            }
            impl_generics.append(", ");
            i += 1;
        }
        let ghost mid = impl_generics@;
        let ghost srcs = spec_source_names(ty_generics@, binding_view);
        let mut i: usize = 0;
        while i < sources.len()
            invariant
                i <= sources@.len(),
                impl_generics@ == mid + spec_name_list(srcs, i as int),
                sources@.len() == srcs.len(),
                forall|j: int| 0 <= j < sources@.len() ==> (#[trigger] sources@[j])@ == srcs[j],
            decreases sources@.len() - i,
        {
            impl_generics.append(sources[i].as_str());
            impl_generics.append(", ");
            i += 1;
        }
        impl_generics.append(">");
    }
    // Render the target type's argument list.
    let mut target_generics = String::new();
    if ty_generics.len() > 0 {
        target_generics.append("<");
        let mut i: usize = 0;
        while i < ty_generics.len()
            invariant
                i <= ty_generics@.len(),
                target_generics@ == "<"@ + spec_param_args(ty_generics@, i as int),
            decreases ty_generics@.len() - i,
        {
            match &ty_generics[i] {
                GenericParam::TypeParam { ident, .. } => {
                    target_generics.append(ident.as_str());
                }
                GenericParam::ConstParam { ident, .. } => {
                    target_generics.append(ident.as_str());
                }
                GenericParam::LifetimeParam { ident } => {
                    target_generics.append("'");
                    target_generics.append(ident.as_str());
                }
            }
            target_generics.append(", ");
            i += 1;
        }
        target_generics.append(">");
    }
    // Render the source type's argument list.
    let mut source_generics = String::new();
    if ty_generics.len() > 0 {
        source_generics.append("<");
        let ghost sargs = spec_source_args(ty_generics@, binding_view);
        let mut i: usize = 0;
        while i < args.len()
            invariant
                i <= args@.len(),
                source_generics@ == "<"@ + spec_name_list(sargs, i as int),
                args@.len() == sargs.len(),
                forall|j: int| 0 <= j < args@.len() ==> (#[trigger] args@[j])@ == sargs[j],
            decreases args@.len() - i,
        {
            source_generics.append(args[i].as_str());
            source_generics.append(", ");
            i += 1;
        }
        source_generics.append(">");
    }
    // Render the constraint clause.
    let where_clause = if targets.len() == 0 {
        Option::None
    } else {
        let mut w = String::new();
        w.append("where ");
        let ghost tnames = spec_target_names(ty_generics@);
        let ghost snames = spec_source_names(ty_generics@, binding_view);
        let mut i: usize = 0;
        while i < targets.len()
            invariant
                i <= targets@.len(),
                w@ == "where "@ + spec_where_pairs(tnames, snames, i as int),
                targets@.len() == tnames.len(),
                sources@.len() == snames.len(),
                targets@.len() == sources@.len(),
                forall|j: int| 0 <= j < targets@.len() ==> (#[trigger] targets@[j])@ == tnames[j],
                forall|j: int| 0 <= j < sources@.len() ==> (#[trigger] sources@[j])@ == snames[j],
            decreases targets@.len() - i,
        {
            w.append(targets[i].as_str());
            w.append(": redefined::RedefinedConvert<");
            w.append(sources[i].as_str());
            w.append(">, ");
            i += 1;
        }
        Option::Some(w)
    };
    Result::Ok(GenericsPlan { impl_generics, target_generics, source_generics, where_clause })
}


/// The override expression of the named container directive, if one is
/// present with a value.
pub open spec fn spec_override_expr(attrs: Seq<TypeAttribute>, name: Seq<char>) -> Option<String> {
    match spec_find_attr(attrs, name) {
        Option::Some(attr) => attr.nv_tokens,
        Option::None => Option::None,
    }
}

/// Whether `t` is a structural forward body for the declared data.
pub open spec fn spec_structural_from(
    data: DataShape,
    source_type: Seq<char>,
    target_type: Seq<char>,
    t: Seq<char>,
) -> bool {
    match data {
        DataShape::Struct(sd) => exists|c: StructContainer|
            #[trigger] spec_struct_container_resolves(c, sd) && t == spec_struct_from_source(c),
        DataShape::Enum(ed) => exists|c: EnumContainer|
            #[trigger] spec_enum_container_resolves(c, ed) && t == spec_enum_from_source(
                c,
                source_type,
                target_type,
            ),
    }
}

/// Whether `t` is a structural backward body for the declared data.
pub open spec fn spec_structural_to(
    data: DataShape,
    source_type: Seq<char>,
    target_type: Seq<char>,
    t: Seq<char>,
) -> bool {
    match data {
        DataShape::Struct(sd) => exists|c: StructContainer|
            #[trigger] spec_struct_container_resolves(c, sd) && t == spec_struct_to_source(
                c,
                source_type,
            ),
        DataShape::Enum(ed) => exists|c: EnumContainer|
            #[trigger] spec_enum_container_resolves(c, ed) && t == spec_enum_to_source(
                c,
                source_type,
                target_type,
            ),
    }
}

impl TraitContainer {
    /// The two structural conversion bodies of a record declaration.
    pub fn from_struct(data_struct: &StructData, source_type: &str) -> (r: Result<
        TraitContainer,
        DeriveError,
    >)
        ensures
            match r {
                Result::Ok(t) => exists|c: StructContainer|
                    #[trigger] spec_struct_container_resolves(c, *data_struct) && t.from_source@
                        == spec_struct_from_source(c) && t.to_source@ == spec_struct_to_source(
                        c,
                        source_type@,
                    ),
                Result::Err(_) => spec_struct_parse_failure(*data_struct),
            },
    {
        let container = StructContainer::parse_new(data_struct)?;
        let from_source = container.from_source_tokens();
        let to_source = container.to_source_tokens(source_type);
        Result::Ok(TraitContainer { from_source, to_source })
    }

    /// The two structural conversion bodies of a tagged-union declaration.
    pub fn from_enum(enum_struct: &EnumData, source_type: &str, target_type: &str) -> (r: Result<
        TraitContainer,
        DeriveError,
    >)
        ensures
            match r {
                Result::Ok(t) => exists|c: EnumContainer|
                    #[trigger] spec_enum_container_resolves(c, *enum_struct) && t.from_source@
                        == spec_enum_from_source(c, source_type@, target_type@) && t.to_source@
                        == spec_enum_to_source(c, source_type@, target_type@),
                Result::Err(_) => spec_enum_parse_failure(*enum_struct),
            },
    {
        let container = EnumContainer::parse_new(enum_struct)?;
        let from_source = container.from_source_tokens(source_type, target_type);
        let to_source = container.to_source_tokens(source_type, target_type);
        Result::Ok(TraitContainer { from_source, to_source })
    }
}

/// Whether `rc` is the resolved derivation of a linked-source declaration:
/// its names and generics machinery are rendered from the declaration, and
/// each conversion body is the raw reinterpretation, the declared override
/// expression, or the structural body, in that order of precedence.
pub open spec fn spec_container_resolved(
    attrs: Seq<TypeAttribute>,
    source: Seq<char>,
    target: Seq<char>,
    data: DataShape,
    generics: Seq<GenericParam>,
    rc: RedefinedContainer,
) -> bool {
    let b = spec_generic_binding(attrs);
    let st_gen = source + spec_source_generics_text(generics, b);
    &&& rc.target_type@ == target
    &&& rc.source_type@ == source
    &&& rc.impl_generics_tokens@ == spec_impl_generics_text(
        generics,
        spec_source_names(generics, b),
    )
    &&& rc.target_generics@ == spec_target_generics_text(generics)
    &&& rc.source_generics_tokens@ == spec_source_generics_text(generics, b)
    &&& match (rc.where_clause, spec_where_clause_text(generics, b)) {
        (Option::Some(w), Option::Some(t)) => w@ == t,
        (Option::None, Option::None) => true,
        _ => false,
    }
    &&& if spec_find_attr(attrs, "transmute"@) is Some {
        &&& rc.from_source_tokens@ == spec_raw_from_source(st_gen)
        &&& rc.to_source_tokens@ == spec_raw_to_source(st_gen)
    } else {
        &&& match spec_override_expr(attrs, "from_source"@) {
            Option::Some(e) => rc.from_source_tokens@ == e@,
            Option::None => spec_structural_from(data, source, target, rc.from_source_tokens@),
        }
        &&& match spec_override_expr(attrs, "to_source"@) {
            Option::Some(e) => rc.to_source_tokens@ == e@,
            Option::None => spec_structural_to(data, source, target, rc.to_source_tokens@),
        }
    }
}

/// Why resolving a linked-source derivation can fail: a structural body was
/// needed and its fields fail to resolve, a conversion override lacks its
/// expression, or an explicit generic binding has the wrong arity.
pub open spec fn spec_sub_containers_failure(
    attrs: Seq<TypeAttribute>,
    data: DataShape,
    generics: Seq<GenericParam>,
) -> bool {
    ||| (!(spec_has_symbol(spec_attr_symbols(attrs), "to_source"@) && spec_has_symbol(
        spec_attr_symbols(attrs),
        "from_source"@,
    )) && match data {
        DataShape::Struct(sd) => spec_struct_parse_failure(sd),
        DataShape::Enum(ed) => spec_enum_parse_failure(ed),
    })
    ||| (spec_find_attr(attrs, "to_source"@) matches Option::Some(a) && a.nv_tokens is None)
    ||| (spec_find_attr(attrs, "from_source"@) matches Option::Some(a) && a.nv_tokens is None)
    ||| (spec_generic_binding(attrs) matches Option::Some(b) && b.len() != spec_target_names(
        generics,
    ).len())
}

impl RedefinedContainer {
    /// Resolves a linked-source derivation: the structural bodies (unless
    /// both directions are overridden), the individual override expressions,
    /// the raw-reinterpretation replacement, and the generics machinery. A
    /// failure means the declaration itself is at fault, never the inputs'
    /// arrangement: some directive or field fails as
    /// [`spec_sub_containers_failure`] says.
    pub fn parse_sub_containers(
        outer: OuterContainer,
        input_data: &DataShape,
        input_generics: &Vec<GenericParam>,
    ) -> (r: Result<RedefinedContainer, DeriveError>)
        requires
            outer.source_type is Some,
        ensures
            match r {
                Result::Ok(rc) => spec_container_resolved(
                    outer.container_attrs@,
                    outer.source_type->0@,
                    outer.target_type@,
                    *input_data,
                    input_generics@,
                    rc,
                ),
                Result::Err(_) => spec_sub_containers_failure(
                    outer.container_attrs@,
                    *input_data,
                    input_generics@,
                ),
            },
    {
        proof {
            reveal_strlit("to_source");
            reveal_strlit("from_source");
        }
        let source_type = match &outer.source_type {
            Option::Some(st) => st.clone(),
            Option::None => {
                return Result::Err(DeriveError::MissingLinkedSource);
            }
        };
        // Structural bodies, unless both directions are overridden.
        let (mut to_source_tokens, mut from_source_tokens) = if outer.should_parse_fields() {
            let trait_container = match input_data {
                DataShape::Struct(data_struct) => {
                    match TraitContainer::from_struct(data_struct, source_type.as_str()) {
                        Result::Ok(t) => t,
                        Result::Err(e) => {
                            return Result::Err(e);
                        }
                    }
                }
                DataShape::Enum(data_enum) => {
                    match TraitContainer::from_enum(
                        data_enum,
                        source_type.as_str(),
                        outer.target_type.as_str(),
                    ) {
                        Result::Ok(t) => t,
                        Result::Err(e) => {
                            return Result::Err(e);
                        }
                    }
                }
            };
            (trait_container.to_source, trait_container.from_source)
        } else {
            (String::new(), String::new())
        };
        // Individual override expressions.
        match outer.get_symbol("to_source") {
            Option::Some(attr) => match &attr.nv_tokens {
                Option::Some(e) => {
                    to_source_tokens = e.clone();
                }
                Option::None => {
                    return Result::Err(
                        DeriveError::MalformedOverrideExpression {
                            directive: "to_source".to_owned(),
                        },
                    );
                }
            },
            Option::None => {}
        }
        match outer.get_symbol("from_source") {
            Option::Some(attr) => match &attr.nv_tokens {
                Option::Some(e) => {
                    from_source_tokens = e.clone();
                }
                Option::None => {
                    return Result::Err(
                        DeriveError::MalformedOverrideExpression {
                            directive: "from_source".to_owned(),
                        },
                    );
                }
            },
            Option::None => {}
        }
        // The generics machinery, under an explicit binding if one is given.
        let binding: Option<&Vec<String>> = match outer.get_symbol("generics") {
            Option::Some(attr) => match &attr.list_idents {
                Option::Some(l) => Option::Some(l),
                Option::None => Option::None,
            },
            Option::None => Option::None,
        };
        let plan = match build_generics_with_where_clause(input_generics, binding) {
            Result::Ok(plan) => plan,
            Result::Err(e) => {
                return Result::Err(e);
            }
        };
        // Raw reinterpretation replaces both bodies.
        if outer.get_symbol("transmute").is_some() {
            let mut st_gen = source_type.clone();
            st_gen.append(plan.source_generics.as_str());
            let mut f = String::new();
            f.append("core::mem::transmute::<");
            f.append(st_gen.as_str());
            f.append(", Self>(src)");
            from_source_tokens = f;
            let mut t = String::new();
            t.append("core::mem::transmute::<Self, ");
            t.append(st_gen.as_str());
            t.append(">(self)");
            to_source_tokens = t;
        }
        Result::Ok(
            RedefinedContainer {
                source_type,
                target_type: outer.target_type,
                source_generics_tokens: plan.source_generics,
                target_generics: plan.target_generics,
                impl_generics_tokens: plan.impl_generics,
                where_clause: plan.where_clause,
                to_source_tokens,
                from_source_tokens,
            },
        )
    }
}

/// The rendered constraint clause, followed by a space, or nothing.
pub open spec fn spec_where_text(w: Option<String>) -> Seq<char> {
    match w {
        Option::Some(s) => s@ + " "@,
        Option::None => Seq::empty(),
    }
}

/// The full emitted artifact of a linked-source derivation: the conversion
/// implementation and the two conventional directional-conversion wrappers.
pub open spec fn spec_finalize(c: RedefinedContainer) -> Seq<char> {
    let st = c.source_type@ + c.source_generics_tokens@;
    let tt = c.target_type@ + c.target_generics@;
    let ig = c.impl_generics_tokens@;
    let wc = spec_where_text(c.where_clause);
    "impl "@ + ig + " redefined::RedefinedConvert<"@ + st + "> for "@ + tt + " "@ + wc
        + "{ fn from_source(src: "@ + st + ") -> Self { "@ + c.from_source_tokens@
        + " } fn to_source(self) -> "@ + st + " { "@ + c.to_source_tokens@ + " } } "@ + "impl "@
        + ig + " From<"@ + st + "> for "@ + tt + " "@ + wc + "{ fn from(src: "@ + st
        + ") -> Self { redefined::RedefinedConvert::from_source(src) } } "@ + "impl "@ + ig
        + " Into<"@ + st + "> for "@ + tt + " "@ + wc + "{ fn into(self) -> "@ + st
        + " { redefined::RedefinedConvert::to_source(self) } }"@
}

impl RedefinedContainer {
    /// Emits the final artifact: the conversion implementation under its
    /// generics machinery, and the paired directional-conversion wrappers.
    pub fn finalize(&self) -> (r: String)
        ensures
            r@ == spec_finalize(*self),
    {
        let mut st = self.source_type.clone();
        st.append(self.source_generics_tokens.as_str());
        let mut tt = self.target_type.clone();
        tt.append(self.target_generics.as_str());
        let mut wc = String::new();
        match &self.where_clause {
            Option::Some(w) => {
                wc.append(w.as_str());
                wc.append(" ");
            }
            Option::None => {}
        }
        let mut out = String::new();
        out.append("impl ");
        out.append(self.impl_generics_tokens.as_str());
        out.append(" redefined::RedefinedConvert<");
        out.append(st.as_str());
        out.append("> for ");
        out.append(tt.as_str());
        out.append(" ");
        out.append(wc.as_str());
        out.append("{ fn from_source(src: ");
        out.append(st.as_str());
        out.append(") -> Self { ");
        out.append(self.from_source_tokens.as_str());
        out.append(" } fn to_source(self) -> ");
        out.append(st.as_str());
        out.append(" { ");
        out.append(self.to_source_tokens.as_str());
        out.append(" } } ");
        out.append("impl ");
        out.append(self.impl_generics_tokens.as_str());
        out.append(" From<");
        out.append(st.as_str());
        out.append("> for ");
        out.append(tt.as_str());
        out.append(" ");
        out.append(wc.as_str());
        out.append("{ fn from(src: ");
        out.append(st.as_str());
        out.append(") -> Self { redefined::RedefinedConvert::from_source(src) } } ");
        out.append("impl ");
        out.append(self.impl_generics_tokens.as_str());
        out.append(" Into<");
        out.append(st.as_str());
        out.append("> for ");
        out.append(tt.as_str());
        out.append(" ");
        out.append(wc.as_str());
        out.append("{ fn into(self) -> ");
        out.append(st.as_str());
        out.append(" { redefined::RedefinedConvert::to_source(self) } }");
        out
    }
}

} // verus!
