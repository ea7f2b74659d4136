//! Type expressions and the type-reference rewriter.
//!
//! A field's type is a finite tree; the rewriter substitutes the leaf
//! identifiers that need mirroring, skipping declared generic parameters,
//! the base-type table, and identifiers that already carry the mirror
//! suffix, and descends into arrays, slices, references, tuples and
//! generic-argument lists. Unsupported shapes fail loudly.

use vstd::prelude::*;

use crate::errors::{DeriveError, UnsupportedKind};
use crate::primitives::{is_simple_primitive, spec_is_simple_primitive};
use crate::text::{has_mirror_suffix, lemma_with_suffix_has_suffix, spec_has_mirror_suffix,
    spec_mirror_suffix, str_eq, with_mirror_suffix};

verus! {

/// A field's type expression.
#[derive(Debug, PartialEq, Eq)]
pub enum TypeExpr {
    /// A plain named type with no generic arguments.
    Named { name: String },
    /// A fixed-size array; the length is a literal or const-parameter name,
    /// kept verbatim.
    Array { elem: Box<TypeExpr>, len: String },
    /// A shared reference, with its lifetime name if one is written.
    Reference { lifetime: Option<String>, elem: Box<TypeExpr> },
    /// A slice.
    Slice { elem: Box<TypeExpr> },
    /// A tuple.
    Tuple { elems: Vec<TypeExpr> },
    /// A named type applied to generic arguments.
    GenericApplication { name: String, args: Vec<TypeExpr> },
    /// A shape the rewriter refuses: rewriting it is a hard failure.
    Unsupported { kind: UnsupportedKind },
}

/// One entry of a per-field type override map: occurrences of `source` are
/// replaced by `target`, or kept as they are when `target` is the sentinel
/// `same`.
#[derive(Debug, Clone, PartialEq, Eq)]
pub struct TypeMapEntry {
    pub source: String,
    pub target: String,
}

/// The first override entry for `name`, if any.
pub open spec fn spec_find_override(ov: Seq<TypeMapEntry>, name: Seq<char>) -> Option<TypeMapEntry>
    decreases ov.len(),
{
    if ov.len() == 0 {
        Option::None
    } else if ov[0].source@ == name {
        Option::Some(ov[0])
    } else {
        spec_find_override(ov.subrange(1, ov.len() as int), name)
    }
}

/// Whether `name` is one of the declared generic parameters to skip.
pub open spec fn spec_skip_contains(skip: Seq<String>, name: Seq<char>) -> bool {
    exists|i: int| 0 <= i < skip.len() && skip[i]@ == name
}

/// What a leaf identifier rewrites to. An explicit override wins; otherwise
/// base types, skipped generic parameters and names already carrying the
/// mirror suffix are kept, and any other identifier gets the mirror suffix
/// when the default policy permits it.
pub open spec fn spec_rewritten_leaf(
    name: Seq<char>,
    ov: Seq<TypeMapEntry>,
    skip: Seq<String>,
    policy: bool,
) -> Seq<char> {
    match spec_find_override(ov, name) {
        Option::Some(entry) => {
            if entry.target@ == "same"@ {
                name
            } else {
                entry.target@
            }
        }
        Option::None => {
            if spec_is_simple_primitive(name) || spec_skip_contains(skip, name)
                || spec_has_mirror_suffix(name) || !policy {
                name
            } else {
                name + spec_mirror_suffix()
            }
        }
    }
}

/// What the base identifier of a generic application rewrites to: it is kept
/// unless it independently matches an override.
pub open spec fn spec_rewritten_base(name: Seq<char>, ov: Seq<TypeMapEntry>) -> Seq<char> {
    match spec_find_override(ov, name) {
        Option::Some(entry) => {
            if entry.target@ == "same"@ {
                name
            } else {
                entry.target@
            }
        }
        Option::None => name,
    }
}

/// Whether every node of `t` is a shape the rewriter handles.
pub open spec fn spec_type_supported(t: TypeExpr) -> bool
    decreases t,
{
    match t {
        TypeExpr::Named { .. } => true,
        TypeExpr::Array { elem, .. } => spec_type_supported(*elem),
        TypeExpr::Reference { elem, .. } => spec_type_supported(*elem),
        TypeExpr::Slice { elem } => spec_type_supported(*elem),
        TypeExpr::Tuple { elems } => forall|i: int|
            0 <= i < elems.len() ==> spec_type_supported(#[trigger] elems[i]),
        TypeExpr::GenericApplication { args, .. } => forall|i: int|
            0 <= i < args.len() ==> spec_type_supported(#[trigger] args[i]),
        TypeExpr::Unsupported { .. } => false,
    }
}

/// The rewrite relation: `u` is the result of rewriting `t` under the given
/// overrides, skipped generic parameters and default policy.
pub open spec fn rewrites_to(
    t: TypeExpr,
    ov: Seq<TypeMapEntry>,
    skip: Seq<String>,
    policy: bool,
    u: TypeExpr,
) -> bool
    decreases t,
{
    match t {
        TypeExpr::Named { name } => match u {
            TypeExpr::Named { name: rewritten } => rewritten@ == spec_rewritten_leaf(
                name@,
                ov,
                skip,
                policy,
            ),
            _ => false,
        },
        TypeExpr::Array { elem, len } => match u {
            TypeExpr::Array { elem: relem, len: rlen } => rlen@ == len@ && rewrites_to(
                *elem,
                ov,
                skip,
                policy,
                *relem,
            ),
            _ => false,
        },
        TypeExpr::Reference { lifetime, elem } => match u {
            TypeExpr::Reference { lifetime: rlt, elem: relem } => {
                &&& match (lifetime, rlt) {
                    (Option::None, Option::None) => true,
                    (Option::Some(a), Option::Some(b)) => a@ == b@,
                    _ => false,
                }
                &&& rewrites_to(*elem, ov, skip, policy, *relem)
            }
            _ => false,
        },
        TypeExpr::Slice { elem } => match u {
            TypeExpr::Slice { elem: relem } => rewrites_to(*elem, ov, skip, policy, *relem),
            _ => false,
        },
        TypeExpr::Tuple { elems } => match u {
            TypeExpr::Tuple { elems: relems } => {
                &&& relems.len() == elems.len()
                &&& forall|i: int|
                    0 <= i < elems.len() ==> rewrites_to(
                        #[trigger] elems[i],
                        ov,
                        skip,
                        policy,
                        relems[i],
                    )
            }
            _ => false,
        },
        TypeExpr::GenericApplication { name, args } => match u {
            TypeExpr::GenericApplication { name: rname, args: rargs } => {
                &&& rname@ == spec_rewritten_base(name@, ov)
                &&& rargs.len() == args.len()
                &&& forall|i: int|
                    0 <= i < args.len() ==> rewrites_to(
                        #[trigger] args[i],
                        ov,
                        skip,
                        policy,
                        rargs[i],
                    )
            }
            _ => false,
        },
        TypeExpr::Unsupported { .. } => false,
    }
}

/// The first override entry for `name`, if any.
fn find_override<'a>(ov: &'a Vec<TypeMapEntry>, name: &str) -> (r: Option<&'a TypeMapEntry>)
    ensures
        match r {
            Option::Some(entry) => spec_find_override(ov@, name@) == Option::Some(*entry),
            Option::None => spec_find_override(ov@, name@) is None,
        },
{
    let mut i: usize = 0;
    proof {
        assert(ov@.subrange(0, ov@.len() as int) =~= ov@);
    }
    while i < ov.len()
        invariant
            i <= ov@.len(),
            spec_find_override(ov@, name@) == spec_find_override(
                ov@.subrange(i as int, ov@.len() as int),
                name@,
            ),
        decreases ov@.len() - i,
    {
        let ghost pre = ov@.subrange(i as int, ov@.len() as int);
        if str_eq(ov[i].source.as_str(), name) {
            return Option::Some(&ov[i]);
        }
        proof {
            assert(pre.subrange(1, pre.len() as int) =~= ov@.subrange(
                i + 1,
                ov@.len() as int,
            ));
        }
        i += 1;
    }
    Option::None
}

/// Whether `name` is one of the declared generic parameters to skip.
fn skip_contains(skip: &Vec<String>, name: &str) -> (r: bool)
    ensures
        r == spec_skip_contains(skip@, name@),
{
    let mut i: usize = 0;
    while i < skip.len()
        invariant
            i <= skip@.len(),
            forall|j: int| 0 <= j < i ==> skip@[j]@ != name@,
        decreases skip@.len() - i,
    {
        if str_eq(skip[i].as_str(), name) {
            return true;
        }
        i += 1;
    }
    false
}

/// Rewrites one leaf identifier.
fn rewrite_leaf(name: &str, ov: &Vec<TypeMapEntry>, skip: &Vec<String>, policy: bool) -> (r:
    String)
    ensures
        r@ == spec_rewritten_leaf(name@, ov@, skip@, policy),
{
    match find_override(ov, name) {
        Option::Some(entry) => {
            if str_eq(entry.target.as_str(), "same") {
                name.to_owned()
            } else {
                entry.target.clone()
            }
        }
        Option::None => {
            if is_simple_primitive(name) || skip_contains(skip, name) || has_mirror_suffix(name)
                || !policy {
                name.to_owned()
            } else {
                with_mirror_suffix(name)
            }
        }
    }
}

/// Rewrites the base identifier of a generic application.
fn rewrite_base(name: &str, ov: &Vec<TypeMapEntry>) -> (r: String)
    ensures
        r@ == spec_rewritten_base(name@, ov@),
{
    match find_override(ov, name) {
        Option::Some(entry) => {
            if str_eq(entry.target.as_str(), "same") {
                name.to_owned()
            } else {
                entry.target.clone()
            }
        }
        Option::None => name.to_owned(),
    }
}

/// Computes a field's mirrored type expression from its original one.
///
/// Structural recursion over the finite type tree: wrappers are kept and
/// their element types rewritten; leaf identifiers are rewritten as
/// [`spec_rewritten_leaf`] says; an unsupported shape anywhere in the tree
/// is a hard failure, never a guess.
pub fn parse_type_to_redefined(
    src_type: &TypeExpr,
    new_type_names: &Vec<TypeMapEntry>,
    generics_skip: &Vec<String>,
    default_policy: bool,
) -> (r: Result<TypeExpr, DeriveError>)
    ensures
        match r {
            Result::Ok(u) => rewrites_to(*src_type, new_type_names@, generics_skip@,
                default_policy, u) && spec_type_supported(*src_type),
            Result::Err(e) => !spec_type_supported(*src_type) && e matches
                DeriveError::UnsupportedFieldType { .. },
        },
    decreases *src_type,
{
    match src_type {
        TypeExpr::Named { name } => Result::Ok(
            TypeExpr::Named {
                name: rewrite_leaf(name.as_str(), new_type_names, generics_skip, default_policy),
            },
        ),
        TypeExpr::Array { elem, len } => {
            let relem = parse_type_to_redefined(elem, new_type_names, generics_skip,
                default_policy)?;
            Result::Ok(TypeExpr::Array { elem: Box::new(relem), len: len.clone() })
        }
        TypeExpr::Reference { lifetime, elem } => {
            let relem = parse_type_to_redefined(elem, new_type_names, generics_skip,
                default_policy)?;
            let rlt = match lifetime {
                Option::Some(lt) => Option::Some(lt.clone()),
                Option::None => Option::None,
            };
            Result::Ok(TypeExpr::Reference { lifetime: rlt, elem: Box::new(relem) })
        }
        TypeExpr::Slice { elem } => {
            let relem = parse_type_to_redefined(elem, new_type_names, generics_skip,
                default_policy)?;
            Result::Ok(TypeExpr::Slice { elem: Box::new(relem) })
        }
        TypeExpr::Tuple { elems } => {
            let mut relems: Vec<TypeExpr> = Vec::new();
            let mut i: usize = 0;
            while i < elems.len()
                invariant
                    *src_type == (TypeExpr::Tuple { elems: *elems }),
                    i <= elems@.len(),
                    relems@.len() == i,
                    forall|j: int| 0 <= j < i ==> spec_type_supported(#[trigger] elems@[j]),
                    forall|j: int|
                        0 <= j < i ==> rewrites_to(#[trigger] elems@[j], new_type_names@,
                            generics_skip@, default_policy, relems@[j]),
                decreases elems@.len() - i,
            {
                proof {
                    assert(decreases_to!(*src_type => src_type->Tuple_elems));
                    assert(decreases_to!(src_type->Tuple_elems => src_type->Tuple_elems[
                        i as int
                    ]));
                }
                let relem = match parse_type_to_redefined(&elems[i], new_type_names,
                    generics_skip, default_policy) {
                    Result::Ok(v) => v,
                    Result::Err(e) => {
                        proof {
                            assert(!spec_type_supported(elems@[i as int]));
                        }
                        return Result::Err(e);
                    }
                };
                relems.push(relem);
                i += 1;
            }
            Result::Ok(TypeExpr::Tuple { elems: relems })
        }
        TypeExpr::GenericApplication { name, args } => {
            let mut rargs: Vec<TypeExpr> = Vec::new();
            let mut i: usize = 0;
            while i < args.len()
                invariant
                    *src_type == (TypeExpr::GenericApplication {
                        name: src_type->GenericApplication_name,
                        args: *args,
                    }),
                    i <= args@.len(),
                    rargs@.len() == i,
                    forall|j: int| 0 <= j < i ==> spec_type_supported(#[trigger] args@[j]),
                    forall|j: int|
                        0 <= j < i ==> rewrites_to(#[trigger] args@[j], new_type_names@,
                            generics_skip@, default_policy, rargs@[j]),
                decreases args@.len() - i,
            {
                proof {
                    assert(decreases_to!(*src_type => src_type->GenericApplication_args));
                    assert(decreases_to!(src_type->GenericApplication_args =>
                        src_type->GenericApplication_args[i as int]));
                }
                let rarg = match parse_type_to_redefined(&args[i], new_type_names, generics_skip,
                    default_policy) {
                    Result::Ok(v) => v,
                    Result::Err(e) => {
                        proof {
                            assert(!spec_type_supported(args@[i as int]));
                        }
                        return Result::Err(e);
                    }
                };
                rargs.push(rarg);
                i += 1;
            }
            Result::Ok(
                TypeExpr::GenericApplication {
                    name: rewrite_base(name.as_str(), new_type_names),
                    args: rargs,
                },
            )
        }
        TypeExpr::Unsupported { kind } => Result::Err(
            DeriveError::UnsupportedFieldType { kind: *kind },
        ),
    }
}

/// An override map under which rewriting settles: no override source carries
/// the mirror suffix, and every override target is the sentinel `same` or is
/// itself left unchanged by the rewriter.
pub open spec fn spec_overrides_stable(
    ov: Seq<TypeMapEntry>,
    skip: Seq<String>,
    policy: bool,
) -> bool {
    forall|i: int|
        0 <= i < ov.len() ==> {
            &&& !spec_has_mirror_suffix((#[trigger] ov[i]).source@)
            &&& (ov[i].target@ == "same"@ || spec_rewritten_leaf(ov[i].target@, ov, skip, policy)
                == ov[i].target@)
        }
}

/// A found override entry is one of the map's entries, keyed by the name.
proof fn lemma_find_override_member(ov: Seq<TypeMapEntry>, name: Seq<char>)
    requires
        spec_find_override(ov, name) is Some,
    ensures
        exists|i: int|
            0 <= i < ov.len() && ov[i] == spec_find_override(ov, name)->0 && (#[trigger] ov[
                i
            ]).source@ == name,
    decreases ov.len(),
{
    if ov.len() > 0 && ov[0].source@ != name {
        lemma_find_override_member(ov.subrange(1, ov.len() as int), name);
        let sub = ov.subrange(1, ov.len() as int);
        let j = choose|j: int|
            0 <= j < sub.len() && sub[j] == spec_find_override(sub, name)->0 && (#[trigger] sub[
                j
            ]).source@ == name;
        assert(ov[j + 1] == sub[j]);
    }
}

/// When no entry's source matches the name, the lookup finds nothing.
proof fn lemma_find_override_absent(ov: Seq<TypeMapEntry>, name: Seq<char>)
    requires
        forall|i: int| 0 <= i < ov.len() ==> (#[trigger] ov[i]).source@ != name,
    ensures
        spec_find_override(ov, name) is None,
    decreases ov.len(),
{
    if ov.len() > 0 {
        assert(ov[0].source@ != name);
        let sub = ov.subrange(1, ov.len() as int);
        assert(forall|i: int| 0 <= i < sub.len() ==> (#[trigger] sub[i]).source@ != name) by {
            assert(forall|i: int| 0 <= i < sub.len() ==> #[trigger] sub[i] == ov[i + 1]);
        }
        lemma_find_override_absent(sub, name);
    }
}

/// Under a stable override map, rewriting a leaf identifier a second time
/// yields no further change.
proof fn lemma_leaf_stable(name: Seq<char>, ov: Seq<TypeMapEntry>, skip: Seq<String>, policy: bool)
    requires
        spec_overrides_stable(ov, skip, policy),
    ensures
        spec_rewritten_leaf(spec_rewritten_leaf(name, ov, skip, policy), ov, skip, policy)
            == spec_rewritten_leaf(name, ov, skip, policy),
{
    match spec_find_override(ov, name) {
        Option::Some(entry) => {
            lemma_find_override_member(ov, name);
            if entry.target@ != "same"@ {
                let i = choose|i: int|
                    0 <= i < ov.len() && ov[i] == entry && (#[trigger] ov[i]).source@ == name;
                assert(spec_rewritten_leaf(entry.target@, ov, skip, policy) == entry.target@);
            }
        }
        Option::None => {
            if !(spec_is_simple_primitive(name) || spec_skip_contains(skip, name)
                || spec_has_mirror_suffix(name) || !policy) {
                let suffixed = name + spec_mirror_suffix();
                lemma_with_suffix_has_suffix(name);
                assert(forall|i: int|
                    0 <= i < ov.len() ==> (#[trigger] ov[i]).source@ != suffixed);
                lemma_find_override_absent(ov, suffixed);
            }
        }
    }
}

/// Under a stable override map, rewriting the base identifier of a generic
/// application a second time yields no further change.
proof fn lemma_base_stable(name: Seq<char>, ov: Seq<TypeMapEntry>, skip: Seq<String>, policy: bool)
    requires
        spec_overrides_stable(ov, skip, policy),
    ensures
        spec_rewritten_base(spec_rewritten_base(name, ov), ov) == spec_rewritten_base(name, ov),
{
    match spec_find_override(ov, name) {
        Option::Some(entry) => {
            lemma_find_override_member(ov, name);
            if entry.target@ != "same"@ {
                let i = choose|i: int|
                    0 <= i < ov.len() && ov[i] == entry && (#[trigger] ov[i]).source@ == name;
                assert(spec_rewritten_leaf(entry.target@, ov, skip, policy) == entry.target@);
            }
        }
        Option::None => {}
    }
}

/// Rewriter idempotence: under a stable override map, re-rewriting an
/// already-rewritten type expression yields no further change. Leaf
/// identifiers of the rewritten expression either carry the mirror suffix,
/// are override targets, or were excluded in the first pass; each of these
/// the rewriter leaves alone.
pub proof fn lemma_rewrite_idempotent(
    t: TypeExpr,
    ov: Seq<TypeMapEntry>,
    skip: Seq<String>,
    policy: bool,
    u: TypeExpr,
)
    requires
        rewrites_to(t, ov, skip, policy, u),
        spec_overrides_stable(ov, skip, policy),
    ensures
        rewrites_to(u, ov, skip, policy, u),
    decreases t,
{
    match t {
        TypeExpr::Named { name } => {
            lemma_leaf_stable(name@, ov, skip, policy);
        }
        TypeExpr::Array { elem, len } => {
            match u {
                TypeExpr::Array { elem: relem, .. } => {
                    lemma_rewrite_idempotent(*elem, ov, skip, policy, *relem);
                }
                _ => {}
            }
        }
        TypeExpr::Reference { elem, .. } => {
            match u {
                TypeExpr::Reference { elem: relem, .. } => {
                    lemma_rewrite_idempotent(*elem, ov, skip, policy, *relem);
                }
                _ => {}
            }
        }
        TypeExpr::Slice { elem } => {
            match u {
                TypeExpr::Slice { elem: relem } => {
                    lemma_rewrite_idempotent(*elem, ov, skip, policy, *relem);
                }
                _ => {}
            }
        }
        TypeExpr::Tuple { elems } => {
            match u {
                TypeExpr::Tuple { elems: relems } => {
                    assert forall|i: int| 0 <= i < relems.len() implies rewrites_to(
                        #[trigger] relems[i],
                        ov,
                        skip,
                        policy,
                        relems[i],
                    ) by {
                        lemma_rewrite_idempotent(elems[i], ov, skip, policy, relems[i]);
                    }
                }
                _ => {}
            }
        }
        TypeExpr::GenericApplication { name, args } => {
            match u {
                TypeExpr::GenericApplication { name: rname, args: rargs } => {
                    lemma_base_stable(name@, ov, skip, policy);
                    assert forall|i: int| 0 <= i < rargs.len() implies rewrites_to(
                        #[trigger] rargs[i],
                        ov,
                        skip,
                        policy,
                        rargs[i],
                    ) by {
                        lemma_rewrite_idempotent(args[i], ov, skip, policy, rargs[i]);
                    }
                }
                _ => {}
            }
        }
        TypeExpr::Unsupported { .. } => {}
    }
}


/// The source text of a type expression.
pub open spec fn spec_type_text(t: TypeExpr) -> Seq<char>
    decreases t,
{
    match t {
        TypeExpr::Named { name } => name@,
        TypeExpr::Array { elem, len } => "["@ + spec_type_text(*elem) + "; "@ + len@ + "]"@,
        TypeExpr::Reference { lifetime, elem } => match lifetime {
            Option::Some(lt) => "&'"@ + lt@ + " "@ + spec_type_text(*elem),
            Option::None => "&"@ + spec_type_text(*elem),
        },
        TypeExpr::Slice { elem } => "["@ + spec_type_text(*elem) + "]"@,
        TypeExpr::Tuple { elems } => "("@ + spec_type_texts(elems@, elems@.len() as int) + ")"@,
        TypeExpr::GenericApplication { name, args } => name@ + "<"@ + spec_type_texts(
            args@,
            args@.len() as int,
        ) + ">"@,
        TypeExpr::Unsupported { .. } => Seq::empty(),
    }
}

/// The concatenated texts of the first `k` type expressions, each followed
/// by a comma.
pub open spec fn spec_type_texts(ts: Seq<TypeExpr>, k: int) -> Seq<char>
    decreases ts, k,
{
    if k <= 0 || k > ts.len() {
        Seq::empty()
    } else {
        spec_type_texts(ts, k - 1) + spec_type_text(ts[k - 1]) + ", "@
    }
}

/// Renders a type expression back to source text.
pub fn render_type(t: &TypeExpr) -> (r: String)
    ensures
        r@ == spec_type_text(*t),
    decreases *t,
{
    let mut out = String::new();
    match t {
        TypeExpr::Named { name } => {
            out.append(name.as_str());
        }
        TypeExpr::Array { elem, len } => {
            out.append("[");
            let inner = render_type(elem);
            out.append(inner.as_str());
            out.append("; ");
            out.append(len.as_str());
            out.append("]");
        }
        TypeExpr::Reference { lifetime, elem } => {
            match lifetime {
                Option::Some(lt) => {
                    out.append("&'");
                    out.append(lt.as_str());
                    out.append(" ");
                }
                Option::None => {
                    out.append("&");
                }
            }
            let inner = render_type(elem);
            out.append(inner.as_str());
        }
        TypeExpr::Slice { elem } => {
            out.append("[");
            let inner = render_type(elem);
            out.append(inner.as_str());
            out.append("]");
        }
        TypeExpr::Tuple { elems } => {
            out.append("(");
            let mut i: usize = 0;
            while i < elems.len()
                invariant
                    *t == (TypeExpr::Tuple { elems: *elems }),
                    i <= elems@.len(),
                    out@ == "("@ + spec_type_texts(elems@, i as int),
                decreases elems@.len() - i,
            {
                proof {
                    assert(decreases_to!(*t => t->Tuple_elems));
                    assert(decreases_to!(t->Tuple_elems => t->Tuple_elems[i as int]));
                }
                let inner = render_type(&elems[i]);
                out.append(inner.as_str());
                out.append(", ");
                i += 1;
            }
            out.append(")");
        }
        TypeExpr::GenericApplication { name, args } => {
            out.append(name.as_str());
            out.append("<");
            let mut i: usize = 0;
            while i < args.len()
                invariant
                    *t == (TypeExpr::GenericApplication {
                        name: t->GenericApplication_name,
                        args: *args,
                    }),
                    i <= args@.len(),
                    out@ == t->GenericApplication_name@ + "<"@ + spec_type_texts(args@, i as int),
                decreases args@.len() - i,
            {
                proof {
                    assert(decreases_to!(*t => t->GenericApplication_args));
                    assert(decreases_to!(t->GenericApplication_args =>
                        t->GenericApplication_args[i as int]));
                }
                let inner = render_type(&args[i]);
                out.append(inner.as_str());
                out.append(", ");
                i += 1;
            }
            out.append(">");
        }
        TypeExpr::Unsupported { .. } => {}
    }
    out
}

} // verus!
