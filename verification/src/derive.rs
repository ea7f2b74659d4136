//! The derivation entry point: one annotated declaration in, one emitted
//! artifact out. With no linked source the artifact is a brand-new mirror
//! declaration; with one, it is the conversion implementation against the
//! already-existing pair of types.

use vstd::prelude::*;

use crate::decl::TypeDeclaration;
use crate::errors::DeriveError;
use crate::new_types::{parse_type_without_source, spec_new_type_emits, spec_new_type_failure};
use crate::outer::{spec_decl_attrs, spec_outer_failure, spec_source_resolves, OuterContainer};
use crate::redefined_types::{spec_container_resolved, spec_finalize, spec_sub_containers_failure,
    RedefinedContainer};
use crate::type_attr::{AttrToken, TypeAttribute};

verus! {

/// Why one derivation can fail: the declaration's annotations fail to
/// resolve, or — under the resolved annotations — the emission itself fails:
/// without a linked source as [`spec_new_type_failure`] says, with one as
/// [`spec_sub_containers_failure`] says.
pub open spec fn spec_derive_failure(input: TypeDeclaration) -> bool {
    ||| spec_outer_failure(input.container_tokens, input.source_tokens)
    ||| exists|attrs: Seq<TypeAttribute>, src: Option<String>|
        {
            &&& #[trigger] spec_decl_attrs(input.container_tokens, attrs)
            &&& #[trigger] spec_source_resolves(input.source_tokens, src)
            &&& match src {
                Option::None => spec_new_type_failure(input),
                Option::Some(_) => spec_sub_containers_failure(attrs, input.data,
                    input.generics@),
            }
        }
}

/// Runs one derivation: resolves the declaration's annotations, then either
/// emits a brand-new mirror declaration (no linked source) or the conversion
/// implementation against the linked source type. A failure means the
/// declaration itself is at fault, as [`spec_derive_failure`] says: a
/// well-formed declaration is owed its artifact.
pub fn expand_derive_redefined(input: &TypeDeclaration, is_remote: bool) -> (r: Result<
    String,
    DeriveError,
>)
    ensures
        match r {
            Result::Ok(text) => exists|attrs: Seq<TypeAttribute>, src: Option<String>|
                {
                    &&& #[trigger] spec_decl_attrs(input.container_tokens, attrs)
                    &&& #[trigger] spec_source_resolves(input.source_tokens, src)
                    &&& match src {
                        Option::None => exists|
                            derive_attrs: Seq<String>,
                            header_attrs: Seq<String>,
                            body: Seq<char>,
                        |
                            #[trigger] spec_new_type_emits(
                                input.ident@,
                                *input,
                                is_remote,
                                derive_attrs,
                                header_attrs,
                                body,
                                text@,
                            ),
                        Option::Some(st) => exists|rc: RedefinedContainer|
                            #[trigger] spec_container_resolved(
                                attrs,
                                st@,
                                input.ident@,
                                input.data,
                                input.generics@,
                                rc,
                            ) && text@ == spec_finalize(rc),
                    }
                },
            Result::Err(_) => spec_derive_failure(*input),
        },
{
    let outer = match OuterContainer::parse(
        input.ident.clone(),
        &input.container_tokens,
        &input.source_tokens,
    ) {
        Result::Ok(outer) => outer,
        Result::Err(e) => {
            return Result::Err(e);
        }
    };
    let ghost outer_attrs = outer.container_attrs@;
    let ghost src = outer.source_type;
    match &outer.source_type {
        Option::None => {
            let text = match parse_type_without_source(outer, input, is_remote) {
                Result::Ok(text) => text,
                Result::Err(e) => {
                    proof {
                        assert(spec_decl_attrs(input.container_tokens, outer_attrs));
                        assert(spec_source_resolves(input.source_tokens, src));
                    }
                    return Result::Err(e);
                }
            };
            proof {
                assert(spec_decl_attrs(input.container_tokens, outer_attrs));
                assert(spec_source_resolves(input.source_tokens, src));
            }
            Result::Ok(text)
        }
        Option::Some(_) => {
            let container = match RedefinedContainer::parse_sub_containers(
                outer,
                &input.data,
                &input.generics,
            ) {
                Result::Ok(container) => container,
                Result::Err(e) => {
                    proof {
                        assert(spec_decl_attrs(input.container_tokens, outer_attrs));
                        assert(spec_source_resolves(input.source_tokens, src));
                    }
                    return Result::Err(e);
                }
            };
            let text = container.finalize();
            proof {
                assert(spec_decl_attrs(input.container_tokens, outer_attrs));
                assert(spec_source_resolves(input.source_tokens, src));
                assert(spec_container_resolved(outer_attrs, src->0@, input.ident@, input.data,
                    input.generics@, container));
            }
            Result::Ok(text)
        }
    }
}

} // verus!
