//! The schema builder's front door: resolves a declaration's container
//! directives and its linked source type, and checks directive-combination
//! legality.

use vstd::prelude::*;

use crate::errors::DeriveError;
use crate::symbol::{spec_has_symbol, spec_symbol_meta, spec_transmute_conflicts, Symbol};
use crate::text::str_eq;
use crate::type_attr::{spec_attrs_parse, spec_find_attr, spec_no_attrs_parse, AttrToken,
    ContainerAttributes, TypeAttribute};

verus! {

/// A declaration's resolved outer annotations: its own name, the linked
/// source type name if one is declared, and its parsed container directives.
pub struct OuterContainer {
    pub target_type: String,
    pub source_type: Option<String>,
    pub container_attrs: Vec<TypeAttribute>,
}

/// The linked source type named by a linked-source annotation: the single
/// identifier between its parentheses, or nothing for empty parentheses.
pub struct SourceType(pub Option<String>);

/// What a linked-source annotation's tokens name.
pub open spec fn spec_source_type_parses(toks: Seq<AttrToken>, r: Option<String>) -> bool {
    match r {
        Option::Some(name) => toks.len() == 1 && (toks[0] matches AttrToken::Ident(n) && n@
            == name@),
        Option::None => toks.len() == 0,
    }
}

/// No source name at all parses from these tokens.
pub open spec fn spec_no_source_parse(toks: Seq<AttrToken>) -> bool {
    forall|src: Option<String>| !spec_source_type_parses(toks, src)
}

impl SourceType {
    /// Parses a linked-source annotation's argument tokens: one identifier,
    /// or nothing. A failure means the tokens are neither.
    pub fn parse(toks: &Vec<AttrToken>) -> (r: Result<SourceType, DeriveError>)
        ensures
            match r {
                Result::Ok(st) => spec_source_type_parses(toks@, st.0),
                Result::Err(e) => e matches DeriveError::DirectiveSyntax { .. }
                    && spec_no_source_parse(toks@),
            },
    {
        if toks.len() == 0 {
            return Result::Ok(SourceType(Option::None));
        }
        if toks.len() == 1 {
            match &toks[0] {
                AttrToken::Ident(n) => {
                    return Result::Ok(SourceType(Option::Some(n.clone())));
                }
                _ => {}
            }
        }
        proof {
            reveal_strlit("redefined");
        }
        Result::Err(
            DeriveError::DirectiveSyntax {
                directive: "redefined".to_owned(),
                expected: "a single source type identifier".to_owned(),
            },
        )
    }
}

/// The symbols of a directive list, in order.
pub open spec fn spec_attr_symbols(attrs: Seq<TypeAttribute>) -> Seq<Symbol> {
    attrs.map_values(|attr: TypeAttribute| attr.symbol)
}

/// Whether `attrs` is the parse of a declaration's container annotation.
pub open spec fn spec_decl_attrs(
    container_tokens: Option<Vec<AttrToken>>,
    attrs: Seq<TypeAttribute>,
) -> bool {
    match container_tokens {
        Option::Some(toks) => spec_attrs_parse(toks@, 0, attrs),
        Option::None => attrs.len() == 0,
    }
}

/// Whether `src` is the linked source type the declaration names.
pub open spec fn spec_source_resolves(
    source_tokens: Option<Vec<AttrToken>>,
    src: Option<String>,
) -> bool {
    match source_tokens {
        Option::Some(toks) => spec_source_type_parses(toks@, src),
        Option::None => src is None,
    }
}

/// The enumerated illegal directive pairings: the raw-reinterpretation
/// marker beside a conflicting directive, or a conversion override without a
/// linked source.
pub open spec fn spec_illegal_pairing(attrs: Seq<TypeAttribute>, src: Option<String>) -> bool {
    let syms = spec_attr_symbols(attrs);
    ||| (spec_has_symbol(syms, "transmute"@) && spec_transmute_conflicts(syms).len() > 0)
    ||| (src is None && (spec_has_symbol(syms, "to_source"@) || spec_has_symbol(
        syms,
        "from_source"@,
    )))
}

/// Why resolving a declaration's annotations can fail: its container block
/// has no parse, its linked-source block has no parse, or the resolved
/// directives form an illegal pairing.
pub open spec fn spec_outer_failure(
    container_tokens: Option<Vec<AttrToken>>,
    source_tokens: Option<Vec<AttrToken>>,
) -> bool {
    ||| (container_tokens matches Option::Some(toks) && spec_no_attrs_parse(toks@, 0))
    ||| (source_tokens matches Option::Some(toks) && spec_no_source_parse(toks@))
    ||| exists|attrs: Seq<TypeAttribute>, src: Option<String>|
        {
            &&& #[trigger] spec_decl_attrs(container_tokens, attrs)
            &&& #[trigger] spec_source_resolves(source_tokens, src)
            &&& spec_illegal_pairing(attrs, src)
        }
}

/// The first directive with the given name, if any.
pub fn find_attr<'a>(attrs: &'a Vec<TypeAttribute>, name: &str) -> (r: Option<&'a TypeAttribute>)
    ensures
        match r {
            Option::Some(attr) => spec_find_attr(attrs@, name@) == Option::Some(*attr),
            Option::None => spec_find_attr(attrs@, name@) is None,
        },
{
    let mut i: usize = 0;
    proof {
        assert(attrs@.subrange(0, attrs@.len() as int) =~= attrs@);
    }
    while i < attrs.len()
        invariant
            i <= attrs@.len(),
            spec_find_attr(attrs@, name@) == spec_find_attr(
                attrs@.subrange(i as int, attrs@.len() as int),
                name@,
            ),
        decreases attrs@.len() - i,
    {
        let ghost pre = attrs@.subrange(i as int, attrs@.len() as int);
        if str_eq(attrs[i].symbol.s, name) {
            return Option::Some(&attrs[i]);
        }
        proof {
            assert(pre.subrange(1, pre.len() as int) =~= attrs@.subrange(
                i + 1,
                attrs@.len() as int,
            ));
        }
        i += 1;
    }
    Option::None
}

impl OuterContainer {
    /// Resolves a declaration's annotations: parses the container-directive
    /// block and the linked-source block, and checks the enumerated illegal
    /// directive pairings.
    pub fn parse(
        target_type: String,
        container_tokens: &Option<Vec<AttrToken>>,
        source_tokens: &Option<Vec<AttrToken>>,
    ) -> (r: Result<OuterContainer, DeriveError>)
        ensures
            match r {
                Result::Ok(outer) => {
                    &&& outer.target_type == target_type
                    &&& spec_decl_attrs(*container_tokens, outer.container_attrs@)
                    &&& spec_source_resolves(*source_tokens, outer.source_type)
                    &&& !spec_illegal_pairing(outer.container_attrs@, outer.source_type)
                },
                Result::Err(_) => spec_outer_failure(*container_tokens, *source_tokens),
            },
    {
        let container_attrs = match container_tokens {
            Option::Some(toks) => ContainerAttributes::parse(toks)?.0,
            Option::None => Vec::new(),
        };
        let source_type = match source_tokens {
            Option::Some(toks) => SourceType::parse(toks)?.0,
            Option::None => Option::None,
        };
        let mut symbols: Vec<Symbol> = Vec::new();
        let mut i: usize = 0;
        while i < container_attrs.len()
            invariant
                i <= container_attrs@.len(),
                symbols@.len() == i,
                forall|j: int| 0 <= j < i ==> symbols@[j] == container_attrs@[j].symbol,
            decreases container_attrs@.len() - i,
        {
            symbols.push(container_attrs[i].symbol);
            i += 1;
        }
        proof {
            assert(symbols@ =~= spec_attr_symbols(container_attrs@));
        }
        match Symbol::illegal_pairings(&symbols, source_type.is_some()) {
            Result::Ok(()) => {}
            Result::Err(e) => {
                proof {
                    assert(spec_decl_attrs(*container_tokens, container_attrs@));
                    assert(spec_source_resolves(*source_tokens, source_type));
                    assert(spec_illegal_pairing(container_attrs@, source_type));
                }
                return Result::Err(e);
            }
        }
        Result::Ok(OuterContainer { target_type, source_type, container_attrs })
    }

    /// Whether the declaration's fields must be parsed for structural
    /// conversion: they need not be only when both conversion directions are
    /// overridden by user-supplied expressions.
    pub fn should_parse_fields(&self) -> (r: bool)
        ensures
            r == !(spec_has_symbol(spec_attr_symbols(self.container_attrs@), "to_source"@)
                && spec_has_symbol(spec_attr_symbols(self.container_attrs@), "from_source"@)),
    {
        let has_to = match self.get_symbol_index("to_source") {
            Option::Some(i) => {
                proof {
                    assert(spec_attr_symbols(self.container_attrs@)[i as int].s@ == "to_source"@);
                }
                true
            }
            Option::None => false,
        };
        let has_from = match self.get_symbol_index("from_source") {
            Option::Some(i) => {
                proof {
                    assert(spec_attr_symbols(self.container_attrs@)[i as int].s@
                        == "from_source"@);
                }
                true
            }
            Option::None => false,
        };
        !(has_to && has_from)
    }

    /// The position of the first container directive with the given name.
    fn get_symbol_index(&self, name: &str) -> (r: Option<usize>)
        ensures
            match r {
                Option::Some(i) => i < self.container_attrs@.len()
                    && self.container_attrs@[i as int].symbol.s@ == name@ && spec_find_attr(
                    self.container_attrs@,
                    name@,
                ) == Option::Some(self.container_attrs@[i as int]),
                Option::None => !spec_has_symbol(spec_attr_symbols(self.container_attrs@), name@)
                    && spec_find_attr(self.container_attrs@, name@) is None,
            },
    {
        let mut i: usize = 0;
        proof {
            assert(self.container_attrs@.subrange(0, self.container_attrs@.len() as int)
                =~= self.container_attrs@);
        }
        while i < self.container_attrs.len()
            invariant
                i <= self.container_attrs@.len(),
                forall|j: int|
                    0 <= j < i ==> (#[trigger] self.container_attrs@[j]).symbol.s@ != name@,
                spec_find_attr(self.container_attrs@, name@) == spec_find_attr(
                    self.container_attrs@.subrange(i as int, self.container_attrs@.len() as int),
                    name@,
                ),
            decreases self.container_attrs@.len() - i,
        {
            let ghost pre = self.container_attrs@.subrange(
                i as int,
                self.container_attrs@.len() as int,
            );
            if str_eq(self.container_attrs[i].symbol.s, name) {
                return Option::Some(i);
            }
            proof {
                assert(pre.subrange(1, pre.len() as int) =~= self.container_attrs@.subrange(
                    i + 1,
                    self.container_attrs@.len() as int,
                ));
            }
            i += 1;
        }
        proof {
            assert forall|j: int|
                0 <= j < spec_attr_symbols(self.container_attrs@).len() implies (
            #[trigger] spec_attr_symbols(self.container_attrs@)[j]).s@ != name@ by {
                assert(self.container_attrs@[j].symbol.s@ != name@);
            }
        }
        Option::None
    }

    /// The first container directive with the given name, if any.
    pub fn get_symbol(&self, name: &str) -> (r: Option<&TypeAttribute>)
        ensures
            match r {
                Option::Some(attr) => spec_find_attr(self.container_attrs@, name@)
                    == Option::Some(*attr) && attr.symbol.s@ == name@,
                Option::None => !spec_has_symbol(spec_attr_symbols(self.container_attrs@), name@)
                    && spec_find_attr(self.container_attrs@, name@) is None,
            },
    {
        match self.get_symbol_index(name) {
            Option::Some(i) => {
                let attr = &self.container_attrs[i];
                proof {
                    assert(0 <= i < self.container_attrs@.len() && *attr
                        == self.container_attrs@[i as int] && attr.symbol.s@ == name@);
                }
                Option::Some(attr)
            }
            Option::None => Option::None,
        }
    }
}

} // verus!
