//! The fixed vocabulary of directives: each directive name maps to exactly
//! one expected shape, and the legality of directive combinations is checked
//! in one place.

use vstd::prelude::*;

use crate::errors::DeriveError;
use crate::text::str_eq;

verus! {

/// The shape a directive must have: a bare marker, a parenthesized list, or
/// a `name = "..."` value.
#[derive(Debug, Clone, Copy, PartialEq, Eq, Structural)]
pub enum SymbolMeta {
    Path,
    List,
    NameValue,
}

/// One entry of the directive vocabulary: its name, whether it is a
/// container-level directive, and its required shape.
#[derive(Debug, Clone, Copy)]
pub struct Symbol {
    pub s: &'static str,
    pub is_container: bool,
    pub meta: SymbolMeta,
}

/// The directive vocabulary: for a known directive name, whether it is a
/// container directive and its required shape.
pub open spec fn spec_symbol_meta(name: Seq<char>) -> Option<(bool, SymbolMeta)> {
    if name == "transmute"@ {
        Option::Some((true, SymbolMeta::Path))
    } else if name == "to_source"@ {
        Option::Some((true, SymbolMeta::NameValue))
    } else if name == "from_source"@ {
        Option::Some((true, SymbolMeta::NameValue))
    } else if name == "derive"@ {
        Option::Some((true, SymbolMeta::List))
    } else if name == "generics"@ {
        Option::Some((true, SymbolMeta::List))
    } else if name == "other"@ {
        Option::Some((true, SymbolMeta::List))
    } else if name == "func"@ {
        Option::Some((false, SymbolMeta::NameValue))
    } else if name == "field"@ {
        Option::Some((false, SymbolMeta::List))
    } else if name == "same_fields"@ {
        Option::Some((false, SymbolMeta::Path))
    } else if name == "default_fields"@ {
        Option::Some((false, SymbolMeta::Path))
    } else {
        Option::None
    }
}

impl Symbol {
    /// Looks a directive name up in the vocabulary. An unknown name finds
    /// nothing: the caller turns that into a hard parse failure rather than
    /// ignoring the directive.
    pub fn lookup(name: &str) -> (r: Option<Symbol>)
        ensures
            match r {
                Option::Some(sym) => {
                    &&& sym.s@ == name@
                    &&& spec_symbol_meta(name@) == Option::Some((sym.is_container, sym.meta))
                },
                Option::None => spec_symbol_meta(name@) is None,
            },
    {
        if str_eq(name, "transmute") {
            Option::Some(Symbol { s: "transmute", is_container: true, meta: SymbolMeta::Path })
        } else if str_eq(name, "to_source") {
            Option::Some(Symbol { s: "to_source", is_container: true, meta: SymbolMeta::NameValue })
        } else if str_eq(name, "from_source") {
            Option::Some(
                Symbol { s: "from_source", is_container: true, meta: SymbolMeta::NameValue },
            )
        } else if str_eq(name, "derive") {
            Option::Some(Symbol { s: "derive", is_container: true, meta: SymbolMeta::List })
        } else if str_eq(name, "generics") {
            Option::Some(Symbol { s: "generics", is_container: true, meta: SymbolMeta::List })
        } else if str_eq(name, "other") {
            Option::Some(Symbol { s: "other", is_container: true, meta: SymbolMeta::List })
        } else if str_eq(name, "func") {
            Option::Some(Symbol { s: "func", is_container: false, meta: SymbolMeta::NameValue })
        } else if str_eq(name, "field") {
            Option::Some(Symbol { s: "field", is_container: false, meta: SymbolMeta::List })
        } else if str_eq(name, "same_fields") {
            Option::Some(Symbol { s: "same_fields", is_container: false, meta: SymbolMeta::Path })
        } else if str_eq(name, "default_fields") {
            Option::Some(
                Symbol { s: "default_fields", is_container: false, meta: SymbolMeta::Path },
            )
        } else {
            Option::None
        }
    }
}

/// Whether a container directive may stand beside the raw-reinterpretation
/// marker: only extra derives and forwarded attributes may.
pub open spec fn spec_allowed_with_transmute(name: Seq<char>) -> bool {
    name == "transmute"@ || name == "derive"@ || name == "other"@
}

/// The names among `symbols` that conflict with the raw-reinterpretation
/// marker, in order.
pub open spec fn spec_transmute_conflicts(symbols: Seq<Symbol>) -> Seq<Seq<char>>
    decreases symbols.len(),
{
    if symbols.len() == 0 {
        Seq::empty()
    } else {
        let rest = spec_transmute_conflicts(symbols.drop_last());
        if spec_allowed_with_transmute(symbols.last().s@) {
            rest
        } else {
            rest.push(symbols.last().s@)
        }
    }
}

/// Whether `names` holds exactly the conflicting directive names of
/// `symbols`.
pub open spec fn spec_lists_conflicts(names: Seq<String>, symbols: Seq<Symbol>) -> bool {
    &&& names.len() == spec_transmute_conflicts(symbols).len()
    &&& forall|j: int|
        0 <= j < names.len() ==> (#[trigger] names[j])@ == spec_transmute_conflicts(symbols)[j]
}

/// Whether `symbols` holds a directive with the given name.
pub open spec fn spec_has_symbol(symbols: Seq<Symbol>, name: Seq<char>) -> bool {
    exists|i: int| 0 <= i < symbols.len() && (#[trigger] symbols[i]).s@ == name
}

/// How appending one symbol changes `spec_has_symbol`.
proof fn lemma_has_symbol_push(s: Seq<Symbol>, x: Symbol, name: Seq<char>)
    ensures
        spec_has_symbol(s.push(x), name) == (spec_has_symbol(s, name) || x.s@ == name),
{
    if spec_has_symbol(s, name) {
        let j = choose|j: int| 0 <= j < s.len() && (#[trigger] s[j]).s@ == name;
        assert(s.push(x)[j].s@ == name);
    }
    if x.s@ == name {
        assert(s.push(x)[s.len() as int].s@ == name);
    }
    if spec_has_symbol(s.push(x), name) {
        let j = choose|j: int|
            0 <= j < s.push(x).len() && (#[trigger] s.push(x)[j]).s@ == name;
        if j < s.len() {
            assert(s[j].s@ == name);
        }
    }
}

/// How appending one symbol changes the conflict list.
proof fn lemma_conflicts_push(s: Seq<Symbol>, x: Symbol)
    ensures
        spec_transmute_conflicts(s.push(x)) == if spec_allowed_with_transmute(x.s@) {
            spec_transmute_conflicts(s)
        } else {
            spec_transmute_conflicts(s).push(x.s@)
        },
{
    assert(s.push(x).drop_last() =~= s);
    assert(s.push(x).last() == x);
}

impl Symbol {
    /// Checks the enumerated illegal directive pairings exhaustively.
    ///
    /// The raw-reinterpretation marker may stand beside extra derives and
    /// forwarded attributes only; every other directive beside it is
    /// reported, all at once, as one aggregated error. A conversion override
    /// requires a linked source type.
    pub fn illegal_pairings(symbols: &Vec<Symbol>, has_source_type: bool) -> (r: Result<
        (),
        DeriveError,
    >)
        ensures
            match r {
                Result::Ok(()) => {
                    &&& !(spec_has_symbol(symbols@, "transmute"@)
                        && spec_transmute_conflicts(symbols@).len() > 0)
                    &&& (has_source_type || !(spec_has_symbol(symbols@, "to_source"@)
                        || spec_has_symbol(symbols@, "from_source"@)))
                },
                Result::Err(e) => match e {
                    DeriveError::IllegalDirectiveCombination { conflicting } => {
                        &&& spec_has_symbol(symbols@, "transmute"@)
                        &&& spec_lists_conflicts(conflicting@, symbols@)
                        &&& conflicting@.len() > 0
                    },
                    DeriveError::MissingLinkedSource => {
                        &&& !(spec_has_symbol(symbols@, "transmute"@)
                            && spec_transmute_conflicts(symbols@).len() > 0)
                        &&& !has_source_type
                        &&& (spec_has_symbol(symbols@, "to_source"@) || spec_has_symbol(
                            symbols@,
                            "from_source"@,
                        ))
                    },
                    _ => false,
                },
            },
    {
        let mut has_transmute = false;
        let mut has_override = false;
        let mut conflicting: Vec<String> = Vec::new();
        let mut i: usize = 0;
        proof {
            assert(symbols@.subrange(0, 0) =~= Seq::<Symbol>::empty());
        }
        while i < symbols.len()
            invariant
                i <= symbols@.len(),
                has_transmute == spec_has_symbol(symbols@.subrange(0, i as int), "transmute"@),
                has_override == (spec_has_symbol(symbols@.subrange(0, i as int), "to_source"@)
                    || spec_has_symbol(symbols@.subrange(0, i as int), "from_source"@)),
                spec_lists_conflicts(conflicting@, symbols@.subrange(0, i as int)),
            decreases symbols@.len() - i,
        {
            let ghost pre = symbols@.subrange(0, i as int);
            let sym = &symbols[i];
            if str_eq(sym.s, "transmute") {
                has_transmute = true;
            }
            if str_eq(sym.s, "to_source") || str_eq(sym.s, "from_source") {
                has_override = true;
            }
            if !(str_eq(sym.s, "transmute") || str_eq(sym.s, "derive") || str_eq(sym.s, "other")) {
                conflicting.push(sym.s.to_owned());
            }
            i += 1;
            proof {
                let post = symbols@.subrange(0, i as int);
                let x = symbols@[i - 1];
                assert(post =~= pre.push(x));
                lemma_conflicts_push(pre, x);
                lemma_has_symbol_push(pre, x, "transmute"@);
                lemma_has_symbol_push(pre, x, "to_source"@);
                lemma_has_symbol_push(pre, x, "from_source"@);

            }
        }
        proof {
            assert(symbols@.subrange(0, symbols@.len() as int) =~= symbols@);
        }
        if has_transmute && conflicting.len() > 0 {
            return Result::Err(DeriveError::IllegalDirectiveCombination { conflicting });
        }
        if has_override && !has_source_type {
            return Result::Err(DeriveError::MissingLinkedSource);
        }
        Result::Ok(())
    }
}

} // verus!
