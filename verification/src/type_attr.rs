//! The directive grammar: a recursive-descent parser over the annotation
//! token sequence attached to a declaration or field.
//!
//! Each directive name maps to exactly one expected shape — a bare marker, a
//! parenthesized comma list of identifiers, a parenthesized list of 2-tuples,
//! a parenthesized list of string literals, or `name = "..."`. An unknown
//! directive name is a hard parse failure, never silently ignored.

use vstd::prelude::*;

use crate::errors::DeriveError;
use crate::symbol::{spec_symbol_meta, Symbol, SymbolMeta};
use crate::text::str_eq;

verus! {

/// One token of an annotation's argument sequence.
#[derive(Debug, PartialEq, Eq)]
pub enum AttrToken {
    /// An identifier.
    Ident(String),
    /// A string literal (its contents, unquoted).
    LitStr(String),
    Comma,
    Eq,
    OpenParen,
    CloseParen,
}

/// One parsed directive: its vocabulary entry and the payload of its shape.
/// Exactly the field matching the shape is set.
#[derive(Debug)]
pub struct TypeAttribute {
    pub symbol: Symbol,
    /// The expression text of a `name = "..."` directive.
    pub nv_tokens: Option<String>,
    /// The identifiers of a plain list directive.
    pub list_idents: Option<Vec<String>>,
    /// The `(source, target)` pairs of a tuple-list directive.
    pub list_tuple_idents: Option<Vec<(String, String)>>,
    /// The verbatim attribute texts of a forwarded-attributes directive.
    pub list_other_attrs: Option<Vec<String>>,
}

/// The parsed directive list of one annotation block.
pub struct ContainerAttributes(pub Vec<TypeAttribute>);

/// Whether `t` is the identifier `s`.
pub open spec fn spec_tok_ident(t: AttrToken, s: Seq<char>) -> bool {
    match t {
        AttrToken::Ident(n) => n@ == s,
        _ => false,
    }
}

/// Tokens `pos..end` spell the tail of a parenthesized identifier list whose
/// items are `items`: identifiers separated by commas, closed by `)`.
pub open spec fn spec_ident_list_parses(
    toks: Seq<AttrToken>,
    pos: int,
    items: Seq<String>,
    end: int,
) -> bool
    decreases items.len(),
{
    if items.len() == 0 {
        &&& 0 <= pos < toks.len()
        &&& toks[pos] is CloseParen
        &&& end == pos + 1
    } else if items.len() == 1 {
        &&& 0 <= pos
        &&& pos + 1 < toks.len()
        &&& spec_tok_ident(toks[pos], items[0]@)
        &&& toks[pos + 1] is CloseParen
        &&& end == pos + 2
    } else {
        &&& 0 <= pos
        &&& pos + 1 < toks.len()
        &&& spec_tok_ident(toks[pos], items[0]@)
        &&& toks[pos + 1] is Comma
        &&& spec_ident_list_parses(toks, pos + 2, items.drop_first(), end)
    }
}

/// Tokens `pos..end` spell the tail of a parenthesized string-literal list
/// whose items are `items`.
pub open spec fn spec_litstr_list_parses(
    toks: Seq<AttrToken>,
    pos: int,
    items: Seq<String>,
    end: int,
) -> bool
    decreases items.len(),
{
    if items.len() == 0 {
        &&& 0 <= pos < toks.len()
        &&& toks[pos] is CloseParen
        &&& end == pos + 1
    } else if items.len() == 1 {
        &&& 0 <= pos
        &&& pos + 1 < toks.len()
        &&& toks[pos] matches AttrToken::LitStr(v) && v@ == items[0]@
        &&& toks[pos + 1] is CloseParen
        &&& end == pos + 2
    } else {
        &&& 0 <= pos
        &&& pos + 1 < toks.len()
        &&& toks[pos] matches AttrToken::LitStr(v) && v@ == items[0]@
        &&& toks[pos + 1] is Comma
        &&& spec_litstr_list_parses(toks, pos + 2, items.drop_first(), end)
    }
}

/// Tokens `pos..pos+5` spell one `(source, target)` pair.
pub open spec fn spec_tuple_parses(toks: Seq<AttrToken>, pos: int, item: (String, String)) -> bool {
    &&& 0 <= pos
    &&& pos + 4 < toks.len()
    &&& toks[pos] is OpenParen
    &&& spec_tok_ident(toks[pos + 1], item.0@)
    &&& toks[pos + 2] is Comma
    &&& spec_tok_ident(toks[pos + 3], item.1@)
    &&& toks[pos + 4] is CloseParen
}

/// Tokens `pos..end` spell the tail of a parenthesized list of
/// `(source, target)` pairs whose items are `items`.
pub open spec fn spec_tuple_list_parses(
    toks: Seq<AttrToken>,
    pos: int,
    items: Seq<(String, String)>,
    end: int,
) -> bool
    decreases items.len(),
{
    if items.len() == 0 {
        &&& 0 <= pos < toks.len()
        &&& toks[pos] is CloseParen
        &&& end == pos + 1
    } else if items.len() == 1 {
        &&& spec_tuple_parses(toks, pos, items[0])
        &&& pos + 5 < toks.len()
        &&& toks[pos + 5] is CloseParen
        &&& end == pos + 6
    } else {
        &&& spec_tuple_parses(toks, pos, items[0])
        &&& pos + 5 < toks.len()
        &&& toks[pos + 5] is Comma
        &&& spec_tuple_list_parses(toks, pos + 6, items.drop_first(), end)
    }
}

/// Tokens `pos..end` spell one directive, and `attr` is its parse: the
/// directive name resolves in the vocabulary to `attr.symbol`, and the
/// tokens after it have the symbol's shape, with exactly the matching
/// payload field of `attr` set.
pub open spec fn spec_attr_parses(
    toks: Seq<AttrToken>,
    pos: int,
    attr: TypeAttribute,
    end: int,
) -> bool {
    &&& 0 <= pos < toks.len()
    &&& spec_tok_ident(toks[pos], attr.symbol.s@)
    &&& spec_symbol_meta(attr.symbol.s@) == Option::Some(
        (attr.symbol.is_container, attr.symbol.meta),
    )
    &&& match attr.symbol.meta {
        SymbolMeta::Path => {
            &&& end == pos + 1
            &&& attr.nv_tokens is None
            &&& attr.list_idents is None
            &&& attr.list_tuple_idents is None
            &&& attr.list_other_attrs is None
        },
        SymbolMeta::NameValue => {
            &&& pos + 2 < toks.len()
            &&& toks[pos + 1] is Eq
            &&& match (toks[pos + 2], attr.nv_tokens) {
                (AttrToken::LitStr(v), Option::Some(e)) => e@ == v@ && v@.len() > 0,
                _ => false,
            }
            &&& end == pos + 3
            &&& attr.list_idents is None
            &&& attr.list_tuple_idents is None
            &&& attr.list_other_attrs is None
        },
        SymbolMeta::List => {
            &&& pos + 1 < toks.len()
            &&& toks[pos + 1] is OpenParen
            &&& attr.nv_tokens is None
            &&& if attr.symbol.s@ == "other"@ {
                &&& attr.list_idents is None
                &&& attr.list_tuple_idents is None
                &&& match attr.list_other_attrs {
                    Option::Some(l) => spec_litstr_list_parses(toks, pos + 2, l@, end),
                    Option::None => false,
                }
            } else if attr.symbol.s@ == "field"@ {
                &&& attr.list_idents is None
                &&& attr.list_other_attrs is None
                &&& match attr.list_tuple_idents {
                    Option::Some(l) => spec_tuple_list_parses(toks, pos + 2, l@, end),
                    Option::None => false,
                }
            } else {
                &&& attr.list_tuple_idents is None
                &&& attr.list_other_attrs is None
                &&& match attr.list_idents {
                    Option::Some(l) => spec_ident_list_parses(toks, pos + 2, l@, end),
                    Option::None => false,
                }
            }
        },
    }
}

/// Tokens `pos..` spell the comma-separated directive list `attrs`, running
/// to the end of the token sequence.
pub open spec fn spec_attrs_parse(toks: Seq<AttrToken>, pos: int, attrs: Seq<TypeAttribute>) -> bool
    decreases attrs.len(),
{
    if attrs.len() == 0 {
        pos == toks.len()
    } else {
        exists|mid: int|
            {
                &&& #[trigger] spec_attr_parses(toks, pos, attrs[0], mid)
                &&& if attrs.len() == 1 {
                    mid == toks.len()
                } else {
                    &&& 0 <= mid < toks.len()
                    &&& toks[mid] is Comma
                    &&& spec_attrs_parse(toks, mid + 1, attrs.drop_first())
                }
            }
    }
}

/// No directive list at all parses from `pos`.
pub open spec fn spec_no_attrs_parse(toks: Seq<AttrToken>, pos: int) -> bool {
    forall|attrs: Seq<TypeAttribute>| !spec_attrs_parse(toks, pos, attrs)
}

/// No single directive parses at `pos`.
pub open spec fn spec_no_attr_parse(toks: Seq<AttrToken>, pos: int) -> bool {
    forall|attr: TypeAttribute, end: int| !spec_attr_parses(toks, pos, attr, end)
}

/// An identifier list ends at one position only.
proof fn lemma_ident_list_end(
    toks: Seq<AttrToken>,
    pos: int,
    i1: Seq<String>,
    e1: int,
    i2: Seq<String>,
    e2: int,
)
    requires
        spec_ident_list_parses(toks, pos, i1, e1),
        spec_ident_list_parses(toks, pos, i2, e2),
    ensures
        e1 == e2,
    decreases i1.len(),
{
    if i1.len() >= 2 && i2.len() >= 2 {
        lemma_ident_list_end(toks, pos + 2, i1.drop_first(), e1, i2.drop_first(), e2);
    }
}

/// A string-literal list ends at one position only.
proof fn lemma_litstr_list_end(
    toks: Seq<AttrToken>,
    pos: int,
    i1: Seq<String>,
    e1: int,
    i2: Seq<String>,
    e2: int,
)
    requires
        spec_litstr_list_parses(toks, pos, i1, e1),
        spec_litstr_list_parses(toks, pos, i2, e2),
    ensures
        e1 == e2,
    decreases i1.len(),
{
    if i1.len() >= 2 && i2.len() >= 2 {
        lemma_litstr_list_end(toks, pos + 2, i1.drop_first(), e1, i2.drop_first(), e2);
    }
}

/// A tuple list ends at one position only.
proof fn lemma_tuple_list_end(
    toks: Seq<AttrToken>,
    pos: int,
    i1: Seq<(String, String)>,
    e1: int,
    i2: Seq<(String, String)>,
    e2: int,
)
    requires
        spec_tuple_list_parses(toks, pos, i1, e1),
        spec_tuple_list_parses(toks, pos, i2, e2),
    ensures
        e1 == e2,
    decreases i1.len(),
{
    if i1.len() >= 2 && i2.len() >= 2 {
        lemma_tuple_list_end(toks, pos + 6, i1.drop_first(), e1, i2.drop_first(), e2);
    }
}

/// A directive ends at one position only.
proof fn lemma_attr_end(
    toks: Seq<AttrToken>,
    pos: int,
    a1: TypeAttribute,
    e1: int,
    a2: TypeAttribute,
    e2: int,
)
    requires
        spec_attr_parses(toks, pos, a1, e1),
        spec_attr_parses(toks, pos, a2, e2),
    ensures
        e1 == e2,
{
    assert(a1.symbol.s@ == a2.symbol.s@);
    match a1.symbol.meta {
        SymbolMeta::Path => {}
        SymbolMeta::NameValue => {}
        SymbolMeta::List => {
            if a1.symbol.s@ == "other"@ {
                lemma_litstr_list_end(toks, pos + 2, a1.list_other_attrs->0@, e1,
                    a2.list_other_attrs->0@, e2);
            } else if a1.symbol.s@ == "field"@ {
                lemma_tuple_list_end(toks, pos + 2, a1.list_tuple_idents->0@, e1,
                    a2.list_tuple_idents->0@, e2);
            } else {
                lemma_ident_list_end(toks, pos + 2, a1.list_idents->0@, e1, a2.list_idents->0@,
                    e2);
            }
        }
    }
}

/// A directive-shape failure naming the offending directive.
fn syntax_error(directive: &str, expected: &str) -> (r: DeriveError)
    ensures
        r matches DeriveError::DirectiveSyntax { .. },
{
    DeriveError::DirectiveSyntax { directive: directive.to_owned(), expected: expected.to_owned() }
}

/// Parses the tail of a parenthesized identifier list. A failure means no
/// item list at all parses here.
fn parse_ident_list(toks: &Vec<AttrToken>, pos: usize, directive: &str) -> (r: Result<
    (Vec<String>, usize),
    DeriveError,
>)
    ensures
        match r {
            Result::Ok((items, end)) => {
                &&& spec_ident_list_parses(toks@, pos as int, items@, end as int)
                &&& pos < end <= toks@.len()
            },
            Result::Err(e) => e matches DeriveError::DirectiveSyntax { .. } && forall|
                items: Seq<String>,
                end: int,
            | !spec_ident_list_parses(toks@, pos as int, items, end),
        },
    decreases toks@.len() - pos,
{
    if pos >= toks.len() {
        return Result::Err(syntax_error(directive, "a parenthesized identifier list"));
    }
    match &toks[pos] {
        AttrToken::CloseParen => Result::Ok((Vec::new(), pos + 1)),
        AttrToken::Ident(n) => {
            if pos + 1 >= toks.len() {
                return Result::Err(syntax_error(directive, "a parenthesized identifier list"));
            }
            match &toks[pos + 1] {
                AttrToken::CloseParen => {
                    let mut items: Vec<String> = Vec::new();
                    items.push(n.clone());
                    Result::Ok((items, pos + 2))
                }
                AttrToken::Comma => {
                    let (rest, end) = match parse_ident_list(toks, pos + 2, directive) {
                        Result::Ok(parsed) => parsed,
                        Result::Err(e) => {
                            proof {
                                assert forall|items: Seq<String>, end: int|
                                    !spec_ident_list_parses(toks@, pos as int, items, end) by {
                                    if items.len() >= 2 {
                                        assert(!spec_ident_list_parses(toks@, pos + 2,
                                            items.drop_first(), end));
                                    }
                                }
                            }
                            return Result::Err(e);
                        }
                    };
                    if rest.len() == 0 {
                        proof {
                            assert(toks@[pos + 2] is CloseParen);
                            assert forall|items: Seq<String>, end2: int|
                                !spec_ident_list_parses(toks@, pos as int, items, end2) by {
                                if items.len() >= 2 {
                                    assert(!spec_ident_list_parses(toks@, pos + 2,
                                        items.drop_first(), end2));
                                }
                            }
                        }
                        return Result::Err(
                            syntax_error(directive, "an identifier after the comma"),
                        );
                    }
                    let mut items: Vec<String> = Vec::new();
                    items.push(n.clone());
                    let mut rest = rest;
                    let ghost rest_view = rest@;
                    items.append(&mut rest);
                    proof {
                        assert(items@.drop_first() =~= rest_view);
                    }
                    Result::Ok((items, end))
                }
                _ => Result::Err(syntax_error(directive, "a comma or a closing parenthesis")),
            }
        }
        _ => Result::Err(syntax_error(directive, "an identifier or a closing parenthesis")),
    }
}

/// Parses the tail of a parenthesized string-literal list. A failure means
/// no item list at all parses here.
fn parse_litstr_list(toks: &Vec<AttrToken>, pos: usize, directive: &str) -> (r: Result<
    (Vec<String>, usize),
    DeriveError,
>)
    ensures
        match r {
            Result::Ok((items, end)) => {
                &&& spec_litstr_list_parses(toks@, pos as int, items@, end as int)
                &&& pos < end <= toks@.len()
            },
            Result::Err(e) => e matches DeriveError::DirectiveSyntax { .. } && forall|
                items: Seq<String>,
                end: int,
            | !spec_litstr_list_parses(toks@, pos as int, items, end),
        },
    decreases toks@.len() - pos,
{
    if pos >= toks.len() {
        return Result::Err(syntax_error(directive, "a parenthesized list of string literals"));
    }
    match &toks[pos] {
        AttrToken::CloseParen => Result::Ok((Vec::new(), pos + 1)),
        AttrToken::LitStr(v) => {
            if pos + 1 >= toks.len() {
                return Result::Err(
                    syntax_error(directive, "a parenthesized list of string literals"),
                );
            }
            match &toks[pos + 1] {
                AttrToken::CloseParen => {
                    let mut items: Vec<String> = Vec::new();
                    items.push(v.clone());
                    Result::Ok((items, pos + 2))
                }
                AttrToken::Comma => {
                    let (rest, end) = match parse_litstr_list(toks, pos + 2, directive) {
                        Result::Ok(parsed) => parsed,
                        Result::Err(e) => {
                            proof {
                                assert forall|items: Seq<String>, end: int|
                                    !spec_litstr_list_parses(toks@, pos as int, items, end) by {
                                    if items.len() >= 2 {
                                        assert(!spec_litstr_list_parses(toks@, pos + 2,
                                            items.drop_first(), end));
                                    }
                                }
                            }
                            return Result::Err(e);
                        }
                    };
                    if rest.len() == 0 {
                        proof {
                            assert(toks@[pos + 2] is CloseParen);
                            assert forall|items: Seq<String>, end2: int|
                                !spec_litstr_list_parses(toks@, pos as int, items, end2) by {
                                if items.len() >= 2 {
                                    assert(!spec_litstr_list_parses(toks@, pos + 2,
                                        items.drop_first(), end2));
                                }
                            }
                        }
                        return Result::Err(
                            syntax_error(directive, "a string literal after the comma"),
                        );
                    }
                    let mut items: Vec<String> = Vec::new();
                    items.push(v.clone());
                    let mut rest = rest;
                    let ghost rest_view = rest@;
                    items.append(&mut rest);
                    proof {
                        assert(items@.drop_first() =~= rest_view);
                    }
                    Result::Ok((items, end))
                }
                _ => Result::Err(syntax_error(directive, "a comma or a closing parenthesis")),
            }
        }
        _ => Result::Err(syntax_error(directive, "a string literal or a closing parenthesis")),
    }
}

/// Parses one `(source, target)` pair. A failure means no pair parses here.
fn parse_tuple(toks: &Vec<AttrToken>, pos: usize, directive: &str) -> (r: Result<
    (String, String),
    DeriveError,
>)
    ensures
        match r {
            Result::Ok(item) => spec_tuple_parses(toks@, pos as int, item),
            Result::Err(e) => e matches DeriveError::DirectiveSyntax { .. } && forall|
                item: (String, String),
            | !spec_tuple_parses(toks@, pos as int, item),
        },
{
    if pos >= toks.len() || toks.len() - pos <= 4 {
        return Result::Err(syntax_error(directive, "a parenthesized pair of identifiers"));
    }
    match (&toks[pos], &toks[pos + 1], &toks[pos + 2], &toks[pos + 3], &toks[pos + 4]) {
        (
            AttrToken::OpenParen,
            AttrToken::Ident(a),
            AttrToken::Comma,
            AttrToken::Ident(b),
            AttrToken::CloseParen,
        ) => Result::Ok((a.clone(), b.clone())),
        _ => Result::Err(syntax_error(directive, "a parenthesized pair of identifiers")),
    }
}

/// Parses the tail of a parenthesized list of `(source, target)` pairs. A
/// failure means no pair list at all parses here.
fn parse_tuple_list(toks: &Vec<AttrToken>, pos: usize, directive: &str) -> (r: Result<
    (Vec<(String, String)>, usize),
    DeriveError,
>)
    ensures
        match r {
            Result::Ok((items, end)) => {
                &&& spec_tuple_list_parses(toks@, pos as int, items@, end as int)
                &&& pos < end <= toks@.len()
            },
            Result::Err(e) => e matches DeriveError::DirectiveSyntax { .. } && forall|
                items: Seq<(String, String)>,
                end: int,
            | !spec_tuple_list_parses(toks@, pos as int, items, end),
        },
    decreases toks@.len() - pos,
{
    if pos >= toks.len() {
        return Result::Err(syntax_error(directive, "a parenthesized list of pairs"));
    }
    if let AttrToken::CloseParen = &toks[pos] {
        return Result::Ok((Vec::new(), pos + 1));
    }
    let item = match parse_tuple(toks, pos, directive) {
        Result::Ok(item) => item,
        Result::Err(e) => {
            proof {
                assert(!(toks@[pos as int] is CloseParen));
                assert forall|items: Seq<(String, String)>, end: int|
                    !spec_tuple_list_parses(toks@, pos as int, items, end) by {
                    if items.len() >= 1 {
                        assert(!spec_tuple_parses(toks@, pos as int, items[0]));
                    }
                }
            }
            return Result::Err(e);
        }
    };
    if pos + 5 >= toks.len() {
        proof {
            assert forall|items: Seq<(String, String)>, end: int|
                !spec_tuple_list_parses(toks@, pos as int, items, end) by {}
        }
        return Result::Err(syntax_error(directive, "a comma or a closing parenthesis"));
    }
    match &toks[pos + 5] {
        AttrToken::CloseParen => {
            let mut items: Vec<(String, String)> = Vec::new();
            items.push(item);
            Result::Ok((items, pos + 6))
        }
        AttrToken::Comma => {
            let (rest, end) = match parse_tuple_list(toks, pos + 6, directive) {
                Result::Ok(parsed) => parsed,
                Result::Err(e) => {
                    proof {
                        assert forall|items: Seq<(String, String)>, end: int|
                            !spec_tuple_list_parses(toks@, pos as int, items, end) by {
                            if items.len() >= 2 {
                                assert(!spec_tuple_list_parses(toks@, pos + 6,
                                    items.drop_first(), end));
                            }
                        }
                    }
                    return Result::Err(e);
                }
            };
            if rest.len() == 0 {
                proof {
                    assert(toks@[pos + 6] is CloseParen);
                    assert forall|items: Seq<(String, String)>, end2: int|
                        !spec_tuple_list_parses(toks@, pos as int, items, end2) by {
                        if items.len() >= 2 {
                            assert(!(toks@[pos + 6] is OpenParen));
                            assert(!spec_tuple_parses(toks@, pos + 6, items.drop_first()[0]));
                            assert(!spec_tuple_list_parses(toks@, pos + 6, items.drop_first(),
                                end2));
                        }
                    }
                }
                return Result::Err(syntax_error(directive, "a pair after the comma"));
            }
            let mut items: Vec<(String, String)> = Vec::new();
            items.push(item);
            let mut rest = rest;
            let ghost rest_view = rest@;
            items.append(&mut rest);
            proof {
                assert(items@.drop_first() =~= rest_view);
            }
            Result::Ok((items, end))
        }
        _ => {
            proof {
                assert forall|items: Seq<(String, String)>, end: int|
                    !spec_tuple_list_parses(toks@, pos as int, items, end) by {}
            }
            Result::Err(syntax_error(directive, "a comma or a closing parenthesis"))
        }
    }
}

impl TypeAttribute {
    /// Parses one directive at `pos`: its name must be in the vocabulary and
    /// the tokens after it must have the shape the vocabulary requires.
    ///
    /// An unknown name or a shape violation is a `DirectiveSyntax` failure;
    /// a `name = "..."` directive whose value is missing or empty is a
    /// `MalformedOverrideExpression` failure. Either way, a failure means no
    /// directive at all parses at `pos`.
    pub fn parse(toks: &Vec<AttrToken>, pos: usize) -> (r: Result<
        (TypeAttribute, usize),
        DeriveError,
    >)
        ensures
            match r {
                Result::Ok((attr, end)) => {
                    &&& spec_attr_parses(toks@, pos as int, attr, end as int)
                    &&& pos < end <= toks@.len()
                },
                Result::Err(e) => (e matches DeriveError::DirectiveSyntax { .. } || e matches
                    DeriveError::MalformedOverrideExpression { .. }) && spec_no_attr_parse(
                    toks@,
                    pos as int,
                ),
            },
    {
        if pos >= toks.len() {
            return Result::Err(syntax_error("", "a directive name"));
        }
        let name = match &toks[pos] {
            AttrToken::Ident(n) => n,
            _ => {
                return Result::Err(syntax_error("", "a directive name"));
            }
        };
        let symbol = match Symbol::lookup(name.as_str()) {
            Option::Some(sym) => sym,
            Option::None => {
                return Result::Err(syntax_error(name.as_str(), "a known directive name"));
            }
        };
        match symbol.meta {
            SymbolMeta::Path => Result::Ok(
                (
                    TypeAttribute {
                        symbol,
                        nv_tokens: Option::None,
                        list_idents: Option::None,
                        list_tuple_idents: Option::None,
                        list_other_attrs: Option::None,
                    },
                    pos + 1,
                ),
            ),
            SymbolMeta::NameValue => {
                if pos >= toks.len() || toks.len() - pos <= 2 {
                    return Result::Err(syntax_error(name.as_str(), "an equals sign and a value"));
                }
                match &toks[pos + 1] {
                    AttrToken::Eq => {}
                    _ => {
                        return Result::Err(syntax_error(name.as_str(), "an equals sign"));
                    }
                }
                let value = match &toks[pos + 2] {
                    AttrToken::LitStr(v) => v,
                    _ => {
                        return Result::Err(
                            DeriveError::MalformedOverrideExpression {
                                directive: name.clone(),
                            },
                        );
                    }
                };
                if value.unicode_len() == 0 {
                    return Result::Err(
                        DeriveError::MalformedOverrideExpression { directive: name.clone() },
                    );
                }
                Result::Ok(
                    (
                        TypeAttribute {
                            symbol,
                            nv_tokens: Option::Some(value.clone()),
                            list_idents: Option::None,
                            list_tuple_idents: Option::None,
                            list_other_attrs: Option::None,
                        },
                        pos + 3,
                    ),
                )
            }
            SymbolMeta::List => {
                if pos + 1 >= toks.len() {
                    return Result::Err(syntax_error(name.as_str(), "a parenthesized list"));
                }
                match &toks[pos + 1] {
                    AttrToken::OpenParen => {}
                    _ => {
                        return Result::Err(syntax_error(name.as_str(), "a parenthesized list"));
                    }
                }
                if str_eq(name.as_str(), "other") {
                    let (items, end) = match parse_litstr_list(toks, pos + 2, name.as_str()) {
                        Result::Ok(parsed) => parsed,
                        Result::Err(e) => {
                            proof {
                                assert forall|attr: TypeAttribute, end: int|
                                    !spec_attr_parses(toks@, pos as int, attr, end) by {
                                    match attr.list_other_attrs {
                                        Option::Some(l) => {
                                            assert(!spec_litstr_list_parses(toks@, pos + 2, l@,
                                                end));
                                        }
                                        Option::None => {}
                                    }
                                }
                            }
                            return Result::Err(e);
                        }
                    };
                    Result::Ok(
                        (
                            TypeAttribute {
                                symbol,
                                nv_tokens: Option::None,
                                list_idents: Option::None,
                                list_tuple_idents: Option::None,
                                list_other_attrs: Option::Some(items),
                            },
                            end,
                        ),
                    )
                } else if str_eq(name.as_str(), "field") {
                    let (items, end) = match parse_tuple_list(toks, pos + 2, name.as_str()) {
                        Result::Ok(parsed) => parsed,
                        Result::Err(e) => {
                            proof {
                                assert forall|attr: TypeAttribute, end: int|
                                    !spec_attr_parses(toks@, pos as int, attr, end) by {
                                    match attr.list_tuple_idents {
                                        Option::Some(l) => {
                                            assert(!spec_tuple_list_parses(toks@, pos + 2, l@,
                                                end));
                                        }
                                        Option::None => {}
                                    }
                                }
                            }
                            return Result::Err(e);
                        }
                    };
                    Result::Ok(
                        (
                            TypeAttribute {
                                symbol,
                                nv_tokens: Option::None,
                                list_idents: Option::None,
                                list_tuple_idents: Option::Some(items),
                                list_other_attrs: Option::None,
                            },
                            end,
                        ),
                    )
                } else {
                    let (items, end) = match parse_ident_list(toks, pos + 2, name.as_str()) {
                        Result::Ok(parsed) => parsed,
                        Result::Err(e) => {
                            proof {
                                assert forall|attr: TypeAttribute, end: int|
                                    !spec_attr_parses(toks@, pos as int, attr, end) by {
                                    match attr.list_idents {
                                        Option::Some(l) => {
                                            assert(!spec_ident_list_parses(toks@, pos + 2, l@,
                                                end));
                                        }
                                        Option::None => {}
                                    }
                                }
                            }
                            return Result::Err(e);
                        }
                    };
                    Result::Ok(
                        (
                            TypeAttribute {
                                symbol,
                                nv_tokens: Option::None,
                                list_idents: Option::Some(items),
                                list_tuple_idents: Option::None,
                                list_other_attrs: Option::None,
                            },
                            end,
                        ),
                    )
                }
            }
        }
    }
}

/// Parses the comma-separated directive list from `pos` to the end of the
/// tokens. A failure means no directive list at all parses here.
fn parse_attrs_from(toks: &Vec<AttrToken>, pos: usize) -> (r: Result<
    Vec<TypeAttribute>,
    DeriveError,
>)
    ensures
        match r {
            Result::Ok(attrs) => spec_attrs_parse(toks@, pos as int, attrs@),
            Result::Err(e) => (e matches DeriveError::DirectiveSyntax { .. } || e matches
                DeriveError::MalformedOverrideExpression { .. }) && spec_no_attrs_parse(
                toks@,
                pos as int,
            ),
        },
    decreases toks@.len() - pos,
{
    if pos >= toks.len() {
        if pos == toks.len() {
            return Result::Ok(Vec::new());
        }
        return Result::Err(syntax_error("", "a directive"));
    }
    let (attr, end) = match TypeAttribute::parse(toks, pos) {
        Result::Ok(parsed) => parsed,
        Result::Err(e) => {
            proof {
                assert forall|attrs: Seq<TypeAttribute>|
                    !spec_attrs_parse(toks@, pos as int, attrs) by {
                    if spec_attrs_parse(toks@, pos as int, attrs) {
                        assert(attrs.len() >= 1);
                        let mid = choose|mid: int| #[trigger] spec_attr_parses(toks@, pos as int,
                            attrs[0], mid) && (if attrs.len() == 1 {
                            mid == toks@.len()
                        } else {
                            0 <= mid < toks@.len() && toks@[mid] is Comma && spec_attrs_parse(
                                toks@,
                                mid + 1,
                                attrs.drop_first(),
                            )
                        });
                        assert(!spec_attr_parses(toks@, pos as int, attrs[0], mid));
                    }
                }
            }
            return Result::Err(e);
        }
    };
    if end == toks.len() {
        let mut attrs: Vec<TypeAttribute> = Vec::new();
        attrs.push(attr);
        proof {
            assert(spec_attr_parses(toks@, pos as int, attrs@[0], end as int));
        }
        return Result::Ok(attrs);
    }
    match &toks[end] {
        AttrToken::Comma => {
            let rest = match parse_attrs_from(toks, end + 1) {
                Result::Ok(rest) => rest,
                Result::Err(e) => {
                    proof {
                        lift_attrs_failure(toks@, pos as int, attr, end as int);
                    }
                    return Result::Err(e);
                }
            };
            if rest.len() == 0 {
                proof {
                    assert(end + 1 == toks@.len());
                    lift_attrs_failure(toks@, pos as int, attr, end as int);
                }
                return Result::Err(syntax_error("", "a directive after the comma"));
            }
            let mut attrs: Vec<TypeAttribute> = Vec::new();
            attrs.push(attr);
            let mut rest = rest;
            let ghost rest_view = rest@;
            attrs.append(&mut rest);
            proof {
                assert(attrs@.drop_first() =~= rest_view);
                assert(spec_attr_parses(toks@, pos as int, attrs@[0], end as int));
            }
            Result::Ok(attrs)
        }
        _ => {
            proof {
                lift_attrs_failure(toks@, pos as int, attr, end as int);
            }
            Result::Err(syntax_error("", "a comma between directives"))
        }
    }
}

/// When the first directive of a list parses to `end`, but the tokens at
/// `end` do not continue a directive list — no comma, a trailing comma, or
/// an unparsable remainder — then no directive list parses at `pos`.
proof fn lift_attrs_failure(toks: Seq<AttrToken>, pos: int, attr: TypeAttribute, end: int)
    requires
        spec_attr_parses(toks, pos, attr, end),
        pos < end <= toks.len(),
        end < toks.len() && toks[end] is Comma ==> spec_no_attrs_parse(toks, end + 1) || end + 1
            == toks.len(),
        end < toks.len() && !(toks[end] is Comma) ==> true,
        end == toks.len() ==> false,
    ensures
        spec_no_attrs_parse(toks, pos),
{
    assert forall|attrs: Seq<TypeAttribute>| !spec_attrs_parse(toks, pos, attrs) by {
        if spec_attrs_parse(toks, pos, attrs) {
            assert(attrs.len() >= 1);
            let mid = choose|mid: int| #[trigger] spec_attr_parses(toks, pos, attrs[0], mid) && (
            if attrs.len() == 1 {
                mid == toks.len()
            } else {
                0 <= mid < toks.len() && toks[mid] is Comma && spec_attrs_parse(
                    toks,
                    mid + 1,
                    attrs.drop_first(),
                )
            });
            lemma_attr_end(toks, pos, attrs[0], mid, attr, end);
            if attrs.len() == 1 {
                assert(mid == toks.len());
                assert(mid == end);
            } else {
                assert(mid == end);
                assert(toks[end] is Comma);
                if end + 1 == toks.len() {
                    assert(attrs.drop_first().len() >= 1);
                    assert(spec_attrs_parse(toks, end + 1, attrs.drop_first()));
                    let mid2 = choose|mid2: int| #[trigger] spec_attr_parses(toks, end + 1,
                        attrs.drop_first()[0], mid2) && (if attrs.drop_first().len() == 1 {
                        mid2 == toks.len()
                    } else {
                        0 <= mid2 < toks.len() && toks[mid2] is Comma && spec_attrs_parse(
                            toks,
                            mid2 + 1,
                            attrs.drop_first().drop_first(),
                        )
                    });
                    assert(end + 1 < toks.len());
                } else {
                    assert(!spec_attrs_parse(toks, end + 1, attrs.drop_first()));
                }
            }
        }
    }
}

impl ContainerAttributes {
    /// Parses the directive list of one annotation block. A failure means no
    /// directive list at all parses: the block is malformed, not merely
    /// parsed differently.
    pub fn parse(toks: &Vec<AttrToken>) -> (r: Result<ContainerAttributes, DeriveError>)
        ensures
            match r {
                Result::Ok(attrs) => spec_attrs_parse(toks@, 0, attrs.0@),
                Result::Err(e) => (e matches DeriveError::DirectiveSyntax { .. } || e matches
                    DeriveError::MalformedOverrideExpression { .. }) && spec_no_attrs_parse(
                    toks@,
                    0,
                ),
            },
    {
        let attrs = parse_attrs_from(toks, 0)?;
        Result::Ok(ContainerAttributes(attrs))
    }
}

impl Symbol {
    /// Whether a directive with this symbol's name stands in `vals`.
    pub fn contained_in(&self, vals: &Vec<TypeAttribute>) -> (r: bool)
        ensures
            r == (spec_find_attr(vals@, self.s@) is Some),
    {
        let mut i: usize = 0;
        proof {
            assert(vals@.subrange(0, vals@.len() as int) =~= vals@);
        }
        while i < vals.len()
            invariant
                i <= vals@.len(),
                spec_find_attr(vals@, self.s@) == spec_find_attr(
                    vals@.subrange(i as int, vals@.len() as int),
                    self.s@,
                ),
            decreases vals@.len() - i,
        {
            let ghost pre = vals@.subrange(i as int, vals@.len() as int);
            if str_eq(vals[i].symbol.s, self.s) {
                return true;
            }
            proof {
                assert(pre.subrange(1, pre.len() as int) =~= vals@.subrange(
                    i + 1,
                    vals@.len() as int,
                ));
            }
            i += 1;
        }
        false
    }

    /// The first directive with this symbol's name, if any.
    pub fn find_type_attr<'a>(&self, vals: &'a Vec<TypeAttribute>) -> (r: Option<
        &'a TypeAttribute,
    >)
        ensures
            match r {
                Option::Some(attr) => spec_find_attr(vals@, self.s@) == Option::Some(*attr),
                Option::None => spec_find_attr(vals@, self.s@) is None,
            },
    {
        let mut i: usize = 0;
        proof {
            assert(vals@.subrange(0, vals@.len() as int) =~= vals@);
        }
        while i < vals.len()
            invariant
                i <= vals@.len(),
                spec_find_attr(vals@, self.s@) == spec_find_attr(
                    vals@.subrange(i as int, vals@.len() as int),
                    self.s@,
                ),
            decreases vals@.len() - i,
        {
            let ghost pre = vals@.subrange(i as int, vals@.len() as int);
            if str_eq(vals[i].symbol.s, self.s) {
                return Option::Some(&vals[i]);
            }
            proof {
                assert(pre.subrange(1, pre.len() as int) =~= vals@.subrange(
                    i + 1,
                    vals@.len() as int,
                ));
            }
            i += 1;
        }
        Option::None
    }
}

/// The first directive with the given name, if any.
pub open spec fn spec_find_attr(attrs: Seq<TypeAttribute>, name: Seq<char>) -> Option<
    TypeAttribute,
>
    decreases attrs.len(),
{
    if attrs.len() == 0 {
        Option::None
    } else if attrs[0].symbol.s@ == name {
        Option::Some(attrs[0])
    } else {
        spec_find_attr(attrs.subrange(1, attrs.len() as int), name)
    }
}

} // verus!
