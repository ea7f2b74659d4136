//! The record transformer: produces the two conversion procedure bodies for
//! a record declaration, field by field.
//!
//! Forward conversion obtains each field from the source value — through the
//! field's custom accessor expression when a `func` directive is present,
//! structurally otherwise — and converts it; backward conversion converts
//! each field back and reassembles the source type's literal construction,
//! by name for named records and by position for positional ones. An empty
//! field list constructs with zero fields; it is not special-cased away.

use vstd::prelude::*;

use crate::decl::{spec_field_directives_unparsable, spec_struct_parse_failure, FieldDef,
    StructData};
use crate::errors::DeriveError;
use crate::text::{spec_decimal_digits, usize_to_string};
use crate::type_attr::{spec_attrs_parse, ContainerAttributes, TypeAttribute};

verus! {

/// One record field, resolved for conversion emission: its name or its
/// position, and its parsed field directives.
pub struct StructField {
    pub ident: Option<String>,
    pub field_attrs: Vec<TypeAttribute>,
    pub is_unnamed_idx: Option<usize>,
}

/// A record's resolved field list.
pub struct StructContainer {
    pub fields: Vec<StructField>,
    pub is_named: bool,
}

/// A resolved field addresses the source either by name or by position.
pub open spec fn spec_field_wf(f: StructField) -> bool {
    f.ident is Some <==> f.is_unnamed_idx is None
}

/// The custom accessor expression of a field's `func` directive, if one is
/// present.
pub open spec fn spec_func_expr(attrs: Seq<TypeAttribute>) -> Option<String>
    decreases attrs.len(),
{
    if attrs.len() == 0 {
        Option::None
    } else if attrs[0].symbol.s@ == "func"@ {
        attrs[0].nv_tokens
    } else {
        spec_func_expr(attrs.drop_first())
    }
}

/// The forward-conversion text one field contributes.
pub open spec fn spec_field_from_source(f: StructField) -> Seq<char> {
    match f.ident {
        Option::Some(id) => match spec_func_expr(f.field_attrs@) {
            Option::Some(e) => id@ + ": RedefinedConvert::from_source("@ + e@ + "), "@,
            Option::None => id@ + ": RedefinedConvert::from_source(src."@ + id@ + "), "@,
        },
        Option::None => {
            let idx = f.is_unnamed_idx->0;
            "RedefinedConvert::from_source(src."@ + spec_decimal_digits(idx as nat) + "), "@
        }
    }
}

/// The backward-conversion text one field contributes.
pub open spec fn spec_field_to_source(f: StructField) -> Seq<char> {
    match f.ident {
        Option::Some(id) => id@ + ": self."@ + id@ + ".to_source(), "@,
        Option::None => {
            let idx = f.is_unnamed_idx->0;
            "self."@ + spec_decimal_digits(idx as nat) + ".to_source(), "@
        }
    }
}

/// The concatenated forward texts of the first `k` fields.
pub open spec fn spec_fields_from_source(fields: Seq<StructField>, k: int) -> Seq<char>
    decreases k,
{
    if k <= 0 {
        Seq::empty()
    } else {
        spec_fields_from_source(fields, k - 1) + spec_field_from_source(fields[k - 1])
    }
}

/// The concatenated backward texts of the first `k` fields.
pub open spec fn spec_fields_to_source(fields: Seq<StructField>, k: int) -> Seq<char>
    decreases k,
{
    if k <= 0 {
        Seq::empty()
    } else {
        spec_fields_to_source(fields, k - 1) + spec_field_to_source(fields[k - 1])
    }
}

/// The full forward-conversion body of a record.
pub open spec fn spec_struct_from_source(c: StructContainer) -> Seq<char> {
    if c.is_named {
        "Self { "@ + spec_fields_from_source(c.fields@, c.fields@.len() as int) + "}"@
    } else {
        "Self("@ + spec_fields_from_source(c.fields@, c.fields@.len() as int) + ")"@
    }
}

/// The full backward-conversion body of a record.
pub open spec fn spec_struct_to_source(c: StructContainer, source_type: Seq<char>) -> Seq<char> {
    if c.is_named {
        source_type + " { "@ + spec_fields_to_source(c.fields@, c.fields@.len() as int) + "}"@
    } else {
        source_type + "("@ + spec_fields_to_source(c.fields@, c.fields@.len() as int) + ")"@
    }
}

/// Whether the resolved field `f` stands for the declared field `d` at
/// position `idx` of a record whose fields are named iff `is_named`.
pub open spec fn spec_field_resolves(f: StructField, d: FieldDef, idx: int, is_named: bool) -> bool {
    &&& spec_field_wf(f)
    &&& if is_named {
        &&& f.ident is Some
        &&& d.ident is Some
        &&& f.ident->0@ == d.ident->0@
    } else {
        &&& f.ident is None
        &&& f.is_unnamed_idx == Option::Some(idx as usize)
    }
    &&& match d.directive_tokens {
        Option::Some(toks) => spec_attrs_parse(toks@, 0, f.field_attrs@),
        Option::None => f.field_attrs@.len() == 0,
    }
}

/// Whether the resolved container `c` stands for the declared record `d`.
pub open spec fn spec_struct_container_resolves(c: StructContainer, d: StructData) -> bool {
    &&& c.is_named == d.is_named
    &&& c.fields@.len() == d.fields@.len()
    &&& forall|i: int|
        0 <= i < c.fields@.len() ==> spec_field_resolves(
            #[trigger] c.fields@[i],
            d.fields@[i],
            i,
            d.is_named,
        )
}

impl StructField {
    /// A fresh resolved field with no directives yet.
    pub fn new(ident: Option<String>, is_unnamed_idx: Option<usize>) -> (r: StructField)
        ensures
            r.ident == ident,
            r.is_unnamed_idx == is_unnamed_idx,
            r.field_attrs@.len() == 0,
    {
        StructField { ident, field_attrs: Vec::new(), is_unnamed_idx }
    }

    /// Parses the field's directive annotation into its directive list. A
    /// failure means the annotation has no parse at all; the field is then
    /// left as it was.
    pub fn parse_attributes_for_field(&mut self, field: &FieldDef) -> (r: Result<
        (),
        DeriveError,
    >)
        ensures
            final(self).ident == old(self).ident,
            final(self).is_unnamed_idx == old(self).is_unnamed_idx,
            match r {
                Result::Ok(()) => match field.directive_tokens {
                    Option::Some(toks) => spec_attrs_parse(toks@, 0, final(self).field_attrs@),
                    Option::None => final(self).field_attrs@.len() == 0,
                },
                Result::Err(_) => final(self).field_attrs == old(self).field_attrs
                    && spec_field_directives_unparsable(*field),
            },
    {
        match &field.directive_tokens {
            Option::Some(toks) => {
                let parsed = ContainerAttributes::parse(toks)?;
                self.field_attrs = parsed.0;
                Result::Ok(())
            }
            Option::None => {
                self.field_attrs = Vec::new();
                Result::Ok(())
            }
        }
    }

    /// The custom accessor expression of this field's `func` directive, if
    /// one is present.
    fn func_expr(&self) -> (r: Option<&String>)
        ensures
            match r {
                Option::Some(e) => spec_func_expr(self.field_attrs@) == Option::Some(*e),
                Option::None => spec_func_expr(self.field_attrs@) is None,
            },
    {
        let mut i: usize = 0;
        proof {
            assert(self.field_attrs@.subrange(0, self.field_attrs@.len() as int)
                =~= self.field_attrs@);
        }
        while i < self.field_attrs.len()
            invariant
                i <= self.field_attrs@.len(),
                spec_func_expr(self.field_attrs@) == spec_func_expr(
                    self.field_attrs@.subrange(i as int, self.field_attrs@.len() as int),
                ),
            decreases self.field_attrs@.len() - i,
        {
            let ghost pre = self.field_attrs@.subrange(i as int, self.field_attrs@.len() as int);
            let attr = &self.field_attrs[i];
            if crate::text::str_eq(attr.symbol.s, "func") {
                match &attr.nv_tokens {
                    Option::Some(e) => {
                        return Option::Some(e);
                    }
                    Option::None => {
                        return Option::None;
                    }
                }
            }
            proof {
                assert(pre.drop_first() =~= self.field_attrs@.subrange(
                    i + 1,
                    self.field_attrs@.len() as int,
                ));
            }
            i += 1;
        }
        Option::None
    }

    /// The forward-conversion text of this field: through its custom
    /// accessor when a `func` directive is present, structural access
    /// otherwise.
    pub fn from_source_tokens(&self) -> (r: String)
        requires
            spec_field_wf(*self),
        ensures
            r@ == spec_field_from_source(*self),
    {
        let mut out = String::new();
        match &self.ident {
            Option::Some(id) => {
                match self.func_expr() {
                    Option::Some(e) => {
                        let e = e.clone();
                        out.append(id.as_str());
                        out.append(": RedefinedConvert::from_source(");
                        out.append(e.as_str());
                        out.append("), ");
                    }
                    Option::None => {
                        out.append(id.as_str());
                        out.append(": RedefinedConvert::from_source(src.");
                        out.append(id.as_str());
                        out.append("), ");
                    }
                }
            }
            Option::None => {
                let idx = match self.is_unnamed_idx {
                    Option::Some(idx) => idx,
                    Option::None => 0,  // unreachable under the precondition
                };
                out.append("RedefinedConvert::from_source(src.");
                let digits = usize_to_string(idx);
                out.append(digits.as_str());
                out.append("), ");
            }
        }
        out
    }

    /// The backward-conversion text of this field: structural access on the
    /// mirror value.
    pub fn to_source_tokens(&self) -> (r: String)
        requires
            spec_field_wf(*self),
        ensures
            r@ == spec_field_to_source(*self),
    {
        let mut out = String::new();
        match &self.ident {
            Option::Some(id) => {
                out.append(id.as_str());
                out.append(": self.");
                out.append(id.as_str());
                out.append(".to_source(), ");
            }
            Option::None => {
                let idx = match self.is_unnamed_idx {
                    Option::Some(idx) => idx,
                    Option::None => 0,  // unreachable under the precondition
                };
                out.append("self.");
                let digits = usize_to_string(idx);
                out.append(digits.as_str());
                out.append(".to_source(), ");
            }
        }
        out
    }
}

impl StructContainer {
    /// Resolves a record's declared fields: names or positions, and each
    /// field's parsed directives. A failure means some field's directives
    /// have no parse, or a named record declares a nameless field.
    pub fn parse_new(data_struct: &StructData) -> (r: Result<StructContainer, DeriveError>)
        ensures
            match r {
                Result::Ok(c) => spec_struct_container_resolves(c, *data_struct),
                Result::Err(_) => spec_struct_parse_failure(*data_struct),
            },
    {
        let mut fields: Vec<StructField> = Vec::new();
        let mut i: usize = 0;
        while i < data_struct.fields.len()
            invariant
                i <= data_struct.fields@.len(),
                fields@.len() == i,
                forall|j: int|
                    0 <= j < i ==> spec_field_resolves(
                        #[trigger] fields@[j],
                        data_struct.fields@[j],
                        j,
                        data_struct.is_named,
                    ),
            decreases data_struct.fields@.len() - i,
        {
            let d = &data_struct.fields[i];
            let mut f = if data_struct.is_named {
                match &d.ident {
                    Option::Some(id) => StructField::new(Option::Some(id.clone()), Option::None),
                    Option::None => {
                        proof {
                            reveal_strlit("field");
                            assert(data_struct.fields@[i as int].ident is None);
                        }
                        return Result::Err(
                            DeriveError::DirectiveSyntax {
                                directive: "field".to_owned(),
                                expected: "a named field in a named record".to_owned(),
                            },
                        );
                    }
                }
            } else {
                StructField::new(Option::None, Option::Some(i))
            };
            match f.parse_attributes_for_field(d) {
                Result::Ok(()) => {}
                Result::Err(e) => {
                    proof {
                        assert(spec_field_directives_unparsable(data_struct.fields@[i as int]));
                    }
                    return Result::Err(e);
                }
            }
            fields.push(f);
            i += 1;
        }
        Result::Ok(StructContainer { fields, is_named: data_struct.is_named })
    }

    /// The forward-conversion body: each field obtained from the source
    /// value and converted, reassembled into the mirror's construction.
    pub fn from_source_tokens(&self) -> (r: String)
        requires
            forall|i: int| 0 <= i < self.fields@.len() ==> spec_field_wf(#[trigger] self.fields@[i]),
        ensures
            r@ == spec_struct_from_source(*self),
    {
        let mut out = String::new();
        if self.is_named {
            out.append("Self { ");
        } else {
            out.append("Self(");
        }
        let mut i: usize = 0;
        while i < self.fields.len()
            invariant
                i <= self.fields@.len(),
                forall|k: int|
                    0 <= k < self.fields@.len() ==> spec_field_wf(#[trigger] self.fields@[k]),
                out@ == (if self.is_named {
                    "Self { "@
                } else {
                    "Self("@
                }) + spec_fields_from_source(self.fields@, i as int),
            decreases self.fields@.len() - i,
        {
            let part = self.fields[i].from_source_tokens();
            out.append(part.as_str());
            i += 1;
        }
        if self.is_named {
            out.append("}");
        } else {
            out.append(")");
        }
        out
    }

    /// The backward-conversion body: each field converted back and
    /// reassembled into the source type's literal construction.
    pub fn to_source_tokens(&self, source_type: &str) -> (r: String)
        requires
            forall|i: int| 0 <= i < self.fields@.len() ==> spec_field_wf(#[trigger] self.fields@[i]),
        ensures
            r@ == spec_struct_to_source(*self, source_type@),
    {
        let mut out = source_type.to_owned();
        if self.is_named {
            out.append(" { ");
        } else {
            out.append("(");
        }
        let mut i: usize = 0;
        while i < self.fields.len()
            invariant
                i <= self.fields@.len(),
                forall|k: int|
                    0 <= k < self.fields@.len() ==> spec_field_wf(#[trigger] self.fields@[k]),
                out@ == source_type@ + (if self.is_named {
                    " { "@
                } else {
                    "("@
                }) + spec_fields_to_source(self.fields@, i as int),
            decreases self.fields@.len() - i,
        {
            let part = self.fields[i].to_source_tokens();
            out.append(part.as_str());
            i += 1;
        }
        if self.is_named {
            out.append("}");
        } else {
            out.append(")");
        }
        out
    }
}

} // verus!
