//! The fixed table of self-converting base-type names. An identifier in this
//! table is never rewritten to a mirror name.

use vstd::prelude::*;

use crate::text::str_eq;

verus! {

/// Whether `s` names one of the self-converting base types.
pub open spec fn spec_is_simple_primitive(s: Seq<char>) -> bool {
    ||| s == "u8"@
    ||| s == "u16"@
    ||| s == "u32"@
    ||| s == "u64"@
    ||| s == "u128"@
    ||| s == "usize"@
    ||| s == "i8"@
    ||| s == "i16"@
    ||| s == "i32"@
    ||| s == "i64"@
    ||| s == "i128"@
    ||| s == "isize"@
    ||| s == "f32"@
    ||| s == "f64"@
    ||| s == "str"@
    ||| s == "bool"@
    ||| s == "String"@
    ||| s == "char"@
}

/// Whether `val` names one of the self-converting base types.
pub fn is_simple_primitive(val: &str) -> (r: bool)
    ensures
        r == spec_is_simple_primitive(val@),
{
    str_eq(val, "u8") || str_eq(val, "u16") || str_eq(val, "u32") || str_eq(val, "u64")
        || str_eq(val, "u128") || str_eq(val, "usize") || str_eq(val, "i8") || str_eq(val, "i16")
        || str_eq(val, "i32") || str_eq(val, "i64") || str_eq(val, "i128") || str_eq(
        val,
        "isize",
    ) || str_eq(val, "f32") || str_eq(val, "f64") || str_eq(val, "str") || str_eq(val, "bool")
        || str_eq(val, "String") || str_eq(val, "char")
}

/// A container name from the base-type table; `Vec` is the one container
/// whose identifier is kept while its argument types are rewritten.
pub struct Primitive(pub &'static str);

impl Primitive {
    /// Whether `ident` names the `Vec` container.
    pub fn is_primitive(ident: &str) -> (r: bool)
        ensures
            r == (ident@ == "Vec"@),
    {
        str_eq(ident, "Vec")
    }
}

} // verus!
