//! Verified string helpers used throughout the derivation engine: equality,
//! containment, prefix tests, and the mirror-name suffix.

use vstd::prelude::*;

verus! {

/// The suffix appended to an identifier to name its mirror type.
pub open spec fn spec_mirror_suffix() -> Seq<char> {
    "Redefined"@
}

/// The suffix appended to an identifier to name its mirror type.
pub fn mirror_suffix() -> (r: &'static str)
    ensures
        r@ == spec_mirror_suffix(),
{
    "Redefined"
}

/// Whether two strings hold the same characters.
pub fn str_eq(a: &str, b: &str) -> (r: bool)
    ensures
        r == (a@ == b@),
{
    let alen = a.unicode_len();
    let blen = b.unicode_len();
    if alen != blen {
        assert(a@ != b@);
        return false;
    }
    let mut i: usize = 0;
    while i < alen
        invariant
            alen == a@.len(),
            blen == b@.len(),
            alen == blen,
            i <= alen,
            forall|j: int| 0 <= j < i ==> a@[j] == b@[j],
        decreases alen - i,
    {
        if a.get_char(i) != b.get_char(i) {
            return false;
        }
        i += 1;
    }
    assert(a@ =~= b@);
    true
}

/// Whether `name` ends in the mirror suffix.
pub open spec fn spec_has_mirror_suffix(name: Seq<char>) -> bool {
    &&& name.len() >= spec_mirror_suffix().len()
    &&& name.subrange(name.len() - spec_mirror_suffix().len(), name.len() as int)
        == spec_mirror_suffix()
}

/// Whether `name` ends in the mirror suffix.
pub fn has_mirror_suffix(name: &str) -> (r: bool)
    ensures
        r == spec_has_mirror_suffix(name@),
{
    proof {
        reveal_strlit("Redefined");
    }
    let suffix = mirror_suffix();
    let nlen = name.unicode_len();
    if nlen < 9 {
        return false;
    }
    let tail = name.substring_char(nlen - 9, nlen);
    str_eq(tail, suffix)
}

/// `name` with the mirror suffix appended.
pub fn with_mirror_suffix(name: &str) -> (r: String)
    ensures
        r@ == name@ + spec_mirror_suffix(),
{
    let mut r = name.to_owned();
    r.append(mirror_suffix());
    r
}

/// The decimal digit character of `n`, which must be below ten.
pub open spec fn spec_digit_char(n: nat) -> char {
    if n == 0 {
        '0'
    } else if n == 1 {
        '1'
    } else if n == 2 {
        '2'
    } else if n == 3 {
        '3'
    } else if n == 4 {
        '4'
    } else if n == 5 {
        '5'
    } else if n == 6 {
        '6'
    } else if n == 7 {
        '7'
    } else if n == 8 {
        '8'
    } else {
        '9'
    }
}

/// The decimal spelling of `n`.
pub open spec fn spec_decimal_digits(n: nat) -> Seq<char>
    decreases n,
{
    if n < 10 {
        seq![spec_digit_char(n)]
    } else {
        spec_decimal_digits(n / 10) + seq![spec_digit_char(n % 10)]
    }
}

/// One decimal digit as text.
fn digit_str(n: usize) -> (r: &'static str)
    requires
        n < 10,
    ensures
        r@ =~= seq![spec_digit_char(n as nat)],
{
    proof {
        reveal_strlit("0");
        reveal_strlit("1");
        reveal_strlit("2");
        reveal_strlit("3");
        reveal_strlit("4");
        reveal_strlit("5");
        reveal_strlit("6");
        reveal_strlit("7");
        reveal_strlit("8");
        reveal_strlit("9");
    }
    if n == 0 {
        "0"
    } else if n == 1 {
        "1"
    } else if n == 2 {
        "2"
    } else if n == 3 {
        "3"
    } else if n == 4 {
        "4"
    } else if n == 5 {
        "5"
    } else if n == 6 {
        "6"
    } else if n == 7 {
        "7"
    } else if n == 8 {
        "8"
    } else {
        "9"
    }
}

/// The decimal spelling of `n`.
pub fn usize_to_string(n: usize) -> (r: String)
    ensures
        r@ == spec_decimal_digits(n as nat),
    decreases n,
{
    if n < 10 {
        let r = digit_str(n).to_owned();
        proof {
            assert(r@ =~= spec_decimal_digits(n as nat));
        }
        r
    } else {
        let mut r = usize_to_string(n / 10);
        r.append(digit_str(n % 10));
        proof {
            assert(r@ =~= spec_decimal_digits(n as nat));
        }
        r
    }
}

/// A name with the mirror suffix appended always carries the suffix.
pub proof fn lemma_with_suffix_has_suffix(name: Seq<char>)
    ensures
        spec_has_mirror_suffix(name + spec_mirror_suffix()),
{
    let full = name + spec_mirror_suffix();
    assert(full.subrange(full.len() - spec_mirror_suffix().len(), full.len() as int)
        =~= spec_mirror_suffix());
}


/// Whether `p` is a prefix of `s`.
pub open spec fn spec_starts_with(s: Seq<char>, p: Seq<char>) -> bool {
    s.len() >= p.len() && s.subrange(0, p.len() as int) == p
}

/// Whether `needle` occurs in `hay`.
pub open spec fn spec_contains(hay: Seq<char>, needle: Seq<char>) -> bool {
    exists|i: int|
        0 <= i && i + needle.len() <= hay.len() && #[trigger] hay.subrange(i, i + needle.len())
            == needle
}

/// Whether `s` begins with `p`.
pub fn str_starts_with(s: &str, p: &str) -> (r: bool)
    ensures
        r == spec_starts_with(s@, p@),
{
    let slen = s.unicode_len();
    let plen = p.unicode_len();
    if slen < plen {
        return false;
    }
    let head = s.substring_char(0, plen);
    str_eq(head, p)
}

/// Whether `needle` occurs in `hay`.
pub fn str_contains(hay: &str, needle: &str) -> (r: bool)
    ensures
        r == spec_contains(hay@, needle@),
{
    let hlen = hay.unicode_len();
    let nlen = needle.unicode_len();
    if nlen > hlen {
        return false;
    }
    if nlen == 0 {
        proof {
            assert(hay@.subrange(0, 0 + needle@.len() as int) =~= needle@);
        }
        return true;
    }
    let mut i: usize = 0;
    while i <= hlen - nlen
        invariant
            hlen == hay@.len(),
            nlen == needle@.len(),
            0 < nlen <= hlen,
            i <= hlen - nlen + 1,
            forall|j: int|
                0 <= j < i ==> #[trigger] hay@.subrange(j, j + needle@.len()) != needle@,
        decreases hlen - nlen + 1 - i,
    {
        let window = hay.substring_char(i, i + nlen);
        if str_eq(window, needle) {
            return true;
        }
        i += 1;
    }
    false
}

/// The index of the first character of `s` that is not a space, or the
/// length of `s` if every character is a space.
pub open spec fn spec_first_non_space(s: Seq<char>) -> int
    decreases s.len(),
{
    if s.len() == 0 {
        0
    } else if s[0] != ' ' {
        0
    } else {
        1 + spec_first_non_space(s.subrange(1, s.len() as int))
    }
}

/// `s` without its leading spaces.
pub open spec fn spec_trimmed(s: Seq<char>) -> Seq<char> {
    s.subrange(spec_first_non_space(s), s.len() as int)
}

/// The first non-space position is the unique boundary: spaces before it,
/// and a non-space (or the end) at it.
pub proof fn lemma_first_non_space(s: Seq<char>)
    ensures
        0 <= spec_first_non_space(s) <= s.len(),
        forall|j: int| 0 <= j < spec_first_non_space(s) ==> s[j] == ' ',
        spec_first_non_space(s) < s.len() ==> s[spec_first_non_space(s)] != ' ',
    decreases s.len(),
{
    if s.len() > 0 && s[0] == ' ' {
        let sub = s.subrange(1, s.len() as int);
        lemma_first_non_space(sub);
        assert forall|j: int| 0 <= j < spec_first_non_space(s) implies s[j] == ' ' by {
            if j >= 1 {
                assert(sub[j - 1] == ' ');
            }
        }
    }
}

/// The index of the first character of `s` that is not a space, or the
/// length of `s`.
pub fn first_non_space(s: &str) -> (r: usize)
    ensures
        r == spec_first_non_space(s@),
{
    let len = s.unicode_len();
    let mut i: usize = 0;
    while i < len
        invariant
            len == s@.len(),
            i <= len,
            forall|j: int| 0 <= j < i ==> s@[j] == ' ',
        decreases len - i,
    {
        if s.get_char(i) != ' ' {
            proof {
                lemma_first_non_space_at(s@, i as int);
            }
            return i;
        }
        i += 1;
    }
    proof {
        lemma_first_non_space_at(s@, len as int);
    }
    len
}

/// A boundary with spaces before it and a non-space (or the end) at it is
/// the first non-space position.
proof fn lemma_first_non_space_at(s: Seq<char>, i: int)
    requires
        0 <= i <= s.len(),
        forall|j: int| 0 <= j < i ==> s[j] == ' ',
        i < s.len() ==> s[i] != ' ',
    ensures
        spec_first_non_space(s) == i,
    decreases s.len(),
{
    if s.len() > 0 && s[0] == ' ' {
        let sub = s.subrange(1, s.len() as int);
        assert(forall|j: int| 0 <= j < i - 1 ==> sub[j] == ' ');
        lemma_first_non_space_at(sub, i - 1);
    }
}

/// `s` without its leading spaces.
pub fn trim_start<'a>(s: &'a str) -> (r: &'a str)
    ensures
        r@ == spec_trimmed(s@),
{
    let len = s.unicode_len();
    let start = first_non_space(s);
    proof {
        lemma_first_non_space(s@);
    }
    s.substring_char(start, len)
}

/// Whether `p` is a suffix of `s`.
pub open spec fn spec_ends_with(s: Seq<char>, p: Seq<char>) -> bool {
    s.len() >= p.len() && s.subrange(s.len() - p.len(), s.len() as int) == p
}

/// Whether `s` ends with `p`.
pub fn str_ends_with(s: &str, p: &str) -> (r: bool)
    ensures
        r == spec_ends_with(s@, p@),
{
    let slen = s.unicode_len();
    let plen = p.unicode_len();
    if slen < plen {
        return false;
    }
    let tail = s.substring_char(slen - plen, slen);
    str_eq(tail, p)
}

/// Anything contained in the trimmed text is contained in the text.
pub proof fn lemma_trimmed_contains(s: Seq<char>, p: Seq<char>)
    requires
        spec_starts_with(spec_trimmed(s), p),
    ensures
        spec_contains(s, p),
{
    lemma_first_non_space(s);
    let k = spec_first_non_space(s);
    assert(s.subrange(k, k + p.len() as int) =~= spec_trimmed(s).subrange(0, p.len() as int));
}


/// `s` without its leading and trailing quote characters.
pub open spec fn spec_trim_quotes(s: Seq<char>) -> Seq<char>
    decreases s.len(),
{
    if s.len() > 0 && s[0] == '"' {
        spec_trim_quotes(s.drop_first())
    } else if s.len() > 0 && s.last() == '"' {
        spec_trim_quotes(s.drop_last())
    } else {
        s
    }
}

/// Trimming strips exactly up to the outermost non-quote characters.
proof fn lemma_trim_quotes_range(s: Seq<char>, l: int, r: int)
    requires
        0 <= l < r <= s.len(),
        forall|j: int| 0 <= j < l ==> s[j] == '"',
        forall|j: int| r <= j < s.len() ==> s[j] == '"',
        s[l] != '"',
        s[r - 1] != '"',
    ensures
        spec_trim_quotes(s) == s.subrange(l, r),
    decreases s.len(),
{
    if l > 0 {
        let sub = s.drop_first();
        assert(forall|j: int| 0 <= j < l - 1 ==> sub[j] == '"');
        assert(forall|j: int| r - 1 <= j < sub.len() ==> sub[j] == '"');
        lemma_trim_quotes_range(sub, l - 1, r - 1);
        assert(sub.subrange(l - 1, r - 1) =~= s.subrange(l, r));
    } else if r < s.len() {
        let sub = s.drop_last();
        assert(forall|j: int| r <= j < sub.len() ==> sub[j] == '"');
        lemma_trim_quotes_range(sub, l, r);
        assert(sub.subrange(l, r) =~= s.subrange(l, r));
    } else {
        assert(s.subrange(0, s.len() as int) =~= s);
    }
}

/// Trimming a string of nothing but quotes leaves nothing.
proof fn lemma_trim_quotes_all(s: Seq<char>)
    requires
        forall|j: int| 0 <= j < s.len() ==> s[j] == '"',
    ensures
        spec_trim_quotes(s) == Seq::<char>::empty(),
    decreases s.len(),
{
    if s.len() > 0 {
        lemma_trim_quotes_all(s.drop_first());
    } else {
        assert(s =~= Seq::<char>::empty());
    }
}

/// `s` without its leading and trailing quote characters.
pub fn trim_quotes<'a>(s: &'a str) -> (r: &'a str)
    ensures
        r@ == spec_trim_quotes(s@),
{
    let len = s.unicode_len();
    let mut l: usize = 0;
    while l < len && s.get_char(l) == '"'
        invariant
            len == s@.len(),
            l <= len,
            forall|j: int| 0 <= j < l ==> s@[j] == '"',
        decreases len - l,
    {
        l += 1;
    }
    if l == len {
        proof {
            lemma_trim_quotes_all(s@);
        }
        let r = s.substring_char(len, len);
        proof {
            assert(r@ =~= Seq::<char>::empty());
        }
        return r;
    }
    let mut r: usize = len;
    while r > l + 1 && s.get_char(r - 1) == '"'
        invariant
            len == s@.len(),
            l < len,
            s@[l as int] != '"',
            l + 1 <= r <= len,
            forall|j: int| r <= j < len ==> s@[j] == '"',
        decreases r,
    {
        r -= 1;
    }
    proof {
        lemma_trim_quotes_range(s@, l as int, r as int);
    }
    s.substring_char(l, r)
}

} // verus!
