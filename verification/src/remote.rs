//! The pure core of the remote-type collaborator: given the text of a source
//! page, isolate the declaration text of a named type. Locating, downloading
//! and caching pages is I/O and lives outside the library; this module only
//! decides and computes.

use vstd::prelude::*;

use crate::text::{first_non_space, lemma_first_non_space, lemma_trimmed_contains, spec_contains,
    spec_ends_with, spec_first_non_space, spec_starts_with, spec_trim_quotes, spec_trimmed,
    str_contains, str_starts_with, trim_start};

verus! {

/// The index of the first occurrence of `sep` in `s`, or its length.
pub open spec fn spec_first_sep(s: Seq<char>, sep: char) -> int
    decreases s.len(),
{
    if s.len() == 0 {
        0
    } else if s[0] == sep {
        0
    } else {
        1 + spec_first_sep(s.subrange(1, s.len() as int), sep)
    }
}

/// The first-separator position is the unique boundary.
proof fn lemma_first_sep(s: Seq<char>, sep: char)
    ensures
        0 <= spec_first_sep(s, sep) <= s.len(),
        forall|j: int| 0 <= j < spec_first_sep(s, sep) ==> s[j] != sep,
        spec_first_sep(s, sep) < s.len() ==> s[spec_first_sep(s, sep)] == sep,
    decreases s.len(),
{
    if s.len() > 0 && s[0] != sep {
        let sub = s.subrange(1, s.len() as int);
        lemma_first_sep(sub, sep);
        assert forall|j: int| 0 <= j < spec_first_sep(s, sep) implies s[j] != sep by {
            if j >= 1 {
                assert(sub[j - 1] != sep);
            }
        }
    }
}

/// The text split at a separator character.
pub open spec fn spec_split(s: Seq<char>, sep: char) -> Seq<Seq<char>>
    decreases s.len(),
{
    let i = spec_first_sep(s, sep);
    if 0 <= i < s.len() {
        seq![s.subrange(0, i)] + spec_split(s.subrange(i + 1, s.len() as int), sep)
    } else {
        seq![s]
    }
}

/// The text split at newlines.
pub open spec fn spec_lines(s: Seq<char>) -> Seq<Seq<char>> {
    spec_split(s, '\n')
}

/// The index of the first occurrence of `sep`, or the length of `s`.
fn first_sep(s: &str, sep: char) -> (r: usize)
    ensures
        r == spec_first_sep(s@, sep),
{
    let len = s.unicode_len();
    let mut i: usize = 0;
    while i < len
        invariant
            len == s@.len(),
            i <= len,
            forall|j: int| 0 <= j < i ==> s@[j] != sep,
        decreases len - i,
    {
        if s.get_char(i) == sep {
            proof {
                lemma_first_sep_at(s@, sep, i as int);
            }
            return i;
        }
        i += 1;
    }
    proof {
        lemma_first_sep_at(s@, sep, len as int);
    }
    len
}

/// A boundary without separators before it and a separator (or the end) at
/// it is the first-separator position.
proof fn lemma_first_sep_at(s: Seq<char>, sep: char, i: int)
    requires
        0 <= i <= s.len(),
        forall|j: int| 0 <= j < i ==> s[j] != sep,
        i < s.len() ==> s[i] == sep,
    ensures
        spec_first_sep(s, sep) == i,
    decreases s.len(),
{
    if s.len() > 0 && s[0] != sep {
        let sub = s.subrange(1, s.len() as int);
        assert(forall|j: int| 0 <= j < i - 1 ==> sub[j] != sep);
        lemma_first_sep_at(sub, sep, i - 1);
    }
}

/// Splits text at a separator character.
pub fn split_on(s: &str, sep: char) -> (r: Vec<String>)
    ensures
        r@.len() == spec_split(s@, sep).len(),
        r@.len() >= 1,
        forall|j: int| 0 <= j < r@.len() ==> (#[trigger] r@[j])@ == spec_split(s@, sep)[j],
    decreases s@.len(),
{
    let len = s.unicode_len();
    let i = first_sep(s, sep);
    proof {
        lemma_first_sep(s@, sep);
    }
    if i == len {
        let mut r: Vec<String> = Vec::new();
        r.push(s.to_owned());
        r
    } else {
        let head = s.substring_char(0, i).to_owned();
        let tail = s.substring_char(i + 1, len);
        let mut rest = split_on(tail, sep);
        let mut r: Vec<String> = Vec::new();
        r.push(head);
        let ghost rest_view = rest@;
        r.append(&mut rest);
        proof {
            assert forall|j: int| 0 <= j < r@.len() implies (#[trigger] r@[j])@ == spec_split(
                s@,
                sep,
            )[j] by {
                if j >= 1 {
                    assert(r@[j] == rest_view[j - 1]);
                }
            }
        }
        r
    }
}

/// Splits text at newlines.
pub fn split_lines(s: &str) -> (r: Vec<String>)
    ensures
        r@.len() == spec_lines(s@).len(),
        forall|j: int| 0 <= j < r@.len() ==> (#[trigger] r@[j])@ == spec_lines(s@)[j],
{
    split_on(s, '\n')
}

/// Whether a line can start the searched type's declaration: a struct or
/// enum introducer after optional leading spaces, naming the searched type
/// with or without generic arguments.
pub open spec fn spec_line_conditions(line: Seq<char>, type_searched: Seq<char>) -> bool {
    let trimmed = spec_trimmed(line);
    let is_struct = spec_starts_with(trimmed, "struct "@) || spec_starts_with(
        trimmed,
        "pub struct "@,
    );
    let is_enum = spec_starts_with(trimmed, "enum "@) || spec_starts_with(trimmed, "pub enum "@);
    let visibility = is_struct || is_enum;
    let case0 = visibility && (spec_contains(line, "enum "@ + type_searched + " "@)
        || spec_contains(line, "struct "@ + type_searched + " "@));
    let case1 = visibility && (spec_contains(line, "enum "@ + type_searched + "<"@)
        || spec_contains(line, "struct "@ + type_searched + "<"@));
    case0 || case1
}

/// Whether a line can start the searched type's declaration.
pub fn line_conditions(line: &str, type_searched: &str) -> (r: bool)
    ensures
        r == spec_line_conditions(line@, type_searched@),
{
    let trimmed = trim_start(line);
    let is_struct = str_starts_with(trimmed, "struct ") || str_starts_with(trimmed, "pub struct ");
    let is_enum = str_starts_with(trimmed, "enum ") || str_starts_with(trimmed, "pub enum ");
    let visibility = is_struct || is_enum;
    let mut enum_space = String::new();
    enum_space.append("enum ");
    enum_space.append(type_searched);
    enum_space.append(" ");
    let mut struct_space = String::new();
    struct_space.append("struct ");
    struct_space.append(type_searched);
    struct_space.append(" ");
    let mut enum_angle = String::new();
    enum_angle.append("enum ");
    enum_angle.append(type_searched);
    enum_angle.append("<");
    let mut struct_angle = String::new();
    struct_angle.append("struct ");
    struct_angle.append(type_searched);
    struct_angle.append("<");
    let case0 = visibility && (str_contains(line, enum_space.as_str()) || str_contains(
        line,
        struct_space.as_str(),
    ));
    let case1 = visibility && (str_contains(line, enum_angle.as_str()) || str_contains(
        line,
        struct_angle.as_str(),
    ));
    case0 || case1
}

/// The index of the first character of the declaration's first line.
pub fn first_line_start_char(line: &str) -> (r: usize)
    requires
        exists|j: int| 0 <= j < line@.len() && line@[j] != ' ',
    ensures
        r == spec_first_non_space(line@),
        r < line@.len(),
        line@[r as int] != ' ',
{
    proof {
        lemma_first_non_space(line@);
        let j = choose|j: int| 0 <= j < line@.len() && line@[j] != ' ';
        assert(spec_first_non_space(line@) <= j);
    }
    first_non_space(line)
}

/// Whether the parsed declaration is a record or a tagged union.
#[derive(Debug, Clone, PartialEq, Eq, Structural, Copy)]
pub enum StructOrEnum {
    Struct,
    Enum,
}

impl StructOrEnum {
    /// Classifies a declaration's first line; a struct introducer wins.
    pub fn new_from_line(line: &str) -> (r: StructOrEnum)
        requires
            spec_contains(line@, "struct "@) || spec_contains(line@, "enum "@),
        ensures
            (r is Struct) == spec_contains(line@, "struct "@),
    {
        if str_contains(line, "struct ") {
            StructOrEnum::Struct
        } else {
            StructOrEnum::Enum
        }
    }
}

/// How a record declaration is closed: by a brace on its own line, by a
/// parenthesis on its own line, or all on one line.
#[derive(Debug, Clone, PartialEq, Eq, Structural, Copy)]
pub enum StructTypeHelper {
    Bracketed,
    MultiLinesBraced,
    SingleLineBraced,
}

/// The shapes of record-declaration first lines the page parser handles.
pub open spec fn spec_struct_line_shape_ok(line: Seq<char>) -> bool {
    ||| spec_contains(line, "{"@)
    ||| (spec_contains(line, "("@) && !spec_contains(line, ")"@) && !spec_contains(line, ";"@))
    ||| (spec_contains(line, "("@) && spec_contains(line, ")"@) && spec_contains(line, ";"@))
}

impl StructTypeHelper {
    /// Classifies a record declaration's first line.
    pub fn new_from_line(line: &str) -> (r: StructTypeHelper)
        requires
            spec_struct_line_shape_ok(line@),
        ensures
            (r is Bracketed) == spec_contains(line@, "{"@),
            !(r is Bracketed) ==> ((r is MultiLinesBraced) == (spec_contains(line@, "("@)
                && !spec_contains(line@, ")"@) && !spec_contains(line@, ";"@))),
    {
        if str_contains(line, "{") {
            StructTypeHelper::Bracketed
        } else if str_contains(line, "(") && !str_contains(line, ")") && !str_contains(line, ";") {
            StructTypeHelper::MultiLinesBraced
        } else {
            StructTypeHelper::SingleLineBraced
        }
    }

    /// The character closing the declaration, or nothing when the first
    /// line already holds the whole declaration.
    pub fn closing_delimiter(&self) -> (r: Option<char>)
        ensures
            match self {
                StructTypeHelper::Bracketed => r == Option::Some('}'),
                StructTypeHelper::MultiLinesBraced => r == Option::Some(')'),
                StructTypeHelper::SingleLineBraced => r is None,
            },
    {
        match self {
            StructTypeHelper::Bracketed => Option::Some('}'),
            StructTypeHelper::MultiLinesBraced => Option::Some(')'),
            StructTypeHelper::SingleLineBraced => Option::None,
        }
    }
}

/// Whether the page parser can handle a declaration starting at this line:
/// a record's first line must show one of the closing shapes the shape
/// classification knows.
pub fn line_shape_supported(line: &str) -> (r: bool)
    ensures
        r == (spec_contains(line@, "struct "@) ==> spec_struct_line_shape_ok(line@)),
{
    if !str_contains(line, "struct ") {
        return true;
    }
    str_contains(line, "{") || (str_contains(line, "(") && !str_contains(line, ")")
        && !str_contains(line, ";")) || (str_contains(line, "(") && str_contains(line, ")")
        && str_contains(line, ";"))
}

/// A parsed remote type: where it came from, its declaration text, and its
/// kind.
#[derive(Debug, Clone)]
pub struct ParsedRemoteType {
    /// The url or path the text came from.
    pub url_or_path: String,
    /// The text of the struct or enum declaration.
    pub type_text: String,
    /// Whether the parsed type is a struct or an enum.
    pub kind: StructOrEnum,
}

/// Whether a line ends the accumulation: its character at the declaration's
/// start column is the closing delimiter.
pub open spec fn spec_line_closes(line: Seq<char>, sc: int, delim: char) -> bool {
    line.len() > sc && line[sc] == delim
}

/// The lines `k..m` joined with newlines.
pub open spec fn spec_join_lines(lines: Seq<Seq<char>>, k: int, m: int) -> Seq<char>
    decreases m - k,
{
    if m <= k {
        Seq::empty()
    } else if m == k + 1 {
        lines[k]
    } else {
        spec_join_lines(lines, k, m - 1) + "\n"@ + lines[m - 1]
    }
}

/// Whether `text` is the declaration text collected from line `k`: the lines
/// from `k` up to and including the first following line whose start-column
/// character is the closing delimiter, or all remaining lines when none
/// closes.
pub open spec fn spec_collected(
    lines: Seq<Seq<char>>,
    k: int,
    m: int,
    sc: int,
    delim: char,
    text: Seq<char>,
) -> bool {
    &&& k < m <= lines.len()
    &&& text == spec_join_lines(lines, k, m)
    &&& forall|j: int| k < j < m - 1 ==> !spec_line_closes(#[trigger] lines[j], sc, delim)
    &&& (m == lines.len() || spec_line_closes(lines[m - 1], sc, delim))
}

/// Whether `kind` and `text` are the parse of the page whose lines are
/// `lines`: line `k` is the first that can start the searched declaration,
/// the kind follows its introducer, and the text is the collected
/// declaration — the first line alone for a one-line record, otherwise the
/// lines up to the closing delimiter at the declaration's start column.
/// Whether a record's first line opens a multi-line positional record.
pub open spec fn spec_multi_line(line: Seq<char>) -> bool {
    !spec_contains(line, "{"@) && spec_contains(line, "("@) && !spec_contains(line, ")"@)
        && !spec_contains(line, ";"@)
}

/// The closing delimiter the accumulation stops at.
pub open spec fn spec_delim(line: Seq<char>, kind: StructOrEnum) -> char {
    if kind is Struct && spec_multi_line(line) {
        ')'
    } else {
        '}'
    }
}

pub open spec fn spec_page_found(
    lines: Seq<Seq<char>>,
    type_searched: Seq<char>,
    k: int,
    kind: StructOrEnum,
    text: Seq<char>,
) -> bool {
    &&& 0 <= k < lines.len()
    &&& spec_line_conditions(lines[k], type_searched)
    &&& forall|j: int| 0 <= j < k ==> !spec_line_conditions(#[trigger] lines[j], type_searched)
    &&& (kind is Struct) == spec_contains(lines[k], "struct "@)
    &&& if kind is Struct && !spec_contains(lines[k], "{"@) && !spec_multi_line(lines[k]) {
        text == lines[k]
    } else {
        exists|m: int|
            spec_collected(
                lines,
                k,
                m,
                spec_first_non_space(lines[k]),
                spec_delim(lines[k], kind),
                text,
            )
    }
}

impl ParsedRemoteType {
    /// Isolates the searched type's declaration from the text of a source
    /// page: finds the first line that can start it, classifies the
    /// declaration, and accumulates lines until the closing delimiter at the
    /// declaration's start column.
    ///
    /// A page whose matching record line shows none of the handled closing
    /// shapes is left out by the precondition, as the shape classification
    /// demands.
    pub fn parse_from_page(url: String, page_contents: String, type_searched: &str) -> (r: Option<
        ParsedRemoteType,
    >)
        requires
            forall|k: int|
                (0 <= k < spec_lines(page_contents@).len() && spec_line_conditions(
                    #[trigger] spec_lines(page_contents@)[k],
                    type_searched@,
                ) && (forall|j: int|
                    0 <= j < k ==> !spec_line_conditions(
                        #[trigger] spec_lines(page_contents@)[j],
                        type_searched@,
                    )) && spec_contains(spec_lines(page_contents@)[k], "struct "@))
                    ==> spec_struct_line_shape_ok(spec_lines(page_contents@)[k]),
        ensures
            match r {
                Option::None => forall|j: int|
                    0 <= j < spec_lines(page_contents@).len() ==> !spec_line_conditions(
                        #[trigger] spec_lines(page_contents@)[j],
                        type_searched@,
                    ),
                Option::Some(p) => {
                    &&& p.url_or_path@ == url@
                    &&& exists|k: int|
                        #[trigger] spec_page_found(
                            spec_lines(page_contents@),
                            type_searched@,
                            k,
                            p.kind,
                            p.type_text@,
                        )
                },
            },
    {
        let ghost line_views = spec_lines(page_contents@);
        let lines = split_lines(page_contents.as_str());
        // Find the first line that can start the declaration.
        let mut k: usize = 0;
        let mut found = false;
        while k < lines.len() && !found
            invariant
                lines@.len() == line_views.len(),
                forall|j: int| 0 <= j < lines@.len() ==> (#[trigger] lines@[j])@ == line_views[j],
                k <= lines@.len(),
                !found ==> forall|j: int|
                    0 <= j < k ==> !spec_line_conditions(#[trigger] line_views[j], type_searched@),
                found ==> k > 0 && k <= lines@.len() && spec_line_conditions(
                    line_views[k - 1],
                    type_searched@,
                ) && (forall|j: int|
                    0 <= j < k - 1 ==> !spec_line_conditions(
                        #[trigger] line_views[j],
                        type_searched@,
                    )),
            decreases lines@.len() - k,
        {
            if line_conditions(lines[k].as_str(), type_searched) {
                found = true;
            }
            k += 1;
        }
        if !found {
            return Option::None;
        }
        let k = k - 1;
        let first_line = &lines[k];
        // The declaration's start column and kind.
        proof {
            reveal_strlit("struct ");
            reveal_strlit("pub struct ");
            reveal_strlit("enum ");
            reveal_strlit("pub enum ");
            reveal_strlit("pub ");
            lemma_first_non_space(first_line@);
            let trimmed = spec_trimmed(first_line@);
            if spec_starts_with(trimmed, "struct "@) {
                lemma_trimmed_contains(first_line@, "struct "@);
            } else if spec_starts_with(trimmed, "pub struct "@) {
                lemma_trimmed_contains(first_line@, "pub struct "@);
                assert("pub "@ + "struct "@ =~= "pub struct "@);
                lemma_contains_tail(first_line@, "pub "@, "struct "@);
            } else if spec_starts_with(trimmed, "enum "@) {
                lemma_trimmed_contains(first_line@, "enum "@);
            } else {
                lemma_trimmed_contains(first_line@, "pub enum "@);
                assert("pub "@ + "enum "@ =~= "pub enum "@);
                lemma_contains_tail(first_line@, "pub "@, "enum "@);
            }
            assert(spec_contains(first_line@, "struct "@) || spec_contains(
                first_line@,
                "enum "@,
            ));
            assert(spec_trimmed(first_line@).len() > 0);
            assert(first_line@[spec_first_non_space(first_line@)] != ' ');
        }
        let start_char = first_line_start_char(first_line.as_str());
        let kind = StructOrEnum::new_from_line(first_line.as_str());
        // The closing delimiter, or the whole declaration on one line.
        let mut closing: char = '}';
        let is_struct = match kind {
            StructOrEnum::Struct => true,
            StructOrEnum::Enum => false,
        };
        let mut single = false;
        let mut multi = false;
        if is_struct {
            let helper = StructTypeHelper::new_from_line(first_line.as_str());
            match helper.closing_delimiter() {
                Option::Some(d) => {
                    closing = d;
                    multi = match helper {
                        StructTypeHelper::MultiLinesBraced => true,
                        _ => false,
                    };
                }
                Option::None => {
                    single = true;
                }
            }
        }
        if single {
            let p = ParsedRemoteType { url_or_path: url, type_text: first_line.clone(), kind };
            proof {
                assert(spec_page_found(line_views, type_searched@, k as int, p.kind,
                    p.type_text@));
            }
            return Option::Some(p);
        }
        // Accumulate lines until the closing delimiter at the start column.
        let mut text = first_line.clone();
        let mut m: usize = k + 1;
        let mut stopped = false;
        while m < lines.len() && !stopped
            invariant
                lines@.len() == line_views.len(),
                forall|j: int| 0 <= j < lines@.len() ==> (#[trigger] lines@[j])@ == line_views[j],
                k < m <= lines@.len(),
                text@ == spec_join_lines(line_views, k as int, m as int),
                forall|j: int|
                    k < j < m - 1 ==> !spec_line_closes(#[trigger] line_views[j],
                        start_char as int, closing),
                stopped ==> spec_line_closes(line_views[m - 1], start_char as int, closing),
                !stopped ==> forall|j: int|
                    k < j < m ==> !spec_line_closes(#[trigger] line_views[j], start_char as int,
                        closing),
            decreases lines@.len() - m,
        {
            let line = &lines[m];
            text.append("\n");
            text.append(line.as_str());
            if line.unicode_len() > start_char && line.get_char(start_char) == closing {
                stopped = true;
            }
            m += 1;
        }
        let p = ParsedRemoteType { url_or_path: url, type_text: text, kind };
        proof {
            assert(closing == spec_delim(line_views[k as int], p.kind));
            assert(spec_collected(
                line_views,
                k as int,
                m as int,
                spec_first_non_space(line_views[k as int]),
                spec_delim(line_views[k as int], p.kind),
                p.type_text@,
            ));
            assert(spec_page_found(line_views, type_searched@, k as int, p.kind, p.type_text@));
        }
        Option::Some(p)
    }
}

/// A contained needle with a throwaway head: what follows `head` in a
/// contained `head + tail` is itself contained.
proof fn lemma_contains_tail(hay: Seq<char>, head: Seq<char>, tail: Seq<char>)
    requires
        spec_contains(hay, head + tail),
    ensures
        spec_contains(hay, tail),
{
    let i = choose|i: int|
        0 <= i && i + (head + tail).len() <= hay.len() && #[trigger] hay.subrange(
            i,
            i + (head + tail).len(),
        ) == head + tail;
    let j = i + head.len() as int;
    assert forall|x: int| 0 <= x < tail.len() implies hay.subrange(j, j + tail.len() as int)[x]
        == tail[x] by {
        assert(hay.subrange(i, i + (head + tail).len())[head.len() + x] == (head + tail)[head.len()
            + x]);
    }
    assert(hay.subrange(j, j + tail.len() as int) =~= tail);
}


/// Where a package's source lives: the package registry, with the reference
/// url for its registry record, or a source host.
#[derive(Debug, Clone)]
pub enum PackageKind {
    CratesIo(String),
    Github,
}

impl PackageKind {
    /// The registry url of a registry-hosted package.
    pub fn crates_io_registry_url(&self) -> (r: String)
        requires
            self is CratesIo,
        ensures
            r@ == self->CratesIo_0@,
    {
        match self {
            PackageKind::CratesIo(url) => url.clone(),
            PackageKind::Github => String::new(),  // unreachable under the precondition
        }
    }

    /// Whether the package is registry-hosted.
    pub fn is_crates_io(&self) -> (r: bool)
        ensures
            r == (self is CratesIo),
    {
        match self {
            PackageKind::CratesIo(_) => true,
            PackageKind::Github => false,
        }
    }
}

/// A located package: its root url, its version, and where it lives.
#[derive(Debug, Clone)]
pub struct Package {
    pub root_url: String,
    pub version: String,
    pub kind: PackageKind,
}

/// The cached pages and results of one source host repository.
#[derive(Debug, Clone)]
pub struct FileCache {
    /// The path of the file with the cached result.
    pub cached_file: String,
    /// The path of the cached repository files.
    pub file_cache_path: String,
    /// The root path of the file cache.
    pub root_file_cache_path: String,
}

/// The registry's answer about one package.
#[derive(Debug, Clone)]
pub struct CratesIoCallRequest {
    pub crate_map: CratesIoCall,
}

/// The package record the registry answers with.
#[derive(Debug, Clone)]
pub struct CratesIoCall {
    pub repository: String,
}

/// The source host's answer listing a repository's files.
#[derive(Debug, Clone)]
pub struct GithubApiFileTree {
    pub tree: Vec<GithubApiFileTreeRow>,
}

/// One file of a repository listing.
#[derive(Debug, Clone)]
pub struct GithubApiFileTreeRow {
    pub path: String,
}

/// The urls a source-host fetch needs, and where its cache lives.
#[derive(Debug, Clone)]
pub struct GithubApiUrls {
    pub root_url: String,
    pub file_tree_url: String,
    pub base_contents_url: String,
    pub commit: String,
    pub cached_file: String,
    pub file_cache_path: String,
    pub root_file_cache_path: String,
}

/// The page urls of a repository listing: one for each source file, built
/// from the contents url and pinned to the commit.
pub open spec fn spec_file_urls(
    rows: Seq<GithubApiFileTreeRow>,
    base: Seq<char>,
    commit: Seq<char>,
) -> Seq<Seq<char>>
    decreases rows.len(),
{
    if rows.len() == 0 {
        Seq::empty()
    } else {
        let rest = spec_file_urls(rows.drop_last(), base, commit);
        if spec_ends_with(rows.last().path@, ".rs"@) {
            rest.push(base + rows.last().path@ + "?ref="@ + commit)
        } else {
            rest
        }
    }
}

impl GithubApiUrls {
    /// The page urls to fetch for a repository listing: its source files,
    /// each pinned to the commit. The listing itself arrives from the host;
    /// this only filters and formats.
    pub fn get_all_urls(&self, tree: &GithubApiFileTree) -> (r: Vec<String>)
        ensures
            r@.len() == spec_file_urls(tree.tree@, self.base_contents_url@, self.commit@).len(),
            forall|j: int|
                0 <= j < r@.len() ==> (#[trigger] r@[j])@ == spec_file_urls(
                    tree.tree@,
                    self.base_contents_url@,
                    self.commit@,
                )[j],
    {
        let mut r: Vec<String> = Vec::new();
        let mut i: usize = 0;
        while i < tree.tree.len()
            invariant
                i <= tree.tree@.len(),
                r@.len() == spec_file_urls(tree.tree@.subrange(0, i as int),
                    self.base_contents_url@, self.commit@).len(),
                forall|j: int|
                    0 <= j < r@.len() ==> (#[trigger] r@[j])@ == spec_file_urls(
                        tree.tree@.subrange(0, i as int),
                        self.base_contents_url@,
                        self.commit@,
                    )[j],
            decreases tree.tree@.len() - i,
        {
            let ghost pre = tree.tree@.subrange(0, i as int);
            let row = &tree.tree[i];
            if crate::text::str_ends_with(row.path.as_str(), ".rs") {
                let mut url = self.base_contents_url.clone();
                url.append(row.path.as_str());
                url.append("?ref=");
                url.append(self.commit.as_str());
                r.push(url);
            }
            i += 1;
            proof {
                let post = tree.tree@.subrange(0, i as int);
                assert(post.drop_last() =~= pre);
                assert(post.last() == tree.tree@[i - 1]);
            }
        }
        proof {
            assert(tree.tree@.subrange(0, tree.tree@.len() as int) =~= tree.tree@);
        }
        r
    }
}


/// The lock-file line naming a package.
pub open spec fn spec_name_line(package: Seq<char>) -> Seq<char> {
    "name = \""@ + package + "\""@
}

/// Whether `(n, m, v)` locate a package's record in the lock file's lines:
/// its name line (the first such), the first following source line, and the
/// last version line before it.
pub open spec fn spec_package_located(
    lines: Seq<String>,
    package: Seq<char>,
    n: int,
    m: int,
    v: int,
) -> bool {
    &&& 0 <= n <= v < m < lines.len()
    &&& lines[n]@ == spec_name_line(package)
    &&& forall|i: int| 0 <= i < n ==> (#[trigger] lines[i])@ != spec_name_line(package)
    &&& spec_starts_with(lines[m]@, "source = "@)
    &&& forall|j: int| n <= j < m ==> !spec_starts_with((#[trigger] lines[j])@, "source = "@)
    &&& spec_starts_with(lines[v]@, "version = "@)
    &&& forall|j: int| v < j < m ==> !spec_starts_with((#[trigger] lines[j])@, "version = "@)
}

/// Whether `(n, m, v)` locate a package's record in the lock file's lines
/// and `pkg` is the package read off those lines: a registry-hosted package
/// gets the registry's package url; any other gets the source line's own
/// url, with its scheme marker and quotes stripped.
pub open spec fn spec_package_found(
    lines: Seq<String>,
    package: Seq<char>,
    n: int,
    m: int,
    v: int,
    pkg: Package,
) -> bool {
    &&& spec_package_located(lines, package, n, m, v)
    &&& pkg.version@ == spec_trim_quotes(
        lines[v]@.subrange("version = "@.len() as int, lines[v]@.len() as int),
    )
    &&& if spec_contains(lines[m]@, "https://github.com/rust-lang/crates.io-index"@) {
        &&& pkg.kind matches PackageKind::CratesIo(u) && u@
            == "https://crates.io/api/v1/crates/"@ + package
        &&& pkg.root_url@ == Seq::<char>::empty()
    } else {
        &&& pkg.kind is Github
        &&& pkg.root_url@ == spec_strip_scheme(
            spec_trim_quotes(lines[m]@.subrange("source = "@.len() as int, lines[m]@.len() as int)),
        )
    }
}

/// A source url without its version-control scheme marker.
pub open spec fn spec_strip_scheme(t: Seq<char>) -> Seq<char> {
    if spec_starts_with(t, "git+"@) {
        t.subrange("git+"@.len() as int, t.len() as int)
    } else {
        t
    }
}

impl Package {
    /// Locates a package in the lock file's lines: the version and source
    /// recorded under its name line. Reading the lock file is the caller's
    /// work; this only scans. Nothing is found exactly when no record can be
    /// located — the package is not named, no source line follows its name
    /// line, or no version line stands between the two; whenever a record
    /// can be located, the package is owed.
    pub fn new(package: &str, lock_lines: &Vec<String>) -> (r: Option<Package>)
        ensures
            match r {
                Option::Some(pkg) => exists|n: int, m: int, v: int|
                    #[trigger] spec_package_found(lock_lines@, package@, n, m, v, pkg),
                Option::None => forall|n: int, m: int, v: int|
                    !spec_package_located(lock_lines@, package@, n, m, v),
            },
    {
        // The name line.
        let mut needle = String::new();
        needle.append("name = \"");
        needle.append(package);
        needle.append("\"");
        let mut n: usize = 0;
        let mut found = false;
        while n < lock_lines.len() && !found
            invariant
                needle@ == spec_name_line(package@),
                n <= lock_lines@.len(),
                !found ==> forall|i: int|
                    0 <= i < n ==> (#[trigger] lock_lines@[i])@ != spec_name_line(package@),
                found ==> 0 < n <= lock_lines@.len() && lock_lines@[n - 1]@ == spec_name_line(
                    package@,
                ) && (forall|i: int|
                    0 <= i < n - 1 ==> (#[trigger] lock_lines@[i])@ != spec_name_line(package@)),
            decreases lock_lines@.len() - n,
        {
            if crate::text::str_eq(lock_lines[n].as_str(), needle.as_str()) {
                found = true;
            }
            n += 1;
        }
        if !found {
            proof {
                assert forall|n2: int, m2: int, v2: int|
                    !spec_package_located(lock_lines@, package@, n2, m2, v2) by {
                    if 0 <= n2 < lock_lines@.len() {
                        assert(lock_lines@[n2]@ != spec_name_line(package@));
                    }
                }
            }
            return Option::None;
        }
        let n = n - 1;
        // The first source line at or after the name line, and the last
        // version line before it.
        let mut m: usize = n;
        let mut version_at: Option<usize> = Option::None;
        let mut have_source = false;
        while m < lock_lines.len() && !have_source
            invariant
                n <= m <= lock_lines@.len(),
                !have_source ==> forall|j: int|
                    n <= j < m ==> !spec_starts_with((#[trigger] lock_lines@[j])@, "source = "@),
                have_source ==> n < m <= lock_lines@.len() && spec_starts_with(
                    lock_lines@[m - 1]@,
                    "source = "@,
                ) && (forall|j: int|
                    n <= j < m - 1 ==> !spec_starts_with(
                        (#[trigger] lock_lines@[j])@,
                        "source = "@,
                    )),
                match version_at {
                    Option::Some(v) => {
                        &&& n <= v < m
                        &&& !(have_source && v == m - 1)
                        &&& spec_starts_with(lock_lines@[v as int]@, "version = "@)
                        &&& forall|j: int|
                            v < j < (if have_source {
                                m - 1
                            } else {
                                m as int
                            }) ==> !spec_starts_with(
                                (#[trigger] lock_lines@[j])@,
                                "version = "@,
                            )
                    },
                    Option::None => forall|j: int|
                        n <= j < (if have_source {
                            m - 1
                        } else {
                            m as int
                        }) ==> !spec_starts_with((#[trigger] lock_lines@[j])@, "version = "@),
                },
            decreases lock_lines@.len() - m,
        {
            let line = &lock_lines[m];
            if crate::text::str_starts_with(line.as_str(), "source = ") {
                have_source = true;
            } else if crate::text::str_starts_with(line.as_str(), "version = ") {
                version_at = Option::Some(m);
            }
            m += 1;
        }
        if !have_source {
            proof {
                assert forall|n2: int, m2: int, v2: int|
                    !spec_package_located(lock_lines@, package@, n2, m2, v2) by {
                    if spec_package_located(lock_lines@, package@, n2, m2, v2) {
                        if n2 < n {
                            assert(lock_lines@[n2]@ == spec_name_line(package@));
                        } else if n < n2 {
                            assert(lock_lines@[n as int]@ == spec_name_line(package@));
                        }
                        assert(n2 == n);
                        assert(!spec_starts_with(lock_lines@[m2]@, "source = "@));
                    }
                }
            }
            return Option::None;
        }
        let m = m - 1;
        let v = match version_at {
            Option::Some(v) => v,
            Option::None => {
                proof {
                    assert forall|n2: int, m2: int, v2: int|
                        !spec_package_located(lock_lines@, package@, n2, m2, v2) by {
                        if spec_package_located(lock_lines@, package@, n2, m2, v2) {
                            if n2 < n {
                                assert(lock_lines@[n2]@ == spec_name_line(package@));
                            } else if n < n2 {
                                assert(lock_lines@[n as int]@ == spec_name_line(package@));
                            }
                            assert(n2 == n);
                            if m2 < m {
                                assert(!spec_starts_with(lock_lines@[m2]@, "source = "@));
                            } else if m < m2 {
                                assert(!spec_starts_with(lock_lines@[m as int]@, "source = "@));
                            }
                            assert(m2 == m);
                            assert(!spec_starts_with(lock_lines@[v2]@, "version = "@));
                        }
                    }
                }
                return Option::None;
            }
        };
        // Read the version text.
        let vline = &lock_lines[v];
        let plen = "version = ".unicode_len();
        let vtail = vline.as_str().substring_char(plen, vline.as_str().unicode_len());
        let version = crate::text::trim_quotes(vtail).to_owned();
        // Read the source.
        let sline = &lock_lines[m];
        let pkg = if crate::text::str_contains(
            sline.as_str(),
            "https://github.com/rust-lang/crates.io-index",
        ) {
            let mut url = String::new();
            url.append("https://crates.io/api/v1/crates/");
            url.append(package);
            Package { root_url: String::new(), version, kind: PackageKind::CratesIo(url) }
        } else {
            let slen = "source = ".unicode_len();
            let stail = sline.as_str().substring_char(slen, sline.as_str().unicode_len());
            let stail = crate::text::trim_quotes(stail);
            let stail = if crate::text::str_starts_with(stail, "git+") {
                let glen = "git+".unicode_len();
                stail.substring_char(glen, stail.unicode_len())
            } else {
                stail
            };
            let root_url = stail.to_owned();
            Package { root_url, version, kind: PackageKind::Github }
        };
        proof {
            assert(spec_package_found(lock_lines@, package@, n as int, m as int, v as int, pkg));
        }
        Option::Some(pkg)
    }
}


/// One remote-type request: the located package, the derives and forwarded
/// attributes for the emitted mirror, and whether only the bare mirror
/// declaration is wanted.
#[derive(Debug, Clone)]
pub struct RemoteType {
    pub package: Package,
    pub derives: Vec<String>,
    pub other_attrs: Vec<String>,
    pub no_impl: bool,
}

/// The owner-and-repository parts of a remote request's root url: the url
/// split at slashes, after any commit fragment is cut off.
pub open spec fn spec_owner_parts(package: Package) -> Seq<Seq<char>> {
    if package.kind is CratesIo {
        spec_split(package.root_url@, '/')
    } else {
        spec_split(spec_split(package.root_url@, '#')[0], '/')
    }
}

/// The commit a remote request pins its pages to: the root url's fragment,
/// or the default branch head for a registry-hosted package.
pub open spec fn spec_commit_part(package: Package) -> Seq<char> {
    if package.kind is CratesIo {
        "main"@
    } else {
        spec_split(package.root_url@, '#').last()
    }
}

impl GithubApiUrls {
    /// Builds the fetch urls and cache paths of one remote request: the
    /// repository's owner and name come from the package's root url, the
    /// commit from its fragment, and the cache lives under the workspace's
    /// build directory. The root url must name an owner and a repository.
    pub fn from_remote(remote: &RemoteType, name: &str, workspace_path: &str) -> (r:
        GithubApiUrls)
        requires
            spec_owner_parts(remote.package).len() >= 2,
        ensures
            ({
                let parts = spec_owner_parts(remote.package);
                let owner = parts[parts.len() - 2];
                let repo = parts.last();
                let commit = spec_commit_part(remote.package);
                let root_cache = workspace_path@ + "/target/redefined_file_cache"@;
                let repo_dir = owner + "_"@ + repo + "_"@ + commit;
                &&& r.root_url@ == remote.package.root_url@
                &&& r.commit@ == commit
                &&& r.file_tree_url@ == "https://api.github.com/repos/"@ + owner + "/"@ + repo
                    + "/git/trees/"@ + commit + "?recursive=1"@
                &&& r.base_contents_url@ == "https://raw.github.com/"@ + owner + "/"@ + repo
                    + "/master/"@
                &&& r.root_file_cache_path@ == root_cache
                &&& r.file_cache_path@ == root_cache + "/"@ + repo_dir + "/files"@
                &&& r.cached_file@ == root_cache + "/"@ + repo_dir + "/cached/"@ + name@
            }),
    {
        let is_registry = remote.package.is_crates_io_kind();
        let (commit, owner_parts): (String, Vec<String>) = if is_registry {
            ("main".to_owned(), split_on(remote.package.root_url.as_str(), '/'))
        } else {
            let hash_parts = split_on(remote.package.root_url.as_str(), '#');
            let commit = hash_parts[hash_parts.len() - 1].clone();
            let owner_parts = split_on(hash_parts[0].as_str(), '/');
            (commit, owner_parts)
        };
        let repo = owner_parts[owner_parts.len() - 1].clone();
        let owner = owner_parts[owner_parts.len() - 2].clone();
        let mut file_tree_url = String::new();
        file_tree_url.append("https://api.github.com/repos/");
        file_tree_url.append(owner.as_str());
        file_tree_url.append("/");
        file_tree_url.append(repo.as_str());
        file_tree_url.append("/git/trees/");
        file_tree_url.append(commit.as_str());
        file_tree_url.append("?recursive=1");
        let mut base_contents_url = String::new();
        base_contents_url.append("https://raw.github.com/");
        base_contents_url.append(owner.as_str());
        base_contents_url.append("/");
        base_contents_url.append(repo.as_str());
        base_contents_url.append("/master/");
        let mut root_file_cache_path = workspace_path.to_owned();
        root_file_cache_path.append("/target/redefined_file_cache");
        let mut repo_dir = owner.clone();
        repo_dir.append("_");
        repo_dir.append(repo.as_str());
        repo_dir.append("_");
        repo_dir.append(commit.as_str());
        let mut file_cache_path = root_file_cache_path.clone();
        file_cache_path.append("/");
        file_cache_path.append(repo_dir.as_str());
        file_cache_path.append("/files");
        let mut cached_file = root_file_cache_path.clone();
        cached_file.append("/");
        cached_file.append(repo_dir.as_str());
        cached_file.append("/cached/");
        cached_file.append(name);
        GithubApiUrls {
            root_url: remote.package.root_url.clone(),
            file_tree_url,
            base_contents_url,
            commit,
            cached_file,
            file_cache_path,
            root_file_cache_path,
        }
    }
}

impl Package {
    /// Whether the package is registry-hosted.
    fn is_crates_io_kind(&self) -> (r: bool)
        ensures
            r == (self.kind is CratesIo),
    {
        self.kind.is_crates_io()
    }
}

} // verus!
