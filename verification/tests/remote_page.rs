// Tests of the remote collaborator's pure core: isolating a declaration from
// the text of a source page.

use redefined::remote::{first_line_start_char, line_conditions, line_shape_supported, split_on,
    split_lines, GithubApiFileTree, GithubApiFileTreeRow, GithubApiUrls, Package, PackageKind,
    ParsedRemoteType, RemoteType, StructOrEnum, StructTypeHelper};

#[test]
fn split_lines_cases() {
    let lines = split_lines("a\nbb\n\nc");
    assert_eq!(lines, vec!["a".to_string(), "bb".to_string(), "".to_string(), "c".to_string()]);
    let lines = split_lines("single");
    assert_eq!(lines, vec!["single".to_string()]);
}

#[test]
fn line_condition_cases() {
    assert!(line_conditions("pub struct Foo {", "Foo"));
    assert!(line_conditions("  struct Foo<T> {", "Foo"));
    assert!(line_conditions("pub enum Foo {", "Foo"));
    assert!(!line_conditions("pub struct Food {", "Foo"));
    assert!(!line_conditions("// struct Foo {", "Foo"));
    assert!(!line_conditions("pub fn foo() {}", "Foo"));
}

#[test]
fn start_column() {
    assert_eq!(first_line_start_char("pub struct Foo {"), 0);
    assert_eq!(first_line_start_char("    pub struct Foo {"), 4);
}

#[test]
fn kind_classification() {
    assert_eq!(StructOrEnum::new_from_line("pub struct Foo {"), StructOrEnum::Struct);
    assert_eq!(StructOrEnum::new_from_line("pub enum Foo {"), StructOrEnum::Enum);
}

#[test]
fn struct_shape_classification() {
    assert_eq!(StructTypeHelper::new_from_line("struct A {"), StructTypeHelper::Bracketed);
    assert_eq!(
        StructTypeHelper::new_from_line("struct A ("),
        StructTypeHelper::MultiLinesBraced
    );
    assert_eq!(
        StructTypeHelper::new_from_line("struct A (u64);"),
        StructTypeHelper::SingleLineBraced
    );
    assert_eq!(StructTypeHelper::Bracketed.closing_delimiter(), Some('}'));
    assert_eq!(StructTypeHelper::MultiLinesBraced.closing_delimiter(), Some(')'));
    assert_eq!(StructTypeHelper::SingleLineBraced.closing_delimiter(), None);
}

#[test]
fn page_parse_isolates_a_braced_struct() {
    let page = "use something;\npub struct Foo {\n    a: u64,\n}\npub fn later() {}";
    let r = ParsedRemoteType::parse_from_page("u".to_string(), page.to_string(), "Foo").unwrap();
    assert_eq!(r.url_or_path, "u");
    assert_eq!(r.kind, StructOrEnum::Struct);
    assert_eq!(r.type_text, "pub struct Foo {\n    a: u64,\n}");
}

#[test]
fn page_parse_isolates_an_enum() {
    let page = "intro\n  pub enum Foo {\n      A,\n      B(u64),\n  }\nrest";
    let r = ParsedRemoteType::parse_from_page("v".to_string(), page.to_string(), "Foo").unwrap();
    assert_eq!(r.kind, StructOrEnum::Enum);
    assert_eq!(r.type_text, "  pub enum Foo {\n      A,\n      B(u64),\n  }");
}

#[test]
fn page_parse_takes_a_one_line_struct_whole() {
    let page = "pub struct Foo (u64);\nafter";
    let r = ParsedRemoteType::parse_from_page("w".to_string(), page.to_string(), "Foo").unwrap();
    assert_eq!(r.type_text, "pub struct Foo (u64);");
}

#[test]
fn page_parse_finds_nothing_without_the_type() {
    let page = "pub struct Bar {\n}\n";
    assert!(ParsedRemoteType::parse_from_page("x".to_string(), page.to_string(), "Foo").is_none());
}

#[test]
fn package_kind_registry_url() {
    let kind = PackageKind::CratesIo("https://example.invalid/api/foo".to_string());
    assert!(kind.is_crates_io());
    assert_eq!(kind.crates_io_registry_url(), "https://example.invalid/api/foo");
    assert!(!PackageKind::Github.is_crates_io());
}

#[test]
fn package_lookup_in_lock_lines() {
    let lines = vec![
        "[[package]]".to_string(),
        "name = \"ruint\"".to_string(),
        "version = \"1.2.3\"".to_string(),
        "source = \"registry+https://github.com/rust-lang/crates.io-index\"".to_string(),
    ];
    let pkg = Package::new("ruint", &lines).unwrap();
    assert_eq!(pkg.version, "1.2.3");
    assert_eq!(pkg.root_url, "");
    match pkg.kind {
        PackageKind::CratesIo(url) => {
            assert_eq!(url, "https://crates.io/api/v1/crates/ruint");
        }
        PackageKind::Github => panic!("expected a registry-hosted package"),
    }
}

#[test]
fn package_lookup_of_a_hosted_source() {
    let lines = vec![
        "name = \"mylib\"".to_string(),
        "version = \"0.9.0\"".to_string(),
        "source = \"git+https://example.invalid/a/b#abc123\"".to_string(),
    ];
    let pkg = Package::new("mylib", &lines).unwrap();
    assert_eq!(pkg.version, "0.9.0");
    assert_eq!(pkg.root_url, "https://example.invalid/a/b#abc123");
    assert!(!pkg.kind.is_crates_io());
}

#[test]
fn package_lookup_misses() {
    let lines = vec!["name = \"other\"".to_string(), "version = \"1.0.0\"".to_string()];
    assert!(Package::new("ruint", &lines).is_none());
    let lines = vec!["name = \"ruint\"".to_string(), "version = \"1.0.0\"".to_string()];
    assert!(Package::new("ruint", &lines).is_none());
}

#[test]
fn unhandled_record_shapes_are_flagged() {
    assert!(line_shape_supported("pub struct Foo {"));
    assert!(line_shape_supported("pub enum Anything"));
    assert!(!line_shape_supported("pub struct Foo"));
}

#[test]
fn split_on_other_separators() {
    assert_eq!(
        split_on("a/b/c", '/'),
        vec!["a".to_string(), "b".to_string(), "c".to_string()]
    );
    assert_eq!(split_on("nofragment", '#'), vec!["nofragment".to_string()]);
}

#[test]
fn remote_urls_from_a_hosted_package() {
    let remote = RemoteType {
        package: Package {
            root_url: "https://example.invalid/owner/repo#abc123".to_string(),
            version: "1.0.0".to_string(),
            kind: PackageKind::Github,
        },
        derives: vec!["Clone".to_string()],
        other_attrs: Vec::new(),
        no_impl: false,
    };
    let urls = GithubApiUrls::from_remote(&remote, "Uint", "/ws");
    assert_eq!(urls.commit, "abc123");
    assert_eq!(
        urls.file_tree_url,
        "https://api.github.com/repos/owner/repo/git/trees/abc123?recursive=1"
    );
    assert_eq!(urls.base_contents_url, "https://raw.github.com/owner/repo/master/");
    assert_eq!(urls.root_file_cache_path, "/ws/target/redefined_file_cache");
    assert_eq!(
        urls.file_cache_path,
        "/ws/target/redefined_file_cache/owner_repo_abc123/files"
    );
    assert_eq!(
        urls.cached_file,
        "/ws/target/redefined_file_cache/owner_repo_abc123/cached/Uint"
    );
}

#[test]
fn repository_listing_urls_keep_source_files_only() {
    let remote = RemoteType {
        package: Package {
            root_url: "https://example.invalid/o/r#c0".to_string(),
            version: "1.0.0".to_string(),
            kind: PackageKind::Github,
        },
        derives: Vec::new(),
        other_attrs: Vec::new(),
        no_impl: true,
    };
    let urls = GithubApiUrls::from_remote(&remote, "T", "/ws");
    let tree = GithubApiFileTree {
        tree: vec![
            GithubApiFileTreeRow { path: "src/lib.rs".to_string() },
            GithubApiFileTreeRow { path: "README.md".to_string() },
            GithubApiFileTreeRow { path: "src/types.rs".to_string() },
        ],
    };
    let fetched = urls.get_all_urls(&tree);
    assert_eq!(
        fetched,
        vec![
            "https://raw.github.com/o/r/master/src/lib.rs?ref=c0".to_string(),
            "https://raw.github.com/o/r/master/src/types.rs?ref=c0".to_string(),
        ]
    );
}
