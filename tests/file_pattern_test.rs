use fuckmit::file_pattern::{filter_excluded_files, matches_glob_pattern};

fn strings(v: &[&str]) -> Vec<String> {
    v.iter().map(|s| s.to_string()).collect()
}

#[test]
fn test_matches_glob_pattern() {
    // Test patterns with ** at both start and end
    assert!(matches_glob_pattern(
        "src/node_modules/package.json",
        "**/node_modules/**"
    ));
    assert!(matches_glob_pattern(
        "node_modules/package.json",
        "**/node_modules/**"
    ));
    assert!(!matches_glob_pattern(
        "src/modules/package.json",
        "**/node_modules/**"
    ));

    // Test complex patterns with both **/ and *
    assert!(matches_glob_pattern(
        "src/components/Button.tsx",
        "src/**/*.tsx"
    ));
    assert!(!matches_glob_pattern(
        "lib/components/Button.tsx",
        "src/**/*.tsx"
    ));

    // Test recursive pattern with **/ prefix
    assert!(matches_glob_pattern(
        "src/components/Button.tsx",
        "**/Button.tsx"
    ));
    assert!(matches_glob_pattern("Button.tsx", "**/Button.tsx"));
    assert!(!matches_glob_pattern("Button.js", "**/Button.tsx"));

    // Test patterns with **/ in the middle
    assert!(matches_glob_pattern(
        "src/components/Button.tsx",
        "src/**/Button.tsx"
    ));
    assert!(!matches_glob_pattern(
        "lib/components/Button.tsx",
        "src/**/Button.tsx"
    ));

    // Test patterns ending with /**
    assert!(matches_glob_pattern("dist/index.js", "dist/**"));
    assert!(matches_glob_pattern("dist", "dist/**"));
    assert!(!matches_glob_pattern("src/dist/index.js", "dist/**"));

    // Test simple glob patterns with *
    assert!(matches_glob_pattern("package.json", "*.json"));
    assert!(!matches_glob_pattern("src/package.json", "*.json"));
    assert!(matches_glob_pattern("config.js", "config.*"));

    // Test exact match
    assert!(matches_glob_pattern("package.json", "package.json"));
    assert!(!matches_glob_pattern("package.js", "package.json"));
}

#[test]
fn test_filter_excluded_files() {
    let files = vec![
        "src/index.js".to_string(),
        "src/components/Button.tsx".to_string(),
        "node_modules/package.json".to_string(),
        "dist/bundle.js".to_string(),
    ];

    let exclude_patterns = vec!["**/node_modules/**".to_string(), "dist/**".to_string()];

    let filtered = filter_excluded_files(files, exclude_patterns);
    assert_eq!(
        filtered,
        vec![
            "src/index.js".to_string(),
            "src/components/Button.tsx".to_string(),
        ]
    );
}

#[test]
fn empty_pattern_never_matches() {
    assert!(!matches_glob_pattern("a.txt", ""));
    assert!(!matches_glob_pattern("", ""));
}

#[test]
fn plain_pattern_matches_only_itself() {
    for p in ["a.txt", "src/main.rs", "README"] {
        assert!(matches_glob_pattern(p, p));
        let longer = format!("{}x", p);
        assert!(!matches_glob_pattern(p, &longer));
    }
}

#[test]
fn extension_glob_stays_at_top_level() {
    assert!(matches_glob_pattern("notes.md", "*.md"));
    assert!(!matches_glob_pattern("docs/notes.md", "*.md"));
    assert!(!matches_glob_pattern("notes.txt", "*.md"));
}

#[test]
fn regex_metacharacters_in_glob_are_searched_literally_or_fail_open() {
    // `.` is escaped, so it does not stand for any character.
    assert!(!matches_glob_pattern("configxjs", "config.*"));
    // An unbalanced bracket does not compile: the pattern excludes nothing.
    assert!(!matches_glob_pattern("a[b", "a[*"));
    assert!(!matches_glob_pattern("src/x/a[b", "src/**/a[*"));
}

#[test]
fn double_star_prefix_without_wildcards_after_it() {
    assert!(matches_glob_pattern("a/b/c.lock", "**/c.lock"));
    assert!(matches_glob_pattern("xc.lock", "**/c.lock"));
    assert!(!matches_glob_pattern("c.locks", "**/c.lock"));
}

#[test]
fn filter_with_no_patterns_is_identity() {
    let files = strings(&["b", "a", "b", "node_modules/x"]);
    assert_eq!(filter_excluded_files(files.clone(), vec![]), files);
    assert_eq!(filter_excluded_files(vec![], vec![]), Vec::<String>::new());
}

#[test]
fn adding_a_pattern_never_grows_the_result() {
    let files = strings(&["src/a.rs", "dist/a.js", "node_modules/p/x.json", "b.json"]);
    let one = filter_excluded_files(files.clone(), strings(&["dist/**"]));
    let two = filter_excluded_files(files.clone(), strings(&["dist/**", "*.json"]));
    assert_eq!(one, strings(&["src/a.rs", "node_modules/p/x.json", "b.json"]));
    assert_eq!(two, strings(&["src/a.rs", "node_modules/p/x.json"]));
    assert!(two.iter().all(|f| one.contains(f)));
}

#[test]
fn filter_keeps_order_and_duplicates() {
    let files = strings(&["z.rs", "dist/x", "a.rs", "z.rs"]);
    assert_eq!(
        filter_excluded_files(files, strings(&["dist/**"])),
        strings(&["z.rs", "a.rs", "z.rs"])
    );
}
