//! Glob-style exclusion patterns over repository-relative paths.
use crate::text::{
    chars_eq, concat, contains, ends_with, find, find_first, has_char, has_infix, has_prefix,
    has_suffix, lemma_find_from, slice, starts_with, to_chars,
};
use vstd::prelude::*;
use vstd::string::*;

verus! {

/// What `regex::Regex::new(re)` followed by `is_match(text)` yields:
/// `None` where `re` does not compile.
pub uninterp spec fn regex_search(re: Seq<char>, text: Seq<char>) -> Option<bool>;

/// Relies on `regex::Regex::new` to compile `re` and on `regex::Regex::is_match`
/// to search `text`; both depend on the two strings alone.
#[verifier::external_body]
fn regex_is_match(re: &str, text: &str) -> (r: Option<bool>)
    ensures
        r == regex_search(re@, text@),
{
    match regex::Regex::new(re) {
        Ok(compiled) => Some(compiled.is_match(text)),
        Err(_) => None,
    }
}

/// The recursive-directory marker `**/`.
pub open spec fn dstar_slash() -> Seq<char> {
    seq!['*', '*', '/']
}

/// The everything-below marker `/**`.
pub open spec fn slash_dstar() -> Seq<char> {
    seq!['/', '*', '*']
}

/// The regular expression text that stands for one glob character.
pub open spec fn glob_piece(c: char) -> Seq<char> {
    if c == '.' {
        seq!['\\', '.']
    } else if c == '*' {
        seq!['.', '*']
    } else {
        seq![c]
    }
}

/// A glob turned into regular expression text: `.` is escaped, `*` becomes `.*`.
pub open spec fn glob_regex(s: Seq<char>) -> Seq<char>
    decreases s.len(),
{
    if s.len() == 0 {
        Seq::empty()
    } else {
        glob_regex(s.drop_last()) + glob_piece(s.last())
    }
}

/// Whether `path` matches the exclusion pattern `pat`; the rules are tried in order
/// and the first that applies decides.
pub open spec fn glob_match(path: Seq<char>, pat: Seq<char>) -> bool {
    let n = pat.len() as int;
    let k = find_first(pat, dstar_slash());
    if n == 0 {
        false
    } else if n >= 6 && has_prefix(pat, dstar_slash()) && has_suffix(pat, slash_dstar()) {
        let mid = pat.subrange(3, n - 3);
        has_infix(path, seq!['/'] + mid + seq!['/']) || has_prefix(path, mid + seq!['/'])
    } else if k >= 0 && pat.subrange(k + 3, n).contains('*') && !has_suffix(pat, dstar_slash()) {
        has_prefix(path, pat.subrange(0, k)) && regex_search(
            seq!['.', '*'] + glob_regex(pat.subrange(k + 3, n)) + seq!['$'],
            path,
        ) == Some(true)
    } else if has_prefix(pat, dstar_slash()) {
        let rest = pat.subrange(3, n);
        has_suffix(path, rest) || has_infix(path, seq!['/'] + rest)
    } else if k >= 0 {
        let prefix = pat.subrange(0, k);
        let suffix = pat.subrange(k + 3, n);
        (prefix.len() == 0 || has_prefix(path, prefix)) && (suffix.len() == 0 || has_suffix(
            path,
            suffix,
        ))
    } else if has_suffix(pat, slash_dstar()) {
        let base = pat.subrange(0, n - 3);
        path == base || has_prefix(path, base + seq!['/'])
    } else if pat.contains('*') {
        if has_prefix(pat, seq!['*', '.']) {
            !path.contains('/') && has_suffix(path, pat.subrange(1, n))
        } else {
            regex_search(seq!['^'] + glob_regex(pat) + seq!['$'], path) == Some(true)
        }
    } else {
        path == pat
    }
}

/// Regular expression text `lead`, then the glob `pattern` from character `from` on,
/// then `$`.
fn glob_to_regex(pattern: &str, from: usize, lead: &str) -> (r: String)
    requires
        from <= pattern@.len(),
    ensures
        r@ == lead@ + glob_regex(pattern@.subrange(from as int, pattern@.len() as int)) + seq![
            '$',
        ],
{
    let n = pattern.unicode_len();
    let mut r = String::from_str(lead);
    let mut i: usize = from;
    proof {
        assert(pattern@.subrange(from as int, from as int) =~= Seq::<char>::empty());
        assert(r@ =~= lead@ + glob_regex(pattern@.subrange(from as int, from as int)));
    }
    while i < n
        invariant
            n == pattern@.len(),
            from <= i <= n,
            r@ == lead@ + glob_regex(pattern@.subrange(from as int, i as int)),
        decreases n - i,
    {
        let c = pattern.get_char(i);
        let ghost before = r@;
        if c == '.' {
            proof {
                reveal_strlit("\\.");
            }
            r.append("\\.");
        } else if c == '*' {
            proof {
                reveal_strlit(".*");
            }
            r.append(".*");
        } else {
            r.append(pattern.substring_char(i, i + 1));
        }
        proof {
            let sub = pattern@.subrange(from as int, i + 1);
            assert(sub.drop_last() =~= pattern@.subrange(from as int, i as int));
            assert(sub.last() == c);
            assert(r@ =~= before + glob_piece(c));
        }
        i += 1;
    }
    proof {
        reveal_strlit("$");
    }
    r.append("$");
    r
}

/// Checks whether `file_path` matches the exclusion pattern `pattern`.
pub fn matches_glob_pattern(file_path: &str, pattern: &str) -> (r: bool)
    ensures
        r == glob_match(file_path@, pattern@),
{
    let path = to_chars(file_path);
    let pat = to_chars(pattern);
    let n = pat.len();
    let ds: Vec<char> = vec!['*', '*', '/'];
    let sd: Vec<char> = vec!['/', '*', '*'];
    let slash: Vec<char> = vec!['/'];
    proof {
        assert(ds@ =~= dstar_slash());
        assert(sd@ =~= slash_dstar());
        assert(slash@ =~= seq!['/']);
    }
    if n == 0 {
        return false;
    }
    if n >= 6 && starts_with(&pat, &ds) && ends_with(&pat, &sd) {
        let mid = slice(&pat, 3, n - 3);
        let mid_slash = concat(&mid, &slash);
        let inner = concat(&slash, &mid_slash);
        proof {
            assert(inner@ =~= seq!['/'] + mid@ + seq!['/']);
        }
        return contains(&path, &inner) || starts_with(&path, &mid_slash);
    }
    let k = find(&pat, &ds);
    let ends_ds = ends_with(&pat, &ds);
    if let Some(k) = k {
        proof {
            lemma_find_from(pat@, ds@, 0);
        }
        let suffix = slice(&pat, k + 3, n);
        if has_char(&suffix, '*') && !ends_ds {
            let base = slice(&pat, 0, k);
            proof {
                reveal_strlit(".*");
                assert(".*"@ =~= seq!['.', '*']);
            }
            let re = glob_to_regex(pattern, k + 3, ".*");
            return starts_with(&path, &base) && regex_is_match(re.as_str(), file_path) == Some(
                true,
            );
        }
    }
    if starts_with(&pat, &ds) {
        let rest = slice(&pat, 3, n);
        let slash_rest = concat(&slash, &rest);
        return ends_with(&path, &rest) || contains(&path, &slash_rest);
    }
    if let Some(k) = k {
        let prefix = slice(&pat, 0, k);
        let suffix = slice(&pat, k + 3, n);
        return (prefix.len() == 0 || starts_with(&path, &prefix)) && (suffix.len() == 0
            || ends_with(&path, &suffix));
    }
    if ends_with(&pat, &sd) {
        let base = slice(&pat, 0, n - 3);
        let base_slash = concat(&base, &slash);
        return chars_eq(&path, &base) || starts_with(&path, &base_slash);
    }
    if has_char(&pat, '*') {
        let star_dot: Vec<char> = vec!['*', '.'];
        proof {
            assert(star_dot@ =~= seq!['*', '.']);
        }
        if starts_with(&pat, &star_dot) {
            let ext = slice(&pat, 1, n);
            return !has_char(&path, '/') && ends_with(&path, &ext);
        }
        proof {
            reveal_strlit("^");
            assert("^"@ =~= seq!['^']);
            assert(pattern@.subrange(0, pattern@.len() as int) =~= pattern@);
        }
        let re = glob_to_regex(pattern, 0, "^");
        return regex_is_match(re.as_str(), file_path) == Some(true);
    }
    chars_eq(&path, &pat)
}


/// The views of a list of strings.
pub open spec fn views(v: Seq<String>) -> Seq<Seq<char>> {
    v.map_values(|s: String| s@)
}

/// Some pattern in `patterns` matches `path`.
pub open spec fn excluded_by(path: Seq<char>, patterns: Seq<Seq<char>>) -> bool {
    exists|j: int| 0 <= j < patterns.len() && glob_match(path, #[trigger] patterns[j])
}

/// The paths of `files`, in order, that no pattern of `patterns` matches.
pub open spec fn kept_files(files: Seq<Seq<char>>, patterns: Seq<Seq<char>>) -> Seq<Seq<char>>
    decreases files.len(),
{
    if files.len() == 0 {
        Seq::empty()
    } else {
        let before = kept_files(files.drop_last(), patterns);
        if excluded_by(files.last(), patterns) {
            before
        } else {
            before.push(files.last())
        }
    }
}

/// Whether some pattern of `exclude_patterns` matches `file`.
fn is_excluded(file: &str, exclude_patterns: &Vec<String>) -> (r: bool)
    ensures
        r == excluded_by(file@, views(exclude_patterns@)),
{
    let mut j: usize = 0;
    while j < exclude_patterns.len()
        invariant
            j <= exclude_patterns.len(),
            forall|i: int| 0 <= i < j ==> !glob_match(file@, exclude_patterns@[i]@),
        decreases exclude_patterns.len() - j,
    {
        if matches_glob_pattern(file, exclude_patterns[j].as_str()) {
            assert(views(exclude_patterns@)[j as int] == exclude_patterns@[j as int]@);
            return true;
        }
        j += 1;
    }
    proof {
        assert forall|i: int| 0 <= i < exclude_patterns.len() implies !glob_match(
            file@,
            #[trigger] views(exclude_patterns@)[i],
        ) by {
            assert(views(exclude_patterns@)[i] == exclude_patterns@[i]@);
        }
    }
    false
}

/// Keeps, in order, the files that match none of the exclude patterns; with no
/// patterns the list comes back unchanged.
pub fn filter_excluded_files(files: Vec<String>, exclude_patterns: Vec<String>) -> (r: Vec<String>)
    ensures
        views(r@) == kept_files(views(files@), views(exclude_patterns@)),
        exclude_patterns@.len() == 0 ==> r@ == files@,
{
    if exclude_patterns.len() == 0 {
        proof {
            lemma_no_patterns_keep_all(views(files@), views(exclude_patterns@));
        }
        return files;
    }
    let mut r: Vec<String> = Vec::new();
    let mut i: usize = 0;
    while i < files.len()
        invariant
            i <= files.len(),
            views(r@) == kept_files(views(files@).subrange(0, i as int), views(exclude_patterns@)),
        decreases files.len() - i,
    {
        let ghost pats = views(exclude_patterns@);
        let ghost sub = views(files@).subrange(0, i + 1);
        proof {
            assert(sub.drop_last() =~= views(files@).subrange(0, i as int));
            assert(sub.last() == files@[i as int]@);
        }
        if !is_excluded(files[i].as_str(), &exclude_patterns) {
            let ghost before = r@;
            r.push(files[i].clone());
            proof {
                assert(views(r@) =~= views(before).push(files@[i as int]@));
            }
        }
        i += 1;
    }
    proof {
        assert(views(files@).subrange(0, files.len() as int) =~= views(files@));
    }
    r
}

/// With no patterns every file is kept.
pub proof fn lemma_no_patterns_keep_all(files: Seq<Seq<char>>, patterns: Seq<Seq<char>>)
    requires
        patterns.len() == 0,
    ensures
        kept_files(files, patterns) == files,
    decreases files.len(),
{
    if files.len() > 0 {
        lemma_no_patterns_keep_all(files.drop_last(), patterns);
        assert(files.drop_last().push(files.last()) =~= files);
    }
}

/// Filtering with an empty pattern list returns the input list unchanged.
pub proof fn lemma_exclusion_identity(files: Seq<Seq<char>>)
    ensures
        kept_files(files, Seq::empty()) == files,
{
    lemma_no_patterns_keep_all(files, Seq::empty());
}

/// Adding a pattern never adds a file to the result: every file kept under the
/// larger pattern list is kept under the smaller one, and the result is no longer.
pub proof fn lemma_exclusion_monotone(
    files: Seq<Seq<char>>,
    patterns: Seq<Seq<char>>,
    extra: Seq<char>,
)
    ensures
        forall|f: Seq<char>| #[trigger]
            kept_files(files, patterns.push(extra)).contains(f) ==> kept_files(
                files,
                patterns,
            ).contains(f),
        kept_files(files, patterns.push(extra)).len() <= kept_files(files, patterns).len(),
    decreases files.len(),
{
    let more = patterns.push(extra);
    if files.len() > 0 {
        let rest = files.drop_last();
        let f = files.last();
        lemma_exclusion_monotone(rest, patterns, extra);
        if excluded_by(f, patterns) {
            let j = choose|j: int| 0 <= j < patterns.len() && glob_match(f, #[trigger] patterns[j]);
            assert(more[j] == patterns[j]);
            assert(excluded_by(f, more));
        }
        let a = kept_files(rest, more);
        let b = kept_files(rest, patterns);
        if !excluded_by(f, more) {
            assert(!excluded_by(f, patterns));
            assert forall|g: Seq<char>| #[trigger] a.push(f).contains(g) implies b.push(f).contains(g) by {
                if g != f {
                    let i = choose|i: int| 0 <= i < a.push(f).len() && a.push(f)[i] == g;
                    assert(a[i] == g);
                    assert(a.contains(g));
                    let i2 = choose|i2: int| 0 <= i2 < b.len() && b[i2] == g;
                    assert(b.push(f)[i2] == g);
                } else {
                    assert(b.push(f)[b.len() as int] == g);
                }
            }
        } else if !excluded_by(f, patterns) {
            assert forall|g: Seq<char>| #[trigger] a.contains(g) implies b.push(f).contains(g) by {
                let i2 = choose|i2: int| 0 <= i2 < b.len() && b[i2] == g;
                assert(b.push(f)[i2] == g);
            }
        }
    }
}


/// A pattern without `*` matches exactly the path equal to it, when it is not empty.
pub proof fn lemma_plain_pattern_is_exact(path: Seq<char>, pat: Seq<char>)
    requires
        !pat.contains('*'),
    ensures
        glob_match(path, pat) == (pat.len() > 0 && path == pat),
{
    lemma_find_from(pat, dstar_slash(), 0);
    let k = find_first(pat, dstar_slash());
    if k >= 0 {
        assert(pat.subrange(k, k + 3)[0] == '*');
        assert(pat[k] == '*');
    }
    if pat.len() > 0 && has_prefix(pat, dstar_slash()) {
        assert(pat.subrange(0, 3)[0] == pat[0]);
    }
    if pat.len() >= 3 && has_suffix(pat, slash_dstar()) {
        assert(pat.subrange(pat.len() - 3, pat.len() as int)[2] == pat[pat.len() - 1]);
    }
}

/// A non-empty pattern without wildcards matches the path equal to it, and does
/// not match that path once a character is appended to the pattern.
pub proof fn lemma_glob_idempotence(p: Seq<char>, c: char)
    requires
        p.len() > 0,
        !p.contains('*'),
        c != '*',
    ensures
        glob_match(p, p),
        !glob_match(p, p.push(c)),
{
    lemma_plain_pattern_is_exact(p, p);
    assert(!p.push(c).contains('*')) by {
        if p.push(c).contains('*') {
            let i = choose|i: int| 0 <= i < p.push(c).len() && p.push(c)[i] == '*';
            if i < p.len() {
                assert(p[i] == '*');
            }
        }
    }
    lemma_plain_pattern_is_exact(p, p.push(c));
    assert(p.len() != p.push(c).len());
}

} // verus!
