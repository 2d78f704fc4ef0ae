//! File roles: classifying a file by its path and content, and the integer
//! factors of its context priority.
use vstd::prelude::*;
use crate::stdlib::{
    component_count, extension, extension_of, file_name, lowercase, path_component_count,
    path_file_name, to_lowercase,
};
use crate::text::{
    chars_eq, chars_of, contains, ends_with, has_substring, is_prefix, is_suffix, lines, lines_of,
    starts_with, trim, trim_chars, views,
};

verus! {

broadcast use vstd::string::group_string_axioms;

/// What a file is for, which decides how it is compressed.
#[derive(Debug, Clone, Copy, PartialEq, Eq, Structural)]
pub enum FileRole {
    CoreLogic,
    EntryPoint,
    Interface,
    Schema,
    Config,
    Test,
    Documentation,
    DataFile,
    StyleSheet,
    Generated,
}

/// A discovered file: its path, its content, its role, its context priority
/// score as printed (two decimals), the same score in hundredths (what the
/// packing into the token budget maximises), and the compression level chosen
/// for it (0 when the preset decides).
#[derive(Debug, Clone)]
pub struct ScoredFile {
    pub path: String,
    pub content: String,
    pub role: FileRole,
    pub cps: String,
    pub priority: u8,
    pub compression_level: u8,
}

/// The name under which a role is printed.
pub open spec fn role_label(role: FileRole) -> Seq<char> {
    match role {
        FileRole::CoreLogic => "CoreLogic"@,
        FileRole::EntryPoint => "EntryPoint"@,
        FileRole::Interface => "Interface"@,
        FileRole::Schema => "Schema"@,
        FileRole::Config => "Config"@,
        FileRole::Test => "Test"@,
        FileRole::Documentation => "Documentation"@,
        FileRole::DataFile => "DataFile"@,
        FileRole::StyleSheet => "StyleSheet"@,
        FileRole::Generated => "Generated"@,
    }
}

/// The weight of a role in the context priority score, in hundredths:
/// source code first, then configuration, then documentation.
pub open spec fn role_weight(role: FileRole) -> u8 {
    match role {
        FileRole::CoreLogic => 100,
        FileRole::EntryPoint => 90,
        FileRole::Interface => 85,
        FileRole::Schema => 80,
        FileRole::Config => 75,
        FileRole::Documentation => 65,
        FileRole::Test => 50,
        FileRole::DataFile => 30,
        FileRole::StyleSheet => 10,
        FileRole::Generated => 0,
    }
}

/// The weight of a role in the context priority score, in hundredths.
pub fn role_weight_hundredths(role: FileRole) -> (r: u8)
    ensures
        r == role_weight(role),
{
    match role {
        FileRole::CoreLogic => 100,
        FileRole::EntryPoint => 90,
        FileRole::Interface => 85,
        FileRole::Schema => 80,
        FileRole::Config => 75,
        FileRole::Documentation => 65,
        FileRole::Test => 50,
        FileRole::DataFile => 30,
        FileRole::StyleSheet => 10,
        FileRole::Generated => 0,
    }
}

/// Source outweighs configuration, which outweighs documentation.
pub proof fn law_source_over_config_over_docs(source: FileRole)
    requires
        source == FileRole::CoreLogic || source == FileRole::EntryPoint || source
            == FileRole::Interface || source == FileRole::Schema,
    ensures
        role_weight(source) > role_weight(FileRole::Config),
        role_weight(FileRole::Config) > role_weight(FileRole::Documentation),
{
}

impl FileRole {
    /// The variant's name, as `{:?}` prints it.
    pub fn label(&self) -> (r: &'static str)
        ensures
            r@ == role_label(*self),
    {
        match self {
            FileRole::CoreLogic => "CoreLogic",
            FileRole::EntryPoint => "EntryPoint",
            FileRole::Interface => "Interface",
            FileRole::Schema => "Schema",
            FileRole::Config => "Config",
            FileRole::Test => "Test",
            FileRole::Documentation => "Documentation",
            FileRole::DataFile => "DataFile",
            FileRole::StyleSheet => "StyleSheet",
            FileRole::Generated => "Generated",
        }
    }
}

/// `s` is one of `options`.
pub open spec fn one_of(s: Seq<char>, options: Seq<&str>) -> bool {
    exists|k: int| 0 <= k < options.len() && options[k]@ == s
}

/// Some of `patterns` occurs in `s`.
pub open spec fn contains_any(s: Seq<char>, patterns: Seq<&str>) -> bool {
    exists|k: int| 0 <= k < patterns.len() && has_substring(s, patterns[k]@)
}

/// Whether `s` is one of `options`.
pub fn matches_any(s: &[char], options: &[&str]) -> (r: bool)
    ensures
        r == one_of(s@, options@),
{
    let mut k: usize = 0;
    while k < options.len()
        invariant
            k <= options.len(),
            forall|j: int| 0 <= j < k ==> options@[j]@ != s@,
        decreases options.len() - k,
    {
        let o = chars_of(options[k]);
        if chars_eq(o.as_slice(), s) {
            return true;
        }
        k = k + 1;
    }
    false
}

/// Whether some of `patterns` occurs in `s`.
pub fn contains_some(s: &[char], patterns: &[&str]) -> (r: bool)
    ensures
        r == contains_any(s@, patterns@),
{
    let mut k: usize = 0;
    while k < patterns.len()
        invariant
            k <= patterns.len(),
            forall|j: int| 0 <= j < k ==> !has_substring(s@, #[trigger] patterns@[j]@),
        decreases patterns.len() - k,
    {
        let p = chars_of(patterns[k]);
        if contains(s, p.as_slice()) {
            return true;
        }
        k = k + 1;
    }
    false
}

/// Whether `s` equals the literal `lit`.
pub fn is_literal(s: &[char], lit: &str) -> (r: bool)
    ensures
        r == (s@ == lit@),
{
    let l = chars_of(lit);
    chars_eq(s, l.as_slice())
}

/// Whether `s` starts with the literal `lit`.
pub fn starts_with_literal(s: &[char], lit: &str) -> (r: bool)
    ensures
        r == is_prefix(lit@, s@),
{
    let l = chars_of(lit);
    starts_with(s, l.as_slice())
}

/// Whether `s` ends with the literal `lit`.
pub fn ends_with_literal(s: &[char], lit: &str) -> (r: bool)
    ensures
        r == is_suffix(lit@, s@),
{
    let l = chars_of(lit);
    ends_with(s, l.as_slice())
}

/// Whether the literal `lit` occurs in `s`.
pub fn contains_literal(s: &[char], lit: &str) -> (r: bool)
    ensures
        r == has_substring(s@, lit@),
{
    let l = chars_of(lit);
    contains(s, l.as_slice())
}

// ---------------------------------------------------------------------------
// Classification
// ---------------------------------------------------------------------------

/// Directories whose files are build output or dependencies.
pub open spec fn generated_dirs() -> Seq<&'static str> {
    seq!["/dist/", "/node_modules/", "/.next/", "/target/", "/build/", "/.git/", "/__pycache__/"]
}

/// A lower-cased path lies in a directory of build output or dependencies.
pub open spec fn in_generated_dir(path: Seq<char>) -> bool {
    contains_any(path, generated_dirs())
}

/// A lower-cased file name is that of a lock file or a build record.
pub open spec fn is_lock_or_build_record(name: Seq<char>) -> bool {
    ||| name == "package-lock.json"@
    ||| name == "cargo.lock"@
    ||| name == "yarn.lock"@
    ||| is_suffix(".lock"@, name)
    ||| is_suffix(".resolved"@, name)
    ||| name == "check.json"@
    ||| (is_prefix("cargo-"@, name) && is_suffix(".json"@, name))
}

/// A JSON file whose content is a compiler-artifact record.
pub open spec fn is_compiler_artifact(name: Seq<char>, content: Seq<char>) -> bool {
    is_suffix(".json"@, name) && (has_substring(content, "\"reason\":\"compiler-artifact\""@)
        || has_substring(content, "\"reason\": \"compiler-artifact\""@))
}

/// A lower-cased name or path marks a test.
pub open spec fn is_test_file(path: Seq<char>, name: Seq<char>) -> bool {
    has_substring(name, "test"@) || has_substring(name, "spec"@) || has_substring(
        path,
        "/tests/"@,
    ) || has_substring(path, "/spec/"@)
}

/// File names of entry points.
pub open spec fn entry_point_names() -> Seq<&'static str> {
    seq![
        "main.rs",
        "lib.rs",
        "mod.rs",
        "index.ts",
        "index.js",
        "app.py",
        "app.tsx",
        "page.tsx",
        "layout.tsx",
    ]
}

pub open spec fn style_exts() -> Seq<&'static str> {
    seq!["css", "scss", "less", "styl"]
}

pub open spec fn data_exts() -> Seq<&'static str> {
    seq!["json", "csv", "sql"]
}

pub open spec fn doc_exts() -> Seq<&'static str> {
    seq!["md", "mdx", "rst", "txt", "html", "htm"]
}

pub open spec fn config_exts() -> Seq<&'static str> {
    seq!["toml", "yaml", "yml", "env", "conf", "properties", "ini"]
}

pub open spec fn schema_exts() -> Seq<&'static str> {
    seq!["d.ts", "graphql", "proto", "prisma"]
}

pub open spec fn source_exts() -> Seq<&'static str> {
    seq!["rs", "ts", "js", "py", "go", "java", "c", "cpp", "h", "tsx", "jsx"]
}

pub open spec fn binary_exts() -> Seq<&'static str> {
    seq!["png", "jpg", "jpeg", "gif", "mp4", "exe", "dll", "so", "woff", "woff2", "pdf", "pb.go", "min.js"]
}

/// The role of a file by its lower-cased extension and lower-cased name.
pub open spec fn role_by_extension(ext: Seq<char>, name: Seq<char>) -> FileRole {
    if one_of(ext, style_exts()) {
        FileRole::StyleSheet
    } else if one_of(ext, data_exts()) {
        FileRole::DataFile
    } else if one_of(ext, doc_exts()) {
        FileRole::Documentation
    } else if one_of(ext, config_exts()) {
        FileRole::Config
    } else if one_of(ext, schema_exts()) {
        FileRole::Schema
    } else if one_of(ext, source_exts()) {
        if has_substring(name, "types"@) || has_substring(name, "interface"@) {
            FileRole::Interface
        } else {
            FileRole::CoreLogic
        }
    } else if one_of(ext, binary_exts()) {
        FileRole::Generated
    } else {
        FileRole::CoreLogic
    }
}

/// The role of a file, given its lower-cased path, its lower-cased file name,
/// its lower-cased extension and its content.
pub open spec fn classify(
    path: Seq<char>,
    name: Seq<char>,
    ext: Option<Seq<char>>,
    content: Seq<char>,
) -> FileRole {
    if in_generated_dir(path) {
        FileRole::Generated
    } else if is_lock_or_build_record(name) {
        FileRole::Generated
    } else if is_compiler_artifact(name, content) {
        FileRole::Generated
    } else if is_test_file(path, name) {
        FileRole::Test
    } else if one_of(name, entry_point_names()) {
        FileRole::EntryPoint
    } else {
        match ext {
            Some(e) => role_by_extension(e, name),
            None => if name == "dockerfile"@ || name == "makefile"@ {
                FileRole::Config
            } else {
                FileRole::CoreLogic
            },
        }
    }
}

/// The lower-cased file name of a path (empty when it has none).
pub open spec fn lowered_name(path: Seq<char>) -> Seq<char> {
    match path_file_name(path) {
        Some(n) => lowercase(n),
        None => lowercase(Seq::empty()),
    }
}

/// The lower-cased extension of a path.
pub open spec fn lowered_extension(path: Seq<char>) -> Option<Seq<char>> {
    match extension_of(path_file_name(path)) {
        Some(e) => Some(lowercase(e)),
        None => None,
    }
}

/// The role of the file at `path` with the given content.
pub open spec fn role_of(path: Seq<char>, content: Seq<char>) -> FileRole {
    classify(lowercase(path), lowered_name(path), lowered_extension(path), content)
}

/// The role of a file by its extension, given the lower-cased extension and name.
pub fn role_for_extension(ext: &[char], name: &[char]) -> (role: FileRole)
    ensures
        role == role_by_extension(ext@, name@),
{
    if matches_any(ext, &["css", "scss", "less", "styl"]) {
        FileRole::StyleSheet
    } else if matches_any(ext, &["json", "csv", "sql"]) {
        FileRole::DataFile
    } else if matches_any(ext, &["md", "mdx", "rst", "txt", "html", "htm"]) {
        FileRole::Documentation
    } else if matches_any(ext, &["toml", "yaml", "yml", "env", "conf", "properties", "ini"]) {
        FileRole::Config
    } else if matches_any(ext, &["d.ts", "graphql", "proto", "prisma"]) {
        FileRole::Schema
    } else if matches_any(ext, &["rs", "ts", "js", "py", "go", "java", "c", "cpp", "h", "tsx", "jsx"]) {
        if contains_literal(name, "types") || contains_literal(name, "interface") {
            FileRole::Interface
        } else {
            FileRole::CoreLogic
        }
    } else if matches_any(
        ext,
        &["png", "jpg", "jpeg", "gif", "mp4", "exe", "dll", "so", "woff", "woff2", "pdf", "pb.go", "min.js"],
    ) {
        FileRole::Generated
    } else {
        FileRole::CoreLogic
    }
}

/// The role of a file from its lower-cased path, lower-cased file name,
/// lower-cased extension and content: build output and lock files first, then
/// tests, entry points, and finally the extension.
pub fn classify_role_parts(
    path_lower: &str,
    name_lower: &str,
    ext_lower: Option<&str>,
    content: &str,
) -> (role: FileRole)
    ensures
        role == classify(
            path_lower@,
            name_lower@,
            match ext_lower {
                Some(e) => Some(e@),
                None => None,
            },
            content@,
        ),
{
    let path = chars_of(path_lower);
    let path = path.as_slice();
    let name = chars_of(name_lower);
    let name = name.as_slice();
    if contains_some(
        path,
        &["/dist/", "/node_modules/", "/.next/", "/target/", "/build/", "/.git/", "/__pycache__/"],
    ) {
        return FileRole::Generated;
    }
    if is_literal(name, "package-lock.json") || is_literal(name, "cargo.lock") || is_literal(
        name,
        "yarn.lock",
    ) || ends_with_literal(name, ".lock") || ends_with_literal(name, ".resolved") || is_literal(
        name,
        "check.json",
    ) || (starts_with_literal(name, "cargo-") && ends_with_literal(name, ".json")) {
        return FileRole::Generated;
    }
    if ends_with_literal(name, ".json") {
        let body = chars_of(content);
        if contains_literal(body.as_slice(), "\"reason\":\"compiler-artifact\"")
            || contains_literal(body.as_slice(), "\"reason\": \"compiler-artifact\"") {
            return FileRole::Generated;
        }
    }
    if contains_literal(name, "test") || contains_literal(name, "spec") || contains_literal(
        path,
        "/tests/",
    ) || contains_literal(path, "/spec/") {
        return FileRole::Test;
    }
    if matches_any(
        name,
        &[
            "main.rs",
            "lib.rs",
            "mod.rs",
            "index.ts",
            "index.js",
            "app.py",
            "app.tsx",
            "page.tsx",
            "layout.tsx",
        ],
    ) {
        return FileRole::EntryPoint;
    }
    match ext_lower {
        Some(e) => {
            let ext = chars_of(e);
            role_for_extension(ext.as_slice(), name)
        },
        None => {
            if is_literal(name, "dockerfile") || is_literal(name, "makefile") {
                FileRole::Config
            } else {
                FileRole::CoreLogic
            }
        },
    }
}

/// The role of the file at `path` with the given content. The path, its file
/// name and its extension are lower-cased before they are examined.
pub fn classify_role(path: &str, content: &str) -> (role: FileRole)
    ensures
        role == role_of(path@, content@),
{
    let path_lower = to_lowercase(path);
    let name = match file_name(path) {
        Some(n) => n,
        None => String::new(),
    };
    let name_lower = to_lowercase(name.as_str());
    let ext_lower = match extension(path) {
        Some(e) => Some(to_lowercase(e.as_str())),
        None => None,
    };
    let ext_ref: Option<&str> = match &ext_lower {
        Some(e) => Some(e.as_str()),
        None => None,
    };
    classify_role_parts(path_lower.as_str(), name_lower.as_str(), ext_ref, content)
}


// ---------------------------------------------------------------------------
// Context priority factors
// ---------------------------------------------------------------------------

/// Prefixes of a trimmed line that open a decision or a definition.
pub open spec fn decision_openers() -> Seq<&'static str> {
    seq!["if ", "match ", "switch ", "fn ", "function ", "class ", "pub fn ", "struct ", "impl "]
}

/// Markers that make any trimmed line count as a decision.
pub open spec fn decision_markers() -> Seq<&'static str> {
    seq!["?", "// why", "// note", "// FIXME", "// TODO"]
}

/// `s` starts with one of `prefixes`.
pub open spec fn starts_with_any(s: Seq<char>, prefixes: Seq<&str>) -> bool {
    exists|k: int| 0 <= k < prefixes.len() && is_prefix(prefixes[k]@, s)
}

/// A trimmed line that marks logic: a decision, a definition, or a note.
pub open spec fn is_decision_line(trimmed: Seq<char>) -> bool {
    starts_with_any(trimmed, decision_openers()) || contains_any(trimmed, decision_markers())
}

/// How many of `lines` are decision lines once trimmed.
pub open spec fn count_decision_lines(lines: Seq<Seq<char>>) -> nat
    decreases lines.len(),
{
    if lines.len() == 0 {
        0
    } else {
        count_decision_lines(lines.drop_last()) + if is_decision_line(trim(lines.last())) {
            1nat
        } else {
            0nat
        }
    }
}

/// Whether `s` starts with one of `prefixes`.
pub fn starts_with_some(s: &[char], prefixes: &[&str]) -> (r: bool)
    ensures
        r == starts_with_any(s@, prefixes@),
{
    let mut k: usize = 0;
    while k < prefixes.len()
        invariant
            k <= prefixes.len(),
            forall|j: int| 0 <= j < k ==> !is_prefix(#[trigger] prefixes@[j]@, s@),
        decreases prefixes.len() - k,
    {
        if starts_with_literal(s, prefixes[k]) {
            return true;
        }
        k = k + 1;
    }
    false
}

/// Whether a trimmed line marks logic.
pub fn is_decision_line_exec(trimmed: &[char]) -> (r: bool)
    ensures
        r == is_decision_line(trimmed@),
{
    starts_with_some(
        trimmed,
        &["if ", "match ", "switch ", "fn ", "function ", "class ", "pub fn ", "struct ", "impl "],
    ) || contains_some(trimmed, &["?", "// why", "// note", "// FIXME", "// TODO"])
}

/// The logic density counts of `content`: how many of its lines are decision
/// lines once trimmed, and how many lines it has.
pub fn count_decision_markers(content: &str) -> (r: (usize, usize))
    ensures
        r.0 == count_decision_lines(lines(content@)),
        r.1 == lines(content@).len(),
        r.0 <= r.1,
{
    let text = chars_of(content);
    let ls = lines_of(text.as_slice());
    let ghost all = views(ls@);
    let mut markers: usize = 0;
    let mut i: usize = 0;
    while i < ls.len()
        invariant
            i <= ls.len(),
            all == views(ls@),
            markers == count_decision_lines(all.take(i as int)),
            markers <= i,
        decreases ls.len() - i,
    {
        assert(all.take(i + 1).drop_last() =~= all.take(i as int));
        assert(all.take(i + 1).last() == ls[i as int]@);
        let t = trim_chars(ls[i].as_slice());
        if is_decision_line_exec(t.as_slice()) {
            markers = markers + 1;
        }
        i = i + 1;
    }
    assert(all.take(ls.len() as int) =~= all);
    (markers, ls.len())
}

/// Centrality of a file in tenths: 9 for an entry point, otherwise by the
/// number of path components: 6 for one or two, 4 for three or four, else 2.
pub open spec fn centrality(role: FileRole, components: nat) -> u32 {
    if role == FileRole::EntryPoint {
        9
    } else if 1 <= components <= 2 {
        6
    } else if 3 <= components <= 4 {
        4
    } else {
        2
    }
}

/// The centrality of the file at `path` with the given role, in tenths.
pub fn centrality_tenths(role: FileRole, path: &str) -> (r: u32)
    ensures
        r == centrality(role, path_component_count(path@)),
{
    if role == FileRole::EntryPoint {
        return 9;
    }
    let n = component_count(path);
    if 1 <= n && n <= 2 {
        6
    } else if 3 <= n && n <= 4 {
        4
    } else {
        2
    }
}

/// Freshness in tenths by the age of the last modification in whole days:
/// 10 within 14 days, 7 within 90 days, 4 beyond; 7 when the age is unknown.
pub open spec fn freshness(age_days: Option<u64>) -> u32 {
    match age_days {
        None => 7,
        Some(d) => if d <= 14 {
            10
        } else if d <= 90 {
            7
        } else {
            4
        },
    }
}

/// The freshness of a file from the age of its last modification, in tenths.
pub fn freshness_tenths(age_days: Option<u64>) -> (r: u32)
    ensures
        r == freshness(age_days),
{
    match age_days {
        None => 7,
        Some(d) => if d <= 14 {
            10
        } else if d <= 90 {
            7
        } else {
            4
        },
    }
}

// ---------------------------------------------------------------------------
// Laws
// ---------------------------------------------------------------------------

/// A file under a build or dependency directory, or a lock file, is generated
/// whatever its content, its name or its extension.
pub proof fn law_build_output_is_generated(
    path: Seq<char>,
    name: Seq<char>,
    ext: Option<Seq<char>>,
    content: Seq<char>,
)
    requires
        in_generated_dir(path) || is_lock_or_build_record(name),
    ensures
        classify(path, name, ext, content) == FileRole::Generated,
{
}

/// Entry points are never placed below other files by centrality, and other
/// files are never more central than shallower ones (counting from one component).
pub proof fn law_centrality_by_depth(role: FileRole, shallow: nat, deep: nat)
    requires
        1 <= shallow <= deep,
    ensures
        centrality(role, deep) <= centrality(role, shallow),
        centrality(FileRole::EntryPoint, deep) >= centrality(role, shallow),
{
}

/// An older file is never fresher than a newer one.
pub proof fn law_freshness_by_age(newer: u64, older: u64)
    requires
        newer <= older,
    ensures
        freshness(Some(older)) <= freshness(Some(newer)),
{
}

/// A file outside build and dependency directories that is neither a lock
/// file, a build record, a compiler artifact, a test nor an entry point is
/// classified by its extension alone; without an extension it is
/// configuration when named Dockerfile or Makefile and code otherwise.
pub proof fn law_classified_by_extension(path: Seq<char>, name: Seq<char>, ext: Option<Seq<char>>, content: Seq<char>)
    requires
        !in_generated_dir(path),
        !is_lock_or_build_record(name),
        !is_compiler_artifact(name, content),
        !is_test_file(path, name),
        !one_of(name, entry_point_names()),
    ensures
        ext matches Some(e) ==> classify(path, name, ext, content) == role_by_extension(e, name),
        ext is None ==> classify(path, name, ext, content) == if name == "dockerfile"@ || name
            == "makefile"@ {
            FileRole::Config
        } else {
            FileRole::CoreLogic
        },
{
}

/// Which trimmed lines mark logic, by their text: those that open with `if `,
/// `match `, `switch `, `fn `, `function `, `class `, `pub fn `, `struct ` or
/// `impl `, and those that hold `?`, `// why`, `// note`, `// FIXME` or
/// `// TODO`; no other line.
pub proof fn law_decision_lines(t: Seq<char>)
    ensures
        is_decision_line(t) <==> {
            ||| is_prefix("if "@, t)
            ||| is_prefix("match "@, t)
            ||| is_prefix("switch "@, t)
            ||| is_prefix("fn "@, t)
            ||| is_prefix("function "@, t)
            ||| is_prefix("class "@, t)
            ||| is_prefix("pub fn "@, t)
            ||| is_prefix("struct "@, t)
            ||| is_prefix("impl "@, t)
            ||| has_substring(t, "?"@)
            ||| has_substring(t, "// why"@)
            ||| has_substring(t, "// note"@)
            ||| has_substring(t, "// FIXME"@)
            ||| has_substring(t, "// TODO"@)
        },
{
    let o = decision_openers();
    let m = decision_markers();
    if is_prefix("if "@, t) { assert(is_prefix(o[0]@, t)); }
    if is_prefix("match "@, t) { assert(is_prefix(o[1]@, t)); }
    if is_prefix("switch "@, t) { assert(is_prefix(o[2]@, t)); }
    if is_prefix("fn "@, t) { assert(is_prefix(o[3]@, t)); }
    if is_prefix("function "@, t) { assert(is_prefix(o[4]@, t)); }
    if is_prefix("class "@, t) { assert(is_prefix(o[5]@, t)); }
    if is_prefix("pub fn "@, t) { assert(is_prefix(o[6]@, t)); }
    if is_prefix("struct "@, t) { assert(is_prefix(o[7]@, t)); }
    if is_prefix("impl "@, t) { assert(is_prefix(o[8]@, t)); }
    if has_substring(t, "?"@) { assert(has_substring(t, m[0]@)); }
    if has_substring(t, "// why"@) { assert(has_substring(t, m[1]@)); }
    if has_substring(t, "// note"@) { assert(has_substring(t, m[2]@)); }
    if has_substring(t, "// FIXME"@) { assert(has_substring(t, m[3]@)); }
    if has_substring(t, "// TODO"@) { assert(has_substring(t, m[4]@)); }
}

/// A line that marks logic adds one to the count, any other line nothing.
pub proof fn law_decision_count_grows(ls: Seq<Seq<char>>, line: Seq<char>)
    ensures
        count_decision_lines(ls.push(line)) == count_decision_lines(ls) + if is_decision_line(
            trim(line),
        ) {
            1nat
        } else {
            0nat
        },
{
    assert(ls.push(line).drop_last() =~= ls);
}


/// The directories of build output and dependencies, by name: `/dist/`,
/// `/node_modules/`, `/.next/`, `/target/`, `/build/`, `/.git/` and
/// `/__pycache__/`; a path is in one when it holds one of them.
pub proof fn law_generated_directories(path: Seq<char>)
    ensures
        in_generated_dir(path) <==> {
            ||| has_substring(path, "/dist/"@)
            ||| has_substring(path, "/node_modules/"@)
            ||| has_substring(path, "/.next/"@)
            ||| has_substring(path, "/target/"@)
            ||| has_substring(path, "/build/"@)
            ||| has_substring(path, "/.git/"@)
            ||| has_substring(path, "/__pycache__/"@)
        },
{
    let d = generated_dirs();
    if has_substring(path, "/dist/"@) { assert(has_substring(path, d[0]@)); }
    if has_substring(path, "/node_modules/"@) { assert(has_substring(path, d[1]@)); }
    if has_substring(path, "/.next/"@) { assert(has_substring(path, d[2]@)); }
    if has_substring(path, "/target/"@) { assert(has_substring(path, d[3]@)); }
    if has_substring(path, "/build/"@) { assert(has_substring(path, d[4]@)); }
    if has_substring(path, "/.git/"@) { assert(has_substring(path, d[5]@)); }
    if has_substring(path, "/__pycache__/"@) { assert(has_substring(path, d[6]@)); }
}

/// The file names of entry points: `main.rs`, `lib.rs`, `mod.rs`,
/// `index.ts`, `index.js`, `app.py`, `app.tsx`, `page.tsx`, `layout.tsx`.
pub proof fn law_entry_point_names(name: Seq<char>)
    ensures
        one_of(name, entry_point_names()) <==> {
            ||| name == "main.rs"@
            ||| name == "lib.rs"@
            ||| name == "mod.rs"@
            ||| name == "index.ts"@
            ||| name == "index.js"@
            ||| name == "app.py"@
            ||| name == "app.tsx"@
            ||| name == "page.tsx"@
            ||| name == "layout.tsx"@
        },
{
    let n = entry_point_names();
    if name == "main.rs"@ { assert(n[0]@ == name); }
    if name == "lib.rs"@ { assert(n[1]@ == name); }
    if name == "mod.rs"@ { assert(n[2]@ == name); }
    if name == "index.ts"@ { assert(n[3]@ == name); }
    if name == "index.js"@ { assert(n[4]@ == name); }
    if name == "app.py"@ { assert(n[5]@ == name); }
    if name == "app.tsx"@ { assert(n[6]@ == name); }
    if name == "page.tsx"@ { assert(n[7]@ == name); }
    if name == "layout.tsx"@ { assert(n[8]@ == name); }
}

/// How a file is classified before its extension is looked at: build output,
/// dependencies, lock files, build records and compiler artifacts are
/// generated; then a name holding `test` or `spec`, or a path through
/// `/tests/` or `/spec/`, is a test; then the entry-point names are entry
/// points.
pub proof fn law_classified_before_extension(path: Seq<char>, name: Seq<char>, ext: Option<Seq<char>>, content: Seq<char>)
    ensures
        in_generated_dir(path) ==> classify(path, name, ext, content) == FileRole::Generated,
        (name == "package-lock.json"@ || name == "cargo.lock"@ || name == "yarn.lock"@ || is_suffix(
            ".lock"@,
            name,
        ) || is_suffix(".resolved"@, name) || name == "check.json"@ || (is_prefix("cargo-"@, name)
            && is_suffix(".json"@, name))) ==> classify(path, name, ext, content) == FileRole::Generated,
        (is_suffix(".json"@, name) && (has_substring(content, "\"reason\":\"compiler-artifact\""@)
            || has_substring(content, "\"reason\": \"compiler-artifact\""@))) ==> classify(
            path,
            name,
            ext,
            content,
        ) == FileRole::Generated,
        (!in_generated_dir(path) && !is_lock_or_build_record(name) && !is_compiler_artifact(
            name,
            content,
        )) ==> ((has_substring(name, "test"@) || has_substring(name, "spec"@) || has_substring(
            path,
            "/tests/"@,
        ) || has_substring(path, "/spec/"@)) <==> classify(path, name, ext, content)
            == FileRole::Test),
{
}

} // verus!
