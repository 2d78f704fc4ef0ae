//! Compression of a file's content by its role and a compression level.
//!
//! Level 0 keeps every file as it is. Otherwise interfaces and schemas are kept,
//! generated files are dropped, documentation loses long code examples (level 3)
//! or is cut to headings and their first paragraph line (level 4), style sheets
//! are cut to design tokens, data files to a schema outline or their first 500
//! bytes, and configuration loses comment lines. Code loses runs of blank
//! lines and the comments that document nothing (light), then everything but
//! documentation and declarations (medium); from aggressive on only its
//! documentation comments and the signatures of its public interface remain,
//! under a summary header at ultra.
use vstd::prelude::*;
use vstd::string::StringSliceAdditionalSpecFns;
use vstd::utf8::{decode_utf8, encode_utf8};
use crate::discover::{matches_any, one_of, starts_with_literal, FileRole};
use crate::json::{extract_schema, json_document, parse_json, schema};
use crate::regex_ops::{
    capture_pieces, capture_views, first_capture, match_texts, regex_capture_pieces,
    regex_compiles, regex_first_capture, regex_is_valid,
    regex_match_texts, regex_replace_all, replace_all, string_views,
};
use crate::text::{
    append_chars, chars_of, decimal, decimal_chars, has_substring, is_blank, is_prefix, lines,
    lines_of, occurs_at, string_from, string_of, sub_chars, trim, trim_chars,
    trim_start, trim_start_chars, views,
};

verus! {

broadcast use {vstd::string::group_string_axioms, vstd::utf8::group_utf8_lib};

/// A fenced code block in Markdown; group 1 is the code inside it.
pub const CODE_FENCE: &'static str = r"(?s)```.*?\n(.*?)\n```";

/// The `:root { ... }` block of a style sheet; group 1 is its body.
pub const CSS_ROOT: &'static str = r"(?s):root\s*\{([^}]+)\}";

/// A media query up to its opening brace.
pub const CSS_MEDIA: &'static str = r"@media\s+([^{]+)";

/// A whole-line `#` or `//` comment.
pub const COMMENT_LINE: &'static str = r"(?m)^\s*(#|//).*$";

/// A line holding only white space, with its newline.
pub const BLANK_LINE: &'static str = r"(?m)^\s*\n";

/// What replaces a fenced code example of more than ten lines.
pub const OMITTED_EXAMPLE: &'static str = "```\n// ... [code example > 10 lines omitted]\n```";

/// The first line of a compressed style sheet.
pub const STYLE_HEADER: &'static str = "/* [StyleSheet \u{2014} Design Tokens Only] */\n";

/// A compressed style sheet without design tokens.
pub const STYLE_NO_TOKENS: &'static str = "/* [StyleSheet \u{2014} Design Tokens Only] (No tokens found) */";

/// The first line of the level-4 summary of code.
pub const SUMMARY_HEADER: &'static str = "// [Semantic Summary to be generated in v2.1]\n";

/// The first line of a data file reduced to its schema.
pub const DATA_SCHEMA_HEADER: &'static str = "/* [DataFile Schema Extracted] */\n";

// ---------------------------------------------------------------------------
// Documentation
// ---------------------------------------------------------------------------

/// A fenced example is kept unless its code has more than ten lines.
pub open spec fn fence_replacement(whole: Seq<char>, code: Seq<char>) -> Seq<char> {
    if lines(code).len() > 10 {
        OMITTED_EXAMPLE@
    } else {
        whole
    }
}

/// The text before the first match followed, for each of the first `n`
/// matches, by its replacement and the text after it.
pub open spec fn splice_fences(
    gaps: Seq<Seq<char>>,
    matches: Seq<(Seq<char>, Option<Seq<char>>)>,
    n: nat,
) -> Seq<char>
    decreases n,
{
    if n == 0 {
        gaps[0]
    } else {
        splice_fences(gaps, matches, (n - 1) as nat) + fence_replacement(
            matches[n - 1].0,
            matches[n - 1].1.unwrap(),
        ) + gaps[n as int]
    }
}

/// Every fenced block found in `content` has its code group.
pub open spec fn fences_have_code(content: Seq<char>) -> bool {
    let ms = regex_capture_pieces(CODE_FENCE@, content, 1).1;
    forall|i: int| 0 <= i < ms.len() ==> (#[trigger] ms[i]).1 is Some
}

/// `content` with each fenced code example of more than ten lines replaced.
pub open spec fn shorten_examples(content: Seq<char>) -> Seq<char> {
    let (gaps, ms) = regex_capture_pieces(CODE_FENCE@, content, 1);
    splice_fences(gaps, ms, ms.len())
}

/// Scanning lines: the headings kept so far, each followed by a newline, the
/// first non-blank line after each heading, and whether such a line is awaited.
pub open spec fn heading_scan(ls: Seq<Seq<char>>) -> (Seq<char>, bool)
    decreases ls.len(),
{
    if ls.len() == 0 {
        (Seq::empty(), false)
    } else {
        let (out, keep_next) = heading_scan(ls.drop_last());
        let line = ls.last();
        if is_prefix("#"@, line) {
            (out + line + "\n"@, true)
        } else if keep_next && trim(line).len() != 0 {
            (out + line + "\n"@, false)
        } else {
            (out, keep_next)
        }
    }
}

/// Compressed documentation.
pub open spec fn compressed_docs(content: Seq<char>, level: u8) -> Seq<char> {
    if level <= 2 {
        content
    } else if level == 4 {
        heading_scan(lines(shorten_examples(content))).0
    } else {
        shorten_examples(content)
    }
}

/// Documentation can be compressed at `level` without failing.
pub open spec fn docs_defined(content: Seq<char>, level: u8) -> bool {
    level <= 2 || (regex_compiles(CODE_FENCE@) && fences_have_code(content))
}

fn push_lit(v: &mut Vec<char>, s: &str)
    ensures
        final(v)@ == old(v)@ + s@,
{
    let c = chars_of(s);
    append_chars(v, c.as_slice());
}

/// The number of lines of `s`.
fn line_count(s: &str) -> (n: usize)
    ensures
        n == lines(s@).len(),
{
    let c = chars_of(s);
    let ls = lines_of(c.as_slice());
    proof {
        assert(views(ls@).len() == ls@.len());
    }
    ls.len()
}

/// Headings and the first non-blank line after each.
fn headings_and_leads(text: &[char]) -> (out: Vec<char>)
    ensures
        out@ == heading_scan(lines(text@)).0,
{
    let ls = lines_of(text);
    let ghost all = views(ls@);
    let mut out: Vec<char> = Vec::new();
    let mut keep_next = false;
    let mut i: usize = 0;
    while i < ls.len()
        invariant
            i <= ls.len(),
            all == views(ls@),
            heading_scan(all.take(i as int)) == (out@, keep_next),
        decreases ls.len() - i,
    {
        assert(all.take(i + 1).drop_last() =~= all.take(i as int));
        assert(all.take(i + 1).last() == ls[i as int]@);
        let line = ls[i].as_slice();
        if starts_with_literal(line, "#") {
            append_chars(&mut out, line);
            push_lit(&mut out, "\n");
            keep_next = true;
        } else if keep_next && !is_blank(line) {
            append_chars(&mut out, line);
            push_lit(&mut out, "\n");
            keep_next = false;
        }
        i = i + 1;
    }
    assert(all.take(ls.len() as int) =~= all);
    out
}

/// `content` with long fenced code examples replaced.
fn shorten_examples_exec(content: &str) -> (out: Vec<char>)
    requires
        regex_compiles(CODE_FENCE@),
        fences_have_code(content@),
    ensures
        out@ == shorten_examples(content@),
{
    let (gaps, ms) = capture_pieces(CODE_FENCE, content, 1);
    let ghost g = string_views(gaps@);
    let ghost m = capture_views(ms@);
    assert(g[0] == gaps@[0]@);
    let mut out = chars_of(gaps[0].as_str());
    let mut i: usize = 0;
    while i < ms.len()
        invariant
            i <= ms.len(),
            gaps.len() == ms.len() + 1,
            g == string_views(gaps@),
            m == capture_views(ms@),
            (g, m) == regex_capture_pieces(CODE_FENCE@, content@, 1),
            fences_have_code(content@),
            out@ == splice_fences(g, m, i as nat),
        decreases ms.len() - i,
    {
        assert(m[i as int].1 is Some);
        match &ms[i].1 {
            Some(code) => {
                if line_count(code.as_str()) > 10 {
                    push_lit(&mut out, OMITTED_EXAMPLE);
                } else {
                    let whole = chars_of(ms[i].0.as_str());
                    append_chars(&mut out, whole.as_slice());
                }
            },
            None => {
                assert(false);
            },
        }
        let after = chars_of(gaps[i + 1].as_str());
        append_chars(&mut out, after.as_slice());
        assert(g[i + 1] == gaps@[i + 1]@);
        i = i + 1;
    }
    out
}

/// Compressed documentation: up to level 2 unchanged; from level 3 long code
/// examples are replaced; at level 4 only headings and the first non-blank
/// line after each remain.
pub fn compress_docs(content: &str, level: u8) -> (r: String)
    requires
        docs_defined(content@, level),
    ensures
        r@ == compressed_docs(content@, level),
{
    if level <= 2 {
        return string_from(content);
    }
    let cleaned = shorten_examples_exec(content);
    if level == 4 {
        let out = headings_and_leads(cleaned.as_slice());
        string_of(out.as_slice())
    } else {
        string_of(cleaned.as_slice())
    }
}

// ---------------------------------------------------------------------------
// Style sheets
// ---------------------------------------------------------------------------

/// One comment line per media query, each trimmed.
pub open spec fn breakpoint_lines(bps: Seq<Seq<char>>) -> Seq<char>
    decreases bps.len(),
{
    if bps.len() == 0 {
        Seq::empty()
    } else {
        breakpoint_lines(bps.drop_last()) + "/* "@ + trim(bps.last()) + " */\n"@
    }
}

/// A compressed style sheet: the `:root` block with its body trimmed, and the
/// media queries found, each trimmed; a fixed note when there is neither.
pub open spec fn compressed_stylesheet(content: Seq<char>) -> Seq<char> {
    let root = regex_first_capture(CSS_ROOT@, content, 1);
    let bps = regex_match_texts(CSS_MEDIA@, content);
    if root is None && bps.len() == 0 {
        STYLE_NO_TOKENS@
    } else {
        STYLE_HEADER@ + (match root {
            Some(Some(body)) => ":root {\n  "@ + trim(body) + "\n}\n"@,
            _ => Seq::empty(),
        }) + (if bps.len() == 0 {
            Seq::empty()
        } else {
            "/* Breakpoints found: */\n"@ + breakpoint_lines(bps)
        })
    }
}

/// A style sheet can be compressed without failing.
pub open spec fn stylesheet_defined(content: Seq<char>) -> bool {
    &&& regex_compiles(CSS_ROOT@)
    &&& regex_compiles(CSS_MEDIA@)
    &&& regex_first_capture(CSS_ROOT@, content, 1) != Some(None::<Seq<char>>)
}

/// A compressed style sheet: its `:root` design tokens and its media-query
/// breakpoints.
pub fn compress_stylesheet(content: &str) -> (r: String)
    requires
        stylesheet_defined(content@),
    ensures
        r@ == compressed_stylesheet(content@),
{
    let root = first_capture(CSS_ROOT, content, 1);
    let bps = match_texts(CSS_MEDIA, content);
    let ghost bv = string_views(bps@);
    if root.is_none() && bps.len() == 0 {
        return string_from(STYLE_NO_TOKENS);
    }
    let mut out = chars_of(STYLE_HEADER);
    match &root {
        Some(Some(body)) => {
            push_lit(&mut out, ":root {\n  ");
            let b = chars_of(body.as_str());
            let t = trim_chars(b.as_slice());
            append_chars(&mut out, t.as_slice());
            push_lit(&mut out, "\n}\n");
        },
        Some(None) => {
            assert(false);
        },
        None => {},
    }
    if bps.len() > 0 {
        push_lit(&mut out, "/* Breakpoints found: */\n");
        let ghost before = out@;
        let mut i: usize = 0;
        while i < bps.len()
            invariant
                i <= bps.len(),
                bv == string_views(bps@),
                out@ == before + breakpoint_lines(bv.take(i as int)),
            decreases bps.len() - i,
        {
            assert(bv.take(i + 1).drop_last() =~= bv.take(i as int));
            assert(bv.take(i + 1).last() == bps@[i as int]@);
            push_lit(&mut out, "/* ");
            let b = chars_of(bps[i].as_str());
            let t = trim_chars(b.as_slice());
            append_chars(&mut out, t.as_slice());
            push_lit(&mut out, " */\n");
            i = i + 1;
        }
        assert(bv.take(bps.len() as int) =~= bv);
    }
    string_of(out.as_slice())
}

// ---------------------------------------------------------------------------
// Data files
// ---------------------------------------------------------------------------

/// The first 500 bytes of `content` as text, when 500 is a character boundary.
pub open spec fn head_500(content: Seq<char>) -> Seq<char> {
    decode_utf8(encode_utf8(content).subrange(0, 500))
}

/// A compressed data file: a JSON file that parses becomes its schema outline;
/// otherwise text of more than 500 bytes is cut to its first 500 bytes with a
/// note of how many bytes were left out.
pub open spec fn compressed_data(content: Seq<char>, extension: Option<Seq<char>>) -> Seq<char> {
    if extension == Some("json"@) && json_document(content) is Some {
        DATA_SCHEMA_HEADER@ + schema(json_document(content).unwrap(), 0)
    } else if encode_utf8(content).len() > 500 {
        head_500(content) + "... \n// ["@ + decimal((encode_utf8(content).len() - 500) as nat)
            + " more bytes of data omitted]"@
    } else {
        content
    }
}

/// A data file can be compressed without failing: a cut is only made at a
/// character boundary.
pub open spec fn data_defined(content: Seq<char>, extension: Option<Seq<char>>) -> bool {
    ||| (extension == Some("json"@) && json_document(content) is Some)
    ||| encode_utf8(content).len() <= 500
    ||| vstd::utf8::is_char_boundary(encode_utf8(content), 500)
}

/// The view of an optional `&str`.
pub open spec fn opt_str_view(o: Option<&str>) -> Option<Seq<char>> {
    match o {
        Some(s) => Some(s@),
        None => None,
    }
}

/// A compressed data file: the schema outline of a JSON document, or the first
/// 500 bytes of any other text longer than that.
pub fn compress_data(content: &str, extension: Option<&str>) -> (r: String)
    requires
        data_defined(content@, opt_str_view(extension)),
    ensures
        r@ == compressed_data(content@, opt_str_view(extension)),
{
    if let Some(e) = extension {
        let ec = chars_of(e);
        if chars_eq_literal(ec.as_slice(), "json") {
            match parse_json(content) {
                Some(v) => {
                    let mut out = chars_of(DATA_SCHEMA_HEADER);
                    let outline = extract_schema(&v, 0);
                    append_chars(&mut out, outline.as_slice());
                    assert(ec@ == "json"@);
                    assert(opt_str_view(extension) == Some("json"@));
                    return string_of(out.as_slice());
                },
                None => {},
            }
        }
    }
    let n = content.as_bytes().len();
    assert(n == encode_utf8(content@).len());
    assert(!(opt_str_view(extension) == Some("json"@) && json_document(content@) is Some));
    if n > 500 {
        assert(!(opt_str_view(extension) == Some("json"@) && json_document(content@) is Some));
        let (head, _) = content.split_at(500);
        assert(head@ == decode_utf8(head.spec_bytes()));
        assert(head@ == head_500(content@));
        let mut out = chars_of(head);
        push_lit(&mut out, "... \n// [");
        let count = decimal_chars(n - 500);
        append_chars(&mut out, count.as_slice());
        push_lit(&mut out, " more bytes of data omitted]");
        string_of(out.as_slice())
    } else {
        string_from(content)
    }
}

fn chars_eq_literal(s: &[char], lit: &str) -> (r: bool)
    ensures
        r == (s@ == lit@),
{
    crate::discover::is_literal(s, lit)
}

// ---------------------------------------------------------------------------
// Configuration
// ---------------------------------------------------------------------------

/// Compressed configuration: whole-line comments removed, then white-space
/// lines collapsed.
pub open spec fn compressed_config(content: Seq<char>) -> Seq<char> {
    regex_replace_all(BLANK_LINE@, regex_replace_all(COMMENT_LINE@, content, ""@), "\n"@)
}

/// Configuration can be compressed without failing.
pub open spec fn config_defined() -> bool {
    regex_compiles(COMMENT_LINE@) && regex_compiles(BLANK_LINE@)
}

/// Compressed configuration.
pub fn compress_config(content: &str) -> (r: String)
    requires
        config_defined(),
    ensures
        r@ == compressed_config(content@),
{
    let cleaned = replace_all(COMMENT_LINE, content, "");
    replace_all(BLANK_LINE, cleaned.as_str(), "\n")
}

// ---------------------------------------------------------------------------
// Code
// ---------------------------------------------------------------------------

/// Extensions of TypeScript and JavaScript files.
pub open spec fn script_exts() -> Seq<&'static str> {
    seq!["ts", "js", "jsx", "tsx"]
}

/// Words that open a declaration.
pub open spec fn declaration_words() -> Seq<&'static str> {
    seq![
        "fn ",
        "pub ",
        "pub(",
        "struct ",
        "enum ",
        "trait ",
        "impl ",
        "impl<",
        "type ",
        "mod ",
        "const ",
        "static ",
        "async ",
        "def ",
        "class ",
        "function ",
        "export ",
        "interface ",
    ]
}

/// `s` begins with one of `words`.
pub open spec fn begins_with_any(s: Seq<char>, words: Seq<&str>) -> bool {
    exists|k: int| 0 <= k < words.len() && is_prefix(words[k]@, s)
}

/// A line holding only white space.
pub open spec fn is_blank_line(line: Seq<char>) -> bool {
    trim(line).len() == 0
}

/// A documentation comment: `///` or `//!` after the indentation.
pub open spec fn is_doc_comment(line: Seq<char>) -> bool {
    let t = trim_start(line);
    is_prefix("///"@, t) || is_prefix("//!"@, t)
}

/// A whole-line comment that documents nothing: `//` after the indentation
/// (but not a documentation comment), or `#` in Python.
pub open spec fn is_comment_line(line: Seq<char>, ext: Seq<char>) -> bool {
    let t = trim_start(line);
    (is_prefix("//"@, t) && !is_doc_comment(line)) || (ext == "py"@ && is_prefix("#"@, t))
}

/// A line that declares something: one at the outermost level (not
/// indented), or one that opens with a declaration word.
pub open spec fn is_declaration_line(line: Seq<char>) -> bool {
    trim_start(line) == line || begins_with_any(trim_start(line), declaration_words())
}

/// An unindented Python `def`, `async def` or `class` whose name does not
/// start with an underscore.
pub open spec fn is_public_python(line: Seq<char>) -> bool {
    ||| is_prefix("def "@, line) && !is_prefix("def _"@, line)
    ||| is_prefix("async def "@, line) && !is_prefix("async def _"@, line)
    ||| is_prefix("class "@, line) && !is_prefix("class _"@, line)
}

/// A line of the public interface: `pub` items in Rust, `export`ed ones in
/// TypeScript and JavaScript, public top-level definitions in Python; in any
/// other language every line counts.
pub open spec fn is_public_line(line: Seq<char>, ext: Seq<char>) -> bool {
    if ext == "rs"@ {
        is_prefix("pub "@, trim_start(line))
    } else if one_of(ext, script_exts()) {
        is_prefix("export "@, trim_start(line))
    } else if ext == "py"@ {
        is_public_python(line)
    } else {
        true
    }
}

/// Whether a non-blank line of code stays at `level`: from level 1 no
/// comment that documents nothing, from level 2 only documentation and
/// declarations (function bodies go), from level 3 only documentation and the
/// public interface.
pub open spec fn keeps_line(line: Seq<char>, level: u8, ext: Seq<char>) -> bool {
    level == 0 || {
        &&& !is_blank_line(line)
        &&& !is_comment_line(line, ext)
        &&& level >= 2 ==> is_doc_comment(line) || is_declaration_line(line)
        &&& level >= 3 ==> is_doc_comment(line) || is_public_line(line, ext)
    }
}

/// Scanning lines at level 2 or below: the text so far (each kept line ended
/// by a newline, each run of blank lines left as one empty line) and whether
/// the last line kept was blank.
pub open spec fn light_scan(ls: Seq<Seq<char>>, level: u8, ext: Seq<char>) -> (Seq<char>, bool)
    decreases ls.len(),
{
    if ls.len() == 0 {
        (Seq::empty(), false)
    } else {
        let (t, blank) = light_scan(ls.drop_last(), level, ext);
        let line = ls.last();
        if is_blank_line(line) {
            if blank {
                (t, true)
            } else {
                (t + "\n"@, true)
            }
        } else if keeps_line(line, level, ext) {
            (t + line + "\n"@, false)
        } else {
            (t, blank)
        }
    }
}

/// `content` ends with a newline.
pub open spec fn ends_with_newline(content: Seq<char>) -> bool {
    content.len() > 0 && content.last() == '\n'
}

/// Code at level 2 or below: the kept lines with runs of blank lines
/// collapsed to one, ending with a newline only where the content does.
pub open spec fn light_text(content: Seq<char>, level: u8, ext: Seq<char>) -> Seq<char> {
    let t = light_scan(lines(content), level, ext).0;
    if t.len() > 0 && !ends_with_newline(content) {
        t.drop_last()
    } else {
        t
    }
}

/// Where a signature ends: before the body or `;` in Rust, before the
/// parameters or `:` in Python, before the parameters, body or `=` in
/// TypeScript and JavaScript.
pub open spec fn ends_signature(c: char, ext: Seq<char>) -> bool {
    if ext == "py"@ {
        c == '(' || c == ':'
    } else if one_of(ext, script_exts()) {
        c == '(' || c == '{' || c == '='
    } else {
        c == '{' || c == ';'
    }
}

/// `s` up to the first character that ends a signature.
pub open spec fn before_signature_end(s: Seq<char>, ext: Seq<char>) -> Seq<char>
    decreases s.len(),
{
    if s.len() == 0 {
        s
    } else if ends_signature(s[0], ext) {
        Seq::empty()
    } else {
        seq![s[0]] + before_signature_end(s.drop_first(), ext)
    }
}

/// Rust, Python, TypeScript and JavaScript have signatures to show.
pub open spec fn has_signatures(ext: Seq<char>) -> bool {
    ext == "rs"@ || ext == "py"@ || one_of(ext, script_exts())
}

/// How a line of the interface is shown: a documentation comment whole, a
/// declaration as its signature followed by ` ...` (in a language without
/// signatures, whole).
pub open spec fn shown_signature(line: Seq<char>, ext: Seq<char>) -> Seq<char> {
    if is_doc_comment(line) || !has_signatures(ext) {
        line
    } else {
        before_signature_end(line, ext) + " ..."@
    }
}

/// The interface of `ls`: each line kept at level 3, as shown.
pub open spec fn signatures(ls: Seq<Seq<char>>, ext: Seq<char>) -> Seq<Seq<char>>
    decreases ls.len(),
{
    if ls.len() == 0 {
        Seq::empty()
    } else if keeps_line(ls.last(), 3, ext) {
        signatures(ls.drop_last(), ext).push(shown_signature(ls.last(), ext))
    } else {
        signatures(ls.drop_last(), ext)
    }
}

/// The pieces of `parts` joined with `sep` between neighbours.
pub open spec fn join(parts: Seq<Seq<char>>, sep: Seq<char>) -> Seq<char>
    decreases parts.len(),
{
    if parts.len() == 0 {
        Seq::empty()
    } else if parts.len() == 1 {
        parts[0]
    } else {
        join(parts.drop_last(), sep) + sep + parts.last()
    }
}

/// Code at level 3 or above: the interface, one item per line; at level 4
/// under the summary header. Empty where there is no interface.
pub open spec fn interface_text(content: Seq<char>, level: u8, ext: Seq<char>) -> Seq<char> {
    let sigs = signatures(lines(content), ext);
    if sigs.len() == 0 {
        Seq::empty()
    } else if level >= 4 {
        SUMMARY_HEADER@ + join(sigs, "\n"@)
    } else {
        join(sigs, "\n"@)
    }
}

/// The extension text, empty when there is none.
pub open spec fn ext_text(extension: Option<Seq<char>>) -> Seq<char> {
    match extension {
        Some(e) => e,
        None => Seq::empty(),
    }
}

/// Compressed code.
pub open spec fn compressed_logic(content: Seq<char>, extension: Option<Seq<char>>, level: u8) -> Seq<char> {
    if level <= 2 {
        light_text(content, level, ext_text(extension))
    } else {
        interface_text(content, level, ext_text(extension))
    }
}

/// Whether `s` begins with one of `words`.
fn begins_with_some(s: &[char], words: &[&str]) -> (r: bool)
    ensures
        r == begins_with_any(s@, words@),
{
    let mut k: usize = 0;
    while k < words.len()
        invariant
            k <= words.len(),
            forall|j: int| 0 <= j < k ==> !is_prefix(#[trigger] words@[j]@, s@),
        decreases words.len() - k,
    {
        if starts_with_literal(s, words[k]) {
            return true;
        }
        k = k + 1;
    }
    false
}

/// Whether a line of code is a documentation comment.
fn is_doc_comment_exec(line: &[char]) -> (r: bool)
    ensures
        r == is_doc_comment(line@),
{
    let t = trim_start_chars(line);
    starts_with_literal(t.as_slice(), "///") || starts_with_literal(t.as_slice(), "//!")
}

/// Whether a line of code stays at `level`.
fn keeps_line_exec(line: &[char], level: u8, ext: &[char]) -> (r: bool)
    ensures
        r == keeps_line(line@, level, ext@),
{
    if level == 0 {
        return true;
    }
    if is_blank(line) {
        return false;
    }
    let doc = is_doc_comment_exec(line);
    let t = trim_start_chars(line);
    let t = t.as_slice();
    let is_py = chars_eq_literal(ext, "py");
    if (starts_with_literal(t, "//") && !doc) || (is_py && starts_with_literal(t, "#")) {
        return false;
    }
    if doc {
        return true;
    }
    if level >= 2 {
        let words = [
            "fn ",
            "pub ",
            "pub(",
            "struct ",
            "enum ",
            "trait ",
            "impl ",
            "impl<",
            "type ",
            "mod ",
            "const ",
            "static ",
            "async ",
            "def ",
            "class ",
            "function ",
            "export ",
            "interface ",
        ];
        assert(words@ == declaration_words());
        if !(crate::text::chars_eq(t, line) || begins_with_some(t, &words)) {
            return false;
        }
    }
    if level >= 3 {
        if chars_eq_literal(ext, "rs") {
            return starts_with_literal(t, "pub ");
        } else if matches_any(ext, &["ts", "js", "jsx", "tsx"]) {
            return starts_with_literal(t, "export ");
        } else if is_py {
            return (starts_with_literal(line, "def ") && !starts_with_literal(line, "def _"))
                || (starts_with_literal(line, "async def ") && !starts_with_literal(
                line,
                "async def _",
            )) || (starts_with_literal(line, "class ") && !starts_with_literal(line, "class _"));
        }
    }
    true
}

/// Whether `c` ends a signature in the language of `ext`.
fn ends_signature_exec(c: char, ext: &[char]) -> (r: bool)
    ensures
        r == ends_signature(c, ext@),
{
    if chars_eq_literal(ext, "py") {
        c == '(' || c == ':'
    } else if matches_any(ext, &["ts", "js", "jsx", "tsx"]) {
        c == '(' || c == '{' || c == '='
    } else {
        c == '{' || c == ';'
    }
}

proof fn lemma_before_signature_end(s: Seq<char>, ext: Seq<char>, k: int)
    requires
        0 <= k <= s.len(),
        forall|j: int| 0 <= j < k ==> !ends_signature(#[trigger] s[j], ext),
        k == s.len() || ends_signature(s[k], ext),
    ensures
        before_signature_end(s, ext) == s.take(k),
    decreases k,
{
    if k == 0 {
        assert(s.take(0) =~= Seq::<char>::empty());
    } else {
        assert(!ends_signature(s[0], ext));
        let d = s.drop_first();
        assert forall|j: int| 0 <= j < k - 1 implies !ends_signature(#[trigger] d[j], ext) by {
            assert(d[j] == s[j + 1]);
        }
        if k < s.len() {
            assert(d[k - 1] == s[k]);
        }
        lemma_before_signature_end(d, ext, k - 1);
        assert(seq![s[0]] + d.take(k - 1) =~= s.take(k));
    }
}

/// How a line of the interface is shown.
fn shown_signature_exec(line: &[char], ext: &[char]) -> (v: Vec<char>)
    ensures
        v@ == shown_signature(line@, ext@),
{
    let with_signatures = chars_eq_literal(ext, "rs") || chars_eq_literal(ext, "py") || matches_any(
        ext,
        &["ts", "js", "jsx", "tsx"],
    );
    if is_doc_comment_exec(line) || !with_signatures {
        let v = sub_chars(line, 0, line.len());
        assert(line@.subrange(0, line@.len() as int) =~= line@);
        return v;
    }
    let mut k: usize = 0;
    while k < line.len() && !ends_signature_exec(line[k], ext)
        invariant
            k <= line.len(),
            forall|j: int| 0 <= j < k ==> !ends_signature(#[trigger] line@[j], ext@),
        decreases line.len() - k,
    {
        k = k + 1;
    }
    proof {
        lemma_before_signature_end(line@, ext@, k as int);
    }
    let mut v = sub_chars(line, 0, k);
    assert(line@.subrange(0, k as int) =~= line@.take(k as int));
    push_lit(&mut v, " ...");
    v
}

/// Compressed code. Levels 1 and 2 keep the lines (runs of blank lines
/// collapsed to one, comments that document nothing removed, at level 2 only
/// documentation and declarations); levels 3 and 4 give the documentation and
/// the signatures of the public interface, one per line, at level 4 under a
/// summary header.
pub fn compress_logic(content: &str, extension: Option<&str>, level: u8) -> (r: String)
    ensures
        r@ == compressed_logic(content@, opt_str_view(extension), level),
{
    let ext = match extension {
        Some(e) => chars_of(e),
        None => Vec::new(),
    };
    let ghost e = ext_text(opt_str_view(extension));
    assert(ext@ == e);
    let text = chars_of(content);
    let ls = lines_of(text.as_slice());
    let ghost all = views(ls@);
    let mut out: Vec<char> = Vec::new();
    if level <= 2 {
        let mut blank = false;
        let mut i: usize = 0;
        while i < ls.len()
            invariant
                i <= ls.len(),
                all == views(ls@),
                (out@, blank) == light_scan(all.take(i as int), level, e),
                ext@ == e,
            decreases ls.len() - i,
        {
            assert(all.take(i + 1).drop_last() =~= all.take(i as int));
            assert(all.take(i + 1).last() == ls[i as int]@);
            let line = ls[i].as_slice();
            if is_blank(line) {
                if !blank {
                    out.push('\n');
                    proof {
                        reveal_strlit("\n");
                    }
                }
                blank = true;
            } else if keeps_line_exec(line, level, ext.as_slice()) {
                append_chars(&mut out, line);
                out.push('\n');
                proof {
                    reveal_strlit("\n");
                }
                blank = false;
            }
            i = i + 1;
        }
        assert(all.take(ls.len() as int) =~= all);
        let ends = text.len() > 0 && text[text.len() - 1] == '\n';
        if out.len() > 0 && !ends {
            let cut = sub_chars(out.as_slice(), 0, out.len() - 1);
            assert(out@.subrange(0, out@.len() - 1) =~= out@.drop_last());
            return string_of(cut.as_slice());
        }
        return string_of(out.as_slice());
    }
    let mut count: usize = 0;
    let mut i: usize = 0;
    while i < ls.len()
        invariant
            i <= ls.len(),
            all == views(ls@),
            count == signatures(all.take(i as int), e).len(),
            count <= i,
            out@ == join(signatures(all.take(i as int), e), "\n"@),
            ext@ == e,
        decreases ls.len() - i,
    {
        assert(all.take(i + 1).drop_last() =~= all.take(i as int));
        assert(all.take(i + 1).last() == ls[i as int]@);
        let line = ls[i].as_slice();
        if keeps_line_exec(line, 3, ext.as_slice()) {
            let ghost before = signatures(all.take(i as int), e);
            let sig = shown_signature_exec(line, ext.as_slice());
            if count > 0 {
                push_lit(&mut out, "\n");
            }
            append_chars(&mut out, sig.as_slice());
            assert(before.push(sig@).drop_last() =~= before);
            if count == 0 {
                assert(out@ =~= sig@);
            }
            count = count + 1;
        }
        i = i + 1;
    }
    assert(all.take(ls.len() as int) =~= all);
    if count == 0 {
        return String::new();
    }
    if level >= 4 {
        let mut header = chars_of(SUMMARY_HEADER);
        append_chars(&mut header, out.as_slice());
        return string_of(header.as_slice());
    }
    string_of(out.as_slice())
}

/// The level at which a test file's code is compressed: as given up to
/// level 1, otherwise level 3.
pub open spec fn test_level(level: u8) -> u8 {
    if level <= 1 {
        level
    } else {
        3
    }
}

/// Compressed test code: code compression at level 1 or below, otherwise the
/// public interface of level 3.
pub fn compress_test(content: &str, extension: Option<&str>, level: u8) -> (r: String)
    ensures
        r@ == compressed_logic(content@, opt_str_view(extension), test_level(level)),
{
    if level <= 1 {
        compress_logic(content, extension, level)
    } else {
        compress_logic(content, extension, 3)
    }
}

// ---------------------------------------------------------------------------
// By role
// ---------------------------------------------------------------------------

/// The compressed content of a file with the given role at `level`.
pub open spec fn compressed(
    content: Seq<char>,
    role: FileRole,
    level: u8,
    extension: Option<Seq<char>>,
) -> Seq<char> {
    if level == 0 {
        content
    } else {
        match role {
            FileRole::Interface | FileRole::Schema => content,
            FileRole::Documentation => compressed_docs(content, level),
            FileRole::StyleSheet => compressed_stylesheet(content),
            FileRole::DataFile => compressed_data(content, extension),
            FileRole::Generated => Seq::empty(),
            FileRole::Config => compressed_config(content),
            FileRole::Test => compressed_logic(content, extension, test_level(level)),
            FileRole::CoreLogic | FileRole::EntryPoint => compressed_logic(content, extension, level),
        }
    }
}

/// Compression of this content with this role at `level` does not fail: the
/// patterns it uses compile, each match has the capture group it reads, and a
/// data file is only cut at a character boundary.
pub open spec fn compress_defined(
    content: Seq<char>,
    role: FileRole,
    level: u8,
    extension: Option<Seq<char>>,
) -> bool {
    level == 0 || match role {
        FileRole::Interface | FileRole::Schema | FileRole::Generated => true,
        FileRole::Documentation => docs_defined(content, level),
        FileRole::StyleSheet => stylesheet_defined(content),
        FileRole::DataFile => data_defined(content, extension),
        FileRole::Config => config_defined(),
        FileRole::Test | FileRole::CoreLogic | FileRole::EntryPoint => true,
    }
}

/// The content of a file compressed by its role at `level`.
pub fn compress_content(content: &str, role: &FileRole, level: u8, extension: Option<&str>) -> (r:
    String)
    requires
        compress_defined(content@, *role, level, opt_str_view(extension)),
    ensures
        r@ == compressed(content@, *role, level, opt_str_view(extension)),
{
    if level == 0 {
        return string_from(content);
    }
    match role {
        FileRole::Interface | FileRole::Schema => string_from(content),
        FileRole::Documentation => compress_docs(content, level),
        FileRole::StyleSheet => compress_stylesheet(content),
        FileRole::DataFile => compress_data(content, extension),
        FileRole::Generated => String::new(),
        FileRole::Config => compress_config(content),
        FileRole::Test => compress_test(content, extension, level),
        FileRole::CoreLogic | FileRole::EntryPoint => compress_logic(content, extension, level),
    }
}

/// Whether every fenced block of `content` has its code group.
fn fences_have_code_exec(content: &str) -> (r: bool)
    requires
        regex_compiles(CODE_FENCE@),
    ensures
        r == fences_have_code(content@),
{
    let (_gaps, ms) = capture_pieces(CODE_FENCE, content, 1);
    let ghost m = capture_views(ms@);
    let mut i: usize = 0;
    while i < ms.len()
        invariant
            i <= ms.len(),
            m == capture_views(ms@),
            m == regex_capture_pieces(CODE_FENCE@, content@, 1).1,
            forall|j: int| 0 <= j < i ==> (#[trigger] m[j]).1 is Some,
        decreases ms.len() - i,
    {
        if ms[i].1.is_none() {
            assert(m[i as int].1 is None);
            return false;
        }
        i = i + 1;
    }
    true
}

/// Whether compressing this content with this role at `level` succeeds; it
/// tests what `compress_content` requires.
pub fn compress_defined_exec(content: &str, role: &FileRole, level: u8, extension: Option<&str>) -> (r:
    bool)
    ensures
        r == compress_defined(content@, *role, level, opt_str_view(extension)),
{
    if level == 0 {
        return true;
    }
    match role {
        FileRole::Interface | FileRole::Schema | FileRole::Generated => true,
        FileRole::Documentation => level <= 2 || (regex_is_valid(CODE_FENCE)
            && fences_have_code_exec(content)),
        FileRole::StyleSheet => {
            if !(regex_is_valid(CSS_ROOT) && regex_is_valid(CSS_MEDIA)) {
                return false;
            }
            match first_capture(CSS_ROOT, content, 1) {
                Some(None) => false,
                _ => true,
            }
        },
        FileRole::DataFile => {
            let mut is_json = false;
            if let Some(e) = extension {
                let ec = chars_of(e);
                is_json = chars_eq_literal(ec.as_slice(), "json");
            }
            if is_json && parse_json(content).is_some() {
                return true;
            }
            let n = content.as_bytes().len();
            n <= 500 || content.is_char_boundary(500)
        },
        FileRole::Config => regex_is_valid(COMMENT_LINE) && regex_is_valid(BLANK_LINE),
        FileRole::Test | FileRole::CoreLogic | FileRole::EntryPoint => true,
    }
}

/// The content compressed by its role at `level`, or `None` where that
/// compression fails: where a pattern does not compile, a match lacks the
/// capture group that is read, or a data file would be cut inside a character.
pub fn try_compress_content(content: &str, role: &FileRole, level: u8, extension: Option<&str>) -> (r:
    Option<String>)
    ensures
        r is Some <==> compress_defined(content@, *role, level, opt_str_view(extension)),
        r matches Some(s) ==> s@ == compressed(content@, *role, level, opt_str_view(extension)),
{
    if compress_defined_exec(content, role, level, extension) {
        Some(compress_content(content, role, level, extension))
    } else {
        None
    }
}

// ---------------------------------------------------------------------------
// Laws
// ---------------------------------------------------------------------------

/// Level 0 keeps every file as it is, whatever its role, and never fails.
pub proof fn law_level_zero_keeps_content(content: Seq<char>, role: FileRole, extension: Option<Seq<char>>)
    ensures
        compressed(content, role, 0, extension) == content,
        compress_defined(content, role, 0, extension),
{
}

/// Interfaces and schemas are kept whole at every level, and generated files
/// are dropped at every level but 0; none of them can fail.
pub proof fn law_interfaces_kept_generated_dropped(content: Seq<char>, level: u8, extension: Option<Seq<char>>)
    ensures
        compressed(content, FileRole::Interface, level, extension) == content,
        compressed(content, FileRole::Schema, level, extension) == content,
        level != 0 ==> compressed(content, FileRole::Generated, level, extension) == Seq::<char>::empty(),
        compress_defined(content, FileRole::Interface, level, extension),
        compress_defined(content, FileRole::Schema, level, extension),
        compress_defined(content, FileRole::Generated, level, extension),
{
}

/// Documentation is kept as it is up to level 2.
pub proof fn law_light_docs_unchanged(content: Seq<char>, level: u8, extension: Option<Seq<char>>)
    requires
        level <= 2,
    ensures
        compressed(content, FileRole::Documentation, level, extension) == content,
{
}

/// The presets nest: a line of code that stays at a level stays at every
/// lower level.
pub proof fn law_levels_nest(line: Seq<char>, ext: Seq<char>, l1: u8, l2: u8)
    requires
        l1 <= l2,
        keeps_line(line, l2, ext),
    ensures
        keeps_line(line, l1, ext),
{
}

proof fn lemma_light_scan_shrinks(ls: Seq<Seq<char>>, ext: Seq<char>, l1: u8, l2: u8)
    requires
        l1 <= l2,
    ensures
        ({
            let (t1, b1) = light_scan(ls, l1, ext);
            let (t2, b2) = light_scan(ls, l2, ext);
            t2.len() + (if b1 && !b2 { 1int } else { 0int }) <= t1.len()
        }),
    decreases ls.len(),
{
    reveal_strlit("\n");
    if ls.len() > 0 {
        lemma_light_scan_shrinks(ls.drop_last(), ext, l1, l2);
        if !is_blank_line(ls.last()) && keeps_line(ls.last(), l2, ext) {
            law_levels_nest(ls.last(), ext, l1, l2);
        }
    }
}

/// The medium preset compresses code at least as much as the light one (and
/// any level up to 2 at least as much as a lower one).
pub proof fn law_medium_compresses_more(content: Seq<char>, ext: Seq<char>, l1: u8, l2: u8)
    requires
        l1 <= l2 <= 2,
    ensures
        light_text(content, l2, ext).len() <= light_text(content, l1, ext).len(),
{
    lemma_light_scan_shrinks(lines(content), ext, l1, l2);
}

/// The ultra preset shows the interface of the aggressive one under the
/// summary header.
pub proof fn law_ultra_is_headed_interface(content: Seq<char>, extension: Option<Seq<char>>)
    ensures
        compressed_logic(content, extension, 4) == if signatures(lines(content), ext_text(extension)).len()
            == 0 {
            Seq::<char>::empty()
        } else {
            SUMMARY_HEADER@ + compressed_logic(content, extension, 3)
        },
{
}

/// Aggressive Rust keeps only documentation comments and `pub` items.
pub proof fn law_aggressive_rust_is_public(line: Seq<char>)
    requires
        keeps_line(line, 3, "rs"@),
    ensures
        is_doc_comment(line) || is_prefix("pub "@, trim_start(line)),
{
}

/// From level 2 on, tests get the public interface of level 3.
pub proof fn law_tests_summarized(content: Seq<char>, level: u8, extension: Option<Seq<char>>)
    requires
        level >= 2,
    ensures
        compressed(content, FileRole::Test, level, extension) == compressed(
            content,
            FileRole::CoreLogic,
            3,
            extension,
        ),
{
}

/// Code and entry points are compressed alike.
pub proof fn law_entry_points_like_code(content: Seq<char>, level: u8, extension: Option<Seq<char>>)
    ensures
        compressed(content, FileRole::EntryPoint, level, extension) == compressed(
            content,
            FileRole::CoreLogic,
            level,
            extension,
        ),
{
}

/// A data file of at most 500 bytes that is not a parsable JSON file is kept
/// as it is.
pub proof fn law_small_data_kept(content: Seq<char>, level: u8, extension: Option<Seq<char>>)
    requires
        level != 0,
        encode_utf8(content).len() <= 500,
        !(extension == Some("json"@) && json_document(content) is Some),
    ensures
        compressed(content, FileRole::DataFile, level, extension) == content,
        compress_defined(content, FileRole::DataFile, level, extension),
{
}

proof fn lemma_heading_scan_grows(ls: Seq<Seq<char>>, j: int)
    requires
        0 <= j <= ls.len(),
    ensures
        is_prefix(heading_scan(ls.take(j)).0, heading_scan(ls).0),
    decreases ls.len() - j,
{
    if j < ls.len() {
        lemma_heading_scan_grows(ls, j + 1);
        let a = heading_scan(ls.take(j)).0;
        let b = heading_scan(ls.take(j + 1)).0;
        assert(ls.take(j + 1).drop_last() =~= ls.take(j));
        assert(a.len() <= b.len());
        assert(b.take(a.len() as int) =~= a);
        let c = heading_scan(ls).0;
        assert(c.take(b.len() as int) == b);
        assert(c.take(a.len() as int) =~= b.take(a.len() as int));
    } else {
        assert(ls.take(j) =~= ls);
        let c = heading_scan(ls).0;
        assert(c.take(c.len() as int) =~= c);
    }
}

/// Every heading line of the documentation reaches the level-4 summary, with
/// its newline.
pub proof fn law_headings_kept(ls: Seq<Seq<char>>, i: int)
    requires
        0 <= i < ls.len(),
        is_prefix("#"@, ls[i]),
    ensures
        has_substring(heading_scan(ls).0, ls[i] + "\n"@),
{
    lemma_heading_scan_grows(ls, i + 1);
    let pre = ls.take(i + 1);
    assert(pre.drop_last() =~= ls.take(i));
    assert(pre.last() == ls[i]);
    let before = heading_scan(ls.take(i)).0;
    let upto = heading_scan(pre).0;
    assert(upto == before + ls[i] + "\n"@);
    let all = heading_scan(ls).0;
    let w = ls[i] + "\n"@;
    assert(all.subrange(before.len() as int, (before.len() + w.len()) as int) =~= w) by {
        assert(all.take(upto.len() as int) == upto);
        assert forall|k: int| 0 <= k < w.len() implies all.subrange(
            before.len() as int,
            (before.len() + w.len()) as int,
        )[k] == w[k] by {
            assert(all[before.len() + k] == all.take(upto.len() as int)[before.len() + k]);
            assert(upto[before.len() + k] == w[k]);
        }
    }
    assert(occurs_at(all, w, before.len() as int));
}

proof fn lemma_trim_end_keeps_first(s: Seq<char>)
    requires
        s.len() > 0,
        !crate::text::is_white_space(s[0]),
    ensures
        crate::text::trim_end(s).len() > 0,
    decreases s.len(),
{
    if s.len() > 1 && crate::text::is_white_space(s.last()) {
        lemma_trim_end_keeps_first(s.drop_last());
    }
}

/// A documentation comment (`///` or `//!` after the indentation) is kept
/// whole at every level: the light and medium text gain it with its newline,
/// and the interface of aggressive and ultra gains it as it is.
pub proof fn law_doc_comments_kept(ls: Seq<Seq<char>>, line: Seq<char>, level: u8, ext: Seq<char>)
    requires
        is_prefix("///"@, trim_start(line)) || is_prefix("//!"@, trim_start(line)),
    ensures
        keeps_line(line, level, ext),
        light_scan(ls.push(line), level, ext).0 == light_scan(ls, level, ext).0 + line + "\n"@,
        signatures(ls.push(line), ext) == signatures(ls, ext).push(line),
{
    reveal_strlit("///");
    reveal_strlit("//!");
    reveal_strlit("#");
    let t = trim_start(line);
    assert(t.take(3)[0] == t[0]);
    assert("///"@[0] == '/');
    assert("//!"@[0] == '/');
    assert(t[0] == '/');
    assert(t.len() > 0);
    lemma_trim_end_keeps_first(t);
    assert(!is_blank_line(line));
    assert(is_doc_comment(line));
    assert(t.take(1)[0] == t[0]);
    assert("#"@[0] == '#');
    assert(!is_prefix("#"@, t));
    assert(ls.push(line).drop_last() =~= ls);
}

proof fn lemma_splice_grows(gaps: Seq<Seq<char>>, ms: Seq<(Seq<char>, Option<Seq<char>>)>, i: nat, n: nat)
    requires
        i <= n,
    ensures
        is_prefix(splice_fences(gaps, ms, i), splice_fences(gaps, ms, n)),
    decreases n - i,
{
    if i < n {
        lemma_splice_grows(gaps, ms, i, (n - 1) as nat);
        let a = splice_fences(gaps, ms, i);
        let b = splice_fences(gaps, ms, (n - 1) as nat);
        let c = splice_fences(gaps, ms, n);
        assert(c.take(b.len() as int) =~= b);
        assert(c.take(a.len() as int) =~= b.take(a.len() as int));
    } else {
        let c = splice_fences(gaps, ms, n);
        assert(c.take(c.len() as int) =~= c);
    }
}

proof fn lemma_splice_holds(gaps: Seq<Seq<char>>, ms: Seq<(Seq<char>, Option<Seq<char>>)>, i: int)
    requires
        0 <= i < ms.len(),
    ensures
        has_substring(
            splice_fences(gaps, ms, ms.len()),
            fence_replacement(ms[i].0, ms[i].1.unwrap()),
        ),
{
    lemma_splice_grows(gaps, ms, (i + 1) as nat, ms.len());
    let before = splice_fences(gaps, ms, i as nat);
    let upto = splice_fences(gaps, ms, (i + 1) as nat);
    let all = splice_fences(gaps, ms, ms.len());
    let w = fence_replacement(ms[i].0, ms[i].1.unwrap());
    assert(upto == before + w + gaps[i + 1]);
    assert(all.subrange(before.len() as int, (before.len() + w.len()) as int) =~= w) by {
        assert forall|k: int| 0 <= k < w.len() implies all.subrange(
            before.len() as int,
            (before.len() + w.len()) as int,
        )[k] == w[k] by {
            assert(all[before.len() + k] == all.take(upto.len() as int)[before.len() + k]);
            assert(upto[before.len() + k] == w[k]);
        }
    }
    assert(occurs_at(all, w, before.len() as int));
}

/// At the aggressive level documentation loses each fenced code example of
/// more than ten lines (the note that replaces it is in the result) and keeps
/// each example of at most ten lines as it is.
pub proof fn law_examples_by_length(content: Seq<char>, ext: Option<Seq<char>>, i: int)
    requires
        0 <= i < regex_capture_pieces(CODE_FENCE@, content, 1).1.len(),
        regex_capture_pieces(CODE_FENCE@, content, 1).1[i].1 is Some,
    ensures
        ({
            let m = regex_capture_pieces(CODE_FENCE@, content, 1).1[i];
            let code = m.1.unwrap();
            &&& lines(code).len() > 10 ==> has_substring(
                compressed(content, FileRole::Documentation, 3, ext),
                OMITTED_EXAMPLE@,
            )
            &&& lines(code).len() <= 10 ==> has_substring(
                compressed(content, FileRole::Documentation, 3, ext),
                m.0,
            )
        }),
{
    let (gaps, ms) = regex_capture_pieces(CODE_FENCE@, content, 1);
    lemma_splice_holds(gaps, ms, i);
}

/// At the ultra level documentation keeps each heading of its text (after
/// long examples are replaced), with its newline.
pub proof fn law_ultra_docs_keep_headings(content: Seq<char>, ext: Option<Seq<char>>, i: int)
    requires
        0 <= i < lines(shorten_examples(content)).len(),
        is_prefix("#"@, lines(shorten_examples(content))[i]),
    ensures
        has_substring(
            compressed(content, FileRole::Documentation, 4, ext),
            lines(shorten_examples(content))[i] + "\n"@,
        ),
{
    law_headings_kept(lines(shorten_examples(content)), i);
}

proof fn lemma_heading_scan_waits(ls: Seq<Seq<char>>, i: int, k: int)
    requires
        0 <= i < k <= ls.len(),
        is_prefix("#"@, ls[i]),
        forall|m: int| i < m < k ==> trim(#[trigger] ls[m]).len() == 0,
    ensures
        heading_scan(ls.take(k)).1,
    decreases k - i,
{
    assert(ls.take(k).drop_last() =~= ls.take(k - 1));
    assert(ls.take(k).last() == ls[k - 1]);
    if k - 1 > i {
        lemma_heading_scan_waits(ls, i, k - 1);
        assert(trim(ls[k - 1]).len() == 0);
        reveal_strlit("#");
        if is_prefix("#"@, ls[k - 1]) {
            assert(ls[k - 1].take(1)[0] == ls[k - 1][0]);
            assert(!crate::text::is_white_space('#'));
            assert(trim_start(ls[k - 1]) == ls[k - 1]);
            lemma_trim_end_keeps_first(ls[k - 1]);
        }
    }
}

/// At the ultra level documentation keeps, after each heading, the first line
/// that is not blank (when no heading comes first), with its newline.
pub proof fn law_ultra_docs_keep_leads(ls: Seq<Seq<char>>, i: int, j: int)
    requires
        0 <= i < j < ls.len(),
        is_prefix("#"@, ls[i]),
        forall|m: int| i < m < j ==> trim(#[trigger] ls[m]).len() == 0,
        trim(ls[j]).len() != 0,
        !is_prefix("#"@, ls[j]),
    ensures
        has_substring(heading_scan(ls).0, ls[j] + "\n"@),
{
    lemma_heading_scan_waits(ls, i, j);
    lemma_heading_scan_grows(ls, j + 1);
    let pre = ls.take(j + 1);
    assert(pre.drop_last() =~= ls.take(j));
    assert(pre.last() == ls[j]);
    let before = heading_scan(ls.take(j)).0;
    let upto = heading_scan(pre).0;
    assert(upto == before + ls[j] + "\n"@);
    let all = heading_scan(ls).0;
    let w = ls[j] + "\n"@;
    assert(all.subrange(before.len() as int, (before.len() + w.len()) as int) =~= w) by {
        assert(all.take(upto.len() as int) == upto);
        assert forall|k: int| 0 <= k < w.len() implies all.subrange(
            before.len() as int,
            (before.len() + w.len()) as int,
        )[k] == w[k] by {
            assert(all[before.len() + k] == all.take(upto.len() as int)[before.len() + k]);
            assert(upto[before.len() + k] == w[k]);
        }
    }
    assert(occurs_at(all, w, before.len() as int));
}

/// At the ultra level documentation keeps, after each heading of its text
/// (once long examples are replaced), the first line that is not blank.
pub proof fn law_ultra_docs_keep_lead_lines(content: Seq<char>, ext: Option<Seq<char>>, i: int, j: int)
    requires
        0 <= i < j < lines(shorten_examples(content)).len(),
        is_prefix("#"@, lines(shorten_examples(content))[i]),
        forall|m: int| i < m < j ==> trim(#[trigger] lines(shorten_examples(content))[m]).len() == 0,
        trim(lines(shorten_examples(content))[j]).len() != 0,
        !is_prefix("#"@, lines(shorten_examples(content))[j]),
    ensures
        has_substring(
            compressed(content, FileRole::Documentation, 4, ext),
            lines(shorten_examples(content))[j] + "\n"@,
        ),
{
    law_ultra_docs_keep_leads(lines(shorten_examples(content)), i, j);
}

/// A style sheet keeps its `:root` block: where the `:root` pattern matches
/// with a body, the result starts with the header and then `:root {`, the
/// trimmed body and `}`; the note that no tokens were found is given only
/// where there is neither a `:root` block nor a media query.
pub proof fn law_stylesheet_keeps_root(content: Seq<char>, body: Seq<char>)
    requires
        regex_first_capture(CSS_ROOT@, content, 1) == Some(Some(body)),
    ensures
        is_prefix(
            STYLE_HEADER@ + ":root {\n  "@ + trim(body) + "\n}\n"@,
            compressed_stylesheet(content),
        ),
{
    let c = compressed_stylesheet(content);
    let p = STYLE_HEADER@ + ":root {\n  "@ + trim(body) + "\n}\n"@;
    assert(c.take(p.len() as int) =~= p);
}

/// The note that no tokens were found stands only for a style sheet with
/// neither a `:root` block nor a media query; any other gets the header.
pub proof fn law_stylesheet_note_only_without_tokens(content: Seq<char>)
    ensures
        regex_first_capture(CSS_ROOT@, content, 1) is None && regex_match_texts(CSS_MEDIA@, content).len()
            == 0 ==> compressed_stylesheet(content) == STYLE_NO_TOKENS@,
        !(regex_first_capture(CSS_ROOT@, content, 1) is None && regex_match_texts(
            CSS_MEDIA@,
            content,
        ).len() == 0) ==> is_prefix(STYLE_HEADER@, compressed_stylesheet(content)),
{
    let c = compressed_stylesheet(content);
    assert(c.take(STYLE_HEADER@.len() as int) =~= STYLE_HEADER@ || c == STYLE_NO_TOKENS@);
}

/// Which lines declare something, by their text: a line that is not
/// indented, or one that opens (after its indentation) with `fn `, `pub `,
/// `pub(`, `struct `, `enum `, `trait `, `impl `, `impl<`, `type `, `mod `,
/// `const `, `static `, `async `, `def `, `class `, `function `, `export ` or
/// `interface `.
pub proof fn law_declaration_lines(line: Seq<char>)
    ensures
        is_declaration_line(line) <==> {
            ||| trim_start(line) == line
            ||| is_prefix("fn "@, trim_start(line))
            ||| is_prefix("pub "@, trim_start(line))
            ||| is_prefix("pub("@, trim_start(line))
            ||| is_prefix("struct "@, trim_start(line))
            ||| is_prefix("enum "@, trim_start(line))
            ||| is_prefix("trait "@, trim_start(line))
            ||| is_prefix("impl "@, trim_start(line))
            ||| is_prefix("impl<"@, trim_start(line))
            ||| is_prefix("type "@, trim_start(line))
            ||| is_prefix("mod "@, trim_start(line))
            ||| is_prefix("const "@, trim_start(line))
            ||| is_prefix("static "@, trim_start(line))
            ||| is_prefix("async "@, trim_start(line))
            ||| is_prefix("def "@, trim_start(line))
            ||| is_prefix("class "@, trim_start(line))
            ||| is_prefix("function "@, trim_start(line))
            ||| is_prefix("export "@, trim_start(line))
            ||| is_prefix("interface "@, trim_start(line))
        },
{
    let d = declaration_words();
    let t = trim_start(line);
    if is_prefix("fn "@, t) { assert(is_prefix(d[0]@, t)); }
    if is_prefix("pub "@, t) { assert(is_prefix(d[1]@, t)); }
    if is_prefix("pub("@, t) { assert(is_prefix(d[2]@, t)); }
    if is_prefix("struct "@, t) { assert(is_prefix(d[3]@, t)); }
    if is_prefix("enum "@, t) { assert(is_prefix(d[4]@, t)); }
    if is_prefix("trait "@, t) { assert(is_prefix(d[5]@, t)); }
    if is_prefix("impl "@, t) { assert(is_prefix(d[6]@, t)); }
    if is_prefix("impl<"@, t) { assert(is_prefix(d[7]@, t)); }
    if is_prefix("type "@, t) { assert(is_prefix(d[8]@, t)); }
    if is_prefix("mod "@, t) { assert(is_prefix(d[9]@, t)); }
    if is_prefix("const "@, t) { assert(is_prefix(d[10]@, t)); }
    if is_prefix("static "@, t) { assert(is_prefix(d[11]@, t)); }
    if is_prefix("async "@, t) { assert(is_prefix(d[12]@, t)); }
    if is_prefix("def "@, t) { assert(is_prefix(d[13]@, t)); }
    if is_prefix("class "@, t) { assert(is_prefix(d[14]@, t)); }
    if is_prefix("function "@, t) { assert(is_prefix(d[15]@, t)); }
    if is_prefix("export "@, t) { assert(is_prefix(d[16]@, t)); }
    if is_prefix("interface "@, t) { assert(is_prefix(d[17]@, t)); }
}

/// Which lines are public, by the language: in Rust those opening with
/// `pub `, in TypeScript and JavaScript those opening with `export ` (after
/// the indentation), in Python unindented `def`, `async def` and `class`
/// whose name does not start with `_`; in any other language every line.
pub proof fn law_public_lines(line: Seq<char>, ext: Seq<char>)
    ensures
        ext == "rs"@ ==> (is_public_line(line, ext) <==> is_prefix("pub "@, trim_start(line))),
        (ext == "ts"@ || ext == "js"@ || ext == "jsx"@ || ext == "tsx"@) ==> (is_public_line(line, ext)
            <==> is_prefix("export "@, trim_start(line))),
        ext == "py"@ ==> (is_public_line(line, ext) <==> {
            ||| is_prefix("def "@, line) && !is_prefix("def _"@, line)
            ||| is_prefix("async def "@, line) && !is_prefix("async def _"@, line)
            ||| is_prefix("class "@, line) && !is_prefix("class _"@, line)
        }),
        !(ext == "rs"@ || ext == "py"@ || ext == "ts"@ || ext == "js"@ || ext == "jsx"@ || ext
            == "tsx"@) ==> is_public_line(line, ext),
{
    lemma_script_exts(ext);
    reveal_strlit("rs");
    reveal_strlit("py");
    assert("py"@[0] != "rs"@[0]);
}

proof fn lemma_script_exts(ext: Seq<char>)
    ensures
        one_of(ext, script_exts()) <==> (ext == "ts"@ || ext == "js"@ || ext == "jsx"@ || ext
            == "tsx"@),
        ext == "rs"@ ==> !one_of(ext, script_exts()),
        ext == "py"@ ==> !one_of(ext, script_exts()),
{
    let x = script_exts();
    if ext == "ts"@ { assert(x[0]@ == ext); }
    if ext == "js"@ { assert(x[1]@ == ext); }
    if ext == "jsx"@ { assert(x[2]@ == ext); }
    if ext == "tsx"@ { assert(x[3]@ == ext); }
    reveal_strlit("rs");
    reveal_strlit("py");
    reveal_strlit("ts");
    reveal_strlit("js");
    reveal_strlit("jsx");
    reveal_strlit("tsx");
    if ext == "rs"@ || ext == "py"@ {
        assert forall|k: int| 0 <= k < x.len() implies x[k]@ != ext by {
            if k == 0 {
                assert(x[0]@[0] == 't');
            } else if k == 1 {
                assert(x[1]@[0] == 'j');
            } else if k == 2 {
                assert(x[2]@.len() == 3);
            } else {
                assert(x[3]@.len() == 3);
            }
        }
    }
}

/// Where a signature ends, by the language: at `(` or `:` in Python, at
/// `(`, `{` or `=` in TypeScript and JavaScript, at `{` or `;` otherwise; and
/// which languages show signatures at all (Rust, Python, TypeScript,
/// JavaScript).
pub proof fn law_signature_ends(c: char, ext: Seq<char>)
    ensures
        ext == "py"@ ==> (ends_signature(c, ext) <==> (c == '(' || c == ':')),
        (ext == "ts"@ || ext == "js"@ || ext == "jsx"@ || ext == "tsx"@) ==> (ends_signature(c, ext)
            <==> (c == '(' || c == '{' || c == '=')),
        !(ext == "py"@ || ext == "ts"@ || ext == "js"@ || ext == "jsx"@ || ext == "tsx"@) ==> (
        ends_signature(c, ext) <==> (c == '{' || c == ';')),
        has_signatures(ext) <==> (ext == "rs"@ || ext == "py"@ || ext == "ts"@ || ext == "js"@
            || ext == "jsx"@ || ext == "tsx"@),
{
    lemma_script_exts(ext);
}

/// The signature of a line is the line up to (not including) its first
/// character that ends a signature, or the whole line when it has none.
pub proof fn law_signature_is_line_start(line: Seq<char>, ext: Seq<char>, k: int)
    requires
        0 <= k <= line.len(),
        forall|j: int| 0 <= j < k ==> !ends_signature(#[trigger] line[j], ext),
        k == line.len() || ends_signature(line[k], ext),
    ensures
        before_signature_end(line, ext) == line.take(k),
{
    lemma_before_signature_end(line, ext, k);
}

/// From the light level on, a whole-line comment that documents nothing
/// (`//` but not `///` or `//!` after the indentation; `#` in Python) is
/// dropped, and so is a blank line as a line of code.
pub proof fn law_comments_dropped(line: Seq<char>, level: u8, ext: Seq<char>)
    requires
        level >= 1,
    ensures
        (is_prefix("//"@, trim_start(line)) && !is_prefix("///"@, trim_start(line)) && !is_prefix(
            "//!"@,
            trim_start(line),
        )) ==> !keeps_line(line, level, ext),
        (ext == "py"@ && is_prefix("#"@, trim_start(line))) ==> !keeps_line(line, level, ext),
        trim(line).len() == 0 ==> !keeps_line(line, level, ext),
{
}

/// How the light and medium text grows line by line: a kept line adds itself
/// and a newline, a blank line after a line that is not blank adds one empty
/// line, a blank line after a blank one adds nothing, and any other line
/// adds nothing.
pub proof fn law_light_lines(ls: Seq<Seq<char>>, line: Seq<char>, level: u8, ext: Seq<char>)
    ensures
        trim(line).len() != 0 && keeps_line(line, level, ext) ==> light_scan(ls.push(line), level, ext)
            == (light_scan(ls, level, ext).0 + line + "\n"@, false),
        trim(line).len() != 0 && !keeps_line(line, level, ext) ==> light_scan(ls.push(line), level, ext)
            == light_scan(ls, level, ext),
        trim(line).len() == 0 && !light_scan(ls, level, ext).1 ==> light_scan(ls.push(line), level, ext)
            == (light_scan(ls, level, ext).0 + "\n"@, true),
        trim(line).len() == 0 && light_scan(ls, level, ext).1 ==> light_scan(ls.push(line), level, ext)
            == light_scan(ls, level, ext),
        light_scan(Seq::empty(), level, ext) == (Seq::<char>::empty(), false),
{
    assert(ls.push(line).drop_last() =~= ls);
}

/// The light and medium text ends with a newline exactly as the content
/// does: the scanned lines end with one, which is dropped where the content
/// has none at its end.
pub proof fn law_light_text_ending(content: Seq<char>, level: u8, ext: Seq<char>)
    ensures
        ends_with_newline(content) <==> (content.len() > 0 && content.last() == '\n'),
        ends_with_newline(content) ==> light_text(content, level, ext) == light_scan(
            lines(content),
            level,
            ext,
        ).0,
        !ends_with_newline(content) && light_scan(lines(content), level, ext).0.len() > 0
            ==> light_text(content, level, ext) == light_scan(lines(content), level, ext).0.drop_last(),
{
}

/// At the aggressive level a kept declaration of a language with signatures
/// adds its signature followed by ` ...`; a line that is not kept adds
/// nothing.
pub proof fn law_signature_lines(ls: Seq<Seq<char>>, line: Seq<char>, ext: Seq<char>)
    ensures
        keeps_line(line, 3, ext) && !is_doc_comment(line) && has_signatures(ext) ==> signatures(
            ls.push(line),
            ext,
        ) == signatures(ls, ext).push(before_signature_end(line, ext) + " ..."@),
        keeps_line(line, 3, ext) && !has_signatures(ext) ==> signatures(ls.push(line), ext)
            == signatures(ls, ext).push(line),
        !keeps_line(line, 3, ext) ==> signatures(ls.push(line), ext) == signatures(ls, ext),
{
    assert(ls.push(line).drop_last() =~= ls);
}

/// What each role gets from level 1 on: style sheets their design tokens,
/// data files their schema or first bytes, configuration its compressed
/// form, documentation its own compression, code and entry points the code
/// compression at the level, tests the code compression at their level.
pub proof fn law_roles_compressed(content: Seq<char>, level: u8, extension: Option<Seq<char>>)
    requires
        level >= 1,
    ensures
        compressed(content, FileRole::StyleSheet, level, extension) == compressed_stylesheet(content),
        compressed(content, FileRole::DataFile, level, extension) == compressed_data(content, extension),
        compressed(content, FileRole::Config, level, extension) == compressed_config(content),
        compressed(content, FileRole::Documentation, level, extension) == compressed_docs(content, level),
        compressed(content, FileRole::CoreLogic, level, extension) == compressed_logic(
            content,
            extension,
            level,
        ),
        compressed(content, FileRole::Test, level, extension) == compressed_logic(
            content,
            extension,
            if level == 1 { 1u8 } else { 3u8 },
        ),
{
}

/// A parsable JSON data file becomes the schema header and its outline.
pub proof fn law_json_data_outlined(content: Seq<char>, level: u8)
    requires
        level >= 1,
        json_document(content) is Some,
    ensures
        compressed(content, FileRole::DataFile, level, Some("json"@)) == DATA_SCHEMA_HEADER@ + schema(
            json_document(content).unwrap(),
            0,
        ),
{
}

} // verus!
