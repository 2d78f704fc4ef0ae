//! Assembly of the context document: a header with the repository structure,
//! then the files, compressed, that the knapsack packing fits into the token
//! budget with the greatest total priority.
use vstd::prelude::*;
use crate::compress::{
    compress_content, compress_defined, compress_defined_exec, compressed, opt_str_view,
};
use crate::discover::{role_label, FileRole, ScoredFile};
use crate::pack::{
    admissible, law_selection_is_optimal, lemma_weight_of_prefix, mask_value, mask_weight,
    nats_of, nats_of_bytes, pack_items, selection,
};
use crate::stdlib::{extension, extension_of, path_file_name};
use crate::text::{append_chars, chars_of, decimal, decimal_chars, string_of};
use crate::tokens::{cl100k_token_count, Tokenizer};
use crate::{Config, FileDetail};

verus! {

broadcast use vstd::string::group_string_axioms;

/// Why a document could not be assembled.
#[derive(Debug)]
pub enum AssembleError {
    /// The `cl100k_base` tokenizer could not be loaded.
    Tokenizer(anyhow::Error),
    /// Compressing the file at this position of the list would fail.
    Uncompressible(usize),
    /// The tokenizer failed on the block of the file at this position.
    Tokenization(usize),
}

pub const DOCUMENT_OPENING: &'static str =
    "<?xml version=\"1.0\" encoding=\"UTF-8\"?>\n<context>\n  <repository_details>\n    <description>The following is an optimized codebase extraction. Files are compressed according to context priority.</description>\n    <total_files_scanned>";

pub const STRUCTURE_OPENING: &'static str =
    "</total_files_scanned>\n  </repository_details>\n\n  <repository_structure>\n";

pub const CODE_BASE_OPENING: &'static str = "  </repository_structure>\n\n  <code_base>\n";

pub const DOCUMENT_CLOSING: &'static str = "  </code_base>\n</context>\n\n<!-- Total Tokens Evaluated: ";

/// The compression level used for a file: its own, or the preset when it has none.
pub open spec fn entry_level(e: ScoredFile, preset: u8) -> u8 {
    if e.compression_level == 0 {
        preset
    } else {
        e.compression_level
    }
}

/// The extension of a file's path, as `Path::extension` gives it.
pub open spec fn entry_extension(e: ScoredFile) -> Option<Seq<char>> {
    extension_of(path_file_name(e.path@))
}

/// The compressed content of a file.
pub open spec fn entry_compressed(e: ScoredFile, preset: u8) -> Seq<char> {
    compressed(e.content@, e.role, entry_level(e, preset), entry_extension(e))
}

/// A file can be compressed without failing.
pub open spec fn entry_defined(e: ScoredFile, preset: u8) -> bool {
    compress_defined(e.content@, e.role, entry_level(e, preset), entry_extension(e))
}

/// The block of the document that holds one file.
pub open spec fn file_block(e: ScoredFile, preset: u8) -> Seq<char> {
    "    <file path=\""@ + e.path@ + "\" cps=\""@ + e.cps@ + "\" level=\""@ + decimal(
        entry_level(e, preset) as nat,
    ) + "\">\n```"@ + (match entry_extension(e) {
        Some(x) => x,
        None => "text"@,
    }) + "\n"@ + entry_compressed(e, preset) + "\n```\n    </file>\n\n"@
}

/// The note that stands in for a file that does not fit in the budget.
pub open spec fn limit_note(limit: nat) -> Seq<char> {
    "    <!-- Limit Reached: "@ + decimal(limit) + " tokens. Remaining files omitted. -->\n"@
}

/// What is recorded of a file.
pub open spec fn detail_of(e: ScoredFile, preset: u8, tokens: nat, included: bool) -> (
    Seq<char>,
    Seq<char>,
    Seq<char>,
    u8,
    nat,
    bool,
) {
    (e.path@, role_label(e.role), e.cps@, entry_level(e, preset), tokens, included)
}

/// Every file can be compressed without failing.
pub open spec fn all_defined(entries: Seq<ScoredFile>, preset: u8) -> bool {
    forall|i: int| 0 <= i < entries.len() ==> #[trigger] entry_defined(entries[i], preset)
}

/// The tokenizer counts the block of every file.
pub open spec fn all_tokenizable(entries: Seq<ScoredFile>, preset: u8) -> bool {
    forall|i: int| 0 <= i < entries.len() ==> #[trigger] cl100k_token_count(
        file_block(entries[i], preset),
    ) is Some
}

/// A file left out because it is a test and tests are not asked for.
pub open spec fn skipped(e: ScoredFile, include_tests: bool) -> bool {
    e.role == FileRole::Test && !include_tests
}

/// The tokens of the block of a file.
pub open spec fn block_tokens(e: ScoredFile, preset: u8) -> nat {
    cl100k_token_count(file_block(e, preset)).unwrap()
}

/// The tokens of the blocks of the files, in order.
pub open spec fn token_weights(entries: Seq<ScoredFile>, preset: u8) -> Seq<nat> {
    Seq::new(entries.len(), |i: int| block_tokens(entries[i], preset))
}

/// The priorities of the files, in order.
pub open spec fn priorities(entries: Seq<ScoredFile>) -> Seq<nat> {
    Seq::new(entries.len(), |i: int| entries[i].priority as nat)
}

/// Which files may be packed: all but the skipped tests.
pub open spec fn packable(entries: Seq<ScoredFile>, include_tests: bool) -> Seq<bool> {
    Seq::new(entries.len(), |i: int| !skipped(entries[i], include_tests))
}

/// The files packed into the budget: of all selections of packable files
/// whose blocks fit in `limit` together, one of greatest total priority.
pub open spec fn packing(entries: Seq<ScoredFile>, preset: u8, include_tests: bool, limit: nat) -> Seq<bool> {
    selection(token_weights(entries, preset), priorities(entries), packable(entries, include_tests), limit)
}

/// `m` packs only packable files, fits in `limit`, and no such selection has
/// a greater total priority.
pub open spec fn best_packing(
    entries: Seq<ScoredFile>,
    preset: u8,
    include_tests: bool,
    limit: nat,
    m: Seq<bool>,
) -> bool {
    let w = token_weights(entries, preset);
    let p = priorities(entries);
    let a = packable(entries, include_tests);
    &&& m.len() == entries.len()
    &&& admissible(a, m)
    &&& mask_weight(w, m) <= limit
    &&& forall|o: Seq<bool>|
        o.len() == entries.len() && admissible(a, o) && mask_weight(w, o) <= limit ==> mask_value(p, o)
            <= #[trigger] mask_value(p, m)
}

/// The files in order, under the selection `m`: a packed file's block, a
/// skipped test's nothing, the limit note for any other file; with the record
/// of each file.
pub open spec fn code_base(
    entries: Seq<ScoredFile>,
    preset: u8,
    include_tests: bool,
    limit: nat,
    m: Seq<bool>,
) -> (Seq<char>, Seq<(Seq<char>, Seq<char>, Seq<char>, u8, nat, bool)>)
    decreases entries.len(),
{
    if entries.len() == 0 {
        (Seq::empty(), Seq::empty())
    } else {
        let (text, details) = code_base(entries.drop_last(), preset, include_tests, limit, m.drop_last());
        let e = entries.last();
        let t = block_tokens(e, preset);
        if m.last() {
            (text + file_block(e, preset), details.push(detail_of(e, preset, t, true)))
        } else if skipped(e, include_tests) {
            (text, details.push(detail_of(e, preset, t, false)))
        } else {
            (text + limit_note(limit), details.push(detail_of(e, preset, t, false)))
        }
    }
}

/// The tokens of the packed files.
pub open spec fn packed_tokens(entries: Seq<ScoredFile>, preset: u8, include_tests: bool, limit: nat) -> nat {
    mask_weight(token_weights(entries, preset), packing(entries, preset, include_tests, limit))
}

/// The list of paths, one per line.
pub open spec fn structure_lines(entries: Seq<ScoredFile>) -> Seq<char>
    decreases entries.len(),
{
    if entries.len() == 0 {
        Seq::empty()
    } else {
        structure_lines(entries.drop_last()) + "    - "@ + entries.last().path@ + "\n"@
    }
}

/// The whole document for the files, the preset, whether tests are included
/// and the token limit.
pub open spec fn document(entries: Seq<ScoredFile>, preset: u8, include_tests: bool, limit: nat) -> Seq<char> {
    DOCUMENT_OPENING@ + decimal(entries.len()) + STRUCTURE_OPENING@ + structure_lines(entries)
        + CODE_BASE_OPENING@ + code_base(
        entries,
        preset,
        include_tests,
        limit,
        packing(entries, preset, include_tests, limit),
    ).0 + DOCUMENT_CLOSING@ + decimal(packed_tokens(entries, preset, include_tests, limit)) + " -->\n"@
}

/// The preset level a configuration asks for (light when it names none).
pub open spec fn config_preset(config: Config) -> u8 {
    match config.preset {
        Some(p) => p,
        None => 1,
    }
}

/// The token limit a configuration sets (50,000 when it names none).
pub open spec fn config_limit(config: Config) -> nat {
    match config.target_tokens {
        Some(t) => t as nat,
        None => 50_000,
    }
}

/// `md`, `details` and `total` are the document, the file records and the
/// included tokens for `entries` under `config`.
pub open spec fn assembled(
    entries: Seq<ScoredFile>,
    config: Config,
    md: Seq<char>,
    details: Seq<FileDetail>,
    total: usize,
) -> bool {
    let preset = config_preset(config);
    let limit = config_limit(config);
    let tests = config.include_tests;
    &&& md == document(entries, preset, tests, limit)
    &&& detail_views(details) == code_base(entries, preset, tests, limit, packing(entries, preset, tests, limit)).1
    &&& total as nat == packed_tokens(entries, preset, tests, limit)
    &&& total as nat <= limit
    &&& best_packing(entries, preset, tests, limit, included_mask(details))
    &&& forall|i: int|
        0 <= i < details.len() && !skipped(entries[i], tests) && !(#[trigger] details[i]).included
            && entries[i].priority > 0 ==> total + details[i].tokens > limit
}

/// Which of the records are marked included.
pub open spec fn included_mask(details: Seq<FileDetail>) -> Seq<bool> {
    details.map_values(|d: FileDetail| d.included)
}

/// The records of a list of file details.
pub open spec fn detail_views(d: Seq<FileDetail>) -> Seq<(Seq<char>, Seq<char>, Seq<char>, u8, nat, bool)> {
    d.map_values(|x: FileDetail| x@)
}

fn push_lit(v: &mut Vec<char>, s: &str)
    ensures
        final(v)@ == old(v)@ + s@,
{
    let c = chars_of(s);
    append_chars(v, c.as_slice());
}

fn push_string(v: &mut Vec<char>, s: &String)
    ensures
        final(v)@ == old(v)@ + s@,
{
    let c = chars_of(s.as_str());
    append_chars(v, c.as_slice());
}

/// The block of the document that holds one file, and its compression level.
fn render_block(e: &ScoredFile, preset: u8) -> (r: (Vec<char>, u8))
    requires
        entry_defined(*e, preset),
    ensures
        r.0@ == file_block(*e, preset),
        r.1 == entry_level(*e, preset),
{
    let level = if e.compression_level == 0 {
        preset
    } else {
        e.compression_level
    };
    let ext = extension(e.path.as_str());
    let ext_ref: Option<&str> = match &ext {
        Some(x) => Some(x.as_str()),
        None => None,
    };
    assert(opt_str_view(ext_ref) == entry_extension(*e));
    let body = compress_content(e.content.as_str(), &e.role, level, ext_ref);
    let mut out: Vec<char> = Vec::new();
    push_lit(&mut out, "    <file path=\"");
    push_string(&mut out, &e.path);
    push_lit(&mut out, "\" cps=\"");
    push_string(&mut out, &e.cps);
    push_lit(&mut out, "\" level=\"");
    let lv = decimal_chars(level as usize);
    append_chars(&mut out, lv.as_slice());
    push_lit(&mut out, "\">\n```");
    match ext_ref {
        Some(x) => push_lit(&mut out, x),
        None => push_lit(&mut out, "text"),
    }
    push_lit(&mut out, "\n");
    push_string(&mut out, &body);
    push_lit(&mut out, "\n```\n    </file>\n\n");
    (out, level)
}

/// The records of `code_base` are one per file, in order, each with the
/// file's block tokens and whether the selection packs it.
pub proof fn lemma_code_base_details(
    entries: Seq<ScoredFile>,
    preset: u8,
    include_tests: bool,
    limit: nat,
    m: Seq<bool>,
)
    requires
        m.len() == entries.len(),
    ensures
        code_base(entries, preset, include_tests, limit, m).1.len() == entries.len(),
        forall|i: int|
            0 <= i < entries.len() ==> #[trigger] code_base(entries, preset, include_tests, limit, m).1[i]
                == detail_of(entries[i], preset, block_tokens(entries[i], preset), m[i]),
    decreases entries.len(),
{
    if entries.len() > 0 {
        let prev = entries.drop_last();
        lemma_code_base_details(prev, preset, include_tests, limit, m.drop_last());
        let d = code_base(entries, preset, include_tests, limit, m).1;
        let pd = code_base(prev, preset, include_tests, limit, m.drop_last()).1;
        assert forall|i: int| 0 <= i < entries.len() implies #[trigger] d[i] == detail_of(
            entries[i],
            preset,
            block_tokens(entries[i], preset),
            m[i],
        ) by {
            if i < entries.len() - 1 {
                assert(d[i] == pd[i]);
                assert(prev[i] == entries[i]);
                assert(m.drop_last()[i] == m[i]);
            }
        }
    }
}

/// The document for `entries` under `config`, with the record of each file and
/// the tokens of the files packed, counting tokens with `tok`. It fails where
/// a file cannot be compressed or the tokenizer fails on a block.
pub fn compose_with_tokenizer(entries: Vec<ScoredFile>, config: &Config, tok: &Tokenizer) -> (r: Result<
    (String, Vec<FileDetail>, usize),
    AssembleError,
>)
    requires
        entries.len() <= usize::MAX / 256,
    ensures
        r is Ok <==> all_defined(entries@, config_preset(*config)) && all_tokenizable(
            entries@,
            config_preset(*config),
        ),
        r matches Ok((md, details, total)) ==> assembled(entries@, *config, md@, details@, total),
        r matches Err(AssembleError::Uncompressible(i)) ==> i < entries.len() && !entry_defined(
            entries@[i as int],
            config_preset(*config),
        ),
        r matches Err(AssembleError::Tokenization(i)) ==> i < entries.len() && cl100k_token_count(
            file_block(entries@[i as int], config_preset(*config)),
        ) is None,
        !(r is Err && r->Err_0 is Tokenizer),
{
    let preset: u8 = match config.preset {
        Some(p) => p,
        None => 1,
    };
    let limit: usize = match config.target_tokens {
        Some(t) => t,
        None => 50_000,
    };
    let tests = config.include_tests;
    let ghost es = entries@;
    let ghost lim = limit as nat;
    // Every file must compress.
    let mut k: usize = 0;
    while k < entries.len()
        invariant
            k <= entries.len(),
            es == entries@,
            preset == config_preset(*config),
            forall|j: int| 0 <= j < k ==> #[trigger] entry_defined(es[j], preset),
        decreases entries.len() - k,
    {
        let e = &entries[k];
        let ext = extension(e.path.as_str());
        let ext_ref: Option<&str> = match &ext {
            Some(x) => Some(x.as_str()),
            None => None,
        };
        let level = if e.compression_level == 0 {
            preset
        } else {
            e.compression_level
        };
        assert(opt_str_view(ext_ref) == entry_extension(es[k as int]));
        if !compress_defined_exec(e.content.as_str(), &e.role, level, ext_ref) {
            assert(!entry_defined(es[k as int], preset));
            return Err(AssembleError::Uncompressible(k));
        }
        k = k + 1;
    }
    // The block of every file, and its tokens.
    let mut blocks: Vec<Vec<char>> = Vec::new();
    let mut weights: Vec<usize> = Vec::new();
    let mut values: Vec<u8> = Vec::new();
    let mut allowed: Vec<bool> = Vec::new();
    let mut i: usize = 0;
    while i < entries.len()
        invariant
            i <= entries.len(),
            es == entries@,
            preset == config_preset(*config),
            tests == config.include_tests,
            all_defined(es, preset),
            blocks.len() == i,
            weights.len() == i,
            values.len() == i,
            allowed.len() == i,
            forall|j: int| 0 <= j < i ==> (#[trigger] blocks@[j])@ == file_block(es[j], preset),
            forall|j: int|
                0 <= j < i ==> cl100k_token_count(file_block(es[j], preset)) == Some(
                    #[trigger] weights@[j] as nat,
                ),
            forall|j: int| 0 <= j < i ==> #[trigger] values@[j] == es[j].priority,
            forall|j: int| 0 <= j < i ==> #[trigger] allowed@[j] == !skipped(es[j], tests),
        decreases entries.len() - i,
    {
        let e = &entries[i];
        assert(entry_defined(es[i as int], preset));
        let (block, _level) = render_block(e, preset);
        let block_text = string_of(block.as_slice());
        let tokens = match tok.count(block_text.as_str()) {
            Some(t) => t,
            None => {
                return Err(AssembleError::Tokenization(i));
            },
        };
        let is_test = match e.role {
            FileRole::Test => true,
            _ => false,
        };
        blocks.push(block);
        weights.push(tokens);
        values.push(e.priority);
        allowed.push(!(is_test && !tests));
        i = i + 1;
    }
    proof {
        assert forall|j: int| 0 <= j < es.len() implies #[trigger] cl100k_token_count(
            file_block(es[j], preset),
        ) is Some by {
            assert(cl100k_token_count(file_block(es[j], preset)) == Some(weights@[j] as nat));
        }
    }
    let ghost w = token_weights(es, preset);
    let ghost a = packable(es, tests);
    assert(nats_of(weights@) =~= w);
    assert(nats_of_bytes(values@) =~= priorities(es));
    assert(allowed@ =~= a);
    let chosen = pack_items(&weights, &values, &allowed, limit);
    let ghost m = packing(es, preset, tests, lim);
    assert(chosen@ == m);
    proof {
        law_selection_is_optimal(w, priorities(es), a, lim);
        lemma_code_base_details(es, preset, tests, lim, m);
    }
    // The document.
    let mut out: Vec<char> = Vec::new();
    push_lit(&mut out, DOCUMENT_OPENING);
    let n = decimal_chars(entries.len());
    append_chars(&mut out, n.as_slice());
    push_lit(&mut out, STRUCTURE_OPENING);
    let ghost before_structure = out@;
    let mut i: usize = 0;
    while i < entries.len()
        invariant
            i <= entries.len(),
            es == entries@,
            out@ == before_structure + structure_lines(es.take(i as int)),
        decreases entries.len() - i,
    {
        assert(es.take(i + 1).drop_last() =~= es.take(i as int));
        push_lit(&mut out, "    - ");
        push_string(&mut out, &entries[i].path);
        push_lit(&mut out, "\n");
        i = i + 1;
    }
    assert(es.take(entries.len() as int) =~= es);
    push_lit(&mut out, CODE_BASE_OPENING);
    let ghost before_files = out@;
    let mut total: usize = 0;
    let mut details: Vec<FileDetail> = Vec::new();
    let mut i: usize = 0;
    while i < entries.len()
        invariant
            i <= entries.len(),
            es == entries@,
            preset == config_preset(*config),
            tests == config.include_tests,
            lim == limit as nat,
            chosen@ == m,
            m.len() == es.len(),
            w == token_weights(es, preset),
            mask_weight(w, m) <= lim,
            blocks.len() == es.len(),
            weights.len() == es.len(),
            forall|j: int| 0 <= j < es.len() ==> (#[trigger] blocks@[j])@ == file_block(es[j], preset),
            forall|j: int| 0 <= j < es.len() ==> #[trigger] weights@[j] as nat == w[j],
            total as nat == mask_weight(w, m.take(i as int)),
            out@ == before_files + code_base(es.take(i as int), preset, tests, lim, m.take(i as int)).0,
            detail_views(details@) == code_base(es.take(i as int), preset, tests, lim, m.take(i as int)).1,
        decreases entries.len() - i,
    {
        assert(es.take(i + 1).drop_last() =~= es.take(i as int));
        assert(m.take(i + 1).drop_last() =~= m.take(i as int));
        assert(es.take(i + 1).last() == es[i as int]);
        assert(m.take(i + 1).last() == m[i as int]);
        proof {
            lemma_weight_of_prefix(w, m, i as int);
            lemma_weight_of_prefix(w, m, i + 1);
        }
        let e = &entries[i];
        let ghost old_details = detail_views(details@);
        let label = crate::text::string_from(e.role.label());
        let level = if e.compression_level == 0 {
            preset
        } else {
            e.compression_level
        };
        let is_test = match e.role {
            FileRole::Test => true,
            _ => false,
        };
        assert(w[i as int] == block_tokens(es[i as int], preset));
        if chosen[i] {
            append_chars(&mut out, blocks[i].as_slice());
            total = total + weights[i];
        } else if !(is_test && !tests) {
            push_lit(&mut out, "    <!-- Limit Reached: ");
            let l = decimal_chars(limit);
            append_chars(&mut out, l.as_slice());
            push_lit(&mut out, " tokens. Remaining files omitted. -->\n");
        }
        details.push(
            FileDetail {
                path: e.path.clone(),
                role: label,
                cps: e.cps.clone(),
                compression_level: level,
                tokens: weights[i],
                included: chosen[i],
            },
        );
        assert(detail_views(details@) =~= old_details.push(detail_views(details@).last()));
        i = i + 1;
    }
    assert(es.take(entries.len() as int) =~= es);
    assert(m.take(entries.len() as int) =~= m);
    assert(included_mask(details@) =~= m) by {
        assert forall|j: int| 0 <= j < m.len() implies included_mask(details@)[j] == m[j] by {
            assert(detail_views(details@)[j] == details@[j]@);
        }
    }
    proof {
        crate::pack::law_no_fitting_item_left_out(w, priorities(es), a, lim);
        assert forall|j: int|
            0 <= j < details@.len() && !skipped(es[j], tests) && !(#[trigger] details@[j]).included
                && es[j].priority > 0 implies total + details@[j].tokens > lim by {
            assert(detail_views(details@)[j] == details@[j]@);
            assert(included_mask(details@)[j] == details@[j].included);
            assert(a[j]);
            assert(priorities(es)[j] == es[j].priority as nat);
        }
    }
    push_lit(&mut out, DOCUMENT_CLOSING);
    let t = decimal_chars(total);
    append_chars(&mut out, t.as_slice());
    push_lit(&mut out, " -->\n");
    Ok((string_of(out.as_slice()), details, total))
}

/// The context document for `entries` under `config`, with the record of each
/// file and the tokens of the files packed. The files packed are, of all
/// selections that leave out tests (unless `config.include_tests`) and whose
/// blocks fit in the budget together, one of greatest total priority; every
/// other file but a skipped test is replaced by a note. It fails where a file
/// cannot be compressed or the tokenizer fails on a file's block.
pub fn compose_markdown_with_details(entries: Vec<ScoredFile>, config: &Config) -> (r: Result<
    (String, Vec<FileDetail>, usize),
    AssembleError,
>)
    requires
        entries.len() <= usize::MAX / 256,
    ensures
        r is Ok <==> all_defined(entries@, config_preset(*config)) && all_tokenizable(
            entries@,
            config_preset(*config),
        ),
        r matches Ok((md, details, total)) ==> assembled(entries@, *config, md@, details@, total),
        r matches Err(AssembleError::Uncompressible(i)) ==> i < entries.len() && !entry_defined(
            entries@[i as int],
            config_preset(*config),
        ),
        r matches Err(AssembleError::Tokenization(i)) ==> i < entries.len() && cl100k_token_count(
            file_block(entries@[i as int], config_preset(*config)),
        ) is None,
{
    match Tokenizer::cl100k() {
        Ok(tok) => compose_with_tokenizer(entries, config, &tok),
        Err(e) => Err(AssembleError::Tokenizer(e)),
    }
}

/// The context document for `entries` under `config`: the document of
/// `compose_markdown_with_details`, failing exactly where it fails.
pub fn compose_markdown(entries: Vec<ScoredFile>, config: &Config) -> (r: Result<String, AssembleError>)
    requires
        entries.len() <= usize::MAX / 256,
    ensures
        r is Ok <==> all_defined(entries@, config_preset(*config)) && all_tokenizable(
            entries@,
            config_preset(*config),
        ),
        r matches Ok(md) ==> md@ == document(
            entries@,
            config_preset(*config),
            config.include_tests,
            config_limit(*config),
        ),
        r matches Err(AssembleError::Uncompressible(i)) ==> i < entries.len() && !entry_defined(
            entries@[i as int],
            config_preset(*config),
        ),
        r matches Err(AssembleError::Tokenization(i)) ==> i < entries.len() && cl100k_token_count(
            file_block(entries@[i as int], config_preset(*config)),
        ) is None,
{
    match compose_markdown_with_details(entries, config) {
        Ok((md, _, _)) => Ok(md),
        Err(e) => Err(e),
    }
}

// ---------------------------------------------------------------------------
// Laws of the token budget
// ---------------------------------------------------------------------------

/// The tokens of the files a list of records marks as included.
pub open spec fn included_tokens(details: Seq<(Seq<char>, Seq<char>, Seq<char>, u8, nat, bool)>) -> nat
    decreases details.len(),
{
    if details.len() == 0 {
        0
    } else {
        included_tokens(details.drop_last()) + if details.last().5 {
            details.last().4
        } else {
            0
        }
    }
}

proof fn lemma_included_tokens(
    entries: Seq<ScoredFile>,
    preset: u8,
    include_tests: bool,
    limit: nat,
    m: Seq<bool>,
)
    requires
        m.len() == entries.len(),
    ensures
        included_tokens(code_base(entries, preset, include_tests, limit, m).1) == mask_weight(
            token_weights(entries, preset),
            m,
        ),
    decreases entries.len(),
{
    if entries.len() > 0 {
        let prev = entries.drop_last();
        lemma_included_tokens(prev, preset, include_tests, limit, m.drop_last());
        crate::pack::lemma_weight_prefix(
            token_weights(prev, preset),
            token_weights(entries, preset),
            m.drop_last(),
        );
        let d = code_base(entries, preset, include_tests, limit, m).1;
        let pd = code_base(prev, preset, include_tests, limit, m.drop_last()).1;
        assert(d.drop_last() =~= pd);
    }
}

/// The budget is kept: there is one record per file, in order, with the
/// file's path, role, score, level and block tokens; the tokens of the files
/// marked included are the tokens counted, they never exceed the limit, and
/// no test is included unless tests are asked for.
pub proof fn law_budget_is_kept(entries: Seq<ScoredFile>, preset: u8, include_tests: bool, limit: nat)
    ensures
        ({
            let details = code_base(
                entries,
                preset,
                include_tests,
                limit,
                packing(entries, preset, include_tests, limit),
            ).1;
            &&& details.len() == entries.len()
            &&& included_tokens(details) == packed_tokens(entries, preset, include_tests, limit)
            &&& packed_tokens(entries, preset, include_tests, limit) <= limit
            &&& forall|i: int|
                0 <= i < entries.len() ==> #[trigger] details[i] == detail_of(
                    entries[i],
                    preset,
                    block_tokens(entries[i], preset),
                    details[i].5,
                )
            &&& forall|i: int|
                0 <= i < entries.len() && skipped(entries[i], include_tests) ==> !(
                #[trigger] details[i]).5
        }),
{
    let m = packing(entries, preset, include_tests, limit);
    let a = packable(entries, include_tests);
    law_selection_is_optimal(token_weights(entries, preset), priorities(entries), a, limit);
    lemma_code_base_details(entries, preset, include_tests, limit, m);
    lemma_included_tokens(entries, preset, include_tests, limit, m);
    let details = code_base(entries, preset, include_tests, limit, m).1;
    assert forall|i: int| 0 <= i < entries.len() && skipped(entries[i], include_tests) implies !(
    #[trigger] details[i]).5 by {
        assert(!a[i]);
        if m[i] {
            assert(a[i]);
        }
    }
}

/// When every file that may be packed has a priority above zero and their
/// blocks fit in the limit together, every one of them is included.
pub proof fn law_everything_fits(entries: Seq<ScoredFile>, preset: u8, include_tests: bool, limit: nat)
    requires
        mask_weight(token_weights(entries, preset), packable(entries, include_tests)) <= limit,
        forall|i: int|
            0 <= i < entries.len() && !skipped(entries[i], include_tests) ==> (
            #[trigger] entries[i]).priority > 0,
    ensures
        forall|i: int|
            0 <= i < entries.len() ==> (#[trigger] code_base(
                entries,
                preset,
                include_tests,
                limit,
                packing(entries, preset, include_tests, limit),
            ).1[i]).5 == !skipped(entries[i], include_tests),
{
    let a = packable(entries, include_tests);
    let p = priorities(entries);
    assert forall|i: int| 0 <= i < a.len() && #[trigger] a[i] implies p[i] > 0 by {
        assert(entries[i].priority > 0);
    }
    crate::pack::law_everything_that_fits_is_packed(token_weights(entries, preset), p, a, limit);
    lemma_code_base_details(entries, preset, include_tests, limit, a);
}

/// A file the classifier puts in a build or dependency directory takes no
/// room beyond its block's frame at any compression level but 0: its content
/// is dropped.
pub proof fn law_build_output_dropped(e: ScoredFile, preset: u8)
    requires
        e.role == crate::discover::role_of(e.path@, e.content@),
        crate::discover::in_generated_dir(crate::stdlib::lowercase(e.path@)),
        entry_level(e, preset) != 0,
    ensures
        entry_compressed(e, preset) == Seq::<char>::empty(),
{
}

} // verus!
