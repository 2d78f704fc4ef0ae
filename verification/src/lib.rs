use vstd::prelude::*;

pub mod assemble;
pub mod compress;
pub mod discover;
pub mod extension_roles;
pub mod display;
pub mod ingest;
pub mod json;
pub mod pack;
pub mod regex_ops;
pub mod stdlib;
pub mod text;
pub mod tokens;

use crate::assemble::AssembleError;
use crate::discover::ScoredFile;

verus! {

broadcast use vstd::string::group_string_axioms;

/// How a repository is turned into context: where from, the token budget,
/// the preset level (1 light, 2 medium, 3 aggressive, 4 ultra), where the
/// result is written, and whether tests are included.
#[derive(Debug, Clone)]
pub struct Config {
    pub source: Option<String>,
    pub target_tokens: Option<usize>,
    pub preset: Option<u8>,
    pub output_path: Option<String>,
    pub include_tests: bool,
}

impl Default for Config {
    /// The current directory, a 50,000-token budget, the light preset, output
    /// to `repo.md`, tests left out.
    fn default() -> (c: Self)
        ensures
            c.source matches Some(s) && s@ == "."@,
            c.target_tokens == Some(50_000usize),
            c.preset == Some(1u8),
            c.output_path matches Some(p) && p@ == "repo.md"@,
            !c.include_tests,
    {
        Config {
            source: Some(text::string_from(".")),
            target_tokens: Some(50_000),
            preset: Some(1),
            output_path: Some(text::string_from("repo.md")),
            include_tests: false,
        }
    }
}

/// What became of one file: its path, role, priority score, the compression
/// level applied, its token count and whether it fit in the budget.
#[derive(Debug, Clone)]
pub struct FileDetail {
    pub path: String,
    pub role: String,
    pub cps: String,
    pub compression_level: u8,
    pub tokens: usize,
    pub included: bool,
}

impl View for FileDetail {
    type V = (Seq<char>, Seq<char>, Seq<char>, u8, nat, bool);

    open spec fn view(&self) -> Self::V {
        (self.path@, self.role@, self.cps@, self.compression_level, self.tokens as nat, self.included)
    }
}

/// Name of a compression preset level.
pub open spec fn spec_preset_name(level: u8) -> Seq<char> {
    if level == 1 {
        "light"@
    } else if level == 2 {
        "medium"@
    } else if level == 3 {
        "aggressive"@
    } else if level == 4 {
        "ultra"@
    } else {
        "custom"@
    }
}

/// The human-readable name of a preset level: 1 light, 2 medium, 3 aggressive,
/// 4 ultra, anything else custom.
pub fn preset_name(level: u8) -> (name: &'static str)
    ensures
        name@ == spec_preset_name(level),
{
    match level {
        1 => "light",
        2 => "medium",
        3 => "aggressive",
        4 => "ultra",
        _ => "custom",
    }
}


/// The preset level a preset name selects: light 1, medium 2, aggressive 3,
/// ultra 4; medium for any other name or none.
pub open spec fn spec_preset_level(name: Option<Seq<char>>) -> u8 {
    match name {
        Some(n) => if n == "light"@ {
            1
        } else if n == "medium"@ {
            2
        } else if n == "aggressive"@ {
            3
        } else if n == "ultra"@ {
            4
        } else {
            2
        },
        None => 2,
    }
}

/// The preset level a preset name selects (medium when the name is unknown or missing).
pub fn preset_level_from_name(name: Option<&str>) -> (level: u8)
    ensures
        level == spec_preset_level(compress::opt_str_view(name)),
{
    match name {
        Some(n) => {
            let c = text::chars_of(n);
            let c = c.as_slice();
            if discover::is_literal(c, "light") {
                1
            } else if discover::is_literal(c, "medium") {
                2
            } else if discover::is_literal(c, "aggressive") {
                3
            } else if discover::is_literal(c, "ultra") {
                4
            } else {
                2
            }
        },
        None => 2,
    }
}

/// Naming a preset level and reading the name back gives the level, for each
/// of the four presets.
pub proof fn law_preset_names_round_trip(level: u8)
    requires
        1 <= level <= 4,
    ensures
        spec_preset_level(Some(spec_preset_name(level))) == level,
{
    reveal_strlit("light");
    reveal_strlit("medium");
    reveal_strlit("aggressive");
    reveal_strlit("ultra");
    assert("light"@[0] == 'l');
    assert("medium"@[0] == 'm');
    assert("aggressive"@[0] == 'a');
    assert("ultra"@[0] == 'u');
}

/// A source is remote when it is an `http://` or `https://` URL.
pub open spec fn spec_is_remote(source: Seq<char>) -> bool {
    text::is_prefix("http://"@, source) || text::is_prefix("https://"@, source)
}

/// Whether a source names a remote repository to clone rather than a local directory.
pub fn is_remote_source(source: &str) -> (r: bool)
    ensures
        r == spec_is_remote(source@),
{
    let c = text::chars_of(source);
    discover::starts_with_literal(c.as_slice(), "http://") || discover::starts_with_literal(
        c.as_slice(),
        "https://",
    )
}

/// Statistics of a generation run.
#[derive(Debug, Clone)]
pub struct GenerationStats {
    pub files_scanned: usize,
    pub files_included: usize,
    pub files_omitted: usize,
    pub total_tokens: usize,
    pub token_budget: usize,
    pub preset_name: String,
    pub preset_level: u8,
    pub processing_time_ms: u128,
    pub output_bytes: usize,
    pub absolute_output_path: Option<String>,
    /// Per-file details for verbose or inspect output.
    pub file_details: Vec<FileDetail>,
}

/// The document of a generation run with its statistics.
#[derive(Debug, Clone)]
pub struct GenerateResult {
    pub markdown: String,
    pub stats: GenerationStats,
}

/// How many of `details` were included.
pub open spec fn count_included(details: Seq<FileDetail>) -> nat
    decreases details.len(),
{
    if details.len() == 0 {
        0
    } else {
        count_included(details.drop_last()) + if details.last().included {
            1nat
        } else {
            0nat
        }
    }
}

/// The result of a generation run from its parts: the document, the file
/// details and the included tokens from assembly, how many files were scanned,
/// how long it took and where the output goes.
pub fn generation_result(
    config: &Config,
    files_scanned: usize,
    markdown: String,
    file_details: Vec<FileDetail>,
    total_tokens: usize,
    processing_time_ms: u128,
    absolute_output_path: Option<String>,
) -> (r: GenerateResult)
    ensures
        r.markdown == markdown,
        r.stats.files_scanned == files_scanned,
        r.stats.files_included == count_included(file_details@),
        r.stats.files_omitted == file_details@.len() - count_included(file_details@),
        r.stats.files_included + r.stats.files_omitted == file_details@.len(),
        r.stats.total_tokens == total_tokens,
        r.stats.token_budget == match config.target_tokens {
            Some(t) => t,
            None => 50_000usize,
        },
        r.stats.preset_level == assemble::config_preset(*config),
        r.stats.preset_name@ == spec_preset_name(assemble::config_preset(*config)),
        r.stats.processing_time_ms == processing_time_ms,
        r.stats.output_bytes == vstd::utf8::encode_utf8(markdown@).len(),
        r.stats.absolute_output_path == absolute_output_path,
        r.stats.file_details == file_details,
{
    let mut included: usize = 0;
    let mut i: usize = 0;
    while i < file_details.len()
        invariant
            i <= file_details.len(),
            included == count_included(file_details@.take(i as int)),
            included <= i,
        decreases file_details.len() - i,
    {
        assert(file_details@.take(i + 1).drop_last() =~= file_details@.take(i as int));
        if file_details[i].included {
            included = included + 1;
        }
        i = i + 1;
    }
    assert(file_details@.take(file_details.len() as int) =~= file_details@);
    let preset_level: u8 = match config.preset {
        Some(p) => p,
        None => 1,
    };
    let token_budget: usize = match config.target_tokens {
        Some(t) => t,
        None => 50_000,
    };
    let output_bytes = markdown.as_str().as_bytes().len();
    GenerateResult {
        markdown,
        stats: GenerationStats {
            files_scanned,
            files_included: included,
            files_omitted: file_details.len() - included,
            total_tokens,
            token_budget,
            preset_name: text::string_from(preset_name(preset_level)),
            preset_level,
            processing_time_ms,
            output_bytes,
            absolute_output_path,
            file_details,
        },
    }
}

/// A generation run over the files found: the document and records of
/// `compose_markdown_with_details` for `entries` under `config`, with their
/// statistics. It fails exactly where the assembly fails.
pub fn generation_from_entries(
    entries: Vec<ScoredFile>,
    config: &Config,
    processing_time_ms: u128,
    absolute_output_path: Option<String>,
) -> (r: Result<GenerateResult, AssembleError>)
    requires
        entries.len() <= usize::MAX / 256,
    ensures
        r is Ok <==> assemble::all_defined(entries@, assemble::config_preset(*config))
            && assemble::all_tokenizable(entries@, assemble::config_preset(*config)),
        r matches Ok(g) ==> {
            &&& g.stats.files_scanned == entries.len()
            &&& g.stats.file_details.len() == entries.len()
            &&& assemble::assembled(
                entries@,
                *config,
                g.markdown@,
                g.stats.file_details@,
                g.stats.total_tokens,
            )
            &&& g.stats.total_tokens == assemble::included_tokens(
                assemble::detail_views(g.stats.file_details@),
            )
            &&& g.stats.files_included == count_included(g.stats.file_details@)
            &&& g.stats.files_omitted == entries.len() - count_included(g.stats.file_details@)
            &&& g.stats.token_budget == assemble::config_limit(*config)
            &&& g.stats.total_tokens <= g.stats.token_budget
            &&& g.stats.preset_level == assemble::config_preset(*config)
            &&& g.stats.preset_name@ == spec_preset_name(assemble::config_preset(*config))
            &&& g.stats.processing_time_ms == processing_time_ms
            &&& g.stats.output_bytes == vstd::utf8::encode_utf8(g.markdown@).len()
            &&& g.stats.absolute_output_path == absolute_output_path
        },
        r matches Err(AssembleError::Uncompressible(i)) ==> i < entries.len()
            && !assemble::entry_defined(entries@[i as int], assemble::config_preset(*config)),
        r matches Err(AssembleError::Tokenization(i)) ==> i < entries.len()
            && tokens::cl100k_token_count(
            assemble::file_block(entries@[i as int], assemble::config_preset(*config)),
        ) is None,
{
    let files_scanned = entries.len();
    let ghost es = entries@;
    match assemble::compose_markdown_with_details(entries, config) {
        Ok((markdown, file_details, total_tokens)) => {
            assert(assemble::included_mask(file_details@).len() == file_details@.len());
            proof {
                assemble::law_budget_is_kept(
                    es,
                    assemble::config_preset(*config),
                    config.include_tests,
                    assemble::config_limit(*config),
                );
            }
            Ok(
                generation_result(
                    config,
                    files_scanned,
                    markdown,
                    file_details,
                    total_tokens,
                    processing_time_ms,
                    absolute_output_path,
                ),
            )
        },
        Err(e) => Err(e),
    }
}

} // verus!
