use repomd::assemble::{compose_markdown, compose_markdown_with_details, AssembleError};
use repomd::discover::{FileRole, ScoredFile};
use repomd::tokens::Tokenizer;
use repomd::pack::pack_items;
use repomd::{generation_from_entries, Config};

fn config(budget: Option<usize>, preset: Option<u8>) -> Config {
    Config {
        source: None,
        target_tokens: budget,
        preset,
        output_path: None,
        include_tests: false,
    }
}

fn main_rs() -> ScoredFile {
    ScoredFile {
        path: "src/main.rs".to_string(),
        content: "fn main() {}\n".to_string(),
        role: FileRole::EntryPoint,
        cps: "0.87".to_string(),
        priority: 87,
        compression_level: 0,
    }
}

const OPENING: &str = "<?xml version=\"1.0\" encoding=\"UTF-8\"?>\n<context>\n  <repository_details>\n    <description>The following is an optimized codebase extraction. Files are compressed according to context priority.</description>\n    <total_files_scanned>";

#[test]
fn tokenizer_counts_cl100k_tokens() {
    let tok = Tokenizer::cl100k().unwrap();
    assert_eq!(tok.count("hello world"), Some(2));
    assert_eq!(tok.count(""), Some(0));
}

#[test]
fn a_file_within_budget_is_included() {
    let (md, details, total) =
        compose_markdown_with_details(vec![main_rs()], &config(Some(100_000), Some(1))).unwrap();
    let block = "    <file path=\"src/main.rs\" cps=\"0.87\" level=\"1\">\n```rs\nfn main() {}\n\n```\n    </file>\n\n";
    let expected = format!(
        "{}1</total_files_scanned>\n  </repository_details>\n\n  <repository_structure>\n    - src/main.rs\n  </repository_structure>\n\n  <code_base>\n{}  </code_base>\n</context>\n\n<!-- Total Tokens Evaluated: {} -->\n",
        OPENING, block, total
    );
    assert_eq!(md, expected);
    assert_eq!(details.len(), 1);
    assert!(details[0].included);
    assert_eq!(details[0].path, "src/main.rs");
    assert_eq!(details[0].role, "EntryPoint");
    assert_eq!(details[0].cps, "0.87");
    assert_eq!(details[0].compression_level, 1);
    let tok = Tokenizer::cl100k().unwrap();
    assert_eq!(Some(details[0].tokens), tok.count(block));
    assert_eq!(total, details[0].tokens);
}

#[test]
fn a_file_over_budget_is_omitted() {
    let (md, details, total) =
        compose_markdown_with_details(vec![main_rs()], &config(Some(0), Some(2))).unwrap();
    assert_eq!(total, 0);
    assert!(!details[0].included);
    assert!(details[0].tokens > 0);
    assert!(md.contains("    <!-- Limit Reached: 0 tokens. Remaining files omitted. -->\n"));
    assert!(!md.contains("<file path"));
    assert!(md.ends_with("<!-- Total Tokens Evaluated: 0 -->\n"));
}

#[test]
fn later_smaller_files_still_fit() {
    let big = ScoredFile {
        path: "big.md".to_string(),
        content: "word ".repeat(400),
        role: FileRole::Documentation,
        cps: "0.50".to_string(),
        priority: 50,
        compression_level: 1,
    };
    let small = ScoredFile {
        path: "a.txt".to_string(),
        content: "hi".to_string(),
        role: FileRole::Documentation,
        cps: "0.40".to_string(),
        priority: 40,
        compression_level: 0,
    };
    let (md, details, total) =
        compose_markdown_with_details(vec![big, small], &config(Some(100), None)).unwrap();
    assert!(!details[0].included);
    assert!(details[1].included);
    assert_eq!(details[1].compression_level, 1);
    assert_eq!(total, details[1].tokens);
    assert!(total <= 100);
    assert!(md.contains("    - big.md\n    - a.txt\n"));
    assert!(md.contains("<file path=\"a.txt\" cps=\"0.40\" level=\"1\">\n```txt\nhi\n```"));
}

#[test]
fn no_preset_means_light_and_no_budget_means_fifty_thousand() {
    let (_, details, total) =
        compose_markdown_with_details(vec![main_rs()], &config(None, None)).unwrap();
    assert!(details[0].included);
    assert_eq!(details[0].compression_level, 1);
    assert_eq!(total, details[0].tokens);
    let huge = doc("huge.md", &"word ".repeat(60_000), 90);
    let (md, details, total) =
        compose_markdown_with_details(vec![huge, main_rs()], &config(None, None)).unwrap();
    assert!(details[0].tokens > 50_000);
    assert!(!details[0].included);
    assert!(details[1].included);
    assert!(total <= 50_000);
    assert!(md.contains("    <!-- Limit Reached: 50000 tokens. Remaining files omitted. -->\n"));
}

fn doc(path: &str, content: &str, priority: u8) -> ScoredFile {
    ScoredFile {
        path: path.to_string(),
        content: content.to_string(),
        role: FileRole::Interface,
        cps: format!("0.{:02}", priority),
        priority,
        compression_level: 0,
    }
}

fn block_tokens(f: &ScoredFile) -> usize {
    let (_, details, _) =
        compose_markdown_with_details(vec![f.clone()], &config(Some(1_000_000), Some(1))).unwrap();
    details[0].tokens
}

#[test]
fn the_packing_has_the_greatest_total_priority() {
    let b = doc("b.txt", &"beta ".repeat(20), 40);
    let c = doc("c.txt", &"gamma ".repeat(20), 40);
    let (tb, tc) = (block_tokens(&b), block_tokens(&c));
    // A file alone worth more than either, larger than either, but not than both.
    let mut a = doc("a.txt", "alpha", 50);
    let mut k = 1;
    while block_tokens(&a) <= tb.max(tc) {
        k += 1;
        a = doc("a.txt", &"alpha ".repeat(k), 50);
    }
    let ta = block_tokens(&a);
    assert!(ta <= tb + tc);
    let limit = tb + tc;
    let (md, details, total) =
        compose_markdown_with_details(vec![a, b, c], &config(Some(limit), Some(1))).unwrap();
    assert!(!details[0].included);
    assert!(details[1].included);
    assert!(details[2].included);
    assert_eq!(total, tb + tc);
    assert!(total + details[0].tokens > limit);
    assert!(md.contains("<!-- Limit Reached:"));
    assert!(md.contains("<file path=\"b.txt\""));
    assert!(md.contains("<file path=\"c.txt\""));
    assert!(!md.contains("<file path=\"a.txt\""));
}

#[test]
fn tests_are_left_out_unless_asked_for() {
    let t = ScoredFile {
        path: "tests/it.rs".to_string(),
        content: "fn t() {}\n".to_string(),
        role: FileRole::Test,
        cps: "0.50".to_string(),
        priority: 50,
        compression_level: 0,
    };
    let (md, details, total) =
        compose_markdown_with_details(vec![t.clone(), main_rs()], &config(None, Some(1))).unwrap();
    assert!(!details[0].included);
    assert_eq!(details[0].role, "Test");
    assert!(details[1].included);
    assert_eq!(total, details[1].tokens);
    assert!(md.contains("    - tests/it.rs\n"));
    assert!(!md.contains("<file path=\"tests/it.rs\""));
    assert!(!md.contains("Limit Reached"));
    let mut with_tests = config(None, Some(1));
    with_tests.include_tests = true;
    let (md, details, total) =
        compose_markdown_with_details(vec![t, main_rs()], &with_tests).unwrap();
    assert!(details[0].included);
    assert!(details[1].included);
    assert_eq!(total, details[0].tokens + details[1].tokens);
    assert!(md.contains("<file path=\"tests/it.rs\" cps=\"0.50\" level=\"1\">"));
}

#[test]
fn files_without_extension_are_marked_text() {
    let f = ScoredFile {
        path: "LICENSE".to_string(),
        content: "MIT".to_string(),
        role: FileRole::Interface,
        cps: "0.10".to_string(),
        priority: 10,
        compression_level: 3,
    };
    let md = compose_markdown(vec![f], &config(None, Some(1))).unwrap();
    assert!(md.contains("<file path=\"LICENSE\" cps=\"0.10\" level=\"3\">\n```text\nMIT\n```\n    </file>\n\n"));
}

#[test]
fn an_uncompressible_file_is_reported() {
    let bad = ScoredFile {
        path: "data.csv".to_string(),
        content: format!("a{}", "\u{e9}".repeat(300)),
        role: FileRole::DataFile,
        cps: "0.30".to_string(),
        priority: 30,
        compression_level: 0,
    };
    match compose_markdown(vec![main_rs(), bad], &config(None, Some(1))) {
        Err(AssembleError::Uncompressible(i)) => assert_eq!(i, 1),
        other => panic!("unexpected {:?}", other.map(|_| ())),
    }
}

#[test]
fn empty_repository_document() {
    let md = compose_markdown(Vec::new(), &config(Some(10), Some(4))).unwrap();
    assert_eq!(
        md,
        format!(
            "{}0</total_files_scanned>\n  </repository_details>\n\n  <repository_structure>\n  </repository_structure>\n\n  <code_base>\n  </code_base>\n</context>\n\n<!-- Total Tokens Evaluated: 0 -->\n",
            OPENING
        )
    );
}

#[test]
fn build_output_takes_only_its_frame() {
    let path = "./node_modules/pkg/index.js";
    let content = "module.exports = 1;\n";
    let f = ScoredFile {
        path: path.to_string(),
        content: content.to_string(),
        role: repomd::discover::classify_role(path, content),
        cps: "0.12".to_string(),
        priority: 12,
        compression_level: 0,
    };
    assert_eq!(f.role, FileRole::Generated);
    let md = compose_markdown(vec![f], &config(None, Some(1))).unwrap();
    assert!(md.contains(
        "<file path=\"./node_modules/pkg/index.js\" cps=\"0.12\" level=\"1\">\n```js\n\n```\n    </file>\n\n"
    ));
}

#[test]
fn generation_statistics_come_from_the_assembly() {
    let t = ScoredFile {
        path: "tests/it.rs".to_string(),
        content: "fn t() {}\n".to_string(),
        role: FileRole::Test,
        cps: "0.50".to_string(),
        priority: 50,
        compression_level: 0,
    };
    let g = generation_from_entries(vec![main_rs(), t], &config(None, None), 9, None).unwrap();
    assert_eq!(g.stats.files_scanned, 2);
    assert_eq!(g.stats.file_details.len(), 2);
    assert_eq!(g.stats.files_included, 1);
    assert_eq!(g.stats.files_omitted, 1);
    assert_eq!(g.stats.token_budget, 50_000);
    assert_eq!(g.stats.total_tokens, g.stats.file_details[0].tokens);
    assert_eq!(g.stats.preset_level, 1);
    assert_eq!(g.stats.preset_name, "light");
    assert_eq!(g.stats.processing_time_ms, 9);
    assert_eq!(g.stats.output_bytes, g.markdown.len());
    assert_eq!(g.stats.absolute_output_path, None);
    let (md, _, _) = compose_markdown_with_details(vec![main_rs(), g_test()], &config(None, None)).unwrap();
    assert_eq!(g.markdown, md);
}

fn g_test() -> ScoredFile {
    ScoredFile {
        path: "tests/it.rs".to_string(),
        content: "fn t() {}\n".to_string(),
        role: FileRole::Test,
        cps: "0.50".to_string(),
        priority: 50,
        compression_level: 0,
    }
}

#[test]
fn plain_and_detailed_documents_agree() {
    let files = vec![main_rs(), doc("a.txt", "alpha", 10)];
    let (md, _, _) = compose_markdown_with_details(files.clone(), &config(Some(40), Some(2))).unwrap();
    assert_eq!(compose_markdown(files, &config(Some(40), Some(2))).unwrap(), md);
}

#[test]
fn knapsack_prefers_two_small_files_worth_more() {
    assert_eq!(
        pack_items(&vec![8, 5, 5], &vec![50, 40, 40], &vec![true, true, true], 10),
        vec![false, true, true]
    );
    assert_eq!(
        pack_items(&vec![8, 5, 5], &vec![90, 40, 40], &vec![true, true, true], 10),
        vec![true, false, false]
    );
    assert_eq!(
        pack_items(&vec![8, 5, 5], &vec![50, 40, 40], &vec![true, false, true], 10),
        vec![true, false, false]
    );
    assert_eq!(
        pack_items(&vec![3, 4, 2], &vec![1, 1, 1], &vec![true, true, true], 9),
        vec![true, true, true]
    );
    assert_eq!(pack_items(&vec![], &vec![], &vec![], 0), Vec::<bool>::new());
}
