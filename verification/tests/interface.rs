use repomd::display::{
    approximate_tokens, format_number, preset_tint, render_bar, role_tint, update_notice,
    wizard_budget, wizard_preset, Tint,
};
use repomd::discover::FileRole;
use repomd::ingest::is_text_file;
use repomd::{
    generation_result, is_remote_source, preset_level_from_name, Config, FileDetail,
};

#[test]
fn numbers_get_thousands_separators() {
    assert_eq!(format_number(0), "0");
    assert_eq!(format_number(999), "999");
    assert_eq!(format_number(1000), "1,000");
    assert_eq!(format_number(50_000), "50,000");
    assert_eq!(format_number(1_234_567), "1,234,567");
    assert_eq!(format_number(100_000), "100,000");
}

#[test]
fn budget_bar_has_twenty_cells() {
    assert_eq!(render_bar(0), format!("\x1b[32m{}\x1b[0m", "\u{2591}".repeat(20)));
    assert_eq!(
        render_bar(55),
        format!("\x1b[33m{}{}\x1b[0m", "\u{2588}".repeat(11), "\u{2591}".repeat(9))
    );
    assert_eq!(render_bar(100), format!("\x1b[31m{}\x1b[0m", "\u{2588}".repeat(20)));
    assert_eq!(render_bar(255), format!("\x1b[31m{}\x1b[0m", "\u{2588}".repeat(20)));
    assert_eq!(
        render_bar(49),
        format!("\x1b[32m{}{}\x1b[0m", "\u{2588}".repeat(9), "\u{2591}".repeat(11))
    );
}

#[test]
fn colours_of_presets_and_roles() {
    assert_eq!(preset_tint(1), Tint::Green);
    assert_eq!(preset_tint(2), Tint::Yellow);
    assert_eq!(preset_tint(3), Tint::Red);
    assert_eq!(preset_tint(4), Tint::Magenta);
    assert_eq!(preset_tint(7), Tint::White);
    assert_eq!(role_tint(FileRole::CoreLogic), Tint::Green);
    assert_eq!(role_tint(FileRole::Documentation), Tint::Blue);
    assert_eq!(role_tint(FileRole::Generated), Tint::DarkGrey);
}

#[test]
fn wizard_choices() {
    assert_eq!(wizard_preset(0), "light");
    assert_eq!(wizard_preset(3), "ultra");
    assert_eq!(wizard_preset(8), "medium");
    assert_eq!(wizard_budget(0), 20_000);
    assert_eq!(wizard_budget(2), 100_000);
    assert_eq!(wizard_budget(3), 200_000);
    assert_eq!(wizard_budget(9), 50_000);
}

#[test]
fn update_only_when_versions_differ() {
    assert_eq!(update_notice("0.2.0", "0.1.0"), Some("0.2.0".to_string()));
    assert_eq!(update_notice("0.1.0", "0.1.0"), None);
}

#[test]
fn approximate_tokens_are_a_quarter_of_the_bytes() {
    assert_eq!(approximate_tokens("abcdefgh"), 2);
    assert_eq!(approximate_tokens("abc"), 0);
    assert_eq!(approximate_tokens("\u{e9}\u{e9}"), 1);
}

#[test]
fn preset_names_select_levels() {
    assert_eq!(preset_level_from_name(Some("light")), 1);
    assert_eq!(preset_level_from_name(Some("medium")), 2);
    assert_eq!(preset_level_from_name(Some("aggressive")), 3);
    assert_eq!(preset_level_from_name(Some("ultra")), 4);
    assert_eq!(preset_level_from_name(Some("ULTRA")), 2);
    assert_eq!(preset_level_from_name(None), 2);
    for level in 1..=4u8 {
        assert_eq!(preset_level_from_name(Some(repomd::preset_name(level))), level);
    }
}

#[test]
fn remote_sources_are_urls() {
    assert!(is_remote_source("https://github.com/user/repo"));
    assert!(is_remote_source("http://example.com/r.git"));
    assert!(!is_remote_source("."));
    assert!(!is_remote_source("git@github.com:user/repo"));
    assert!(!is_remote_source("httpx://x"));
}

#[test]
fn default_configuration() {
    let c = Config::default();
    assert_eq!(c.source.as_deref(), Some("."));
    assert_eq!(c.target_tokens, Some(50_000));
    assert_eq!(c.preset, Some(1));
    assert_eq!(c.output_path.as_deref(), Some("repo.md"));
    assert!(!c.include_tests);
}

#[test]
fn text_files_by_media_type() {
    assert!(is_text_file("data/x.json"));
    assert!(is_text_file("README.md"));
    assert!(is_text_file("feed.xml"));
    assert!(is_text_file("notes.txt"));
    assert!(!is_text_file("logo.png"));
    assert!(!is_text_file("Makefile"));
}

fn detail(path: &str, included: bool, tokens: usize) -> FileDetail {
    FileDetail {
        path: path.to_string(),
        role: "CoreLogic".to_string(),
        cps: "0.50".to_string(),
        compression_level: 2,
        tokens,
        included,
    }
}

#[test]
fn generation_statistics() {
    let config = Config {
        source: None,
        target_tokens: None,
        preset: Some(3),
        output_path: None,
        include_tests: false,
    };
    let details = vec![detail("a", true, 5), detail("b", false, 7), detail("c", true, 2)];
    let r = generation_result(&config, 4, "h\u{e9}".to_string(), details, 7, 12, Some("/x/repo.md".to_string()));
    assert_eq!(r.markdown, "h\u{e9}");
    assert_eq!(r.stats.files_scanned, 4);
    assert_eq!(r.stats.files_included, 2);
    assert_eq!(r.stats.files_omitted, 1);
    assert_eq!(r.stats.total_tokens, 7);
    assert_eq!(r.stats.token_budget, 50_000);
    assert_eq!(r.stats.preset_name, "aggressive");
    assert_eq!(r.stats.preset_level, 3);
    assert_eq!(r.stats.processing_time_ms, 12);
    assert_eq!(r.stats.output_bytes, 3);
    assert_eq!(r.stats.absolute_output_path.as_deref(), Some("/x/repo.md"));
    assert_eq!(r.stats.file_details.len(), 3);
}

#[test]
fn separators_only_added() {
    for n in [0usize, 7, 12, 123, 1234, 98765, 1_000_000, usize::MAX] {
        assert_eq!(format_number(n).replace(',', ""), n.to_string());
    }
}

#[test]
fn remote_version_reads_the_version_field() {
    assert_eq!(
        repomd::json::remote_version("{\"name\": \"repomd\", \"version\": \"0.3.0\"}"),
        Some("0.3.0".to_string())
    );
    assert_eq!(repomd::json::remote_version("{\"version\": 3}"), None);
    assert_eq!(repomd::json::remote_version("{\"name\": \"x\"}"), None);
    assert_eq!(repomd::json::remote_version("[\"0.3.0\"]"), None);
    assert_eq!(repomd::json::remote_version("not json"), None);
}
