use repomd::discover::{
    centrality_tenths, classify_role, classify_role_parts, count_decision_markers,
    freshness_tenths, role_weight_hundredths, FileRole,
};

#[test]
fn entry_points_by_name() {
    assert_eq!(classify_role("src/main.rs", "fn main() {}"), FileRole::EntryPoint);
    assert_eq!(classify_role("core/src/lib.rs", ""), FileRole::EntryPoint);
    assert_eq!(classify_role("web/src/app/page.tsx", ""), FileRole::EntryPoint);
}

#[test]
fn build_and_dependency_directories_are_generated() {
    assert_eq!(classify_role("./node_modules/x/index.js", ""), FileRole::Generated);
    assert_eq!(classify_role("./target/debug/build.rs", ""), FileRole::Generated);
    assert_eq!(classify_role("./web/dist/bundle.js", ""), FileRole::Generated);
    // Without a slash before the directory the pattern does not occur.
    assert_eq!(classify_role("node_modules/x/index.js", ""), FileRole::EntryPoint);
}

#[test]
fn lock_files_and_build_records_are_generated() {
    assert_eq!(classify_role("Cargo.lock", ""), FileRole::Generated);
    assert_eq!(classify_role("web/package-lock.json", "{}"), FileRole::Generated);
    assert_eq!(classify_role("Package.resolved", ""), FileRole::Generated);
    assert_eq!(classify_role("cargo-timing.json", "{}"), FileRole::Generated);
    assert_eq!(
        classify_role("out.json", "{\"reason\":\"compiler-artifact\"}"),
        FileRole::Generated
    );
    assert_eq!(
        classify_role("out.json", "{\"reason\": \"compiler-artifact\"}"),
        FileRole::Generated
    );
    assert_eq!(classify_role("out.json", "{\"reason\": \"other\"}"), FileRole::DataFile);
}

#[test]
fn tests_by_name_or_directory() {
    assert_eq!(classify_role("./tests/foo.rs", ""), FileRole::Test);
    assert_eq!(classify_role("src/parser_test.go", ""), FileRole::Test);
    assert_eq!(classify_role("docs/specs.md", ""), FileRole::Test);
    assert_eq!(classify_role("./spec/helper.rb", ""), FileRole::Test);
}

#[test]
fn roles_by_extension() {
    assert_eq!(classify_role("docs/README.md", ""), FileRole::Documentation);
    assert_eq!(classify_role("src/types.ts", ""), FileRole::Interface);
    assert_eq!(classify_role("src/user_interface.py", ""), FileRole::Interface);
    assert_eq!(classify_role("styles/app.css", ""), FileRole::StyleSheet);
    assert_eq!(classify_role("config/settings.YAML", ""), FileRole::Config);
    assert_eq!(classify_role("db/schema.sql", ""), FileRole::DataFile);
    assert_eq!(classify_role("api/service.proto", ""), FileRole::Schema);
    assert_eq!(classify_role("a/b/image.PNG", ""), FileRole::Generated);
    assert_eq!(classify_role("src/compress.rs", ""), FileRole::CoreLogic);
    assert_eq!(classify_role("run.sh", ""), FileRole::CoreLogic);
}

#[test]
fn files_without_extension() {
    assert_eq!(classify_role("Dockerfile", ""), FileRole::Config);
    assert_eq!(classify_role("build/../Makefile", ""), FileRole::Config);
    assert_eq!(classify_role("LICENSE", ""), FileRole::CoreLogic);
    // A name that starts with a dot and has no other dot has no extension.
    assert_eq!(classify_role(".env", ""), FileRole::CoreLogic);
}

#[test]
fn classification_from_lowered_parts() {
    assert_eq!(
        classify_role_parts("./src/main.rs", "main.rs", Some("rs"), ""),
        FileRole::EntryPoint
    );
    assert_eq!(classify_role_parts("./a/b.txt", "b.txt", Some("txt"), ""), FileRole::Documentation);
    assert_eq!(classify_role_parts("./a/x", "makefile", None, ""), FileRole::Config);
    assert_eq!(classify_role_parts("./a/x.d.ts", "x.d.ts", Some("ts"), ""), FileRole::CoreLogic);
}

#[test]
fn role_labels_match_variant_names() {
    assert_eq!(FileRole::CoreLogic.label(), "CoreLogic");
    assert_eq!(FileRole::StyleSheet.label(), "StyleSheet");
    assert_eq!(FileRole::Generated.label(), "Generated");
    assert_eq!(FileRole::Documentation.label(), format!("{:?}", FileRole::Documentation));
}

#[test]
fn decision_markers_are_counted_per_line() {
    assert_eq!(count_decision_markers("fn main() {\n    if x {\n    }\n}\n"), (2, 4));
    assert_eq!(count_decision_markers("let a = b?;\n// TODO fix\nplain"), (2, 3));
    assert_eq!(count_decision_markers("impl S {}\r\npub fn f() {}\r\n"), (2, 2));
    assert_eq!(count_decision_markers(""), (0, 0));
    assert_eq!(count_decision_markers("\n\n"), (0, 2));
}

#[test]
fn centrality_by_role_and_depth() {
    assert_eq!(centrality_tenths(FileRole::EntryPoint, "a/b/c/d/e/main.rs"), 9);
    assert_eq!(centrality_tenths(FileRole::CoreLogic, "main.rs"), 6);
    assert_eq!(centrality_tenths(FileRole::CoreLogic, "./a.rs"), 6);
    assert_eq!(centrality_tenths(FileRole::CoreLogic, "a/b/c.rs"), 4);
    assert_eq!(centrality_tenths(FileRole::Config, "a/b/c/d.toml"), 4);
    assert_eq!(centrality_tenths(FileRole::CoreLogic, "a/b/c/d/e.rs"), 2);
    assert_eq!(centrality_tenths(FileRole::CoreLogic, ""), 2);
}

#[test]
fn freshness_by_age() {
    assert_eq!(freshness_tenths(None), 7);
    assert_eq!(freshness_tenths(Some(0)), 10);
    assert_eq!(freshness_tenths(Some(14)), 10);
    assert_eq!(freshness_tenths(Some(15)), 7);
    assert_eq!(freshness_tenths(Some(90)), 7);
    assert_eq!(freshness_tenths(Some(91)), 4);
}

#[test]
fn role_weights_put_source_over_config_over_docs() {
    assert_eq!(role_weight_hundredths(FileRole::CoreLogic), 100);
    assert_eq!(role_weight_hundredths(FileRole::Config), 75);
    assert_eq!(role_weight_hundredths(FileRole::Documentation), 65);
    assert_eq!(role_weight_hundredths(FileRole::Generated), 0);
    assert!(role_weight_hundredths(FileRole::Schema) > role_weight_hundredths(FileRole::Config));
}
