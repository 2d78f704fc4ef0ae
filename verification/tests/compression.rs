use repomd::compress::{
    compress_config, compress_content, compress_data, compress_defined_exec, compress_docs,
    compress_logic, compress_stylesheet, compress_test, try_compress_content,
};
use repomd::discover::FileRole;
use repomd::json::{extract_schema, JsonValue};

fn numbered_lines(n: usize) -> String {
    (1..=n).map(|i| format!("l{}", i)).collect::<Vec<_>>().join("\n")
}

#[test]
fn level_zero_keeps_everything() {
    let text = "# T\n\n\n\nbody\n";
    for role in [
        FileRole::CoreLogic,
        FileRole::Documentation,
        FileRole::Generated,
        FileRole::StyleSheet,
        FileRole::DataFile,
    ] {
        assert_eq!(compress_content(text, &role, 0, Some("md")), text);
    }
}

#[test]
fn interfaces_kept_and_generated_dropped() {
    let text = "export interface A {\n\n\n  x: number;\n}\n";
    assert_eq!(compress_content(text, &FileRole::Interface, 4, Some("ts")), text);
    assert_eq!(compress_content(text, &FileRole::Schema, 3, Some("ts")), text);
    assert_eq!(compress_content(text, &FileRole::Generated, 1, Some("ts")), "");
}

#[test]
fn docs_up_to_medium_are_unchanged() {
    let doc = format!("# Title\nIntro\n```rust\n{}\n```\nEnd\n", numbered_lines(12));
    assert_eq!(compress_docs(&doc, 1), doc);
    assert_eq!(compress_docs(&doc, 2), doc);
}

#[test]
fn docs_lose_long_code_examples() {
    let doc = format!("# Title\nIntro\n```rust\n{}\n```\nEnd\n", numbered_lines(12));
    assert_eq!(
        compress_docs(&doc, 3),
        "# Title\nIntro\n```\n// ... [code example > 10 lines omitted]\n```\nEnd\n"
    );
    let short = format!("A\n```\n{}\n```\nB\n", numbered_lines(10));
    assert_eq!(compress_docs(&short, 3), short);
}

#[test]
fn ultra_docs_keep_headings_and_first_lines() {
    assert_eq!(compress_docs("# A\n\npara\nmore\n## B\ntext\n", 4), "# A\npara\n## B\ntext\n");
    let doc = format!("# Title\nIntro\n```rust\n{}\n```\nEnd\n", numbered_lines(12));
    assert_eq!(compress_docs(&doc, 4), "# Title\nIntro\n");
    assert_eq!(compress_docs("no headings here\n", 4), "");
}

#[test]
fn stylesheets_keep_design_tokens() {
    let css = ":root {\n  --main: #fff;\n}\n@media (max-width: 600px) {\n  a {}\n}\n";
    assert_eq!(
        compress_stylesheet(css),
        "/* [StyleSheet \u{2014} Design Tokens Only] */\n:root {\n  --main: #fff;\n}\n/* Breakpoints found: */\n/* @media (max-width: 600px) */\n"
    );
    assert_eq!(
        compress_stylesheet("body { color: red; }"),
        "/* [StyleSheet \u{2014} Design Tokens Only] (No tokens found) */"
    );
    assert_eq!(
        compress_stylesheet("@media print { a {} }\n@media screen and (min-width: 1px) {}"),
        "/* [StyleSheet \u{2014} Design Tokens Only] */\n/* Breakpoints found: */\n/* @media print */\n/* @media screen and (min-width: 1px) */\n"
    );
}

#[test]
fn json_data_becomes_a_schema() {
    let json = "{\"a\": [1, 2, 3], \"b\": \"x\", \"c\": {}, \"d\": null, \"e\": true}";
    assert_eq!(
        compress_data(json, Some("json")),
        "/* [DataFile Schema Extracted] */\n{\n  \"a\": [\n    number,\n    // ... 2 more items of same schema\n  ],\n  \"b\": string,\n  \"c\": {},\n  \"d\": null,\n  \"e\": boolean,\n}"
    );
    assert_eq!(compress_data("[]", Some("json")), "/* [DataFile Schema Extracted] */\n[]");
}

#[test]
fn long_data_is_cut_at_500_bytes() {
    let data = "x".repeat(600);
    let expected = format!("{}... \n// [100 more bytes of data omitted]", "x".repeat(500));
    assert_eq!(compress_data(&data, Some("csv")), expected);
    // Text that is not JSON is cut even with a json extension.
    let broken = format!("{{{}", "y".repeat(599));
    assert_eq!(
        compress_data(&broken, Some("json")),
        format!("{}... \n// [100 more bytes of data omitted]", &broken[..500])
    );
    assert_eq!(compress_data("a,b\n1,2\n", Some("csv")), "a,b\n1,2\n");
    assert_eq!(compress_data("{\"a\": 1}", None), "{\"a\": 1}");
}

#[test]
fn cut_inside_a_character_is_refused() {
    let data = format!("a{}", "\u{e9}".repeat(300));
    assert!(!compress_defined_exec(&data, &FileRole::DataFile, 2, Some("csv")));
    assert_eq!(try_compress_content(&data, &FileRole::DataFile, 2, Some("csv")), None);
    let even = "\u{e9}".repeat(300);
    assert!(compress_defined_exec(&even, &FileRole::DataFile, 2, Some("csv")));
    assert_eq!(
        try_compress_content(&even, &FileRole::DataFile, 2, Some("csv")),
        Some(format!("{}... \n// [100 more bytes of data omitted]", "\u{e9}".repeat(250)))
    );
}

#[test]
fn config_loses_comment_lines() {
    assert_eq!(compress_config("# c\nkey = 1\n"), "\nkey = 1\n");
    assert_eq!(compress_config("a = 1\n\n\n\nb = 2\n"), "a = 1\n\nb = 2\n");
    assert_eq!(compress_content("// x\nport: 80\n", &FileRole::Config, 1, Some("yml")), "\nport: 80\n");
}

const SUMMARY: &str = "// [Semantic Summary to be generated in v2.1]\n";

#[test]
fn light_code_collapses_blank_lines_and_loses_comments() {
    assert_eq!(compress_logic("fn a() {}\n\n\n\nfn b() {}\n", Some("rs"), 1), "fn a() {}\n\nfn b() {}\n");
    assert_eq!(
        compress_logic("// note\nfn a() {\n    // inner\n    x();\n}\n", Some("rs"), 1),
        "fn a() {\n    x();\n}\n"
    );
    assert_eq!(
        compress_logic("# c\ndef f():\n    return 1\n", Some("py"), 1),
        "def f():\n    return 1\n"
    );
    assert_eq!(compress_logic("/// Adds.\nfn a() {}", Some("rs"), 1), "/// Adds.\nfn a() {}");
    assert_eq!(compress_logic("a\n\n\n", Some("rs"), 1), "a\n\n");
    assert_eq!(compress_logic("a\n  \n\t\nb", None, 1), "a\n\nb");
}

#[test]
fn medium_code_loses_function_bodies() {
    assert_eq!(
        compress_logic("struct S;\nfn a() {\n    b();\n}\n", Some("rs"), 2),
        "struct S;\nfn a() {\n}\n"
    );
    assert_eq!(
        compress_logic("impl T {\n    pub fn x(&self) {\n        y();\n    }\n}\n", Some("rs"), 2),
        "impl T {\n    pub fn x(&self) {\n}\n"
    );
}

#[test]
fn aggressive_and_ultra_keep_the_public_interface() {
    let doc = "/// Adds.\npub fn add(a: i32) -> i32 {\n    a\n}\n";
    assert_eq!(compress_logic(doc, Some("rs"), 3), "/// Adds.\npub fn add(a: i32) -> i32  ...");
    assert_eq!(
        compress_logic(doc, Some("rs"), 4),
        format!("{}/// Adds.\npub fn add(a: i32) -> i32  ...", SUMMARY)
    );
    let code = "use std::io;\n/// Adds.\npub fn add(a: i32) -> i32 {\n    a\n}\nstruct S;\npub struct P {\n    pub x: u8,\n    y: u8,\n}\n";
    assert_eq!(
        compress_logic(code, Some("rs"), 3),
        "/// Adds.\npub fn add(a: i32) -> i32  ...\npub struct P  ...\n    pub x: u8, ..."
    );
    assert_eq!(compress_logic("use a::b;\nfn p() {}\npub fn q() {}\n", Some("rs"), 3), "pub fn q()  ...");
    assert_eq!(compress_logic("fn p() {}\n", Some("rs"), 4), "");
}

#[test]
fn python_and_script_public_interfaces() {
    assert_eq!(compress_logic("def f(x):\n    return x\n", Some("py"), 3), "def f ...");
    let py = "def f(x):\n    return x\nclass A:\ndef _g():\n    pass\n";
    assert_eq!(compress_logic(py, Some("py"), 3), "def f ...\nclass A ...");
    assert_eq!(compress_logic(py, Some("py"), 4), format!("{}def f ...\nclass A ...", SUMMARY));
    let ts = "import x from 'y';\nexport function f(a) {\n  return a;\n}\nconst a = 1;\n";
    assert_eq!(compress_logic(ts, Some("ts"), 3), "export function f ...");
}

#[test]
fn other_languages_keep_their_declarations() {
    assert_eq!(compress_logic("just text\n\n\nmore\n", Some("txt"), 3), "just text\nmore");
    assert_eq!(compress_logic("x = 1\n", None, 4), format!("{}x = 1", SUMMARY));
}

#[test]
fn medium_compresses_at_least_as_much_as_light() {
    let code = "use std::io;\n// note\n\npub fn add(a: i32) -> i32 {\n    a + 1\n}\n\nfn helper() {\n    run();\n}\npub struct P {\n    pub x: u8,\n}\n";
    let light = compress_content(code, &FileRole::CoreLogic, 1, Some("rs"));
    let medium = compress_content(code, &FileRole::CoreLogic, 2, Some("rs"));
    assert!(medium.len() < light.len());
    let aggressive = compress_content(code, &FileRole::CoreLogic, 3, Some("rs"));
    let ultra = compress_content(code, &FileRole::CoreLogic, 4, Some("rs"));
    assert_eq!(ultra, format!("{}{}", SUMMARY, aggressive));
}

#[test]
fn tests_use_the_public_interface_from_level_two() {
    let code = "pub fn helper() {}\n#[test]\nfn t() {\n    assert!(true);\n}\n";
    assert_eq!(compress_test(code, Some("rs"), 1), code);
    assert_eq!(compress_test(code, Some("rs"), 2), "pub fn helper()  ...");
    assert_eq!(compress_content(code, &FileRole::Test, 4, Some("rs")), "pub fn helper()  ...");
}

#[test]
fn try_compress_agrees_with_compress() {
    let code = "fn t() {}\n";
    assert_eq!(
        try_compress_content(code, &FileRole::CoreLogic, 3, Some("rs")),
        Some(compress_content(code, &FileRole::CoreLogic, 3, Some("rs")))
    );
    assert!(compress_defined_exec("x", &FileRole::StyleSheet, 1, None));
}

#[test]
fn json_outline_stops_below_depth_four() {
    let mut deep = JsonValue::Number;
    for _ in 0..6 {
        deep = JsonValue::Array(vec![deep]);
    }
    let outline: String = extract_schema(&deep, 0).into_iter().collect();
    assert_eq!(
        outline,
        "[\n  [\n    [\n      [\n        [\n          ...,\n          // ... 0 more items of same schema\n        ],\n        // ... 0 more items of same schema\n      ],\n      // ... 0 more items of same schema\n    ],\n    // ... 0 more items of same schema\n  ],\n  // ... 0 more items of same schema\n]"
    );
    let object = JsonValue::Object(vec![
        ("k".to_string(), JsonValue::Str("v".to_string())),
        ("n".to_string(), JsonValue::Object(Vec::new())),
    ]);
    let outline: String = extract_schema(&object, 1).into_iter().collect();
    assert_eq!(outline, "{\n    \"k\": string,\n    \"n\": {},\n  }");
    let scalars: String = extract_schema(&JsonValue::Bool(false), 5).into_iter().collect();
    assert_eq!(scalars, "...");
}

#[test]
fn json_outline_depends_only_on_shape() {
    let a = JsonValue::Object(vec![
        ("k".to_string(), JsonValue::Array(vec![JsonValue::Bool(true), JsonValue::Null])),
        ("s".to_string(), JsonValue::Str("x".to_string())),
    ]);
    let b = JsonValue::Object(vec![
        ("k".to_string(), JsonValue::Array(vec![JsonValue::Bool(false), JsonValue::Number])),
        ("s".to_string(), JsonValue::Str("something else".to_string())),
    ]);
    let oa: String = extract_schema(&a, 0).into_iter().collect();
    let ob: String = extract_schema(&b, 0).into_iter().collect();
    assert_eq!(oa, ob);
}

#[test]
fn invalid_json_data_is_kept_or_cut() {
    assert_eq!(compress_data("{not json", Some("json")), "{not json");
    assert_eq!(
        compress_content("{\"a\": 1}", &FileRole::DataFile, 1, Some("json")),
        "/* [DataFile Schema Extracted] */\n{\n  \"a\": number,\n}"
    );
}

#[test]
fn entry_points_compress_like_code() {
    let code = "use a;\n\n\nfn main() {\n}\n";
    for level in 1..=4u8 {
        assert_eq!(
            compress_content(code, &FileRole::EntryPoint, level, Some("rs")),
            compress_content(code, &FileRole::CoreLogic, level, Some("rs"))
        );
    }
    assert_eq!(
        compress_content(code, &FileRole::EntryPoint, 2, Some("rs")),
        "use a;\n\nfn main() {\n}\n"
    );
}
