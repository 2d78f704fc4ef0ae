use repomd::preset_name;

#[test]
fn preset_names_by_level() {
    assert_eq!(preset_name(1), "light");
    assert_eq!(preset_name(2), "medium");
    assert_eq!(preset_name(3), "aggressive");
    assert_eq!(preset_name(4), "ultra");
    assert_eq!(preset_name(0), "custom");
    assert_eq!(preset_name(9), "custom");
}
