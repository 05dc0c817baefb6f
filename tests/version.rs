use wiztree_diff_gui::get_app_version;

#[test]
fn version_gets_prefix() {
    assert_eq!(get_app_version("1.2.3"), "v1.2.3");
}

#[test]
fn version_keeps_existing_prefix() {
    assert_eq!(get_app_version("v1.2.3"), "v1.2.3");
}

#[test]
fn version_empty_gets_prefix() {
    assert_eq!(get_app_version(""), "v");
}

#[test]
fn version_capital_v_is_not_a_prefix() {
    assert_eq!(get_app_version("V2"), "vV2");
}
