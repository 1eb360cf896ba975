use sharedroid::jni_names::{jni_symbol_name, package_to_symbol, select_target, snake_to_camel, AttributeArg};

#[test]
fn snake_to_camel_examples() {
    assert_eq!(snake_to_camel("get_battery_level"), "getBatteryLevel");
    assert_eq!(snake_to_camel("already"), "already");
    assert_eq!(snake_to_camel("a__b"), "aB");
    assert_eq!(snake_to_camel("trailing_"), "trailing");
    assert_eq!(snake_to_camel("_x"), "X");
    assert_eq!(snake_to_camel("v_1"), "v1");
    assert_eq!(snake_to_camel(""), "");
}

#[test]
fn snake_to_camel_non_ascii_uppercase() {
    assert_eq!(snake_to_camel("a_ß"), "aSS");
}

#[test]
fn package_dots_become_underscores() {
    assert_eq!(package_to_symbol("com.example.foo"), "com_example_foo");
}

#[test]
fn jni_symbol_examples() {
    assert_eq!(
        jni_symbol_name("com.example.rustandroid", "Bridge", "get_battery_level"),
        "Java_com_example_rustandroid_Bridge_getBatteryLevel"
    );
}

#[test]
fn names_without_underscores_are_unchanged() {
    for s in ["getBatteryLevel", "x", "Σigma", "a1b2"] {
        assert_eq!(snake_to_camel(s), s);
    }
}

fn nv(name: &str, value: &str) -> AttributeArg {
    AttributeArg::NameValue { name: name.to_string(), value: value.to_string() }
}

#[test]
fn target_takes_the_last_package_and_class() {
    let t = select_target(&vec![
        nv("package", "com.a"),
        AttributeArg::Other,
        nv("class", "Bridge"),
        nv("other", "x"),
        nv("package", "com.b"),
    ]);
    assert_eq!(t.package.as_deref(), Some("com.b"));
    assert_eq!(t.class.as_deref(), Some("Bridge"));
}

#[test]
fn target_missing_arguments() {
    let t = select_target(&vec![nv("", "com.a"), AttributeArg::Other]);
    assert!(t.package.is_none());
    assert!(t.class.is_none());
}

#[test]
fn non_ascii_names_lose_every_underscore() {
    for s in ["ß_ß", "_ǆ_ŉ__", "é_ﬀ_", "a__Ω_ω"] {
        let r = snake_to_camel(s);
        assert!(!r.contains('_'), "{r}");
    }
}
