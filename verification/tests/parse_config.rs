use rsbar_img::parse_config::{setting_names_binary, ConfigSetting};

fn parts(setting: &str) -> (Option<String>, String, Option<String>) {
    let split = ConfigSetting::parse(setting);
    (
        split.filter.map(|f| String::from_utf8(f).unwrap()),
        String::from_utf8(split.key).unwrap(),
        split.value.map(|v| String::from_utf8(v).unwrap()),
    )
}

fn some(text: &str) -> Option<String> {
    Some(text.to_string())
}

#[test]
fn setting_with_filter_key_and_value() {
    assert_eq!(parts("qrcode.min-length=4"), (some("qrcode"), "min-length".to_string(), some("4")));
}

#[test]
fn setting_without_value() {
    assert_eq!(parts("qrcode.disable"), (some("qrcode"), "disable".to_string(), None));
    assert_eq!(parts("*.enable"), (some("*"), "enable".to_string(), None));
}

#[test]
fn setting_without_filter() {
    assert_eq!(parts("test"), (None, "test".to_string(), None));
    assert_eq!(parts("x-density=2"), (None, "x-density".to_string(), some("2")));
}

#[test]
fn setting_is_split_at_the_first_dot_and_the_first_equals_sign() {
    assert_eq!(parts("a.b.c=d=e"), (some("a"), "b.c".to_string(), some("d=e")));
    assert_eq!(parts("a=b.c"), (some("a=b"), "c".to_string(), None));
}

#[test]
fn setting_with_empty_parts() {
    assert_eq!(parts(""), (None, String::new(), None));
    assert_eq!(parts("."), (some(""), String::new(), None));
    assert_eq!(parts("="), (None, String::new(), some("")));
    assert_eq!(parts(".="), (some(""), String::new(), some("")));
    assert_eq!(parts("qrcode."), (some("qrcode"), String::new(), None));
    assert_eq!(parts("k="), (None, "k".to_string(), some("")));
}

#[test]
fn setting_with_other_than_ascii() {
    assert_eq!(parts("\u{e9}.\u{fc}=\u{1f600}"), (some("\u{e9}"), "\u{fc}".to_string(), some("\u{1f600}")));
}

#[test]
fn binary_key_is_recognised_with_and_without_filter_and_value() {
    assert!(setting_names_binary("binary"));
    assert!(setting_names_binary("qrcode.binary"));
    assert!(setting_names_binary("*.binary=1"));
    assert!(setting_names_binary(".binary"));
    assert!(setting_names_binary("binary="));
    assert!(ConfigSetting::parse("qrcode.binary=0").is_binary());
}

#[test]
fn other_keys_are_not_binary() {
    assert!(!setting_names_binary(""));
    assert!(!setting_names_binary("Binary"));
    assert!(!setting_names_binary("binar"));
    assert!(!setting_names_binary("binaryx"));
    assert!(!setting_names_binary("no-binary"));
    assert!(!setting_names_binary("binary.enable"));
    assert!(!setting_names_binary("qrcode.enable=binary"));
    assert!(!setting_names_binary(" binary"));
    assert!(!ConfigSetting::parse("qrcode.ascii").is_binary());
}
