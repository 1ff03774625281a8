use style_cascade::cascade::split_classes;
use style_cascade::style::{Style, StyleKey, StyleOverride};
use style_cascade::values::{Color, StyleVal};

#[test]
fn test_table_add_and_get() {
    let s = Style::new().add(
        StyleKey::new("Button", "text_color", None),
        Color::black().into(),
    );
    assert_eq!(
        s.get(StyleKey::new("Button", "text_color", None)),
        Some(StyleVal::Color(Color::black()))
    );
    assert_eq!(s.get(StyleKey::new("Button", "background_color", None)), None);
}

#[test]
fn test_table_last_write_wins() {
    let k = StyleKey::new("Button", "text_color", None);
    let s = Style::new()
        .add(k.clone(), Color::white().into())
        .add(k.clone(), Color::black().into());
    assert_eq!(s.get(k), Some(StyleVal::Color(Color::black())));
}

#[test]
fn test_classless_key_is_distinct() {
    let s = Style::new().add(
        StyleKey::new("Button", "text_color", Some("dark")),
        Color::white().into(),
    );
    assert_eq!(s.get(StyleKey::new("Button", "text_color", None)), None);
    assert_eq!(
        s.get(StyleKey::new("Button", "text_color", Some("dark"))),
        Some(StyleVal::Color(Color::white()))
    );
}

#[test]
fn test_style_and_style_for_class() {
    let s = Style::new()
        .add(
            StyleKey::new("Button", "text_color", None),
            Color::black().into(),
        )
        .add(
            StyleKey::new("Button", "text_color", Some("dark")),
            Color::white().into(),
        );
    assert_eq!(
        s.style("Button", "text_color"),
        Some(StyleVal::Color(Color::black()))
    );
    assert_eq!(s.style("Button", "font_size"), None);
    assert_eq!(
        s.style_for_class("Button", "text_color", "dark"),
        Some(StyleVal::Color(Color::white()))
    );
    assert_eq!(s.style_for_class("Button", "text_color", "light"), None);
}

#[test]
fn test_key_equality_is_structural() {
    assert_eq!(
        StyleKey::new("A", "p", Some("c")),
        StyleKey::new("A", "p", Some("c"))
    );
    assert_ne!(StyleKey::new("A", "p", None), StyleKey::new("A", "p", Some("c")));
    assert_ne!(StyleKey::new("A", "p", None), StyleKey::new("B", "p", None));
    assert_ne!(StyleKey::new("A", "p", None), StyleKey::new("A", "q", None));
}

#[test]
fn test_override_set() {
    let mut o = StyleOverride::new();
    assert!(o.get("color").is_none());
    o.insert("color", Color::blue().into());
    assert_eq!(o.get("color"), Some(&StyleVal::Color(Color::blue())));
    o.insert("color", Color::white().into());
    assert_eq!(o.get("color"), Some(&StyleVal::Color(Color::white())));
    assert!(o.get("radius").is_none());
}

#[test]
fn test_split_classes() {
    assert_eq!(split_classes("text-sm font-bold"), vec!["text-sm", "font-bold"]);
    assert_eq!(split_classes("dark"), vec!["dark"]);
    assert_eq!(split_classes(""), vec![""]);
    assert_eq!(split_classes("a  b"), vec!["a", "", "b"]);
    assert_eq!(split_classes(" a"), vec!["", "a"]);
    assert_eq!(split_classes("a "), vec!["a", ""]);
}
