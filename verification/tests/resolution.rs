use style_cascade::style::{Style, StyleKey, StyleOverride};
use style_cascade::styled::Styled;
use style_cascade::values::{Color, StyleVal, StyleValV};
use vstd::map::Map;
use vstd::seq::Seq;

#[derive(Default)]
struct Widget {
    class: Option<String>,
    style_overrides: StyleOverride,
}

impl Styled for Widget {
    // The three `spec` members of the trait exist only for verification; they
    // can never be called at run time, so an unverified implementor stubs
    // them out.
    fn spec_name() -> Seq<char> {
        panic!("specification-only member")
    }

    fn spec_class(&self) -> Option<Seq<char>> {
        panic!("specification-only member")
    }

    fn spec_overrides(&self) -> Map<Seq<char>, StyleValV> {
        panic!("specification-only member")
    }

    fn name() -> &'static str {
        "Widget"
    }

    fn class(&self) -> Option<&str> {
        self.class.as_deref()
    }

    fn set_class(&mut self, class: &str) {
        self.class = Some(class.to_string());
    }

    fn style_overrides(&self) -> &StyleOverride {
        &self.style_overrides
    }

    fn insert_override(&mut self, parameter: &str, val: StyleVal) {
        self.style_overrides.insert(parameter, val);
    }
}

fn test_style() -> Style {
    Style::new()
        .add(StyleKey::new("Widget", "color", None), Color::white().into())
        .add(
            StyleKey::new("Widget", "color", Some("dark")),
            Color::black().into(),
        )
}

#[test]
fn test_base_style_val() {
    let s = test_style();

    let w = Widget::default();
    let c: Color = w.style_val(&s, "color").unwrap().color();
    assert_eq!(c, Color::white());
}

#[test]
fn test_style_val_with_class() {
    let s = test_style();

    let w = Widget::default().with_class("dark");
    let c: Color = w.style_val(&s, "color").unwrap().color();
    assert_eq!(c, Color::black());
}

#[test]
fn test_style_val_overrides() {
    let s = test_style();

    let w = Widget::default().style("color", Color::blue().into());
    let c: Color = w.style_val(&s, "color").unwrap().color();
    assert_eq!(c, Color::blue());

    let w = Widget::default()
        .with_class("dark") // Classes should not impact outcome
        .style("color", Color::blue().into());
    let c: Color = w.style_val(&s, "color").unwrap().color();
    assert_eq!(c, Color::blue());
}

#[test]
fn test_three_instances_scenario() {
    let s = test_style();

    let plain = Widget::default();
    assert_eq!(
        plain.style_val(&s, "color"),
        Some(StyleVal::Color(Color::white()))
    );

    let dark = Widget::default().with_class("dark");
    assert_eq!(
        dark.style_val(&s, "color"),
        Some(StyleVal::Color(Color::black()))
    );

    let pinned = Widget::default()
        .with_class("dark")
        .style("color", Color::blue().into());
    assert_eq!(
        pinned.style_val(&s, "color"),
        Some(StyleVal::Color(Color::blue()))
    );
}

#[test]
fn test_class_precedence_order() {
    // Theme defines only "b": resolution falls through "a" and returns it.
    let only_b = Style::new().add(
        StyleKey::new("Widget", "color", Some("b")),
        Color::black().into(),
    );
    let w = Widget::default().with_class("a b");
    assert_eq!(
        w.style_val(&only_b, "color"),
        Some(StyleVal::Color(Color::black()))
    );

    // Theme defines only "a": its entry is returned.
    let only_a = Style::new().add(
        StyleKey::new("Widget", "color", Some("a")),
        Color::white().into(),
    );
    assert_eq!(
        w.style_val(&only_a, "color"),
        Some(StyleVal::Color(Color::white()))
    );

    // Both defined: the tag appearing first in the class string wins.
    let both = Style::new()
        .add(
            StyleKey::new("Widget", "color", Some("a")),
            Color::white().into(),
        )
        .add(
            StyleKey::new("Widget", "color", Some("b")),
            Color::black().into(),
        );
    assert_eq!(
        w.style_val(&both, "color"),
        Some(StyleVal::Color(Color::white()))
    );
}

#[test]
fn test_default_fallback_and_absent() {
    // No override, class tag matches nothing: the class-less entry answers.
    let s = test_style();
    let w = Widget::default().with_class("missing");
    assert_eq!(
        w.style_val(&s, "color"),
        Some(StyleVal::Color(Color::white()))
    );

    // Nothing matches at any tier: the resolution is absent.
    assert_eq!(w.style_val(&s, "radius"), None);
    assert_eq!(Widget::default().style_val(&Style::new(), "color"), None);
}

#[test]
fn test_theme_swap_scenario() {
    // The same instance queried against two installed tables answers from
    // whichever table is current at the time of the call.
    let first = test_style();
    let second = Style::new().add(
        StyleKey::new("Widget", "color", None),
        Color::rgb(9, 9, 9).into(),
    );

    let w = Widget::default();
    let before = w.style_val(&first, "color");
    assert_eq!(before, Some(StyleVal::Color(Color::white())));

    assert_eq!(
        w.style_val(&second, "color"),
        Some(StyleVal::Color(Color::rgb(9, 9, 9)))
    );
    // The value returned before the swap is unaffected by it.
    assert_eq!(before, Some(StyleVal::Color(Color::white())));
}

#[test]
fn test_maybe_style() {
    let s = test_style();

    // Absent value: a no-op.
    let w = Widget::default().maybe_style("color", None);
    assert_eq!(
        w.style_val(&s, "color"),
        Some(StyleVal::Color(Color::white()))
    );

    // Present value: behaves like `style`.
    let w = Widget::default().maybe_style("color", Some(Color::blue().into()));
    assert_eq!(
        w.style_val(&s, "color"),
        Some(StyleVal::Color(Color::blue()))
    );
}

#[test]
fn test_with_class_replaces() {
    // Setting a class replaces any previous one; it is not additive.
    let only_a = Style::new().add(
        StyleKey::new("Widget", "color", Some("a")),
        Color::white().into(),
    );
    let w = Widget::default().with_class("a").with_class("b");
    assert_eq!(w.style_val(&only_a, "color"), None);
}

#[test]
fn test_override_last_write_wins() {
    let s = test_style();
    let w = Widget::default()
        .style("color", Color::blue().into())
        .style("color", Color::black().into());
    assert_eq!(
        w.style_val(&s, "color"),
        Some(StyleVal::Color(Color::black()))
    );
}

#[test]
fn test_style_key_builder() {
    let w = Widget::default();
    assert_eq!(
        w.style_key("color", None),
        StyleKey::new("Widget", "color", None)
    );
    assert_eq!(
        w.style_key("color", Some("dark")),
        StyleKey::new("Widget", "color", Some("dark"))
    );
}
