use style_cascade::values::{
    BorderWidth, Color, Dimension, FontWeight, HorizontalPosition, Layout, LayoutDirection, Point,
    Pos, Rect, Size, StyleError, StyleVal, ValueKind, VerticalPosition,
};

fn sample_size() -> Size {
    Size {
        width: Dimension::Px(18.0f32.to_bits()),
        height: Dimension::Pct(0.5f32.to_bits()),
    }
}

fn sample_rect() -> Rect {
    Rect {
        left: Dimension::Px(1.0f32.to_bits()),
        right: Dimension::Auto,
        top: Dimension::Pct(0.25f32.to_bits()),
        bottom: Dimension::Px(0.0f32.to_bits()),
    }
}

fn sample_layout() -> Layout {
    Layout {
        size: sample_size(),
        margin: sample_rect(),
        padding: Rect::default(),
        direction: LayoutDirection::Column,
    }
}

#[test]
fn test_round_trip_every_kind() {
    let d = Dimension::Px(12.0f32.to_bits());
    assert_eq!(StyleVal::from(d).dimension(), d);

    let s = sample_size();
    assert_eq!(StyleVal::from(s).size(), s);

    let r = sample_rect();
    assert_eq!(StyleVal::from(r).rect(), r);

    let p = Point {
        x: 3.5f32.to_bits(),
        y: 7.25f32.to_bits(),
    };
    assert_eq!(StyleVal::from(p).point(), p);

    let po = Pos {
        top: 1.0f32.to_bits(),
        right: 2.0f32.to_bits(),
        bottom: 3.0f32.to_bits(),
        left: 4.0f32.to_bits(),
    };
    assert_eq!(StyleVal::from(po).pos(), po);

    let c = Color::rgb(45, 138, 255);
    assert_eq!(StyleVal::from(c).color(), c);

    let l = sample_layout();
    assert_eq!(StyleVal::from(l).layout(), l);

    let h = HorizontalPosition::Center;
    assert_eq!(StyleVal::from(h).horizontal_position(), h);

    let v = VerticalPosition::Top;
    assert_eq!(StyleVal::from(v).vertical_position(), v);

    let b = BorderWidth::new(
        1.0f32.to_bits(),
        2.0f32.to_bits(),
        0.0f32.to_bits(),
        1.5f32.to_bits(),
    );
    assert_eq!(StyleVal::from(b).border_width(), b);

    let w = FontWeight::Semibold;
    assert_eq!(StyleVal::from(w).font_weight(), w);

    let bits = 12.5f64.to_bits();
    assert_eq!(StyleVal::from(bits).float_bits(), bits);
    assert_eq!(f64::from_bits(StyleVal::from(bits).float_bits()), 12.5);

    assert_eq!(StyleVal::from(7u32).u32(), 7);
    assert_eq!(StyleVal::from(true).bool(), true);
    assert_eq!(StyleVal::from(false).bool(), false);

    assert_eq!(
        StyleVal::from("Space Grotesk".to_string()).string(),
        "Space Grotesk".to_string()
    );
    assert_eq!(StyleVal::of_str("SpaceMono-Bold").str(), "SpaceMono-Bold");
}

#[test]
fn test_try_round_trip() {
    let c = Color::rgb(1, 2, 3);
    assert_eq!(StyleVal::from(c).try_color(), Ok(c));
    assert_eq!(StyleVal::from(9u32).try_u32(), Ok(9));
    assert_eq!(StyleVal::from(true).try_bool(), Ok(true));
    assert_eq!(
        StyleVal::of_str("mono").try_string(),
        Ok("mono".to_string())
    );
}

#[test]
fn test_mismatch_fails_loudly() {
    // A mismatch reports the offending value and the requested kind; it
    // never yields a default or a value of another kind.
    assert_eq!(
        StyleVal::from(true).try_color(),
        Err(StyleError::Mismatch {
            found: StyleVal::Bool(true),
            requested: ValueKind::Color,
        })
    );
    assert_eq!(
        StyleVal::from(Color::black()).try_bool(),
        Err(StyleError::Mismatch {
            found: StyleVal::Color(Color::black()),
            requested: ValueKind::Bool,
        })
    );
    assert_eq!(
        StyleVal::from(3u32).try_float_bits(),
        Err(StyleError::Mismatch {
            found: StyleVal::Int(3),
            requested: ValueKind::Float,
        })
    );
    assert_eq!(
        StyleVal::from(1.0f64.to_bits()).try_u32(),
        Err(StyleError::Mismatch {
            found: StyleVal::Float(1.0f64.to_bits()),
            requested: ValueKind::Int,
        })
    );
    assert_eq!(
        StyleVal::of_str("dark").try_dimension(),
        Err(StyleError::Mismatch {
            found: StyleVal::String("dark".to_string()),
            requested: ValueKind::Dimension,
        })
    );
    assert_eq!(
        StyleVal::from(sample_size()).try_rect(),
        Err(StyleError::Mismatch {
            found: StyleVal::Size(sample_size()),
            requested: ValueKind::Rect,
        })
    );
    assert_eq!(
        StyleVal::from(FontWeight::Bold).try_vertical_position(),
        Err(StyleError::Mismatch {
            found: StyleVal::FontWeight(FontWeight::Bold),
            requested: ValueKind::VerticalPosition,
        })
    );
    assert_eq!(
        StyleVal::from(HorizontalPosition::Left).try_horizontal_position(),
        Ok(HorizontalPosition::Left)
    );
}

#[test]
fn test_absent_value_where_mandatory() {
    assert_eq!(
        StyleVal::required(None, ValueKind::Color),
        Err(StyleError::Absent {
            requested: ValueKind::Color,
        })
    );
    assert_eq!(
        StyleVal::required(Some(StyleVal::Bool(true)), ValueKind::Bool),
        Ok(StyleVal::Bool(true))
    );
}

#[test]
fn test_kind() {
    assert_eq!(StyleVal::from(Color::black()).kind(), ValueKind::Color);
    assert_eq!(StyleVal::from(1u32).kind(), ValueKind::Int);
    assert_eq!(StyleVal::from(1.0f64.to_bits()).kind(), ValueKind::Float);
    assert_eq!(StyleVal::of_str("x").kind(), ValueKind::String);
    assert_eq!(StyleVal::from(sample_layout()).kind(), ValueKind::Layout);
}

#[test]
fn test_font_weight_ordinals() {
    assert_eq!(FontWeight::Thin.ordinal(), 100);
    assert_eq!(FontWeight::ExtraLight.ordinal(), 200);
    assert_eq!(FontWeight::Light.ordinal(), 300);
    assert_eq!(FontWeight::Normal.ordinal(), 400);
    assert_eq!(FontWeight::Medium.ordinal(), 500);
    assert_eq!(FontWeight::Semibold.ordinal(), 600);
    assert_eq!(FontWeight::Bold.ordinal(), 700);
    assert_eq!(FontWeight::ExtraBold.ordinal(), 800);
    assert_eq!(FontWeight::Black.ordinal(), 900);
}

#[test]
fn test_defaults() {
    assert_eq!(VerticalPosition::default(), VerticalPosition::Bottom);
    assert_eq!(HorizontalPosition::default(), HorizontalPosition::Right);
    assert_eq!(FontWeight::default(), FontWeight::Normal);
    assert_eq!(Dimension::default(), Dimension::Auto);
    assert_eq!(
        BorderWidth::default(),
        BorderWidth {
            top: 0,
            left: 0,
            bottom: 0,
            right: 0,
        }
    );
}

#[test]
fn test_colors() {
    assert_eq!(Color::black(), Color::rgb(0, 0, 0));
    assert_eq!(Color::white(), Color::rgb(255, 255, 255));
    assert_eq!(Color::blue(), Color::rgb(0, 0, 255));
    assert_eq!(Color::grey(128), Color::rgb(128, 128, 128));
    assert_eq!(Color::transparent(), Color::rgba(0, 0, 0, 0));
    assert_eq!(Color::rgba(1, 2, 3, 4).a, 4);
}
