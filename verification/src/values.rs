//! The closed union of style values and its typed coercions.
//!
//! A [`StyleVal`] holds exactly one variant.  Injection from a concrete type
//! always succeeds; projection back to a concrete type succeeds exactly when
//! the stored variant matches the requested kind, and otherwise reports the
//! offending value together with the requested kind.
//!
//! Real-valued payloads (border widths, coordinates, the free-floating numeric
//! variant) are carried as IEEE-754 bit patterns, so that this crate never
//! computes on them; the host converts at the boundary.

use vstd::prelude::*;

verus! {

/// A width for each of the four borders of a box, as IEEE-754 single-precision
/// bit patterns.  A width is a non-negative real, so the sign bit is clear.
#[derive(Copy, Clone, Debug, PartialEq, Eq, Structural)]
pub struct BorderWidth {
    pub top: u32,
    pub left: u32,
    pub bottom: u32,
    pub right: u32,
}

/// The sign bit of an IEEE-754 single-precision bit pattern is clear, so the
/// encoded real is non-negative.
pub open spec fn non_negative_bits(bits: u32) -> bool {
    bits < 0x8000_0000
}

impl BorderWidth {
    /// All four widths are non-negative.
    pub open spec fn wf(self) -> bool {
        non_negative_bits(self.top) && non_negative_bits(self.left)
            && non_negative_bits(self.bottom) && non_negative_bits(self.right)
    }

    pub fn new(top: u32, left: u32, bottom: u32, right: u32) -> (r: Self)
        requires
            non_negative_bits(top),
            non_negative_bits(left),
            non_negative_bits(bottom),
            non_negative_bits(right),
        ensures
            r == (BorderWidth { top, left, bottom, right }),
            r.wf(),
    {
        BorderWidth { top, left, bottom, right }
    }
}

impl Default for BorderWidth {
    /// Zero width on every side.
    fn default() -> (r: Self)
        ensures
            r == (BorderWidth { top: 0u32, left: 0u32, bottom: 0u32, right: 0u32 }),
            r.wf(),
    {
        BorderWidth { top: 0, left: 0, bottom: 0, right: 0 }
    }
}

/// Vertical placement of an element within its container.
#[derive(Copy, Clone, Debug, PartialEq, Eq, Structural)]
pub enum VerticalPosition {
    Bottom,
    Center,
    Top,
}

impl Default for VerticalPosition {
    fn default() -> (r: Self)
        ensures
            r == VerticalPosition::Bottom,
    {
        VerticalPosition::Bottom
    }
}

/// Horizontal placement of an element within its container.
#[derive(Copy, Clone, Debug, PartialEq, Eq, Structural)]
pub enum HorizontalPosition {
    Left,
    Center,
    Right,
}

impl Default for HorizontalPosition {
    fn default() -> (r: Self)
        ensures
            r == HorizontalPosition::Right,
    {
        HorizontalPosition::Right
    }
}

/// A named font weight.  The ordinal of each name is the conventional
/// hundred-step scale from 100 (thin) to 900 (black); see
/// [`FontWeight::ordinal`].
#[derive(Copy, Clone, Debug, PartialEq, Eq, Structural)]
pub enum FontWeight {
    Thin,
    ExtraLight,
    Light,
    Normal,
    Medium,
    Semibold,
    Bold,
    ExtraBold,
    Black,
}

impl FontWeight {
    /// The numeric weight of this name on the conventional 100..900 scale.
    pub open spec fn spec_ordinal(self) -> u32 {
        match self {
            FontWeight::Thin => 100u32,
            FontWeight::ExtraLight => 200u32,
            FontWeight::Light => 300u32,
            FontWeight::Normal => 400u32,
            FontWeight::Medium => 500u32,
            FontWeight::Semibold => 600u32,
            FontWeight::Bold => 700u32,
            FontWeight::ExtraBold => 800u32,
            FontWeight::Black => 900u32,
        }
    }

    pub fn ordinal(self) -> (r: u32)
        ensures
            r == self.spec_ordinal(),
            100 <= r <= 900,
            r % 100 == 0,
    {
        match self {
            FontWeight::Thin => 100,
            FontWeight::ExtraLight => 200,
            FontWeight::Light => 300,
            FontWeight::Normal => 400,
            FontWeight::Medium => 500,
            FontWeight::Semibold => 600,
            FontWeight::Bold => 700,
            FontWeight::ExtraBold => 800,
            FontWeight::Black => 900,
        }
    }
}

impl Default for FontWeight {
    fn default() -> (r: Self)
        ensures
            r == FontWeight::Normal,
    {
        FontWeight::Normal
    }
}

/// An 8-bit RGBA color, a stand-in for the renderer's color type, which the
/// cascade only carries through.
#[derive(Copy, Clone, Debug, PartialEq, Eq, Structural)]
pub struct Color {
    pub r: u8,
    pub g: u8,
    pub b: u8,
    pub a: u8,
}

impl Color {
    pub fn rgb(r: u8, g: u8, b: u8) -> (c: Self)
        ensures
            c == (Color { r, g, b, a: 255u8 }),
    {
        Color { r, g, b, a: 255 }
    }

    pub fn rgba(r: u8, g: u8, b: u8, a: u8) -> (c: Self)
        ensures
            c == (Color { r, g, b, a }),
    {
        Color { r, g, b, a }
    }

    pub open spec fn spec_black() -> Color {
        Color { r: 0u8, g: 0u8, b: 0u8, a: 255u8 }
    }

    pub fn black() -> (c: Self)
        ensures
            c == Color::spec_black(),
    {
        Color { r: 0, g: 0, b: 0, a: 255 }
    }

    pub open spec fn spec_white() -> Color {
        Color { r: 255u8, g: 255u8, b: 255u8, a: 255u8 }
    }

    pub fn white() -> (c: Self)
        ensures
            c == Color::spec_white(),
    {
        Color { r: 255, g: 255, b: 255, a: 255 }
    }

    pub open spec fn spec_blue() -> Color {
        Color { r: 0u8, g: 0u8, b: 255u8, a: 255u8 }
    }

    pub fn blue() -> (c: Self)
        ensures
            c == Color::spec_blue(),
    {
        Color { r: 0, g: 0, b: 255, a: 255 }
    }

    pub fn transparent() -> (c: Self)
        ensures
            c == (Color { r: 0u8, g: 0u8, b: 0u8, a: 0u8 }),
    {
        Color { r: 0, g: 0, b: 0, a: 0 }
    }

    /// An opaque grey with the given level on all three channels.
    pub fn grey(level: u8) -> (c: Self)
        ensures
            c == (Color { r: level, g: level, b: level, a: 255u8 }),
    {
        Color { r: level, g: level, b: level, a: 255 }
    }
}

impl Default for Color {
    /// Opaque black.
    fn default() -> (r: Self)
        ensures
            r == Color::spec_black(),
    {
        Color { r: 0, g: 0, b: 0, a: 255 }
    }
}

/// One extent along an axis, as the layout engine understands it: determined
/// by content, a fixed number of pixels, or a percentage of the parent.  The
/// numeric payloads are IEEE-754 single-precision bit patterns.
#[derive(Copy, Clone, Debug, PartialEq, Eq, Structural)]
pub enum Dimension {
    Auto,
    Px(u32),
    Pct(u32),
}

impl Default for Dimension {
    fn default() -> (r: Self)
        ensures
            r == Dimension::Auto,
    {
        Dimension::Auto
    }
}

/// A width/height pair of [`Dimension`]s.
#[derive(Copy, Clone, Debug, PartialEq, Eq, Structural, Default)]
pub struct Size {
    pub width: Dimension,
    pub height: Dimension,
}

/// A [`Dimension`] for each of the four sides of a box.
#[derive(Copy, Clone, Debug, PartialEq, Eq, Structural, Default)]
pub struct Rect {
    pub left: Dimension,
    pub right: Dimension,
    pub top: Dimension,
    pub bottom: Dimension,
}

/// A coordinate pair, as IEEE-754 single-precision bit patterns.
#[derive(Copy, Clone, Debug, PartialEq, Eq, Structural, Default)]
pub struct Point {
    pub x: u32,
    pub y: u32,
}

/// An absolute offset from each of the four edges of the parent, as IEEE-754
/// single-precision bit patterns.
#[derive(Copy, Clone, Debug, PartialEq, Eq, Structural, Default)]
pub struct Pos {
    pub top: u32,
    pub right: u32,
    pub bottom: u32,
    pub left: u32,
}

/// The axis a container lays its children out along.
#[derive(Copy, Clone, Debug, PartialEq, Eq, Structural)]
pub enum LayoutDirection {
    Row,
    Column,
}

impl Default for LayoutDirection {
    fn default() -> (r: Self)
        ensures
            r == LayoutDirection::Row,
    {
        LayoutDirection::Row
    }
}

/// The layout parameters of a node, a stand-in for the layout engine's node
/// style, which the cascade only carries through.
#[derive(Copy, Clone, Debug, PartialEq, Eq, Structural, Default)]
pub struct Layout {
    pub size: Size,
    pub margin: Rect,
    pub padding: Rect,
    pub direction: LayoutDirection,
}

/// The name of one [`StyleVal`] variant, used to say which kind of value a
/// coercion requested or found.
#[derive(Copy, Clone, Debug, PartialEq, Eq, Structural)]
pub enum ValueKind {
    Dimension,
    Size,
    Rect,
    Point,
    Pos,
    Color,
    Layout,
    HorizontalPosition,
    VerticalPosition,
    BorderWidth,
    FontWeight,
    Float,
    Int,
    Bool,
    String,
}

/// One style value: exactly one of the closed set of variants.  `Float` is an
/// IEEE-754 double-precision bit pattern; `Int` an unsigned 32-bit integer.
#[derive(Debug, PartialEq)]
pub enum StyleVal {
    Dimension(Dimension),
    Size(Size),
    Rect(Rect),
    Point(Point),
    Pos(Pos),
    Color(Color),
    Layout(Layout),
    HorizontalPosition(HorizontalPosition),
    VerticalPosition(VerticalPosition),
    BorderWidth(BorderWidth),
    FontWeight(FontWeight),
    Float(u64),
    Int(u32),
    Bool(bool),
    String(String),
}

/// The mathematical value of a [`StyleVal`]: the same variants, with the
/// string payload abstracted to its character sequence.
pub enum StyleValV {
    Dimension(Dimension),
    Size(Size),
    Rect(Rect),
    Point(Point),
    Pos(Pos),
    Color(Color),
    Layout(Layout),
    HorizontalPosition(HorizontalPosition),
    VerticalPosition(VerticalPosition),
    BorderWidth(BorderWidth),
    FontWeight(FontWeight),
    Float(u64),
    Int(u32),
    Bool(bool),
    String(Seq<char>),
}

impl View for StyleVal {
    type V = StyleValV;

    open spec fn view(&self) -> StyleValV {
        match self {
            StyleVal::Dimension(d) => StyleValV::Dimension(*d),
            StyleVal::Size(s) => StyleValV::Size(*s),
            StyleVal::Rect(r) => StyleValV::Rect(*r),
            StyleVal::Point(p) => StyleValV::Point(*p),
            StyleVal::Pos(p) => StyleValV::Pos(*p),
            StyleVal::Color(c) => StyleValV::Color(*c),
            StyleVal::Layout(l) => StyleValV::Layout(*l),
            StyleVal::HorizontalPosition(h) => StyleValV::HorizontalPosition(*h),
            StyleVal::VerticalPosition(v) => StyleValV::VerticalPosition(*v),
            StyleVal::BorderWidth(b) => StyleValV::BorderWidth(*b),
            StyleVal::FontWeight(w) => StyleValV::FontWeight(*w),
            StyleVal::Float(f) => StyleValV::Float(*f),
            StyleVal::Int(i) => StyleValV::Int(*i),
            StyleVal::Bool(b) => StyleValV::Bool(*b),
            StyleVal::String(s) => StyleValV::String(s@),
        }
    }
}

impl DeepView for StyleVal {
    type V = StyleValV;

    open spec fn deep_view(&self) -> StyleValV {
        self.view()
    }
}

impl Clone for StyleVal {
    fn clone(&self) -> (r: Self)
        ensures
            r == *self,
    {
        match self {
            StyleVal::Dimension(d) => StyleVal::Dimension(*d),
            StyleVal::Size(s) => StyleVal::Size(*s),
            StyleVal::Rect(r) => StyleVal::Rect(*r),
            StyleVal::Point(p) => StyleVal::Point(*p),
            StyleVal::Pos(p) => StyleVal::Pos(*p),
            StyleVal::Color(c) => StyleVal::Color(*c),
            StyleVal::Layout(l) => StyleVal::Layout(*l),
            StyleVal::HorizontalPosition(h) => StyleVal::HorizontalPosition(*h),
            StyleVal::VerticalPosition(v) => StyleVal::VerticalPosition(*v),
            StyleVal::BorderWidth(b) => StyleVal::BorderWidth(*b),
            StyleVal::FontWeight(w) => StyleVal::FontWeight(*w),
            StyleVal::Float(f) => StyleVal::Float(*f),
            StyleVal::Int(i) => StyleVal::Int(*i),
            StyleVal::Bool(b) => StyleVal::Bool(*b),
            StyleVal::String(s) => StyleVal::String(s.clone()),
        }
    }
}

/// An error from a typed coercion: either the cascade found no value where one
/// was mandatory, or the value found holds a different variant than the one
/// requested.  The offending value and the requested kind are carried so the
/// host can report the misauthored theme entry.
#[derive(Debug, PartialEq)]
pub enum StyleError {
    Absent { requested: ValueKind },
    Mismatch { found: StyleVal, requested: ValueKind },
}

impl StyleValV {
    /// The kind of variant this value holds.
    pub open spec fn kind(self) -> ValueKind {
        match self {
            StyleValV::Dimension(_) => ValueKind::Dimension,
            StyleValV::Size(_) => ValueKind::Size,
            StyleValV::Rect(_) => ValueKind::Rect,
            StyleValV::Point(_) => ValueKind::Point,
            StyleValV::Pos(_) => ValueKind::Pos,
            StyleValV::Color(_) => ValueKind::Color,
            StyleValV::Layout(_) => ValueKind::Layout,
            StyleValV::HorizontalPosition(_) => ValueKind::HorizontalPosition,
            StyleValV::VerticalPosition(_) => ValueKind::VerticalPosition,
            StyleValV::BorderWidth(_) => ValueKind::BorderWidth,
            StyleValV::FontWeight(_) => ValueKind::FontWeight,
            StyleValV::Float(_) => ValueKind::Float,
            StyleValV::Int(_) => ValueKind::Int,
            StyleValV::Bool(_) => ValueKind::Bool,
            StyleValV::String(_) => ValueKind::String,
        }
    }
}

/// The `Dimension` payload of a union value, if that is the variant it holds.
pub open spec fn spec_dimension_of(v: StyleValV) -> Option<Dimension> {
    match v {
        StyleValV::Dimension(x) => Some(x),
        _ => None,
    }
}

/// The `Size` payload of a union value, if that is the variant it holds.
pub open spec fn spec_size_of(v: StyleValV) -> Option<Size> {
    match v {
        StyleValV::Size(x) => Some(x),
        _ => None,
    }
}

/// The `Rect` payload of a union value, if that is the variant it holds.
pub open spec fn spec_rect_of(v: StyleValV) -> Option<Rect> {
    match v {
        StyleValV::Rect(x) => Some(x),
        _ => None,
    }
}

/// The `Point` payload of a union value, if that is the variant it holds.
pub open spec fn spec_point_of(v: StyleValV) -> Option<Point> {
    match v {
        StyleValV::Point(x) => Some(x),
        _ => None,
    }
}

/// The `Pos` payload of a union value, if that is the variant it holds.
pub open spec fn spec_pos_of(v: StyleValV) -> Option<Pos> {
    match v {
        StyleValV::Pos(x) => Some(x),
        _ => None,
    }
}

/// The `Color` payload of a union value, if that is the variant it holds.
pub open spec fn spec_color_of(v: StyleValV) -> Option<Color> {
    match v {
        StyleValV::Color(x) => Some(x),
        _ => None,
    }
}

/// The `Layout` payload of a union value, if that is the variant it holds.
pub open spec fn spec_layout_of(v: StyleValV) -> Option<Layout> {
    match v {
        StyleValV::Layout(x) => Some(x),
        _ => None,
    }
}

/// The `HorizontalPosition` payload of a union value, if that is the variant it holds.
pub open spec fn spec_horizontal_position_of(v: StyleValV) -> Option<HorizontalPosition> {
    match v {
        StyleValV::HorizontalPosition(x) => Some(x),
        _ => None,
    }
}

/// The `VerticalPosition` payload of a union value, if that is the variant it holds.
pub open spec fn spec_vertical_position_of(v: StyleValV) -> Option<VerticalPosition> {
    match v {
        StyleValV::VerticalPosition(x) => Some(x),
        _ => None,
    }
}

/// The `BorderWidth` payload of a union value, if that is the variant it holds.
pub open spec fn spec_border_width_of(v: StyleValV) -> Option<BorderWidth> {
    match v {
        StyleValV::BorderWidth(x) => Some(x),
        _ => None,
    }
}

/// The `FontWeight` payload of a union value, if that is the variant it holds.
pub open spec fn spec_font_weight_of(v: StyleValV) -> Option<FontWeight> {
    match v {
        StyleValV::FontWeight(x) => Some(x),
        _ => None,
    }
}

/// The `Float` payload of a union value, if that is the variant it holds.
pub open spec fn spec_float_bits_of(v: StyleValV) -> Option<u64> {
    match v {
        StyleValV::Float(x) => Some(x),
        _ => None,
    }
}

/// The `Int` payload of a union value, if that is the variant it holds.
pub open spec fn spec_int_of(v: StyleValV) -> Option<u32> {
    match v {
        StyleValV::Int(x) => Some(x),
        _ => None,
    }
}

/// The `Bool` payload of a union value, if that is the variant it holds.
pub open spec fn spec_bool_of(v: StyleValV) -> Option<bool> {
    match v {
        StyleValV::Bool(x) => Some(x),
        _ => None,
    }
}

/// The character sequence of a union value's `String` payload, if that is
/// the variant it holds.
pub open spec fn spec_string_of(v: StyleValV) -> Option<Seq<char>> {
    match v {
        StyleValV::String(s) => Some(s),
        _ => None,
    }
}

impl StyleVal {
    pub fn kind(&self) -> (k: ValueKind)
        ensures
            k == self@.kind(),
    {
        match self {
            StyleVal::Dimension(_) => ValueKind::Dimension,
            StyleVal::Size(_) => ValueKind::Size,
            StyleVal::Rect(_) => ValueKind::Rect,
            StyleVal::Point(_) => ValueKind::Point,
            StyleVal::Pos(_) => ValueKind::Pos,
            StyleVal::Color(_) => ValueKind::Color,
            StyleVal::Layout(_) => ValueKind::Layout,
            StyleVal::HorizontalPosition(_) => ValueKind::HorizontalPosition,
            StyleVal::VerticalPosition(_) => ValueKind::VerticalPosition,
            StyleVal::BorderWidth(_) => ValueKind::BorderWidth,
            StyleVal::FontWeight(_) => ValueKind::FontWeight,
            StyleVal::Float(_) => ValueKind::Float,
            StyleVal::Int(_) => ValueKind::Int,
            StyleVal::Bool(_) => ValueKind::Bool,
            StyleVal::String(_) => ValueKind::String,
        }
    }

    /// A union value holding the given text.
    pub fn of_str(s: &str) -> (r: Self)
        ensures
            r@ == StyleValV::String(s@),
    {
        StyleVal::String(s.to_string())
    }

    /// Unwraps a cascade result where a value is mandatory: absence is an
    /// error naming the requested kind.
    pub fn required(v: Option<StyleVal>, requested: ValueKind) -> (r: Result<StyleVal, StyleError>)
        ensures
            match r {
                Ok(x) => v == Some(x),
                Err(e) => v is None && e == (StyleError::Absent { requested }),
            },
    {
        match v {
            Some(x) => Ok(x),
            None => Err(StyleError::Absent { requested }),
        }
    }

    /// Projects the `Dimension` payload, or reports the value and the requested
    /// kind on a variant mismatch.
    pub fn try_dimension(self) -> (r: Result<Dimension, StyleError>)
        ensures
            match r {
                Ok(x) => spec_dimension_of(self@) == Some(x),
                Err(e) => spec_dimension_of(self@) is None && e == (StyleError::Mismatch {
                    found: self,
                    requested: ValueKind::Dimension,
                }),
            },
    {
        match self {
            StyleVal::Dimension(x) => Ok(x),
            other => Err(StyleError::Mismatch { found: other, requested: ValueKind::Dimension }),
        }
    }

    /// Projects the `Dimension` payload of a value known to hold that variant.
    pub fn dimension(self) -> (r: Dimension)
        requires
            self@ is Dimension,
        ensures
            Some(r) == spec_dimension_of(self@),
    {
        match self {
            StyleVal::Dimension(x) => x,
            _ => vstd::pervasive::unreached(),
        }
    }

    /// Projects the `Size` payload, or reports the value and the requested
    /// kind on a variant mismatch.
    pub fn try_size(self) -> (r: Result<Size, StyleError>)
        ensures
            match r {
                Ok(x) => spec_size_of(self@) == Some(x),
                Err(e) => spec_size_of(self@) is None && e == (StyleError::Mismatch {
                    found: self,
                    requested: ValueKind::Size,
                }),
            },
    {
        match self {
            StyleVal::Size(x) => Ok(x),
            other => Err(StyleError::Mismatch { found: other, requested: ValueKind::Size }),
        }
    }

    /// Projects the `Size` payload of a value known to hold that variant.
    pub fn size(self) -> (r: Size)
        requires
            self@ is Size,
        ensures
            Some(r) == spec_size_of(self@),
    {
        match self {
            StyleVal::Size(x) => x,
            _ => vstd::pervasive::unreached(),
        }
    }

    /// Projects the `Rect` payload, or reports the value and the requested
    /// kind on a variant mismatch.
    pub fn try_rect(self) -> (r: Result<Rect, StyleError>)
        ensures
            match r {
                Ok(x) => spec_rect_of(self@) == Some(x),
                Err(e) => spec_rect_of(self@) is None && e == (StyleError::Mismatch {
                    found: self,
                    requested: ValueKind::Rect,
                }),
            },
    {
        match self {
            StyleVal::Rect(x) => Ok(x),
            other => Err(StyleError::Mismatch { found: other, requested: ValueKind::Rect }),
        }
    }

    /// Projects the `Rect` payload of a value known to hold that variant.
    pub fn rect(self) -> (r: Rect)
        requires
            self@ is Rect,
        ensures
            Some(r) == spec_rect_of(self@),
    {
        match self {
            StyleVal::Rect(x) => x,
            _ => vstd::pervasive::unreached(),
        }
    }

    /// Projects the `Point` payload, or reports the value and the requested
    /// kind on a variant mismatch.
    pub fn try_point(self) -> (r: Result<Point, StyleError>)
        ensures
            match r {
                Ok(x) => spec_point_of(self@) == Some(x),
                Err(e) => spec_point_of(self@) is None && e == (StyleError::Mismatch {
                    found: self,
                    requested: ValueKind::Point,
                }),
            },
    {
        match self {
            StyleVal::Point(x) => Ok(x),
            other => Err(StyleError::Mismatch { found: other, requested: ValueKind::Point }),
        }
    }

    /// Projects the `Point` payload of a value known to hold that variant.
    pub fn point(self) -> (r: Point)
        requires
            self@ is Point,
        ensures
            Some(r) == spec_point_of(self@),
    {
        match self {
            StyleVal::Point(x) => x,
            _ => vstd::pervasive::unreached(),
        }
    }

    /// Projects the `Pos` payload, or reports the value and the requested
    /// kind on a variant mismatch.
    pub fn try_pos(self) -> (r: Result<Pos, StyleError>)
        ensures
            match r {
                Ok(x) => spec_pos_of(self@) == Some(x),
                Err(e) => spec_pos_of(self@) is None && e == (StyleError::Mismatch {
                    found: self,
                    requested: ValueKind::Pos,
                }),
            },
    {
        match self {
            StyleVal::Pos(x) => Ok(x),
            other => Err(StyleError::Mismatch { found: other, requested: ValueKind::Pos }),
        }
    }

    /// Projects the `Pos` payload of a value known to hold that variant.
    pub fn pos(self) -> (r: Pos)
        requires
            self@ is Pos,
        ensures
            Some(r) == spec_pos_of(self@),
    {
        match self {
            StyleVal::Pos(x) => x,
            _ => vstd::pervasive::unreached(),
        }
    }

    /// Projects the `Color` payload, or reports the value and the requested
    /// kind on a variant mismatch.
    pub fn try_color(self) -> (r: Result<Color, StyleError>)
        ensures
            match r {
                Ok(x) => spec_color_of(self@) == Some(x),
                Err(e) => spec_color_of(self@) is None && e == (StyleError::Mismatch {
                    found: self,
                    requested: ValueKind::Color,
                }),
            },
    {
        match self {
            StyleVal::Color(x) => Ok(x),
            other => Err(StyleError::Mismatch { found: other, requested: ValueKind::Color }),
        }
    }

    /// Projects the `Color` payload of a value known to hold that variant.
    pub fn color(self) -> (r: Color)
        requires
            self@ is Color,
        ensures
            Some(r) == spec_color_of(self@),
    {
        match self {
            StyleVal::Color(x) => x,
            _ => vstd::pervasive::unreached(),
        }
    }

    /// Projects the `Layout` payload, or reports the value and the requested
    /// kind on a variant mismatch.
    pub fn try_layout(self) -> (r: Result<Layout, StyleError>)
        ensures
            match r {
                Ok(x) => spec_layout_of(self@) == Some(x),
                Err(e) => spec_layout_of(self@) is None && e == (StyleError::Mismatch {
                    found: self,
                    requested: ValueKind::Layout,
                }),
            },
    {
        match self {
            StyleVal::Layout(x) => Ok(x),
            other => Err(StyleError::Mismatch { found: other, requested: ValueKind::Layout }),
        }
    }

    /// Projects the `Layout` payload of a value known to hold that variant.
    pub fn layout(self) -> (r: Layout)
        requires
            self@ is Layout,
        ensures
            Some(r) == spec_layout_of(self@),
    {
        match self {
            StyleVal::Layout(x) => x,
            _ => vstd::pervasive::unreached(),
        }
    }

    /// Projects the `HorizontalPosition` payload, or reports the value and the requested
    /// kind on a variant mismatch.
    pub fn try_horizontal_position(self) -> (r: Result<HorizontalPosition, StyleError>)
        ensures
            match r {
                Ok(x) => spec_horizontal_position_of(self@) == Some(x),
                Err(e) => spec_horizontal_position_of(self@) is None && e == (StyleError::Mismatch {
                    found: self,
                    requested: ValueKind::HorizontalPosition,
                }),
            },
    {
        match self {
            StyleVal::HorizontalPosition(x) => Ok(x),
            other => Err(StyleError::Mismatch { found: other, requested: ValueKind::HorizontalPosition }),
        }
    }

    /// Projects the `HorizontalPosition` payload of a value known to hold that variant.
    pub fn horizontal_position(self) -> (r: HorizontalPosition)
        requires
            self@ is HorizontalPosition,
        ensures
            Some(r) == spec_horizontal_position_of(self@),
    {
        match self {
            StyleVal::HorizontalPosition(x) => x,
            _ => vstd::pervasive::unreached(),
        }
    }

    /// Projects the `VerticalPosition` payload, or reports the value and the requested
    /// kind on a variant mismatch.
    pub fn try_vertical_position(self) -> (r: Result<VerticalPosition, StyleError>)
        ensures
            match r {
                Ok(x) => spec_vertical_position_of(self@) == Some(x),
                Err(e) => spec_vertical_position_of(self@) is None && e == (StyleError::Mismatch {
                    found: self,
                    requested: ValueKind::VerticalPosition,
                }),
            },
    {
        match self {
            StyleVal::VerticalPosition(x) => Ok(x),
            other => Err(StyleError::Mismatch { found: other, requested: ValueKind::VerticalPosition }),
        }
    }

    /// Projects the `VerticalPosition` payload of a value known to hold that variant.
    pub fn vertical_position(self) -> (r: VerticalPosition)
        requires
            self@ is VerticalPosition,
        ensures
            Some(r) == spec_vertical_position_of(self@),
    {
        match self {
            StyleVal::VerticalPosition(x) => x,
            _ => vstd::pervasive::unreached(),
        }
    }

    /// Projects the `BorderWidth` payload, or reports the value and the requested
    /// kind on a variant mismatch.
    pub fn try_border_width(self) -> (r: Result<BorderWidth, StyleError>)
        ensures
            match r {
                Ok(x) => spec_border_width_of(self@) == Some(x),
                Err(e) => spec_border_width_of(self@) is None && e == (StyleError::Mismatch {
                    found: self,
                    requested: ValueKind::BorderWidth,
                }),
            },
    {
        match self {
            StyleVal::BorderWidth(x) => Ok(x),
            other => Err(StyleError::Mismatch { found: other, requested: ValueKind::BorderWidth }),
        }
    }

    /// Projects the `BorderWidth` payload of a value known to hold that variant.
    pub fn border_width(self) -> (r: BorderWidth)
        requires
            self@ is BorderWidth,
        ensures
            Some(r) == spec_border_width_of(self@),
    {
        match self {
            StyleVal::BorderWidth(x) => x,
            _ => vstd::pervasive::unreached(),
        }
    }

    /// Projects the `FontWeight` payload, or reports the value and the requested
    /// kind on a variant mismatch.
    pub fn try_font_weight(self) -> (r: Result<FontWeight, StyleError>)
        ensures
            match r {
                Ok(x) => spec_font_weight_of(self@) == Some(x),
                Err(e) => spec_font_weight_of(self@) is None && e == (StyleError::Mismatch {
                    found: self,
                    requested: ValueKind::FontWeight,
                }),
            },
    {
        match self {
            StyleVal::FontWeight(x) => Ok(x),
            other => Err(StyleError::Mismatch { found: other, requested: ValueKind::FontWeight }),
        }
    }

    /// Projects the `FontWeight` payload of a value known to hold that variant.
    pub fn font_weight(self) -> (r: FontWeight)
        requires
            self@ is FontWeight,
        ensures
            Some(r) == spec_font_weight_of(self@),
    {
        match self {
            StyleVal::FontWeight(x) => x,
            _ => vstd::pervasive::unreached(),
        }
    }

    /// Projects the `Float` payload, or reports the value and the requested
    /// kind on a variant mismatch.
    pub fn try_float_bits(self) -> (r: Result<u64, StyleError>)
        ensures
            match r {
                Ok(x) => spec_float_bits_of(self@) == Some(x),
                Err(e) => spec_float_bits_of(self@) is None && e == (StyleError::Mismatch {
                    found: self,
                    requested: ValueKind::Float,
                }),
            },
    {
        match self {
            StyleVal::Float(x) => Ok(x),
            other => Err(StyleError::Mismatch { found: other, requested: ValueKind::Float }),
        }
    }

    /// Projects the `Float` payload of a value known to hold that variant.
    pub fn float_bits(self) -> (r: u64)
        requires
            self@ is Float,
        ensures
            Some(r) == spec_float_bits_of(self@),
    {
        match self {
            StyleVal::Float(x) => x,
            _ => vstd::pervasive::unreached(),
        }
    }

    /// Projects the `Int` payload, or reports the value and the requested
    /// kind on a variant mismatch.
    pub fn try_u32(self) -> (r: Result<u32, StyleError>)
        ensures
            match r {
                Ok(x) => spec_int_of(self@) == Some(x),
                Err(e) => spec_int_of(self@) is None && e == (StyleError::Mismatch {
                    found: self,
                    requested: ValueKind::Int,
                }),
            },
    {
        match self {
            StyleVal::Int(x) => Ok(x),
            other => Err(StyleError::Mismatch { found: other, requested: ValueKind::Int }),
        }
    }

    /// Projects the `Int` payload of a value known to hold that variant.
    pub fn u32(self) -> (r: u32)
        requires
            self@ is Int,
        ensures
            Some(r) == spec_int_of(self@),
    {
        match self {
            StyleVal::Int(x) => x,
            _ => vstd::pervasive::unreached(),
        }
    }

    /// Projects the `Bool` payload, or reports the value and the requested
    /// kind on a variant mismatch.
    pub fn try_bool(self) -> (r: Result<bool, StyleError>)
        ensures
            match r {
                Ok(x) => spec_bool_of(self@) == Some(x),
                Err(e) => spec_bool_of(self@) is None && e == (StyleError::Mismatch {
                    found: self,
                    requested: ValueKind::Bool,
                }),
            },
    {
        match self {
            StyleVal::Bool(x) => Ok(x),
            other => Err(StyleError::Mismatch { found: other, requested: ValueKind::Bool }),
        }
    }

    /// Projects the `Bool` payload of a value known to hold that variant.
    pub fn bool(self) -> (r: bool)
        requires
            self@ is Bool,
        ensures
            Some(r) == spec_bool_of(self@),
    {
        match self {
            StyleVal::Bool(x) => x,
            _ => vstd::pervasive::unreached(),
        }
    }

    /// Projects the `String` payload, or reports the value and the requested
    /// kind on a variant mismatch.
    pub fn try_string(self) -> (r: Result<String, StyleError>)
        ensures
            match r {
                Ok(s) => spec_string_of(self@) == Some(s@),
                Err(e) => spec_string_of(self@) is None && e == (StyleError::Mismatch {
                    found: self,
                    requested: ValueKind::String,
                }),
            },
    {
        match self {
            StyleVal::String(s) => Ok(s),
            other => Err(StyleError::Mismatch { found: other, requested: ValueKind::String }),
        }
    }

    /// Projects the `String` payload of a value known to hold that variant.
    pub fn string(self) -> (r: String)
        requires
            self@ is String,
        ensures
            Some(r@) == spec_string_of(self@),
    {
        match self {
            StyleVal::String(s) => s,
            _ => vstd::pervasive::unreached(),
        }
    }

    /// Borrows the `String` payload of a value known to hold that variant.
    pub fn str(&self) -> (r: &str)
        requires
            self@ is String,
        ensures
            Some(r@) == spec_string_of(self@),
    {
        match self {
            StyleVal::String(s) => s.as_str(),
            _ => vstd::pervasive::unreached(),
        }
    }
}

impl From<Dimension> for StyleVal {
    fn from(x: Dimension) -> Self {
        StyleVal::Dimension(x)
    }
}

impl vstd::std_specs::convert::FromSpecImpl<Dimension> for StyleVal {
    open spec fn obeys_from_spec() -> bool {
        true
    }

    open spec fn from_spec(x: Dimension) -> Self {
        StyleVal::Dimension(x)
    }
}

impl From<Size> for StyleVal {
    fn from(x: Size) -> Self {
        StyleVal::Size(x)
    }
}

impl vstd::std_specs::convert::FromSpecImpl<Size> for StyleVal {
    open spec fn obeys_from_spec() -> bool {
        true
    }

    open spec fn from_spec(x: Size) -> Self {
        StyleVal::Size(x)
    }
}

impl From<Rect> for StyleVal {
    fn from(x: Rect) -> Self {
        StyleVal::Rect(x)
    }
}

impl vstd::std_specs::convert::FromSpecImpl<Rect> for StyleVal {
    open spec fn obeys_from_spec() -> bool {
        true
    }

    open spec fn from_spec(x: Rect) -> Self {
        StyleVal::Rect(x)
    }
}

impl From<Point> for StyleVal {
    fn from(x: Point) -> Self {
        StyleVal::Point(x)
    }
}

impl vstd::std_specs::convert::FromSpecImpl<Point> for StyleVal {
    open spec fn obeys_from_spec() -> bool {
        true
    }

    open spec fn from_spec(x: Point) -> Self {
        StyleVal::Point(x)
    }
}

impl From<Pos> for StyleVal {
    fn from(x: Pos) -> Self {
        StyleVal::Pos(x)
    }
}

impl vstd::std_specs::convert::FromSpecImpl<Pos> for StyleVal {
    open spec fn obeys_from_spec() -> bool {
        true
    }

    open spec fn from_spec(x: Pos) -> Self {
        StyleVal::Pos(x)
    }
}

impl From<Color> for StyleVal {
    fn from(x: Color) -> Self {
        StyleVal::Color(x)
    }
}

impl vstd::std_specs::convert::FromSpecImpl<Color> for StyleVal {
    open spec fn obeys_from_spec() -> bool {
        true
    }

    open spec fn from_spec(x: Color) -> Self {
        StyleVal::Color(x)
    }
}

impl From<Layout> for StyleVal {
    fn from(x: Layout) -> Self {
        StyleVal::Layout(x)
    }
}

impl vstd::std_specs::convert::FromSpecImpl<Layout> for StyleVal {
    open spec fn obeys_from_spec() -> bool {
        true
    }

    open spec fn from_spec(x: Layout) -> Self {
        StyleVal::Layout(x)
    }
}

impl From<HorizontalPosition> for StyleVal {
    fn from(x: HorizontalPosition) -> Self {
        StyleVal::HorizontalPosition(x)
    }
}

impl vstd::std_specs::convert::FromSpecImpl<HorizontalPosition> for StyleVal {
    open spec fn obeys_from_spec() -> bool {
        true
    }

    open spec fn from_spec(x: HorizontalPosition) -> Self {
        StyleVal::HorizontalPosition(x)
    }
}

impl From<VerticalPosition> for StyleVal {
    fn from(x: VerticalPosition) -> Self {
        StyleVal::VerticalPosition(x)
    }
}

impl vstd::std_specs::convert::FromSpecImpl<VerticalPosition> for StyleVal {
    open spec fn obeys_from_spec() -> bool {
        true
    }

    open spec fn from_spec(x: VerticalPosition) -> Self {
        StyleVal::VerticalPosition(x)
    }
}

impl From<BorderWidth> for StyleVal {
    fn from(x: BorderWidth) -> Self {
        StyleVal::BorderWidth(x)
    }
}

impl vstd::std_specs::convert::FromSpecImpl<BorderWidth> for StyleVal {
    open spec fn obeys_from_spec() -> bool {
        true
    }

    open spec fn from_spec(x: BorderWidth) -> Self {
        StyleVal::BorderWidth(x)
    }
}

impl From<FontWeight> for StyleVal {
    fn from(x: FontWeight) -> Self {
        StyleVal::FontWeight(x)
    }
}

impl vstd::std_specs::convert::FromSpecImpl<FontWeight> for StyleVal {
    open spec fn obeys_from_spec() -> bool {
        true
    }

    open spec fn from_spec(x: FontWeight) -> Self {
        StyleVal::FontWeight(x)
    }
}

impl From<u64> for StyleVal {
    fn from(x: u64) -> Self {
        StyleVal::Float(x)
    }
}

impl vstd::std_specs::convert::FromSpecImpl<u64> for StyleVal {
    open spec fn obeys_from_spec() -> bool {
        true
    }

    open spec fn from_spec(x: u64) -> Self {
        StyleVal::Float(x)
    }
}

impl From<u32> for StyleVal {
    fn from(x: u32) -> Self {
        StyleVal::Int(x)
    }
}

impl vstd::std_specs::convert::FromSpecImpl<u32> for StyleVal {
    open spec fn obeys_from_spec() -> bool {
        true
    }

    open spec fn from_spec(x: u32) -> Self {
        StyleVal::Int(x)
    }
}

impl From<bool> for StyleVal {
    fn from(x: bool) -> Self {
        StyleVal::Bool(x)
    }
}

impl vstd::std_specs::convert::FromSpecImpl<bool> for StyleVal {
    open spec fn obeys_from_spec() -> bool {
        true
    }

    open spec fn from_spec(x: bool) -> Self {
        StyleVal::Bool(x)
    }
}

impl From<String> for StyleVal {
    fn from(s: String) -> Self {
        StyleVal::String(s)
    }
}

impl vstd::std_specs::convert::FromSpecImpl<String> for StyleVal {
    open spec fn obeys_from_spec() -> bool {
        true
    }

    open spec fn from_spec(s: String) -> Self {
        StyleVal::String(s)
    }
}

/// Round-trip coercion: injecting a concrete value into the union and
/// projecting it back at the same kind yields the value unchanged, for every
/// concrete type and every representable value.
pub proof fn lemma_coercion_round_trip(
    dimension: Dimension,
    size: Size,
    rect: Rect,
    point: Point,
    pos: Pos,
    color: Color,
    layout: Layout,
    horizontal: HorizontalPosition,
    vertical: VerticalPosition,
    border: BorderWidth,
    weight: FontWeight,
    float_bits: u64,
    integer: u32,
    flag: bool,
    text: Seq<char>,
)
    ensures
        spec_dimension_of(StyleValV::Dimension(dimension)) == Some(dimension),
        spec_size_of(StyleValV::Size(size)) == Some(size),
        spec_rect_of(StyleValV::Rect(rect)) == Some(rect),
        spec_point_of(StyleValV::Point(point)) == Some(point),
        spec_pos_of(StyleValV::Pos(pos)) == Some(pos),
        spec_color_of(StyleValV::Color(color)) == Some(color),
        spec_layout_of(StyleValV::Layout(layout)) == Some(layout),
        spec_horizontal_position_of(StyleValV::HorizontalPosition(horizontal)) == Some(horizontal),
        spec_vertical_position_of(StyleValV::VerticalPosition(vertical)) == Some(vertical),
        spec_border_width_of(StyleValV::BorderWidth(border)) == Some(border),
        spec_font_weight_of(StyleValV::FontWeight(weight)) == Some(weight),
        spec_float_bits_of(StyleValV::Float(float_bits)) == Some(float_bits),
        spec_int_of(StyleValV::Int(integer)) == Some(integer),
        spec_bool_of(StyleValV::Bool(flag)) == Some(flag),
        spec_string_of(StyleValV::String(text)) == Some(text),
{
}

/// Mismatch fails loudly: a projection succeeds exactly on its own variant,
/// so a union value of any other variant yields no value at all -- never a
/// default and never a value of the wrong kind.
pub proof fn lemma_coercion_mismatch(v: StyleValV)
    ensures
        (spec_dimension_of(v) is Some) <==> v is Dimension,
        (spec_size_of(v) is Some) <==> v is Size,
        (spec_rect_of(v) is Some) <==> v is Rect,
        (spec_point_of(v) is Some) <==> v is Point,
        (spec_pos_of(v) is Some) <==> v is Pos,
        (spec_color_of(v) is Some) <==> v is Color,
        (spec_layout_of(v) is Some) <==> v is Layout,
        (spec_horizontal_position_of(v) is Some) <==> v is HorizontalPosition,
        (spec_vertical_position_of(v) is Some) <==> v is VerticalPosition,
        (spec_border_width_of(v) is Some) <==> v is BorderWidth,
        (spec_font_weight_of(v) is Some) <==> v is FontWeight,
        (spec_float_bits_of(v) is Some) <==> v is Float,
        (spec_int_of(v) is Some) <==> v is Int,
        (spec_bool_of(v) is Some) <==> v is Bool,
        (spec_string_of(v) is Some) <==> v is String,
{
}

} // verus!
