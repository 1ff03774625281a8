//! Style resolution for a retained-mode UI component library.
//!
//! A theme is a [`style::Style`] table mapping [`style::StyleKey`]s (component
//! type, parameter, optional class) to [`values::StyleVal`]s, a closed union of
//! concrete style values.  A component instance carries an optional class
//! string and a set of per-instance overrides; the cascade resolver walks the
//! three precedence tiers -- instance override, first matching class tag,
//! class-less default -- and returns the first hit.

pub mod cascade;
pub mod style;
pub mod styled;
pub mod values;
