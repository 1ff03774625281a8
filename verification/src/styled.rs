//! The capability a component type implements to take part in the cascade.

use vstd::prelude::*;

use crate::cascade::spec_resolve;
use crate::style::{key_v, Style, StyleKey, StyleOverride};
use crate::values::{StyleVal, StyleValV};

verus! {

/// The contract of a style-participating component type: a type name shared
/// by every instance, an optional class string per instance, and one owned
/// override set per instance.  The builder methods and the resolution entry
/// point are provided uniformly on top of those accessors.
pub trait Styled: Sized {
    /// The component type's name.
    spec fn spec_name() -> Seq<char>;

    /// The instance's class string, if one is set.
    spec fn spec_class(&self) -> Option<Seq<char>>;

    /// The instance's override set.
    spec fn spec_overrides(&self) -> Map<Seq<char>, StyleValV>;

    /// The type name shared by all instances of this component type.
    fn name() -> (r: &'static str)
        ensures
            r@ == Self::spec_name(),
    ;

    /// The instance's class string.
    fn class(&self) -> (r: Option<&str>)
        ensures
            r.deep_view() == self.spec_class(),
    ;

    /// Replaces the instance's class string, leaving the overrides untouched.
    fn set_class(&mut self, class: &str)
        ensures
            final(self).spec_class() == Some(class@),
            final(self).spec_overrides() == old(self).spec_overrides(),
    ;

    /// The instance's override set.
    fn style_overrides(&self) -> (r: &StyleOverride)
        ensures
            r@ == self.spec_overrides(),
    ;

    /// Pins one parameter in the instance's override set, leaving the class
    /// untouched.
    fn insert_override(&mut self, parameter: &str, val: StyleVal)
        ensures
            final(self).spec_overrides() == old(self).spec_overrides().insert(parameter@, val@),
            final(self).spec_class() == old(self).spec_class(),
    ;

    /// Sets the class string, replacing any previous one; not additive
    /// across calls.
    fn with_class(self, class: &str) -> (r: Self)
        ensures
            r.spec_class() == Some(class@),
            r.spec_overrides() == self.spec_overrides(),
    {
        let mut this = self;
        this.set_class(class);
        this
    }

    /// Pins a parameter to a value on this instance; the pin outranks every
    /// theme entry.
    fn style(self, parameter: &str, val: StyleVal) -> (r: Self)
        ensures
            r.spec_overrides() == self.spec_overrides().insert(parameter@, val@),
            r.spec_class() == self.spec_class(),
    {
        let mut this = self;
        this.insert_override(parameter, val);
        this
    }

    /// As [`Styled::style`] when a value is given; a no-op when it is absent.
    fn maybe_style(self, parameter: &str, val: Option<StyleVal>) -> (r: Self)
        ensures
            r.spec_overrides() == match val {
                Some(v) => self.spec_overrides().insert(parameter@, v@),
                None => self.spec_overrides(),
            },
            r.spec_class() == self.spec_class(),
    {
        match val {
            Some(v) => self.style(parameter, v),
            None => self,
        }
    }

    /// The key addressing one parameter of this component type in the given
    /// class slot.
    fn style_key(&self, parameter_name: &str, class: Option<&str>) -> (k: StyleKey)
        ensures
            k@ == key_v(Self::spec_name(), parameter_name@, class.deep_view()),
    {
        StyleKey::new(Self::name(), parameter_name, class)
    }

    /// Resolves one parameter for this instance against the given theme
    /// table: the instance's own override first, then the first matching
    /// class tag, then the class-less default.  The result is a function of
    /// the table and the instance alone, so installing a new table is total
    /// and immediate: every later call answers from the new table, and
    /// nothing already returned changes.
    fn style_val(&self, style: &Style, param: &str) -> (r: Option<StyleVal>)
        ensures
            r.deep_view() == spec_resolve(
                style@,
                Self::spec_name(),
                self.spec_class(),
                self.spec_overrides(),
                param@,
            ),
    {
        style.resolve(Self::name(), self.class(), self.style_overrides(), param)
    }
}

} // verus!
