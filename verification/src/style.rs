//! Style keys, theme tables, per-instance overrides, and the cascade
//! resolver.
//!
//! A [`Style`] is one complete theme: a mapping from [`StyleKey`] -- the
//! identity triple of component type, parameter and optional class -- to
//! [`StyleVal`].  A [`StyleOverride`] is one component instance's set of
//! style pins, keyed by parameter name alone.  Resolution walks the three
//! precedence tiers: override, first matching class tag, class-less default.

use vstd::prelude::*;

use crate::values::{StyleVal, StyleValV};

verus! {

/// The mathematical value of a [`StyleKey`]: the three fields as character
/// sequences.
pub struct StyleKeyV {
    pub struct_name: Seq<char>,
    pub parameter_name: Seq<char>,
    pub class: Option<Seq<char>>,
}

/// The identity triple addressing one cascade entry: a component type name, a
/// parameter name, and an optional class name.  A key with `class == None` is
/// the component-level default slot, distinct from every classed key.  Keys
/// are structural: two keys are equal exactly when all three fields are.
#[derive(Debug)]
pub struct StyleKey {
    pub struct_name: String,
    pub parameter_name: String,
    pub class: Option<String>,
}

impl View for StyleKey {
    type V = StyleKeyV;

    open spec fn view(&self) -> StyleKeyV {
        StyleKeyV {
            struct_name: self.struct_name@,
            parameter_name: self.parameter_name@,
            class: self.class.deep_view(),
        }
    }
}

impl StyleKey {
    pub fn new(struct_name: &str, parameter_name: &str, class: Option<&str>) -> (k: Self)
        ensures
            k@ == (StyleKeyV {
                struct_name: struct_name@,
                parameter_name: parameter_name@,
                class: class.deep_view(),
            }),
    {
        StyleKey {
            struct_name: struct_name.to_string(),
            parameter_name: parameter_name.to_string(),
            class: match class {
                Some(c) => Some(c.to_string()),
                None => None,
            },
        }
    }
}

impl Clone for StyleKey {
    fn clone(&self) -> (r: Self)
        ensures
            r == *self,
    {
        StyleKey {
            struct_name: self.struct_name.clone(),
            parameter_name: self.parameter_name.clone(),
            class: match &self.class {
                Some(c) => Some(c.clone()),
                None => None,
            },
        }
    }
}

impl PartialEq for StyleKey {
    fn eq(&self, other: &Self) -> (r: bool) {
        self.struct_name == other.struct_name && self.parameter_name == other.parameter_name
            && match (&self.class, &other.class) {
            (Some(a), Some(b)) => *a == *b,
            (None, None) => true,
            _ => false,
        }
    }
}

impl vstd::std_specs::cmp::PartialEqSpecImpl for StyleKey {
    open spec fn obeys_eq_spec() -> bool {
        true
    }

    open spec fn eq_spec(&self, other: &StyleKey) -> bool {
        self@ == other@
    }
}

/// The theme table that a sequence of entries denotes: entries are added in
/// order, so on a duplicate key the last write wins.
pub open spec fn entries_map(s: Seq<(StyleKey, StyleVal)>) -> Map<StyleKeyV, StyleValV>
    decreases s.len(),
{
    if s.len() == 0 {
        Map::empty()
    } else {
        entries_map(s.drop_last()).insert(s.last().0@, s.last().1@)
    }
}

/// Entries whose keys differ from `k` do not affect what the table maps `k`
/// to: dropping an unmatched suffix of the entry sequence leaves the lookup
/// of `k` unchanged.
proof fn lemma_entries_map_skip(s: Seq<(StyleKey, StyleVal)>, i: int, k: StyleKeyV)
    requires
        0 <= i <= s.len(),
        forall|j: int| i <= j < s.len() ==> s[j].0@ != k,
    ensures
        entries_map(s).contains_key(k) == entries_map(s.subrange(0, i)).contains_key(k),
        entries_map(s).contains_key(k) ==> entries_map(s)[k] == entries_map(s.subrange(0, i))[k],
    decreases s.len() - i,
{
    if i == s.len() {
        assert(s.subrange(0, i) =~= s);
    } else {
        let s1 = s.drop_last();
        assert(s.last().0@ != k);
        lemma_entries_map_skip(s1, i, k);
        assert(s1.subrange(0, i) =~= s.subrange(0, i));
    }
}

/// One complete theme: a mapping from [`StyleKey`] to [`StyleVal`], keys
/// unique, last write wins, no ordering semantics.  Built additively with
/// [`Style::add`]; a table is otherwise an immutable value object.
#[derive(Debug)]
pub struct Style {
    entries: Vec<(StyleKey, StyleVal)>,
}

impl View for Style {
    type V = Map<StyleKeyV, StyleValV>;

    closed spec fn view(&self) -> Map<StyleKeyV, StyleValV> {
        entries_map(self.entries@)
    }
}

impl Style {
    /// An empty table.  The shipped default theme is configuration data that
    /// the host assembles with [`Style::add`] and installs itself.
    pub fn new() -> (r: Self)
        ensures
            r@ == Map::<StyleKeyV, StyleValV>::empty(),
    {
        Style { entries: Vec::new() }
    }

    /// Extends the table with one entry; on a key already present the new
    /// value wins.
    pub fn add(self, k: StyleKey, v: StyleVal) -> (r: Self)
        ensures
            r@ == self@.insert(k@, v@),
    {
        let ghost s0 = self.entries@;
        let mut this = self;
        this.entries.push((k, v));
        proof {
            assert(this.entries@.drop_last() =~= s0);
        }
        this
    }

    /// Looks the key up; `None` when the table has no entry for it.
    pub fn get(&self, k: StyleKey) -> (r: Option<StyleVal>)
        ensures
            match r {
                Some(v) => self@.contains_key(k@) && v@ == self@[k@],
                None => !self@.contains_key(k@),
            },
    {
        let ghost s = self.entries@;
        let n = self.entries.len();
        let mut i: usize = n;
        while i > 0
            invariant
                i <= n,
                n == self.entries.len(),
                s == self.entries@,
                forall|j: int| i <= j < n ==> s[j].0@ != k@,
            decreases i,
        {
            i = i - 1;
            if self.entries[i].0 == k {
                proof {
                    lemma_entries_map_skip(s, i + 1, k@);
                    assert(s.subrange(0, i + 1).drop_last() =~= s.subrange(0, i as int));
                    assert(s.subrange(0, i + 1).last() == s[i as int]);
                }
                return Some(self.entries[i].1.clone());
            }
        }
        proof {
            lemma_entries_map_skip(s, 0, k@);
            assert(s.subrange(0, 0) =~= Seq::<(StyleKey, StyleVal)>::empty());
        }
        None
    }

    /// Looks up the component-level default slot for a parameter: the key
    /// with no class.
    pub fn style(&self, component: &str, parameter_name: &str) -> (r: Option<StyleVal>)
        ensures
            match r {
                Some(v) => self@.contains_key(key_v(component@, parameter_name@, None))
                    && v@ == self@[key_v(component@, parameter_name@, None)],
                None => !self@.contains_key(key_v(component@, parameter_name@, None)),
            },
    {
        let key = StyleKey::new(component, parameter_name, None);
        self.get(key)
    }

    /// Looks up the class-scoped slot for a parameter.
    pub fn style_for_class(&self, component: &str, parameter_name: &str, class: &str) -> (r:
        Option<StyleVal>)
        ensures
            match r {
                Some(v) => self@.contains_key(key_v(component@, parameter_name@, Some(class@)))
                    && v@ == self@[key_v(component@, parameter_name@, Some(class@))],
                None => !self@.contains_key(key_v(component@, parameter_name@, Some(class@))),
            },
    {
        let key = StyleKey::new(component, parameter_name, Some(class));
        self.get(key)
    }
}

impl Default for Style {
    /// The empty table, as [`Style::new`].
    fn default() -> (r: Self)
        ensures
            r@ == Map::<StyleKeyV, StyleValV>::empty(),
    {
        Style::new()
    }
}

/// The key addressing component `name`'s parameter `param` in class slot
/// `class`.
pub open spec fn key_v(name: Seq<char>, param: Seq<char>, class: Option<Seq<char>>) -> StyleKeyV {
    StyleKeyV { struct_name: name, parameter_name: param, class }
}

/// The override set that a sequence of `(parameter, value)` entries denotes;
/// on a duplicate parameter the last write wins.
pub open spec fn override_entries_map(s: Seq<(String, StyleVal)>) -> Map<Seq<char>, StyleValV>
    decreases s.len(),
{
    if s.len() == 0 {
        Map::empty()
    } else {
        override_entries_map(s.drop_last()).insert(s.last().0@, s.last().1@)
    }
}

/// As [`lemma_entries_map_skip`], for override sets: entries for other
/// parameters do not affect a parameter's lookup.
proof fn lemma_override_entries_map_skip(s: Seq<(String, StyleVal)>, i: int, p: Seq<char>)
    requires
        0 <= i <= s.len(),
        forall|j: int| i <= j < s.len() ==> s[j].0@ != p,
    ensures
        override_entries_map(s).contains_key(p) == override_entries_map(
            s.subrange(0, i),
        ).contains_key(p),
        override_entries_map(s).contains_key(p) ==> override_entries_map(s)[p]
            == override_entries_map(s.subrange(0, i))[p],
    decreases s.len() - i,
{
    if i == s.len() {
        assert(s.subrange(0, i) =~= s);
    } else {
        let s1 = s.drop_last();
        lemma_override_entries_map_skip(s1, i, p);
        assert(s1.subrange(0, i) =~= s.subrange(0, i));
    }
}

/// One component instance's style pins: a mapping from parameter name to
/// value, owned by that instance alone, outranking every theme entry.
#[derive(Debug)]
pub struct StyleOverride {
    entries: Vec<(String, StyleVal)>,
}

impl View for StyleOverride {
    type V = Map<Seq<char>, StyleValV>;

    closed spec fn view(&self) -> Map<Seq<char>, StyleValV> {
        override_entries_map(self.entries@)
    }
}

impl StyleOverride {
    /// An empty override set.
    pub fn new() -> (r: Self)
        ensures
            r@ == Map::<Seq<char>, StyleValV>::empty(),
    {
        StyleOverride { entries: Vec::new() }
    }

    /// Pins a parameter to a value; a previous pin for the same parameter is
    /// superseded.
    pub fn insert(&mut self, parameter: &str, v: StyleVal)
        ensures
            final(self)@ == old(self)@.insert(parameter@, v@),
    {
        let ghost s0 = self.entries@;
        self.entries.push((parameter.to_string(), v));
        proof {
            assert(self.entries@.drop_last() =~= s0);
        }
    }

    /// The pinned value for a parameter, if the instance has one.
    pub fn get(&self, parameter: &str) -> (r: Option<&StyleVal>)
        ensures
            match r {
                Some(v) => self@.contains_key(parameter@) && v@ == self@[parameter@],
                None => !self@.contains_key(parameter@),
            },
    {
        let ghost s = self.entries@;
        let p = parameter.to_string();
        let n = self.entries.len();
        let mut i: usize = n;
        while i > 0
            invariant
                i <= n,
                n == self.entries.len(),
                s == self.entries@,
                p@ == parameter@,
                forall|j: int| i <= j < n ==> s[j].0@ != parameter@,
            decreases i,
        {
            i = i - 1;
            if self.entries[i].0 == p {
                proof {
                    lemma_override_entries_map_skip(s, i + 1, parameter@);
                    assert(s.subrange(0, i + 1).drop_last() =~= s.subrange(0, i as int));
                    assert(s.subrange(0, i + 1).last() == s[i as int]);
                }
                return Some(&self.entries[i].1);
            }
        }
        proof {
            lemma_override_entries_map_skip(s, 0, parameter@);
            assert(s.subrange(0, 0) =~= Seq::<(String, StyleVal)>::empty());
        }
        None
    }
}

impl Default for StyleOverride {
    /// The empty override set, as [`StyleOverride::new`].
    fn default() -> (r: Self)
        ensures
            r@ == Map::<Seq<char>, StyleValV>::empty(),
    {
        StyleOverride::new()
    }
}

} // verus!
