//! The cascade: class-string splitting, the three-tier resolution algorithm,
//! and the precedence laws.
//!
//! Resolution order, first hit wins: the instance's own override for the
//! parameter; else, for each class tag in the order it appears in the class
//! string, the theme entry scoped to that tag; else the class-less default
//! entry; else no value.

use vstd::prelude::*;

use crate::style::{key_v, Style, StyleKey, StyleKeyV, StyleOverride};
use crate::values::{StyleVal, StyleValV};

verus! {

/// The class tags of a class string: the pieces between single space
/// characters, in order.  A string without spaces is one tag; consecutive
/// spaces produce empty tags, which simply match no theme entry.
pub open spec fn spec_split_classes(s: Seq<char>) -> Seq<Seq<char>>
    decreases s.len(),
{
    if s.len() == 0 {
        seq![Seq::<char>::empty()]
    } else if s[0] == ' ' {
        seq![Seq::<char>::empty()] + spec_split_classes(s.drop_first())
    } else {
        let rest = spec_split_classes(s.drop_first());
        seq![seq![s[0]] + rest[0]] + rest.drop_first()
    }
}

/// A class string always splits into at least one tag.
pub proof fn lemma_split_classes_nonempty(s: Seq<char>)
    ensures
        spec_split_classes(s).len() >= 1,
    decreases s.len(),
{
    if s.len() != 0 {
        lemma_split_classes_nonempty(s.drop_first());
    }
}

/// Splitting agrees with scanning for the first space: a space-free prefix up
/// to the end makes the whole string one tag, and a space-free prefix up to a
/// space at `i` makes that prefix the first tag, followed by the split of the
/// remainder.
proof fn lemma_split_classes_step(s: Seq<char>, i: int)
    requires
        0 <= i <= s.len(),
        forall|j: int| 0 <= j < i ==> s[j] != ' ',
    ensures
        i == s.len() ==> spec_split_classes(s) =~= seq![s],
        i < s.len() && s[i] == ' ' ==> spec_split_classes(s) =~= seq![s.subrange(0, i)]
            + spec_split_classes(s.subrange(i + 1, s.len() as int)),
    decreases s.len(),
{
    lemma_split_classes_nonempty(s);
    if s.len() == 0 {
        assert(s =~= Seq::<char>::empty());
        assert(spec_split_classes(s) =~= seq![s]);
    } else if i == 0 {
        if s[0] == ' ' {
            assert(s.subrange(0, 0) =~= Seq::<char>::empty());
            assert(s.subrange(1, s.len() as int) =~= s.drop_first());
        }
    } else {
        let t = s.drop_first();
        let rest = spec_split_classes(t);
        lemma_split_classes_nonempty(t);
        lemma_split_classes_step(t, i - 1);
        if i == s.len() {
            assert(rest =~= seq![t]);
            assert(seq![s[0]] + rest[0] =~= s);
            assert(rest.drop_first() =~= Seq::<Seq<char>>::empty());
            assert(spec_split_classes(s) =~= seq![s]);
        } else if s[i] == ' ' {
            assert(t.subrange(0, i - 1) =~= s.subrange(1, i));
            assert(t.subrange(i, t.len() as int) =~= s.subrange(i + 1, s.len() as int));
            assert(rest =~= seq![s.subrange(1, i)] + spec_split_classes(
                s.subrange(i + 1, s.len() as int),
            ));
            assert(seq![s[0]] + rest[0] =~= s.subrange(0, i));
            assert(rest.drop_first() =~= spec_split_classes(s.subrange(i + 1, s.len() as int)));
            assert(spec_split_classes(s) =~= seq![s.subrange(0, i)] + spec_split_classes(
                s.subrange(i + 1, s.len() as int),
            ));
        }
    }
}

/// Splits a class string on single spaces into its ordered tags.
pub fn split_classes<'a>(s: &'a str) -> (r: Vec<&'a str>)
    ensures
        r.deep_view() == spec_split_classes(s@),
{
    let n = s.unicode_len();
    let mut r: Vec<&'a str> = Vec::new();
    let mut seg_start: usize = 0;
    let mut i: usize = 0;
    proof {
        assert(s@.subrange(0, n as int) =~= s@);
        assert(r.deep_view() =~= Seq::<Seq<char>>::empty());
    }
    while i < n
        invariant
            seg_start <= i <= n,
            n == s@.len(),
            forall|j: int| seg_start <= j < i ==> s@[j] != ' ',
            spec_split_classes(s@) =~= r.deep_view() + spec_split_classes(
                s@.subrange(seg_start as int, n as int),
            ),
        decreases n - i,
    {
        if s.get_char(i) == ' ' {
            let seg = s.substring_char(seg_start, i);
            proof {
                let u = s@.subrange(seg_start as int, n as int);
                lemma_split_classes_step(u, i - seg_start);
                assert(u.subrange(0, i - seg_start) =~= s@.subrange(seg_start as int, i as int));
                assert(u.subrange(i - seg_start + 1, u.len() as int) =~= s@.subrange(
                    i + 1,
                    n as int,
                ));
                assert((r.deep_view() + seq![seg@]) + spec_split_classes(
                    s@.subrange(i + 1, n as int),
                ) =~= r.deep_view() + spec_split_classes(s@.subrange(seg_start as int, n as int)));
            }
            r.push(seg);
            seg_start = i + 1;
        }
        i = i + 1;
    }
    let seg = s.substring_char(seg_start, n);
    proof {
        let u = s@.subrange(seg_start as int, n as int);
        lemma_split_classes_step(u, u.len() as int);
        assert(u =~= seg@);
        assert(r.deep_view() + seq![seg@] =~= r.deep_view() + spec_split_classes(
            s@.subrange(seg_start as int, n as int),
        ));
    }
    r.push(seg);
    r
}

/// The theme entry for a key, if the table has one.
pub open spec fn spec_lookup(table: Map<StyleKeyV, StyleValV>, k: StyleKeyV) -> Option<StyleValV> {
    if table.contains_key(k) {
        Some(table[k])
    } else {
        None
    }
}

/// The entry of the first tag, in order, whose class-scoped key the theme
/// defines; tags are never merged, the first match short-circuits the rest.
pub open spec fn spec_first_class_match(
    table: Map<StyleKeyV, StyleValV>,
    name: Seq<char>,
    param: Seq<char>,
    tags: Seq<Seq<char>>,
) -> Option<StyleValV>
    decreases tags.len(),
{
    if tags.len() == 0 {
        None
    } else if table.contains_key(key_v(name, param, Some(tags[0]))) {
        Some(table[key_v(name, param, Some(tags[0]))])
    } else {
        spec_first_class_match(table, name, param, tags.drop_first())
    }
}

/// The three-tier cascade: the instance override for the parameter if one is
/// pinned; else the first matching class tag's theme entry; else the
/// class-less default entry; else no value.
pub open spec fn spec_resolve(
    table: Map<StyleKeyV, StyleValV>,
    name: Seq<char>,
    class: Option<Seq<char>>,
    overrides: Map<Seq<char>, StyleValV>,
    param: Seq<char>,
) -> Option<StyleValV> {
    if overrides.contains_key(param) {
        Some(overrides[param])
    } else {
        let fallback = spec_lookup(table, key_v(name, param, None));
        match class {
            Some(c) => match spec_first_class_match(table, name, param, spec_split_classes(c)) {
                Some(v) => Some(v),
                None => fallback,
            },
            None => fallback,
        }
    }
}

impl Style {
    /// Resolves one parameter of one component instance against this theme
    /// table, walking the cascade: override, then the instance's class tags
    /// in source order, then the class-less default.
    pub fn resolve(
        &self,
        component: &str,
        class: Option<&str>,
        overrides: &StyleOverride,
        parameter: &str,
    ) -> (r: Option<StyleVal>)
        ensures
            r.deep_view() == spec_resolve(
                self@,
                component@,
                class.deep_view(),
                overrides@,
                parameter@,
            ),
    {
        if let Some(v) = overrides.get(parameter) {
            return Some(v.clone());
        }
        if let Some(c) = class {
            let tags = split_classes(c);
            let n = tags.len();
            let ghost all = tags.deep_view();
            let mut i: usize = 0;
            proof {
                assert(all.subrange(0, n as int) =~= all);
            }
            while i < n
                invariant
                    i <= n,
                    n == all.len(),
                    all == tags.deep_view(),
                    tags@.len() == n,
                    all == spec_split_classes(c@),
                    class == Some(c),
                    !overrides@.contains_key(parameter@),
                    spec_first_class_match(self@, component@, parameter@, all)
                        == spec_first_class_match(
                        self@,
                        component@,
                        parameter@,
                        all.subrange(i as int, n as int),
                    ),
                decreases n - i,
            {
                let key = StyleKey::new(component, parameter, Some(tags[i]));
                proof {
                    assert(all.subrange(i as int, n as int)[0] == tags@[i as int]@);
                }
                if let Some(v) = self.get(key) {
                    return Some(v);
                }
                proof {
                    assert(all.subrange(i as int, n as int).drop_first() =~= all.subrange(
                        i + 1,
                        n as int,
                    ));
                }
                i = i + 1;
            }
            proof {
                assert(all.subrange(n as int, n as int) =~= Seq::<Seq<char>>::empty());
            }
        }
        let key = StyleKey::new(component, parameter, None);
        self.get(key)
    }
}

/// Override precedence: whenever the instance pins the parameter, resolution
/// returns the pinned value, whatever the theme table and the class say.
pub proof fn lemma_override_precedence(
    table: Map<StyleKeyV, StyleValV>,
    name: Seq<char>,
    class: Option<Seq<char>>,
    overrides: Map<Seq<char>, StyleValV>,
    param: Seq<char>,
)
    requires
        overrides.contains_key(param),
    ensures
        spec_resolve(table, name, class, overrides, param) == Some(overrides[param]),
{
}

/// Class irrelevance under override: with the parameter pinned, any two class
/// strings -- or none at all -- resolve to the same value.
pub proof fn lemma_class_irrelevant_under_override(
    table: Map<StyleKeyV, StyleValV>,
    name: Seq<char>,
    class1: Option<Seq<char>>,
    class2: Option<Seq<char>>,
    overrides: Map<Seq<char>, StyleValV>,
    param: Seq<char>,
)
    requires
        overrides.contains_key(param),
    ensures
        spec_resolve(table, name, class1, overrides, param) == spec_resolve(
            table,
            name,
            class2,
            overrides,
            param,
        ),
{
}

/// Class precedence order: without an override, the tag at position `i` wins
/// exactly when the theme defines its class-scoped entry and defines none for
/// any earlier tag; later tags and the default slot are not consulted.
pub proof fn lemma_class_precedence(
    table: Map<StyleKeyV, StyleValV>,
    name: Seq<char>,
    class: Seq<char>,
    overrides: Map<Seq<char>, StyleValV>,
    param: Seq<char>,
    i: int,
)
    requires
        !overrides.contains_key(param),
        0 <= i < spec_split_classes(class).len(),
        table.contains_key(key_v(name, param, Some(spec_split_classes(class)[i]))),
        forall|j: int| 0 <= j < i ==> !table.contains_key(
            key_v(name, param, Some(spec_split_classes(class)[j])),
        ),
    ensures
        spec_resolve(table, name, Some(class), overrides, param) == Some(
            table[key_v(name, param, Some(spec_split_classes(class)[i]))],
        ),
{
    lemma_first_class_match_at(table, name, param, spec_split_classes(class), i);
}

/// The first-match scan returns the entry of the tag at `i` when that tag
/// matches and no earlier one does.
proof fn lemma_first_class_match_at(
    table: Map<StyleKeyV, StyleValV>,
    name: Seq<char>,
    param: Seq<char>,
    tags: Seq<Seq<char>>,
    i: int,
)
    requires
        0 <= i < tags.len(),
        table.contains_key(key_v(name, param, Some(tags[i]))),
        forall|j: int| 0 <= j < i ==> !table.contains_key(key_v(name, param, Some(tags[j]))),
    ensures
        spec_first_class_match(table, name, param, tags) == Some(
            table[key_v(name, param, Some(tags[i]))],
        ),
    decreases i,
{
    if i > 0 {
        lemma_first_class_match_at(table, name, param, tags.drop_first(), i - 1);
    }
}

/// Default fallback: without an override and with no class tag matching, the
/// class-less entry answers the query if the theme has one, and otherwise the
/// resolution is absent.
pub proof fn lemma_default_fallback(
    table: Map<StyleKeyV, StyleValV>,
    name: Seq<char>,
    class: Option<Seq<char>>,
    overrides: Map<Seq<char>, StyleValV>,
    param: Seq<char>,
)
    requires
        !overrides.contains_key(param),
        class matches Some(c) ==> forall|j: int|
            0 <= j < spec_split_classes(c).len() ==> !table.contains_key(
                key_v(name, param, Some(spec_split_classes(c)[j])),
            ),
    ensures
        spec_resolve(table, name, class, overrides, param) == spec_lookup(
            table,
            key_v(name, param, None),
        ),
{
    if let Some(c) = class {
        lemma_first_class_match_none(table, name, param, spec_split_classes(c));
    }
}

/// The first-match scan finds nothing when no tag's class-scoped key is in
/// the theme.
proof fn lemma_first_class_match_none(
    table: Map<StyleKeyV, StyleValV>,
    name: Seq<char>,
    param: Seq<char>,
    tags: Seq<Seq<char>>,
)
    requires
        forall|j: int| 0 <= j < tags.len() ==> !table.contains_key(
            key_v(name, param, Some(tags[j])),
        ),
    ensures
        spec_first_class_match(table, name, param, tags) is None,
    decreases tags.len(),
{
    if tags.len() > 0 {
        lemma_first_class_match_none(table, name, param, tags.drop_first());
    }
}

} // verus!
