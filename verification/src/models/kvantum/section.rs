//! A widget section of a Kvantum theme (`[PanelButtonCommand]`, `[Tab]`,
//! ...).  Sections share a common set of properties and support
//! single-parent inheritance through the `inherits` key.

use vstd::prelude::*;
use crate::models::values::{
    bool_at, get_bool, get_int, get_text, int_at, lookup, opt_bool_text, opt_int_text,
    opt_string_text, set_opt_bool, set_opt_int, set_opt_string, with_opt,
};
use crate::num::push_nat_decimal;
use crate::strmap::{pairs_map, KeyMap, StrMap};
use crate::text::str_eq;
use vstd::std_specs::cmp::PartialEqSpecImpl;

verus! {

broadcast use vstd::string::group_string_axioms;

/// The abstract content of a section: its name and its key/value pairs.
pub struct SectionModel {
    pub name: Seq<char>,
    pub values: Map<Seq<char>, Seq<char>>,
}

/// The key that names a section's parent.
pub open spec fn inherits_key() -> Seq<char> {
    "inherits"@
}

/// `child` flattened onto `parent`: the parent's pairs overridden by the
/// child's, without any `inherits` key, under the child's name.
pub open spec fn resolve_spec(child: SectionModel, parent: SectionModel) -> SectionModel {
    SectionModel {
        name: child.name,
        values: parent.values.remove(inherits_key()).union_prefer_right(child.values).remove(
            inherits_key(),
        ),
    }
}

/// Model for a widget section in a Kvantum `.kvconfig` file.
#[derive(Clone, Debug, PartialEq)]
pub struct KvantumSection {
    /// The section name as it appears in the INI file.
    pub name: String,
    /// Underlying key-value pairs (includes the `inherits` key if present).
    values: StrMap,
}

impl View for KvantumSection {
    type V = SectionModel;

    closed spec fn view(&self) -> SectionModel {
        SectionModel { name: self.name@, values: self.values@ }
    }
}

impl KvantumSection {
    /// The section's name.
    pub fn section_name(&self) -> (r: &str)
        ensures
            r@ == self@.name,
    {
        self.name.as_str()
    }

    /// Create from a section name and its raw key-value map.
    pub fn from_map(name: &str, map: StrMap) -> (s: Self)
        ensures
            s@.name == name@,
            s@.values == map@,
    {
        KvantumSection { name: name.to_string(), values: map }
    }

    /// Create an empty section.
    pub fn empty(name: &str) -> (s: Self)
        ensures
            s@.name == name@,
            s@.values == Map::<Seq<char>, Seq<char>>::empty(),
    {
        KvantumSection { name: name.to_string(), values: StrMap::new() }
    }

    /// Whether the two sections have the same name and pairs.
    pub fn same_as(&self, other: &KvantumSection) -> (r: bool)
        ensures
            r == (self@ == other@),
    {
        let same_name = str_eq(self.name.as_str(), other.name.as_str());
        let same_values = self.values == other.values;
        if same_name && same_values {
            assert(self@ == other@);
            true
        } else {
            assert(same_name ==> !(self.values@ == other.values@));
            false
        }
    }

    /// A copy with the same name and pairs.
    pub fn copy(&self) -> (s: Self)
        ensures
            s@ == self@,
    {
        KvantumSection { name: self.name.clone(), values: self.values.copy() }
    }

    /// The name of the parent section this section inherits from, or `None`.
    pub fn inherits(&self) -> (r: Option<&str>)
        ensures
            match r {
                Some(p) => lookup(self@.values, inherits_key()) == Some(p@),
                None => lookup(self@.values, inherits_key()) is None,
            },
    {
        get_text(&self.values, "inherits")
    }

    /// Whether this section inherits from another.
    pub fn has_inheritance(&self) -> (r: bool)
        ensures
            r == self@.values.contains_key(inherits_key()),
    {
        self.inherits().is_some()
    }

    /// A new section that merges `parent`'s values with this section's
    /// overrides.  The result has no `inherits` key since it is fully
    /// resolved; properties of this section take precedence over the parent's.
    pub fn resolve_with(&self, parent: &KvantumSection) -> (r: Self)
        ensures
            r@ == resolve_spec(self@, parent@),
    {
        let mut merged = parent.values.copy();
        merged.remove("inherits");
        let ghost base = merged@;
        self.values.check();
        let n = self.values.len();
        let ghost p = self.values.pairs();
        let mut i: usize = 0;
        while i < n
            invariant
                i <= n,
                n == p.len(),
                p == self.values.pairs(),
                merged@ == base.union_prefer_right(pairs_map(p.take(i as int))),
            decreases n - i,
        {
            let k = self.values.key_at(i).clone();
            let v = self.values.value_at(i).clone();
            assert(p.take(i + 1).drop_last() =~= p.take(i as int));
            merged.insert(k, v);
            assert(merged@ =~= base.union_prefer_right(pairs_map(p.take(i + 1))));
            i += 1;
        }
        assert(p.take(n as int) =~= p);
        merged.remove("inherits");
        KvantumSection { name: self.name.clone(), values: merged }
    }

    /// The raw value for `key`, or `None` if absent.
    pub fn get_value(&self, key: &str) -> (r: Option<&str>)
        ensures
            match r {
                Some(v) => lookup(self@.values, key@) == Some(v@),
                None => lookup(self@.values, key@) is None,
            },
    {
        get_text(&self.values, key)
    }

    /// Set a raw value.
    pub fn set_value(&mut self, key: &str, value: String)
        ensures
            final(self)@.values == old(self)@.values.insert(key@, value@),
            final(self)@.name == old(self)@.name,
    {
        self.values.set(key, value);
    }

    /// Remove a key.
    pub fn remove_key(&mut self, key: &str)
        ensures
            final(self)@.values == old(self)@.values.remove(key@),
            final(self)@.name == old(self)@.name,
    {
        self.values.remove(key);
    }

    /// A copy of the underlying map.
    pub fn to_map(&self) -> (m: StrMap)
        ensures
            m@ == self@.values,
    {
        self.values.copy()
    }

    /// Number of key-value pairs.
    pub fn len(&self) -> (n: usize)
        ensures
            n == self@.values.len(),
    {
        self.values.len()
    }

    /// Whether the section has no key-value pairs.
    pub fn is_empty(&self) -> (r: bool)
        ensures
            r == (self@.values.len() == 0),
    {
        self.values.is_empty()
    }

    /// A one-line description: the name, the parent if any, and the
    /// number of keys.
    pub fn describe(&self) -> (s: String)
        ensures
            s@ == "KvantumSection("@ + self@.name + match lookup(self@.values, inherits_key()) {
                Some(p) => " inherits="@ + p,
                None => Seq::<char>::empty(),
            } + "), "@ + crate::num::nat_to_decimal(self@.values.len()) + " keys)"@,
    {
        let mut out = String::new();
        out.append("KvantumSection(");
        out.append(self.name.as_str());
        match self.inherits() {
            Some(p) => {
                out.append(" inherits=");
                out.append(p);
            },
            None => {},
        }
        out.append("), ");
        let n = self.values.len();
        push_nat_decimal(&mut out, n as u64);
        out.append(" keys)");
        out
    }

    /// The `frame` flag.
    pub fn frame(&self) -> (r: Option<bool>)
        ensures
            r == bool_at(self@.values, "frame"@),
    {
        get_bool(&self.values, "frame")
    }

    /// Set or remove the `frame` flag.
    pub fn set_frame(&mut self, v: Option<bool>)
        ensures
            final(self)@.values == with_opt(old(self)@.values, "frame"@, opt_bool_text(v)),
            final(self)@.name == old(self)@.name,
    {
        set_opt_bool(&mut self.values, "frame", v);
    }

    /// The `frame.element` value.
    pub fn frame_element(&self) -> (r: Option<&str>)
        ensures
            match r {
                Some(v) => lookup(self@.values, "frame.element"@) == Some(v@),
                None => lookup(self@.values, "frame.element"@) is None,
            },
    {
        get_text(&self.values, "frame.element")
    }

    /// Set or remove the `frame.element` value.
    pub fn set_frame_element(&mut self, v: Option<String>)
        ensures
            final(self)@.values == with_opt(old(self)@.values, "frame.element"@, opt_string_text(v)),
            final(self)@.name == old(self)@.name,
    {
        set_opt_string(&mut self.values, "frame.element", v);
    }

    /// The `frame.top` integer.
    pub fn frame_top(&self) -> (r: Option<i64>)
        ensures
            r == int_at(self@.values, "frame.top"@),
    {
        get_int(&self.values, "frame.top")
    }

    /// Set or remove the `frame.top` integer.
    pub fn set_frame_top(&mut self, v: Option<i64>)
        ensures
            final(self)@.values == with_opt(old(self)@.values, "frame.top"@, opt_int_text(v)),
            final(self)@.name == old(self)@.name,
    {
        set_opt_int(&mut self.values, "frame.top", v);
    }

    /// The `frame.bottom` integer.
    pub fn frame_bottom(&self) -> (r: Option<i64>)
        ensures
            r == int_at(self@.values, "frame.bottom"@),
    {
        get_int(&self.values, "frame.bottom")
    }

    /// Set or remove the `frame.bottom` integer.
    pub fn set_frame_bottom(&mut self, v: Option<i64>)
        ensures
            final(self)@.values == with_opt(old(self)@.values, "frame.bottom"@, opt_int_text(v)),
            final(self)@.name == old(self)@.name,
    {
        set_opt_int(&mut self.values, "frame.bottom", v);
    }

    /// The `frame.left` integer.
    pub fn frame_left(&self) -> (r: Option<i64>)
        ensures
            r == int_at(self@.values, "frame.left"@),
    {
        get_int(&self.values, "frame.left")
    }

    /// Set or remove the `frame.left` integer.
    pub fn set_frame_left(&mut self, v: Option<i64>)
        ensures
            final(self)@.values == with_opt(old(self)@.values, "frame.left"@, opt_int_text(v)),
            final(self)@.name == old(self)@.name,
    {
        set_opt_int(&mut self.values, "frame.left", v);
    }

    /// The `frame.right` integer.
    pub fn frame_right(&self) -> (r: Option<i64>)
        ensures
            r == int_at(self@.values, "frame.right"@),
    {
        get_int(&self.values, "frame.right")
    }

    /// Set or remove the `frame.right` integer.
    pub fn set_frame_right(&mut self, v: Option<i64>)
        ensures
            final(self)@.values == with_opt(old(self)@.values, "frame.right"@, opt_int_text(v)),
            final(self)@.name == old(self)@.name,
    {
        set_opt_int(&mut self.values, "frame.right", v);
    }

    /// The `frame.expansion` integer.
    pub fn frame_expansion(&self) -> (r: Option<i64>)
        ensures
            r == int_at(self@.values, "frame.expansion"@),
    {
        get_int(&self.values, "frame.expansion")
    }

    /// Set or remove the `frame.expansion` integer.
    pub fn set_frame_expansion(&mut self, v: Option<i64>)
        ensures
            final(self)@.values == with_opt(old(self)@.values, "frame.expansion"@, opt_int_text(v)),
            final(self)@.name == old(self)@.name,
    {
        set_opt_int(&mut self.values, "frame.expansion", v);
    }

    /// The `interior` flag.
    pub fn interior(&self) -> (r: Option<bool>)
        ensures
            r == bool_at(self@.values, "interior"@),
    {
        get_bool(&self.values, "interior")
    }

    /// Set or remove the `interior` flag.
    pub fn set_interior(&mut self, v: Option<bool>)
        ensures
            final(self)@.values == with_opt(old(self)@.values, "interior"@, opt_bool_text(v)),
            final(self)@.name == old(self)@.name,
    {
        set_opt_bool(&mut self.values, "interior", v);
    }

    /// The `interior.element` value.
    pub fn interior_element(&self) -> (r: Option<&str>)
        ensures
            match r {
                Some(v) => lookup(self@.values, "interior.element"@) == Some(v@),
                None => lookup(self@.values, "interior.element"@) is None,
            },
    {
        get_text(&self.values, "interior.element")
    }

    /// Set or remove the `interior.element` value.
    pub fn set_interior_element(&mut self, v: Option<String>)
        ensures
            final(self)@.values == with_opt(old(self)@.values, "interior.element"@, opt_string_text(v)),
            final(self)@.name == old(self)@.name,
    {
        set_opt_string(&mut self.values, "interior.element", v);
    }

    /// The `text.normal.color` value.
    pub fn text_normal_color(&self) -> (r: Option<&str>)
        ensures
            match r {
                Some(v) => lookup(self@.values, "text.normal.color"@) == Some(v@),
                None => lookup(self@.values, "text.normal.color"@) is None,
            },
    {
        get_text(&self.values, "text.normal.color")
    }

    /// Set or remove the `text.normal.color` value.
    pub fn set_text_normal_color(&mut self, v: Option<String>)
        ensures
            final(self)@.values == with_opt(old(self)@.values, "text.normal.color"@, opt_string_text(v)),
            final(self)@.name == old(self)@.name,
    {
        set_opt_string(&mut self.values, "text.normal.color", v);
    }

    /// The `text.focus.color` value.
    pub fn text_focus_color(&self) -> (r: Option<&str>)
        ensures
            match r {
                Some(v) => lookup(self@.values, "text.focus.color"@) == Some(v@),
                None => lookup(self@.values, "text.focus.color"@) is None,
            },
    {
        get_text(&self.values, "text.focus.color")
    }

    /// Set or remove the `text.focus.color` value.
    pub fn set_text_focus_color(&mut self, v: Option<String>)
        ensures
            final(self)@.values == with_opt(old(self)@.values, "text.focus.color"@, opt_string_text(v)),
            final(self)@.name == old(self)@.name,
    {
        set_opt_string(&mut self.values, "text.focus.color", v);
    }

    /// The `text.press.color` value.
    pub fn text_press_color(&self) -> (r: Option<&str>)
        ensures
            match r {
                Some(v) => lookup(self@.values, "text.press.color"@) == Some(v@),
                None => lookup(self@.values, "text.press.color"@) is None,
            },
    {
        get_text(&self.values, "text.press.color")
    }

    /// Set or remove the `text.press.color` value.
    pub fn set_text_press_color(&mut self, v: Option<String>)
        ensures
            final(self)@.values == with_opt(old(self)@.values, "text.press.color"@, opt_string_text(v)),
            final(self)@.name == old(self)@.name,
    {
        set_opt_string(&mut self.values, "text.press.color", v);
    }

    /// The `text.toggle.color` value.
    pub fn text_toggle_color(&self) -> (r: Option<&str>)
        ensures
            match r {
                Some(v) => lookup(self@.values, "text.toggle.color"@) == Some(v@),
                None => lookup(self@.values, "text.toggle.color"@) is None,
            },
    {
        get_text(&self.values, "text.toggle.color")
    }

    /// Set or remove the `text.toggle.color` value.
    pub fn set_text_toggle_color(&mut self, v: Option<String>)
        ensures
            final(self)@.values == with_opt(old(self)@.values, "text.toggle.color"@, opt_string_text(v)),
            final(self)@.name == old(self)@.name,
    {
        set_opt_string(&mut self.values, "text.toggle.color", v);
    }

    /// The `text.bold` flag.
    pub fn text_bold(&self) -> (r: Option<bool>)
        ensures
            r == bool_at(self@.values, "text.bold"@),
    {
        get_bool(&self.values, "text.bold")
    }

    /// Set or remove the `text.bold` flag.
    pub fn set_text_bold(&mut self, v: Option<bool>)
        ensures
            final(self)@.values == with_opt(old(self)@.values, "text.bold"@, opt_bool_text(v)),
            final(self)@.name == old(self)@.name,
    {
        set_opt_bool(&mut self.values, "text.bold", v);
    }

    /// The `text.italic` flag.
    pub fn text_italic(&self) -> (r: Option<bool>)
        ensures
            r == bool_at(self@.values, "text.italic"@),
    {
        get_bool(&self.values, "text.italic")
    }

    /// Set or remove the `text.italic` flag.
    pub fn set_text_italic(&mut self, v: Option<bool>)
        ensures
            final(self)@.values == with_opt(old(self)@.values, "text.italic"@, opt_bool_text(v)),
            final(self)@.name == old(self)@.name,
    {
        set_opt_bool(&mut self.values, "text.italic", v);
    }

    /// The `text.margin` value.
    pub fn text_margin(&self) -> (r: Option<&str>)
        ensures
            match r {
                Some(v) => lookup(self@.values, "text.margin"@) == Some(v@),
                None => lookup(self@.values, "text.margin"@) is None,
            },
    {
        get_text(&self.values, "text.margin")
    }

    /// Set or remove the `text.margin` value.
    pub fn set_text_margin(&mut self, v: Option<String>)
        ensures
            final(self)@.values == with_opt(old(self)@.values, "text.margin"@, opt_string_text(v)),
            final(self)@.name == old(self)@.name,
    {
        set_opt_string(&mut self.values, "text.margin", v);
    }

    /// The `text.margin.top` integer.
    pub fn text_margin_top(&self) -> (r: Option<i64>)
        ensures
            r == int_at(self@.values, "text.margin.top"@),
    {
        get_int(&self.values, "text.margin.top")
    }

    /// Set or remove the `text.margin.top` integer.
    pub fn set_text_margin_top(&mut self, v: Option<i64>)
        ensures
            final(self)@.values == with_opt(old(self)@.values, "text.margin.top"@, opt_int_text(v)),
            final(self)@.name == old(self)@.name,
    {
        set_opt_int(&mut self.values, "text.margin.top", v);
    }

    /// The `text.margin.bottom` integer.
    pub fn text_margin_bottom(&self) -> (r: Option<i64>)
        ensures
            r == int_at(self@.values, "text.margin.bottom"@),
    {
        get_int(&self.values, "text.margin.bottom")
    }

    /// Set or remove the `text.margin.bottom` integer.
    pub fn set_text_margin_bottom(&mut self, v: Option<i64>)
        ensures
            final(self)@.values == with_opt(old(self)@.values, "text.margin.bottom"@, opt_int_text(v)),
            final(self)@.name == old(self)@.name,
    {
        set_opt_int(&mut self.values, "text.margin.bottom", v);
    }

    /// The `text.margin.left` integer.
    pub fn text_margin_left(&self) -> (r: Option<i64>)
        ensures
            r == int_at(self@.values, "text.margin.left"@),
    {
        get_int(&self.values, "text.margin.left")
    }

    /// Set or remove the `text.margin.left` integer.
    pub fn set_text_margin_left(&mut self, v: Option<i64>)
        ensures
            final(self)@.values == with_opt(old(self)@.values, "text.margin.left"@, opt_int_text(v)),
            final(self)@.name == old(self)@.name,
    {
        set_opt_int(&mut self.values, "text.margin.left", v);
    }

    /// The `text.margin.right` integer.
    pub fn text_margin_right(&self) -> (r: Option<i64>)
        ensures
            r == int_at(self@.values, "text.margin.right"@),
    {
        get_int(&self.values, "text.margin.right")
    }

    /// Set or remove the `text.margin.right` integer.
    pub fn set_text_margin_right(&mut self, v: Option<i64>)
        ensures
            final(self)@.values == with_opt(old(self)@.values, "text.margin.right"@, opt_int_text(v)),
            final(self)@.name == old(self)@.name,
    {
        set_opt_int(&mut self.values, "text.margin.right", v);
    }

    /// The `indicator.element` value.
    pub fn indicator_element(&self) -> (r: Option<&str>)
        ensures
            match r {
                Some(v) => lookup(self@.values, "indicator.element"@) == Some(v@),
                None => lookup(self@.values, "indicator.element"@) is None,
            },
    {
        get_text(&self.values, "indicator.element")
    }

    /// Set or remove the `indicator.element` value.
    pub fn set_indicator_element(&mut self, v: Option<String>)
        ensures
            final(self)@.values == with_opt(old(self)@.values, "indicator.element"@, opt_string_text(v)),
            final(self)@.name == old(self)@.name,
    {
        set_opt_string(&mut self.values, "indicator.element", v);
    }

    /// The `indicator.size` integer.
    pub fn indicator_size(&self) -> (r: Option<i64>)
        ensures
            r == int_at(self@.values, "indicator.size"@),
    {
        get_int(&self.values, "indicator.size")
    }

    /// Set or remove the `indicator.size` integer.
    pub fn set_indicator_size(&mut self, v: Option<i64>)
        ensures
            final(self)@.values == with_opt(old(self)@.values, "indicator.size"@, opt_int_text(v)),
            final(self)@.name == old(self)@.name,
    {
        set_opt_int(&mut self.values, "indicator.size", v);
    }

    /// The `min_width` value.
    pub fn min_width(&self) -> (r: Option<&str>)
        ensures
            match r {
                Some(v) => lookup(self@.values, "min_width"@) == Some(v@),
                None => lookup(self@.values, "min_width"@) is None,
            },
    {
        get_text(&self.values, "min_width")
    }

    /// Set or remove the `min_width` value.
    pub fn set_min_width(&mut self, v: Option<String>)
        ensures
            final(self)@.values == with_opt(old(self)@.values, "min_width"@, opt_string_text(v)),
            final(self)@.name == old(self)@.name,
    {
        set_opt_string(&mut self.values, "min_width", v);
    }

    /// The `min_height` value.
    pub fn min_height(&self) -> (r: Option<&str>)
        ensures
            match r {
                Some(v) => lookup(self@.values, "min_height"@) == Some(v@),
                None => lookup(self@.values, "min_height"@) is None,
            },
    {
        get_text(&self.values, "min_height")
    }

    /// Set or remove the `min_height` value.
    pub fn set_min_height(&mut self, v: Option<String>)
        ensures
            final(self)@.values == with_opt(old(self)@.values, "min_height"@, opt_string_text(v)),
            final(self)@.name == old(self)@.name,
    {
        set_opt_string(&mut self.values, "min_height", v);
    }

    /// The `focusFrame` flag.
    pub fn focus_frame(&self) -> (r: Option<bool>)
        ensures
            r == bool_at(self@.values, "focusFrame"@),
    {
        get_bool(&self.values, "focusFrame")
    }

    /// Set or remove the `focusFrame` flag.
    pub fn set_focus_frame(&mut self, v: Option<bool>)
        ensures
            final(self)@.values == with_opt(old(self)@.values, "focusFrame"@, opt_bool_text(v)),
            final(self)@.name == old(self)@.name,
    {
        set_opt_bool(&mut self.values, "focusFrame", v);
    }

}

/// A copy of every section, under the same keys.
pub fn copy_sections(m: &KeyMap<KvantumSection>) -> (r: KeyMap<KvantumSection>)
    ensures
        r@ == m@,
{
    m.check();
    let n = m.len();
    let ghost p = m.pairs();
    let mut out: KeyMap<KvantumSection> = KeyMap::new();
    let mut i: usize = 0;
    while i < n
        invariant
            i <= n,
            n == p.len(),
            p == m.pairs(),
            out@ == pairs_map(p.take(i as int)),
        decreases n - i,
    {
        let k = m.key_at(i).clone();
        let v = m.value_at(i).copy();
        assert(p.take(i + 1).drop_last() =~= p.take(i as int));
        out.insert(k, v);
        i += 1;
    }
    assert(p.take(n as int) =~= p);
    out
}

impl Clone for KeyMap<KvantumSection> {
    fn clone(&self) -> (r: Self)
        ensures
            r@ == self@,
    {
        copy_sections(self)
    }
}

impl PartialEq for KeyMap<KvantumSection> {
    fn eq(&self, other: &Self) -> (r: bool) {
        self.check();
        other.check();
        if self.len() != other.len() {
            return false;
        }
        let n = self.len();
        let ghost p = self.pairs();
        let mut i: usize = 0;
        while i < n
            invariant
                i <= n,
                n == p.len(),
                p == self.pairs(),
                self@.len() == other@.len(),
                self@.dom().finite(),
                other@.dom().finite(),
                forall|k: Seq<char>| #[trigger] self@.contains_key(k) <==> crate::strmap::has_key(p, k),
                forall|j: int| 0 <= j < p.len() ==> self@[(#[trigger] p[j]).0] == p[j].1,
                forall|j: int|
                    0 <= j < i ==> other@.contains_key((#[trigger] p[j]).0) && other@[p[j].0] == p[j].1,
            decreases n - i,
        {
            let k = self.key_at(i);
            match other.get(k.as_str()) {
                Some(v) => {
                    if !self.value_at(i).same_as(v) {
                        return false;
                    }
                },
                None => {
                    return false;
                },
            }
            i += 1;
        }
        proof {
            assert(self@.dom().subset_of(other@.dom())) by {
                assert forall|k: Seq<char>| self@.dom().contains(k) implies other@.dom().contains(k) by {
                    assert(self@.contains_key(k));
                    let j = choose|j: int| 0 <= j < p.len() && (#[trigger] p[j]).0 == k;
                }
            }
            vstd::set_lib::lemma_subset_equality(self@.dom(), other@.dom());
            assert forall|k: Seq<char>| self@.contains_key(k) implies self@[k] == other@[k] by {
                let j = choose|j: int| 0 <= j < p.len() && (#[trigger] p[j]).0 == k;
            }
            assert(self@ =~= other@);
        }
        true
    }
}

impl PartialEqSpecImpl for KeyMap<KvantumSection> {
    open spec fn obeys_eq_spec() -> bool {
        true
    }

    open spec fn eq_spec(&self, other: &KeyMap<KvantumSection>) -> bool {
        self@ == other@
    }
}

} // verus!
