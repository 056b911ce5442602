//! The `[GeneralColors]` section of a Kvantum theme: typed colour
//! accessors for the known keys and raw access to any key.

use vstd::prelude::*;
use crate::color::{kvantum_text, opaque, to_kvantum_color, Rgba};
use crate::models::values::{color_at, color_ok, color_readable, get_color, lookup};
use crate::num::push_nat_decimal;
use crate::strmap::StrMap;

verus! {

broadcast use vstd::string::group_string_axioms;

/// The known colour keys, in order.
pub open spec fn color_keys() -> Seq<Seq<char>> {
    seq![
        "window.color"@,
        "base.color"@,
        "alt.base.color"@,
        "button.color"@,
        "light.color"@,
        "mid.light.color"@,
        "dark.color"@,
        "mid.color"@,
        "highlight.color"@,
        "inactive.highlight.color"@,
        "text.color"@,
        "window.text.color"@,
        "button.text.color"@,
        "disabled.text.color"@,
        "tooltip.text.color"@,
        "highlight.text.color"@,
        "link.color"@,
        "link.visited.color"@,
        "progress.indicator.text.color"@,
    ]
}

/// The colour stored under `k`, or opaque black.
pub open spec fn color_or_black(m: Map<Seq<char>, Seq<char>>, k: Seq<char>) -> Rgba {
    match color_at(m, k) {
        Some(c) => c,
        None => opaque(0, 0, 0),
    }
}

/// Model for the `[GeneralColors]` section of a Kvantum `.kvconfig` file.
#[derive(Clone, Debug, PartialEq)]
pub struct KvantumColors {
    values: StrMap,
}

impl View for KvantumColors {
    type V = Map<Seq<char>, Seq<char>>;

    closed spec fn view(&self) -> Map<Seq<char>, Seq<char>> {
        self.values@
    }
}

impl KvantumColors {
    /// Whether two sections hold the same pairs.
    pub fn same_as(&self, other: &KvantumColors) -> (r: bool)
        ensures
            r == (self@ == other@),
    {
        self.values == other.values
    }

    /// Create from a raw key-value map.
    pub fn from_map(map: StrMap) -> (c: Self)
        ensures
            c@ == map@,
    {
        KvantumColors { values: map }
    }

    /// Create an empty instance.
    pub fn empty() -> (c: Self)
        ensures
            c@ == Map::<Seq<char>, Seq<char>>::empty(),
    {
        KvantumColors { values: StrMap::new() }
    }

    /// A copy with the same pairs.
    pub fn copy(&self) -> (c: Self)
        ensures
            c@ == self@,
    {
        KvantumColors { values: self.values.copy() }
    }

    /// All known colour key names.
    pub fn all_keys() -> (r: Vec<&'static str>)
        ensures
            r@.map_values(|s: &str| s@) == color_keys(),
    {
        let mut r: Vec<&'static str> = Vec::new();
        r.push("window.color");
        r.push("base.color");
        r.push("alt.base.color");
        r.push("button.color");
        r.push("light.color");
        r.push("mid.light.color");
        r.push("dark.color");
        r.push("mid.color");
        r.push("highlight.color");
        r.push("inactive.highlight.color");
        r.push("text.color");
        r.push("window.text.color");
        r.push("button.text.color");
        r.push("disabled.text.color");
        r.push("tooltip.text.color");
        r.push("highlight.text.color");
        r.push("link.color");
        r.push("link.visited.color");
        r.push("progress.indicator.text.color");

        assert(r@.map_values(|s: &str| s@) =~= color_keys());
        r
    }

    /// The raw value for `key`, or `None` if absent.
    pub fn get_value(&self, key: &str) -> (r: Option<&str>)
        ensures
            match r {
                Some(v) => lookup(self@, key@) == Some(v@),
                None => lookup(self@, key@) is None,
            },
    {
        self.values.get_str(key)
    }

    /// Set a raw value.
    pub fn set_value(&mut self, key: &str, value: String)
        ensures
            final(self)@ == old(self)@.insert(key@, value@),
    {
        self.values.set(key, value);
    }

    /// The colour stored under `key`, in any notation.
    pub fn get_color(&self, key: &str) -> (r: Option<Rgba>)
        requires
            color_ok(self@, key@),
        ensures
            r == color_at(self@, key@),
    {
        get_color(&self.values, key)
    }

    /// Whether the value under `key`, if any, can be read as a colour.
    pub fn color_readable(&self, key: &str) -> (r: bool)
        ensures
            r == color_ok(self@, key@),
    {
        color_readable(&self.values, key)
    }

    /// Store a colour in Kvantum notation (`#rrggbb`, or `#rrggbbaa` when
    /// not opaque).
    pub fn set_color(&mut self, key: &str, c: Rgba)
        ensures
            final(self)@ == old(self)@.insert(key@, kvantum_text(c)),
    {
        self.values.set(key, to_kvantum_color(&c));
    }

    /// A copy of the underlying map.
    pub fn to_map(&self) -> (m: StrMap)
        ensures
            m@ == self@,
    {
        self.values.copy()
    }

    /// Number of key-value pairs.
    pub fn len(&self) -> (n: usize)
        ensures
            n == self@.len(),
    {
        self.values.len()
    }

    /// Whether the map is empty.
    pub fn is_empty(&self) -> (r: bool)
        ensures
            r == (self@.len() == 0),
    {
        self.values.is_empty()
    }

    /// A one-line description with the number of keys.
    pub fn describe(&self) -> (s: String)
        ensures
            s@ == "KvantumColors("@ + crate::num::nat_to_decimal(self@.len()) + " keys)"@,
    {
        let mut out = String::new();
        out.append("KvantumColors(");
        let n = self.values.len();
        push_nat_decimal(&mut out, n as u64);
        out.append(" keys)");
        out
    }

    fn color_or_black(&self, key: &str) -> (r: Rgba)
        requires
            color_ok(self@, key@),
        ensures
            r == color_or_black(self@, key@),
    {
        match self.get_color(key) {
            Some(c) => c,
            None => Rgba::rgb(0, 0, 0),
        }
    }


    /// The `window.color` colour (opaque black when absent or unreadable).
    pub fn window_color(&self) -> (r: Rgba)
        requires
            color_ok(self@, "window.color"@),
        ensures
            r == color_or_black(self@, "window.color"@),
    {
        self.color_or_black("window.color")
    }

    /// Store the `window.color` colour.
    pub fn set_window_color(&mut self, c: Rgba)
        ensures
            final(self)@ == old(self)@.insert("window.color"@, kvantum_text(c)),
    {
        self.set_color("window.color", c);
    }

    /// The `base.color` colour (opaque black when absent or unreadable).
    pub fn base_color(&self) -> (r: Rgba)
        requires
            color_ok(self@, "base.color"@),
        ensures
            r == color_or_black(self@, "base.color"@),
    {
        self.color_or_black("base.color")
    }

    /// Store the `base.color` colour.
    pub fn set_base_color(&mut self, c: Rgba)
        ensures
            final(self)@ == old(self)@.insert("base.color"@, kvantum_text(c)),
    {
        self.set_color("base.color", c);
    }

    /// The `alt.base.color` colour (opaque black when absent or unreadable).
    pub fn alt_base_color(&self) -> (r: Rgba)
        requires
            color_ok(self@, "alt.base.color"@),
        ensures
            r == color_or_black(self@, "alt.base.color"@),
    {
        self.color_or_black("alt.base.color")
    }

    /// Store the `alt.base.color` colour.
    pub fn set_alt_base_color(&mut self, c: Rgba)
        ensures
            final(self)@ == old(self)@.insert("alt.base.color"@, kvantum_text(c)),
    {
        self.set_color("alt.base.color", c);
    }

    /// The `button.color` colour (opaque black when absent or unreadable).
    pub fn button_color(&self) -> (r: Rgba)
        requires
            color_ok(self@, "button.color"@),
        ensures
            r == color_or_black(self@, "button.color"@),
    {
        self.color_or_black("button.color")
    }

    /// Store the `button.color` colour.
    pub fn set_button_color(&mut self, c: Rgba)
        ensures
            final(self)@ == old(self)@.insert("button.color"@, kvantum_text(c)),
    {
        self.set_color("button.color", c);
    }

    /// The `light.color` colour (opaque black when absent or unreadable).
    pub fn light_color(&self) -> (r: Rgba)
        requires
            color_ok(self@, "light.color"@),
        ensures
            r == color_or_black(self@, "light.color"@),
    {
        self.color_or_black("light.color")
    }

    /// Store the `light.color` colour.
    pub fn set_light_color(&mut self, c: Rgba)
        ensures
            final(self)@ == old(self)@.insert("light.color"@, kvantum_text(c)),
    {
        self.set_color("light.color", c);
    }

    /// The `mid.light.color` colour (opaque black when absent or unreadable).
    pub fn mid_light_color(&self) -> (r: Rgba)
        requires
            color_ok(self@, "mid.light.color"@),
        ensures
            r == color_or_black(self@, "mid.light.color"@),
    {
        self.color_or_black("mid.light.color")
    }

    /// Store the `mid.light.color` colour.
    pub fn set_mid_light_color(&mut self, c: Rgba)
        ensures
            final(self)@ == old(self)@.insert("mid.light.color"@, kvantum_text(c)),
    {
        self.set_color("mid.light.color", c);
    }

    /// The `dark.color` colour (opaque black when absent or unreadable).
    pub fn dark_color(&self) -> (r: Rgba)
        requires
            color_ok(self@, "dark.color"@),
        ensures
            r == color_or_black(self@, "dark.color"@),
    {
        self.color_or_black("dark.color")
    }

    /// Store the `dark.color` colour.
    pub fn set_dark_color(&mut self, c: Rgba)
        ensures
            final(self)@ == old(self)@.insert("dark.color"@, kvantum_text(c)),
    {
        self.set_color("dark.color", c);
    }

    /// The `mid.color` colour (opaque black when absent or unreadable).
    pub fn mid_color(&self) -> (r: Rgba)
        requires
            color_ok(self@, "mid.color"@),
        ensures
            r == color_or_black(self@, "mid.color"@),
    {
        self.color_or_black("mid.color")
    }

    /// Store the `mid.color` colour.
    pub fn set_mid_color(&mut self, c: Rgba)
        ensures
            final(self)@ == old(self)@.insert("mid.color"@, kvantum_text(c)),
    {
        self.set_color("mid.color", c);
    }

    /// The `highlight.color` colour (opaque black when absent or unreadable).
    pub fn highlight_color(&self) -> (r: Rgba)
        requires
            color_ok(self@, "highlight.color"@),
        ensures
            r == color_or_black(self@, "highlight.color"@),
    {
        self.color_or_black("highlight.color")
    }

    /// Store the `highlight.color` colour.
    pub fn set_highlight_color(&mut self, c: Rgba)
        ensures
            final(self)@ == old(self)@.insert("highlight.color"@, kvantum_text(c)),
    {
        self.set_color("highlight.color", c);
    }

    /// The `inactive.highlight.color` colour (opaque black when absent or unreadable).
    pub fn inactive_highlight_color(&self) -> (r: Rgba)
        requires
            color_ok(self@, "inactive.highlight.color"@),
        ensures
            r == color_or_black(self@, "inactive.highlight.color"@),
    {
        self.color_or_black("inactive.highlight.color")
    }

    /// Store the `inactive.highlight.color` colour.
    pub fn set_inactive_highlight_color(&mut self, c: Rgba)
        ensures
            final(self)@ == old(self)@.insert("inactive.highlight.color"@, kvantum_text(c)),
    {
        self.set_color("inactive.highlight.color", c);
    }

    /// The `text.color` colour (opaque black when absent or unreadable).
    pub fn text_color(&self) -> (r: Rgba)
        requires
            color_ok(self@, "text.color"@),
        ensures
            r == color_or_black(self@, "text.color"@),
    {
        self.color_or_black("text.color")
    }

    /// Store the `text.color` colour.
    pub fn set_text_color(&mut self, c: Rgba)
        ensures
            final(self)@ == old(self)@.insert("text.color"@, kvantum_text(c)),
    {
        self.set_color("text.color", c);
    }

    /// The `window.text.color` colour (opaque black when absent or unreadable).
    pub fn window_text_color(&self) -> (r: Rgba)
        requires
            color_ok(self@, "window.text.color"@),
        ensures
            r == color_or_black(self@, "window.text.color"@),
    {
        self.color_or_black("window.text.color")
    }

    /// Store the `window.text.color` colour.
    pub fn set_window_text_color(&mut self, c: Rgba)
        ensures
            final(self)@ == old(self)@.insert("window.text.color"@, kvantum_text(c)),
    {
        self.set_color("window.text.color", c);
    }

    /// The `button.text.color` colour (opaque black when absent or unreadable).
    pub fn button_text_color(&self) -> (r: Rgba)
        requires
            color_ok(self@, "button.text.color"@),
        ensures
            r == color_or_black(self@, "button.text.color"@),
    {
        self.color_or_black("button.text.color")
    }

    /// Store the `button.text.color` colour.
    pub fn set_button_text_color(&mut self, c: Rgba)
        ensures
            final(self)@ == old(self)@.insert("button.text.color"@, kvantum_text(c)),
    {
        self.set_color("button.text.color", c);
    }

    /// The `disabled.text.color` colour (opaque black when absent or unreadable).
    pub fn disabled_text_color(&self) -> (r: Rgba)
        requires
            color_ok(self@, "disabled.text.color"@),
        ensures
            r == color_or_black(self@, "disabled.text.color"@),
    {
        self.color_or_black("disabled.text.color")
    }

    /// Store the `disabled.text.color` colour.
    pub fn set_disabled_text_color(&mut self, c: Rgba)
        ensures
            final(self)@ == old(self)@.insert("disabled.text.color"@, kvantum_text(c)),
    {
        self.set_color("disabled.text.color", c);
    }

    /// The `tooltip.text.color` colour (opaque black when absent or unreadable).
    pub fn tooltip_text_color(&self) -> (r: Rgba)
        requires
            color_ok(self@, "tooltip.text.color"@),
        ensures
            r == color_or_black(self@, "tooltip.text.color"@),
    {
        self.color_or_black("tooltip.text.color")
    }

    /// Store the `tooltip.text.color` colour.
    pub fn set_tooltip_text_color(&mut self, c: Rgba)
        ensures
            final(self)@ == old(self)@.insert("tooltip.text.color"@, kvantum_text(c)),
    {
        self.set_color("tooltip.text.color", c);
    }

    /// The `highlight.text.color` colour (opaque black when absent or unreadable).
    pub fn highlight_text_color(&self) -> (r: Rgba)
        requires
            color_ok(self@, "highlight.text.color"@),
        ensures
            r == color_or_black(self@, "highlight.text.color"@),
    {
        self.color_or_black("highlight.text.color")
    }

    /// Store the `highlight.text.color` colour.
    pub fn set_highlight_text_color(&mut self, c: Rgba)
        ensures
            final(self)@ == old(self)@.insert("highlight.text.color"@, kvantum_text(c)),
    {
        self.set_color("highlight.text.color", c);
    }

    /// The `link.color` colour (opaque black when absent or unreadable).
    pub fn link_color(&self) -> (r: Rgba)
        requires
            color_ok(self@, "link.color"@),
        ensures
            r == color_or_black(self@, "link.color"@),
    {
        self.color_or_black("link.color")
    }

    /// Store the `link.color` colour.
    pub fn set_link_color(&mut self, c: Rgba)
        ensures
            final(self)@ == old(self)@.insert("link.color"@, kvantum_text(c)),
    {
        self.set_color("link.color", c);
    }

    /// The `link.visited.color` colour (opaque black when absent or unreadable).
    pub fn link_visited_color(&self) -> (r: Rgba)
        requires
            color_ok(self@, "link.visited.color"@),
        ensures
            r == color_or_black(self@, "link.visited.color"@),
    {
        self.color_or_black("link.visited.color")
    }

    /// Store the `link.visited.color` colour.
    pub fn set_link_visited_color(&mut self, c: Rgba)
        ensures
            final(self)@ == old(self)@.insert("link.visited.color"@, kvantum_text(c)),
    {
        self.set_color("link.visited.color", c);
    }

    /// The `progress.indicator.text.color` colour (opaque black when absent or unreadable).
    pub fn progress_indicator_text_color(&self) -> (r: Rgba)
        requires
            color_ok(self@, "progress.indicator.text.color"@),
        ensures
            r == color_or_black(self@, "progress.indicator.text.color"@),
    {
        self.color_or_black("progress.indicator.text.color")
    }

    /// Store the `progress.indicator.text.color` colour.
    pub fn set_progress_indicator_text_color(&mut self, c: Rgba)
        ensures
            final(self)@ == old(self)@.insert("progress.indicator.text.color"@, kvantum_text(c)),
    {
        self.set_color("progress.indicator.text.color", c);
    }

}

} // verus!

