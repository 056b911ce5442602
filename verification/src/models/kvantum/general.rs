//! The `[%General]` section of a Kvantum theme: typed accessors for the
//! known keys with their defaults, and raw access to any key.

use vstd::prelude::*;
use crate::models::values::{bool_string, bool_text, bool_or, int_or, lookup, text_or};
use crate::num::{i64_to_string, int_to_decimal, parse_i64_str, push_nat_decimal};
use crate::strmap::StrMap;
use crate::text::{join, join_strings, lemma_split_join, split, split_trim, split_trimmed, str_eq, texts, trim};

verus! {

broadcast use vstd::string::group_string_axioms;

/// The list held by the `opaque` key: its comma-separated items, trimmed.
pub open spec fn opaque_list(m: Map<Seq<char>, Seq<char>>) -> Seq<Seq<char>> {
    match lookup(m, "opaque"@) {
        Some(raw) => if raw.len() > 0 {
            split_trim(raw, ',')
        } else {
            Seq::<Seq<char>>::empty()
        },
        None => Seq::<Seq<char>>::empty(),
    }
}

/// Storing a list of applications and reading it back gives the list,
/// when no item holds a comma or white space at either end, and the list
/// is not the single empty item (which reads back as no item).
pub proof fn lemma_opaque_apps_round_trip(m: Map<Seq<char>, Seq<char>>, apps: Seq<Seq<char>>)
    requires
        forall|i: int| 0 <= i < apps.len() ==> !(#[trigger] apps[i]).contains(','),
        forall|i: int| 0 <= i < apps.len() ==> trim(#[trigger] apps[i]) == apps[i],
        apps != seq![Seq::<char>::empty()],
    ensures
        opaque_list(m.insert("opaque"@, join(apps, ","@))) == apps,
{
    reveal_strlit(",");
    assert(","@ =~= seq![',']);
    let raw = join(apps, ","@);
    assert(lookup(m.insert("opaque"@, raw), "opaque"@) == Some(raw));
    if apps.len() == 0 {
    } else {
        lemma_split_join(apps, ',');
        if apps.len() == 1 {
            assert(raw == apps[0]);
            assert(apps[0].len() > 0) by {
                if apps[0].len() == 0 {
                    assert(apps =~= seq![Seq::<char>::empty()]);
                }
            }
        } else {
            assert(raw == join(apps.drop_last(), ","@) + ","@ + apps.last());
            assert(raw.len() > 0);
        }
        assert(split(raw, ',').map_values(|p: Seq<char>| trim(p)) =~= apps);
    }
}

/// Model for the `[%General]` section of a Kvantum `.kvconfig` file.
#[derive(Clone, Debug, PartialEq)]
pub struct KvantumGeneral {
    values: StrMap,
}

impl View for KvantumGeneral {
    type V = Map<Seq<char>, Seq<char>>;

    closed spec fn view(&self) -> Map<Seq<char>, Seq<char>> {
        self.values@
    }
}

impl KvantumGeneral {
    /// Whether two sections hold the same pairs.
    pub fn same_as(&self, other: &KvantumGeneral) -> (r: bool)
        ensures
            r == (self@ == other@),
    {
        self.values == other.values
    }

    /// Create from a raw key-value map.
    pub fn from_map(map: StrMap) -> (g: Self)
        ensures
            g@ == map@,
    {
        KvantumGeneral { values: map }
    }

    /// Create an empty instance (all defaults).
    pub fn empty() -> (g: Self)
        ensures
            g@ == Map::<Seq<char>, Seq<char>>::empty(),
    {
        KvantumGeneral { values: StrMap::new() }
    }

    /// A copy with the same pairs.
    pub fn copy(&self) -> (g: Self)
        ensures
            g@ == self@,
    {
        KvantumGeneral { values: self.values.copy() }
    }

    /// The raw value for `key`, or `None` if absent.
    pub fn get_value(&self, key: &str) -> (r: Option<&str>)
        ensures
            match r {
                Some(v) => lookup(self@, key@) == Some(v@),
                None => lookup(self@, key@) is None,
            },
    {
        self.values.get_str(key)
    }

    /// Set a raw value.
    pub fn set_value(&mut self, key: &str, value: String)
        ensures
            final(self)@ == old(self)@.insert(key@, value@),
    {
        self.values.set(key, value);
    }

    /// Remove a key entirely.
    pub fn remove_key(&mut self, key: &str)
        ensures
            final(self)@ == old(self)@.remove(key@),
    {
        self.values.remove(key);
    }

    /// A copy of the underlying map.
    pub fn to_map(&self) -> (m: StrMap)
        ensures
            m@ == self@,
    {
        self.values.copy()
    }

    /// Number of key-value pairs.
    pub fn len(&self) -> (n: usize)
        ensures
            n == self@.len(),
    {
        self.values.len()
    }

    /// Whether the section has no key-value pairs.
    pub fn is_empty(&self) -> (r: bool)
        ensures
            r == (self@.len() == 0),
    {
        self.values.is_empty()
    }

    /// A one-line description with the number of keys.
    pub fn describe(&self) -> (s: String)
        ensures
            s@ == "KvantumGeneral("@ + crate::num::nat_to_decimal(self@.len()) + " keys)"@,
    {
        let mut out = String::new();
        out.append("KvantumGeneral(");
        let n = self.values.len();
        push_nat_decimal(&mut out, n as u64);
        out.append(" keys)");
        out
    }

    fn string(&self, key: &str, fallback: &str) -> (r: String)
        ensures
            r@ == text_or(self@, key@, fallback@),
    {
        match self.values.get_str(key) {
            Some(v) => v.to_string(),
            None => fallback.to_string(),
        }
    }

    fn bool_val(&self, key: &str, fallback: bool) -> (r: bool)
        ensures
            r == bool_or(self@, key@, fallback),
    {
        match self.values.get_str(key) {
            Some(v) => str_eq(v, "true"),
            None => fallback,
        }
    }

    fn int_val(&self, key: &str, fallback: i64) -> (r: i64)
        ensures
            r == int_or(self@, key@, fallback),
    {
        match self.values.get_str(key) {
            Some(v) => match parse_i64_str(v) {
                Some(i) => i,
                None => fallback,
            },
            None => fallback,
        }
    }

    fn set_string(&mut self, key: &str, value: &str)
        ensures
            final(self)@ == old(self)@.insert(key@, value@),
    {
        self.values.set(key, value.to_string());
    }

    fn set_bool_val(&mut self, key: &str, value: bool)
        ensures
            final(self)@ == old(self)@.insert(key@, bool_text(value)),
    {
        self.values.set(key, bool_string(value));
    }

    fn set_int_val(&mut self, key: &str, value: i64)
        ensures
            final(self)@ == old(self)@.insert(key@, int_to_decimal(value as int)),
    {
        self.values.set(key, i64_to_string(value));
    }

    /// The applications that should stay opaque: the comma-separated items
    /// of the `opaque` key, trimmed (none when absent or empty).
    pub fn opaque_apps(&self) -> (r: Vec<String>)
        ensures
            texts(r@) == opaque_list(self@),
    {
        match self.values.get_str("opaque") {
            Some(raw) => {
                if raw.is_empty() {
                    let r: Vec<String> = Vec::new();
                    assert(texts(r@) =~= Seq::<Seq<char>>::empty());
                    r
                } else {
                    split_trimmed(raw, ',')
                }
            },
            None => {
                let r: Vec<String> = Vec::new();
                assert(texts(r@) =~= Seq::<Seq<char>>::empty());
                r
            },
        }
    }

    /// Store the applications that should stay opaque, joined with commas.
    pub fn set_opaque_apps(&mut self, apps: &[String])
        ensures
            final(self)@ == old(self)@.insert("opaque"@, join(texts(apps@), ","@)),
            ({
                let a = texts(apps@);
                &&& forall|i: int| 0 <= i < a.len() ==> !(#[trigger] a[i]).contains(',')
                &&& forall|i: int| 0 <= i < a.len() ==> trim(#[trigger] a[i]) == a[i]
                &&& a != seq![Seq::<char>::empty()]
            }) ==> opaque_list(final(self)@) == texts(apps@),
    {
        let joined = join_strings(apps, ",");
        self.values.set("opaque", joined);
        proof {
            let a = texts(apps@);
            if (forall|i: int| 0 <= i < a.len() ==> !(#[trigger] a[i]).contains(','))
                && (forall|i: int| 0 <= i < a.len() ==> trim(#[trigger] a[i]) == a[i])
                && a != seq![Seq::<char>::empty()] {
                lemma_opaque_apps_round_trip(old(self)@, a);
            }
        }
    }

    /// The `author` text (`""` when absent).
    pub fn author(&self) -> (r: String)
        ensures
            r@ == text_or(self@, "author"@, ""@),
    {
        self.string("author", "")
    }

    /// Set the `author` text.
    pub fn set_author(&mut self, v: &str)
        ensures
            final(self)@ == old(self)@.insert("author"@, v@),
    {
        self.set_string("author", v);
    }

    /// The `comment` text (`""` when absent).
    pub fn comment(&self) -> (r: String)
        ensures
            r@ == text_or(self@, "comment"@, ""@),
    {
        self.string("comment", "")
    }

    /// Set the `comment` text.
    pub fn set_comment(&mut self, v: &str)
        ensures
            final(self)@ == old(self)@.insert("comment"@, v@),
    {
        self.set_string("comment", v);
    }

    /// The `left_tabs` flag (`false` when absent).
    pub fn left_tabs(&self) -> (r: bool)
        ensures
            r == bool_or(self@, "left_tabs"@, false),
    {
        self.bool_val("left_tabs", false)
    }

    /// Set the `left_tabs` flag.
    pub fn set_left_tabs(&mut self, v: bool)
        ensures
            final(self)@ == old(self)@.insert("left_tabs"@, bool_text(v)),
    {
        self.set_bool_val("left_tabs", v);
    }

    /// The `attach_active_tab` flag (`false` when absent).
    pub fn attach_active_tab(&self) -> (r: bool)
        ensures
            r == bool_or(self@, "attach_active_tab"@, false),
    {
        self.bool_val("attach_active_tab", false)
    }

    /// Set the `attach_active_tab` flag.
    pub fn set_attach_active_tab(&mut self, v: bool)
        ensures
            final(self)@ == old(self)@.insert("attach_active_tab"@, bool_text(v)),
    {
        self.set_bool_val("attach_active_tab", v);
    }

    /// The `no_window_pattern` flag (`false` when absent).
    pub fn no_window_pattern(&self) -> (r: bool)
        ensures
            r == bool_or(self@, "no_window_pattern"@, false),
    {
        self.bool_val("no_window_pattern", false)
    }

    /// Set the `no_window_pattern` flag.
    pub fn set_no_window_pattern(&mut self, v: bool)
        ensures
            final(self)@ == old(self)@.insert("no_window_pattern"@, bool_text(v)),
    {
        self.set_bool_val("no_window_pattern", v);
    }

    /// The `group_toolbar_buttons` flag (`false` when absent).
    pub fn group_toolbar_buttons(&self) -> (r: bool)
        ensures
            r == bool_or(self@, "group_toolbar_buttons"@, false),
    {
        self.bool_val("group_toolbar_buttons", false)
    }

    /// Set the `group_toolbar_buttons` flag.
    pub fn set_group_toolbar_buttons(&mut self, v: bool)
        ensures
            final(self)@ == old(self)@.insert("group_toolbar_buttons"@, bool_text(v)),
    {
        self.set_bool_val("group_toolbar_buttons", v);
    }

    /// The `spread_progressbar` flag (`false` when absent).
    pub fn spread_progressbar(&self) -> (r: bool)
        ensures
            r == bool_or(self@, "spread_progressbar"@, false),
    {
        self.bool_val("spread_progressbar", false)
    }

    /// Set the `spread_progressbar` flag.
    pub fn set_spread_progressbar(&mut self, v: bool)
        ensures
            final(self)@ == old(self)@.insert("spread_progressbar"@, bool_text(v)),
    {
        self.set_bool_val("spread_progressbar", v);
    }

    /// The `composite` flag (`true` when absent).
    pub fn composite(&self) -> (r: bool)
        ensures
            r == bool_or(self@, "composite"@, true),
    {
        self.bool_val("composite", true)
    }

    /// Set the `composite` flag.
    pub fn set_composite(&mut self, v: bool)
        ensures
            final(self)@ == old(self)@.insert("composite"@, bool_text(v)),
    {
        self.set_bool_val("composite", v);
    }

    /// The `spread_menuitems` flag (`false` when absent).
    pub fn spread_menuitems(&self) -> (r: bool)
        ensures
            r == bool_or(self@, "spread_menuitems"@, false),
    {
        self.bool_val("spread_menuitems", false)
    }

    /// Set the `spread_menuitems` flag.
    pub fn set_spread_menuitems(&mut self, v: bool)
        ensures
            final(self)@ == old(self)@.insert("spread_menuitems"@, bool_text(v)),
    {
        self.set_bool_val("spread_menuitems", v);
    }

    /// The `popup_blurring` flag (`false` when absent).
    pub fn popup_blurring(&self) -> (r: bool)
        ensures
            r == bool_or(self@, "popup_blurring"@, false),
    {
        self.bool_val("popup_blurring", false)
    }

    /// Set the `popup_blurring` flag.
    pub fn set_popup_blurring(&mut self, v: bool)
        ensures
            final(self)@ == old(self)@.insert("popup_blurring"@, bool_text(v)),
    {
        self.set_bool_val("popup_blurring", v);
    }

    /// The `menubar_mouse_tracking` flag (`true` when absent).
    pub fn menubar_mouse_tracking(&self) -> (r: bool)
        ensures
            r == bool_or(self@, "menubar_mouse_tracking"@, true),
    {
        self.bool_val("menubar_mouse_tracking", true)
    }

    /// Set the `menubar_mouse_tracking` flag.
    pub fn set_menubar_mouse_tracking(&mut self, v: bool)
        ensures
            final(self)@ == old(self)@.insert("menubar_mouse_tracking"@, bool_text(v)),
    {
        self.set_bool_val("menubar_mouse_tracking", v);
    }

    /// The `vertical_spin_buttons` flag (`true` when absent).
    pub fn vertical_spin_buttons(&self) -> (r: bool)
        ensures
            r == bool_or(self@, "vertical_spin_buttons"@, true),
    {
        self.bool_val("vertical_spin_buttons", true)
    }

    /// Set the `vertical_spin_buttons` flag.
    pub fn set_vertical_spin_buttons(&mut self, v: bool)
        ensures
            final(self)@ == old(self)@.insert("vertical_spin_buttons"@, bool_text(v)),
    {
        self.set_bool_val("vertical_spin_buttons", v);
    }

    /// The `translucent_windows` flag (`false` when absent).
    pub fn translucent_windows(&self) -> (r: bool)
        ensures
            r == bool_or(self@, "translucent_windows"@, false),
    {
        self.bool_val("translucent_windows", false)
    }

    /// Set the `translucent_windows` flag.
    pub fn set_translucent_windows(&mut self, v: bool)
        ensures
            final(self)@ == old(self)@.insert("translucent_windows"@, bool_text(v)),
    {
        self.set_bool_val("translucent_windows", v);
    }

    /// The `blurring` flag (`false` when absent).
    pub fn blurring(&self) -> (r: bool)
        ensures
            r == bool_or(self@, "blurring"@, false),
    {
        self.bool_val("blurring", false)
    }

    /// Set the `blurring` flag.
    pub fn set_blurring(&mut self, v: bool)
        ensures
            final(self)@ == old(self)@.insert("blurring"@, bool_text(v)),
    {
        self.set_bool_val("blurring", v);
    }

    /// The `animate_states` flag (`false` when absent).
    pub fn animate_states(&self) -> (r: bool)
        ensures
            r == bool_or(self@, "animate_states"@, false),
    {
        self.bool_val("animate_states", false)
    }

    /// Set the `animate_states` flag.
    pub fn set_animate_states(&mut self, v: bool)
        ensures
            final(self)@ == old(self)@.insert("animate_states"@, bool_text(v)),
    {
        self.set_bool_val("animate_states", v);
    }

    /// The `combo_as_lineedit` flag (`false` when absent).
    pub fn combo_as_lineedit(&self) -> (r: bool)
        ensures
            r == bool_or(self@, "combo_as_lineedit"@, false),
    {
        self.bool_val("combo_as_lineedit", false)
    }

    /// Set the `combo_as_lineedit` flag.
    pub fn set_combo_as_lineedit(&mut self, v: bool)
        ensures
            final(self)@ == old(self)@.insert("combo_as_lineedit"@, bool_text(v)),
    {
        self.set_bool_val("combo_as_lineedit", v);
    }

    /// The `combo_menu` flag (`false` when absent).
    pub fn combo_menu(&self) -> (r: bool)
        ensures
            r == bool_or(self@, "combo_menu"@, false),
    {
        self.bool_val("combo_menu", false)
    }

    /// Set the `combo_menu` flag.
    pub fn set_combo_menu(&mut self, v: bool)
        ensures
            final(self)@ == old(self)@.insert("combo_menu"@, bool_text(v)),
    {
        self.set_bool_val("combo_menu", v);
    }

    /// The `scroll_arrows` flag (`true` when absent).
    pub fn scroll_arrows(&self) -> (r: bool)
        ensures
            r == bool_or(self@, "scroll_arrows"@, true),
    {
        self.bool_val("scroll_arrows", true)
    }

    /// Set the `scroll_arrows` flag.
    pub fn set_scroll_arrows(&mut self, v: bool)
        ensures
            final(self)@ == old(self)@.insert("scroll_arrows"@, bool_text(v)),
    {
        self.set_bool_val("scroll_arrows", v);
    }

    /// The `fill_rubberband` flag (`false` when absent).
    pub fn fill_rubberband(&self) -> (r: bool)
        ensures
            r == bool_or(self@, "fill_rubberband"@, false),
    {
        self.bool_val("fill_rubberband", false)
    }

    /// Set the `fill_rubberband` flag.
    pub fn set_fill_rubberband(&mut self, v: bool)
        ensures
            final(self)@ == old(self)@.insert("fill_rubberband"@, bool_text(v)),
    {
        self.set_bool_val("fill_rubberband", v);
    }

    /// The `transient_scrollbar` flag (`false` when absent).
    pub fn transient_scrollbar(&self) -> (r: bool)
        ensures
            r == bool_or(self@, "transient_scrollbar"@, false),
    {
        self.bool_val("transient_scrollbar", false)
    }

    /// Set the `transient_scrollbar` flag.
    pub fn set_transient_scrollbar(&mut self, v: bool)
        ensures
            final(self)@ == old(self)@.insert("transient_scrollbar"@, bool_text(v)),
    {
        self.set_bool_val("transient_scrollbar", v);
    }

    /// The `alt_mnemonic` flag (`true` when absent).
    pub fn alt_mnemonic(&self) -> (r: bool)
        ensures
            r == bool_or(self@, "alt_mnemonic"@, true),
    {
        self.bool_val("alt_mnemonic", true)
    }

    /// Set the `alt_mnemonic` flag.
    pub fn set_alt_mnemonic(&mut self, v: bool)
        ensures
            final(self)@ == old(self)@.insert("alt_mnemonic"@, bool_text(v)),
    {
        self.set_bool_val("alt_mnemonic", v);
    }

    /// The `respect_DE` flag (`true` when absent).
    pub fn respect_de(&self) -> (r: bool)
        ensures
            r == bool_or(self@, "respect_DE"@, true),
    {
        self.bool_val("respect_DE", true)
    }

    /// Set the `respect_DE` flag.
    pub fn set_respect_de(&mut self, v: bool)
        ensures
            final(self)@ == old(self)@.insert("respect_DE"@, bool_text(v)),
    {
        self.set_bool_val("respect_DE", v);
    }

    /// The `scrollable_menu` flag (`true` when absent).
    pub fn scrollable_menu(&self) -> (r: bool)
        ensures
            r == bool_or(self@, "scrollable_menu"@, true),
    {
        self.bool_val("scrollable_menu", true)
    }

    /// Set the `scrollable_menu` flag.
    pub fn set_scrollable_menu(&mut self, v: bool)
        ensures
            final(self)@ == old(self)@.insert("scrollable_menu"@, bool_text(v)),
    {
        self.set_bool_val("scrollable_menu", v);
    }

    /// The `tree_branch_line` flag (`false` when absent).
    pub fn tree_branch_line(&self) -> (r: bool)
        ensures
            r == bool_or(self@, "tree_branch_line"@, false),
    {
        self.bool_val("tree_branch_line", false)
    }

    /// Set the `tree_branch_line` flag.
    pub fn set_tree_branch_line(&mut self, v: bool)
        ensures
            final(self)@ == old(self)@.insert("tree_branch_line"@, bool_text(v)),
    {
        self.set_bool_val("tree_branch_line", v);
    }

    /// The `progressbar_thickness` integer (`6` when absent or not a number).
    pub fn progressbar_thickness(&self) -> (r: i64)
        ensures
            r == int_or(self@, "progressbar_thickness"@, 6),
    {
        self.int_val("progressbar_thickness", 6)
    }

    /// Set the `progressbar_thickness` integer.
    pub fn set_progressbar_thickness(&mut self, v: i64)
        ensures
            final(self)@ == old(self)@.insert("progressbar_thickness"@, int_to_decimal(v as int)),
    {
        self.set_int_val("progressbar_thickness", v);
    }

    /// The `menu_shadow_depth` integer (`6` when absent or not a number).
    pub fn menu_shadow_depth(&self) -> (r: i64)
        ensures
            r == int_or(self@, "menu_shadow_depth"@, 6),
    {
        self.int_val("menu_shadow_depth", 6)
    }

    /// Set the `menu_shadow_depth` integer.
    pub fn set_menu_shadow_depth(&mut self, v: i64)
        ensures
            final(self)@ == old(self)@.insert("menu_shadow_depth"@, int_to_decimal(v as int)),
    {
        self.set_int_val("menu_shadow_depth", v);
    }

    /// The `menu_blur_radius` integer (`0` when absent or not a number).
    pub fn menu_blur_radius(&self) -> (r: i64)
        ensures
            r == int_or(self@, "menu_blur_radius"@, 0),
    {
        self.int_val("menu_blur_radius", 0)
    }

    /// Set the `menu_blur_radius` integer.
    pub fn set_menu_blur_radius(&mut self, v: i64)
        ensures
            final(self)@ == old(self)@.insert("menu_blur_radius"@, int_to_decimal(v as int)),
    {
        self.set_int_val("menu_blur_radius", v);
    }

    /// The `tooltip_shadow_depth` integer (`6` when absent or not a number).
    pub fn tooltip_shadow_depth(&self) -> (r: i64)
        ensures
            r == int_or(self@, "tooltip_shadow_depth"@, 6),
    {
        self.int_val("tooltip_shadow_depth", 6)
    }

    /// Set the `tooltip_shadow_depth` integer.
    pub fn set_tooltip_shadow_depth(&mut self, v: i64)
        ensures
            final(self)@ == old(self)@.insert("tooltip_shadow_depth"@, int_to_decimal(v as int)),
    {
        self.set_int_val("tooltip_shadow_depth", v);
    }

    /// The `slider_width` integer (`6` when absent or not a number).
    pub fn slider_width(&self) -> (r: i64)
        ensures
            r == int_or(self@, "slider_width"@, 6),
    {
        self.int_val("slider_width", 6)
    }

    /// Set the `slider_width` integer.
    pub fn set_slider_width(&mut self, v: i64)
        ensures
            final(self)@ == old(self)@.insert("slider_width"@, int_to_decimal(v as int)),
    {
        self.set_int_val("slider_width", v);
    }

    /// The `slider_handle_width` integer (`16` when absent or not a number).
    pub fn slider_handle_width(&self) -> (r: i64)
        ensures
            r == int_or(self@, "slider_handle_width"@, 16),
    {
        self.int_val("slider_handle_width", 16)
    }

    /// Set the `slider_handle_width` integer.
    pub fn set_slider_handle_width(&mut self, v: i64)
        ensures
            final(self)@ == old(self)@.insert("slider_handle_width"@, int_to_decimal(v as int)),
    {
        self.set_int_val("slider_handle_width", v);
    }

    /// The `slider_handle_length` integer (`16` when absent or not a number).
    pub fn slider_handle_length(&self) -> (r: i64)
        ensures
            r == int_or(self@, "slider_handle_length"@, 16),
    {
        self.int_val("slider_handle_length", 16)
    }

    /// Set the `slider_handle_length` integer.
    pub fn set_slider_handle_length(&mut self, v: i64)
        ensures
            final(self)@ == old(self)@.insert("slider_handle_length"@, int_to_decimal(v as int)),
    {
        self.set_int_val("slider_handle_length", v);
    }

    /// The `scroll_min_extent` integer (`36` when absent or not a number).
    pub fn scroll_min_extent(&self) -> (r: i64)
        ensures
            r == int_or(self@, "scroll_min_extent"@, 36),
    {
        self.int_val("scroll_min_extent", 36)
    }

    /// Set the `scroll_min_extent` integer.
    pub fn set_scroll_min_extent(&mut self, v: i64)
        ensures
            final(self)@ == old(self)@.insert("scroll_min_extent"@, int_to_decimal(v as int)),
    {
        self.set_int_val("scroll_min_extent", v);
    }

    /// The `toolbutton_style` integer (`0` when absent or not a number).
    pub fn toolbutton_style(&self) -> (r: i64)
        ensures
            r == int_or(self@, "toolbutton_style"@, 0),
    {
        self.int_val("toolbutton_style", 0)
    }

    /// Set the `toolbutton_style` integer.
    pub fn set_toolbutton_style(&mut self, v: i64)
        ensures
            final(self)@ == old(self)@.insert("toolbutton_style"@, int_to_decimal(v as int)),
    {
        self.set_int_val("toolbutton_style", v);
    }

    /// The `click_behavior` integer (`0` when absent or not a number).
    pub fn click_behavior(&self) -> (r: i64)
        ensures
            r == int_or(self@, "click_behavior"@, 0),
    {
        self.int_val("click_behavior", 0)
    }

    /// Set the `click_behavior` integer.
    pub fn set_click_behavior(&mut self, v: i64)
        ensures
            final(self)@ == old(self)@.insert("click_behavior"@, int_to_decimal(v as int)),
    {
        self.set_int_val("click_behavior", v);
    }

    /// The `small_icon_size` integer (`16` when absent or not a number).
    pub fn small_icon_size(&self) -> (r: i64)
        ensures
            r == int_or(self@, "small_icon_size"@, 16),
    {
        self.int_val("small_icon_size", 16)
    }

    /// Set the `small_icon_size` integer.
    pub fn set_small_icon_size(&mut self, v: i64)
        ensures
            final(self)@ == old(self)@.insert("small_icon_size"@, int_to_decimal(v as int)),
    {
        self.set_int_val("small_icon_size", v);
    }

    /// The `large_icon_size` integer (`32` when absent or not a number).
    pub fn large_icon_size(&self) -> (r: i64)
        ensures
            r == int_or(self@, "large_icon_size"@, 32),
    {
        self.int_val("large_icon_size", 32)
    }

    /// Set the `large_icon_size` integer.
    pub fn set_large_icon_size(&mut self, v: i64)
        ensures
            final(self)@ == old(self)@.insert("large_icon_size"@, int_to_decimal(v as int)),
    {
        self.set_int_val("large_icon_size", v);
    }

    /// The `layout_spacing` integer (`2` when absent or not a number).
    pub fn layout_spacing(&self) -> (r: i64)
        ensures
            r == int_or(self@, "layout_spacing"@, 2),
    {
        self.int_val("layout_spacing", 2)
    }

    /// Set the `layout_spacing` integer.
    pub fn set_layout_spacing(&mut self, v: i64)
        ensures
            final(self)@ == old(self)@.insert("layout_spacing"@, int_to_decimal(v as int)),
    {
        self.set_int_val("layout_spacing", v);
    }

    /// The `layout_margin` integer (`4` when absent or not a number).
    pub fn layout_margin(&self) -> (r: i64)
        ensures
            r == int_or(self@, "layout_margin"@, 4),
    {
        self.int_val("layout_margin", 4)
    }

    /// Set the `layout_margin` integer.
    pub fn set_layout_margin(&mut self, v: i64)
        ensures
            final(self)@ == old(self)@.insert("layout_margin"@, int_to_decimal(v as int)),
    {
        self.set_int_val("layout_margin", v);
    }

    /// The `reduce_window_opacity` integer (`0` when absent or not a number).
    pub fn reduce_window_opacity(&self) -> (r: i64)
        ensures
            r == int_or(self@, "reduce_window_opacity"@, 0),
    {
        self.int_val("reduce_window_opacity", 0)
    }

    /// Set the `reduce_window_opacity` integer.
    pub fn set_reduce_window_opacity(&mut self, v: i64)
        ensures
            final(self)@ == old(self)@.insert("reduce_window_opacity"@, int_to_decimal(v as int)),
    {
        self.set_int_val("reduce_window_opacity", v);
    }

    /// The `reduce_menu_opacity` integer (`0` when absent or not a number).
    pub fn reduce_menu_opacity(&self) -> (r: i64)
        ensures
            r == int_or(self@, "reduce_menu_opacity"@, 0),
    {
        self.int_val("reduce_menu_opacity", 0)
    }

    /// Set the `reduce_menu_opacity` integer.
    pub fn set_reduce_menu_opacity(&mut self, v: i64)
        ensures
            final(self)@ == old(self)@.insert("reduce_menu_opacity"@, int_to_decimal(v as int)),
    {
        self.set_int_val("reduce_menu_opacity", v);
    }

    /// The `submenu_delay` integer (`250` when absent or not a number).
    pub fn submenu_delay(&self) -> (r: i64)
        ensures
            r == int_or(self@, "submenu_delay"@, 250),
    {
        self.int_val("submenu_delay", 250)
    }

    /// Set the `submenu_delay` integer.
    pub fn set_submenu_delay(&mut self, v: i64)
        ensures
            final(self)@ == old(self)@.insert("submenu_delay"@, int_to_decimal(v as int)),
    {
        self.set_int_val("submenu_delay", v);
    }

    /// The `tooltip_delay` integer (`-1` when absent or not a number).
    pub fn tooltip_delay(&self) -> (r: i64)
        ensures
            r == int_or(self@, "tooltip_delay"@, -1i64),
    {
        self.int_val("tooltip_delay", -1)
    }

    /// Set the `tooltip_delay` integer.
    pub fn set_tooltip_delay(&mut self, v: i64)
        ensures
            final(self)@ == old(self)@.insert("tooltip_delay"@, int_to_decimal(v as int)),
    {
        self.set_int_val("tooltip_delay", v);
    }

    /// The X11 drag mode: `"all"`, `"menubar"` or `"none"` (`"all"` when absent).
    pub fn x11drag(&self) -> (r: String)
        ensures
            r@ == text_or(self@, "x11drag"@, "all"@),
    {
        self.string("x11drag", "all")
    }

    /// Set the `x11drag` text.
    pub fn set_x11drag(&mut self, v: &str)
        ensures
            final(self)@ == old(self)@.insert("x11drag"@, v@),
    {
        self.set_string("x11drag", v);
    }

}

} // verus!
