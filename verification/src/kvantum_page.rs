//! The Kvantum page and its SVG panel as a state machine: each message (a
//! user action, or the result of outside work) updates the page and tells
//! the caller what outside work to do next.

use vstd::prelude::*;
use crate::editor::{
    session_begin_load, session_edit, session_error, session_load_failed, session_loaded,
    session_redo, session_saved, session_undo, with_color, with_general, with_section_value,
    KvantumEditor, KvantumSave, SessionV,
};
use crate::models::kvantum::config::{ConfigModel, KvantumConfig};
use crate::paths::{file_name, file_name_of, file_stem, stem_of};
use crate::services::kvantum_themes::KvantumThemeData;
use crate::text::{chars_of, str_eq, string_of_range};

verus! {

broadcast use vstd::string::group_string_axioms;

// ---------------------------------------------------------------------------
// The theme handed from the resolver to the loader: `<dir>|||<name>`
// ---------------------------------------------------------------------------

/// `|||` starts at `i` in `s`.
pub open spec fn sep_at(s: Seq<char>, i: int) -> bool {
    &&& 0 <= i
    &&& i + 3 <= s.len()
    &&& s[i] == '|'
    &&& s[i + 1] == '|'
    &&& s[i + 2] == '|'
}

/// `i` is the first place where `|||` starts in `s`.
pub open spec fn first_sep(s: Seq<char>, i: int) -> bool {
    sep_at(s, i) && forall|j: int| 0 <= j < i ==> !sep_at(s, j)
}

/// The directory and the name in `s`, split at the first `|||`
/// (`splitn(2, "|||")`), or `None` without one.
pub open spec fn theme_info_parts(s: Seq<char>) -> Option<(Seq<char>, Seq<char>)> {
    if exists|i: int| first_sep(s, i) {
        let i = choose|i: int| first_sep(s, i);
        Some((s.take(i), s.skip(i + 3)))
    } else {
        None
    }
}

/// The text naming the theme `name` in the directory `dir`.
pub open spec fn theme_info_of(dir: Seq<char>, name: Seq<char>) -> Seq<char> {
    dir + "|||"@ + name
}

proof fn lemma_first_sep_unique(s: Seq<char>, i: int, k: int)
    requires
        first_sep(s, i),
        first_sep(s, k),
    ensures
        i == k,
{
    if i < k {
        assert(!sep_at(s, i));
    } else if k < i {
        assert(!sep_at(s, k));
    }
}

/// The text naming the theme `name` in the directory `dir`.
pub fn theme_info_text(dir: &str, name: &str) -> (r: String)
    ensures
        r@ == theme_info_of(dir@, name@),
{
    let mut r = dir.to_string();
    r.append("|||");
    r.append(name);
    r
}

/// The directory and the name in `info`, split at the first `|||`.
pub fn split_theme_info(info: &str) -> (r: Option<(String, String)>)
    ensures
        match r {
            Some((d, n)) => theme_info_parts(info@) == Some((d@, n@)),
            None => theme_info_parts(info@) is None,
        },
{
    let v = chars_of(info);
    let n = v.len();
    let mut i: usize = 0;
    while n >= 3 && i <= n - 3
        invariant
            i <= n,
            v@ == info@,
            n == v.len(),
            forall|j: int| 0 <= j < i ==> !sep_at(info@, j),
        decreases n - i,
    {
        if v[i] == '|' && v[i + 1] == '|' && v[i + 2] == '|' {
            assert(first_sep(info@, i as int));
            proof {
                let k = choose|k: int| first_sep(info@, k);
                lemma_first_sep_unique(info@, i as int, k);
            }
            let d = string_of_range(&v, 0, i);
            let t = string_of_range(&v, i + 3, n);
            assert(info@.take(i as int) =~= v@.subrange(0, i as int));
            assert(info@.skip(i + 3) =~= v@.subrange(i + 3, n as int));
            return Some((d, t));
        }
        i += 1;
    }
    assert(!exists|k: int| first_sep(info@, k)) by {
        if exists|k: int| first_sep(info@, k) {
            let k = choose|k: int| first_sep(info@, k);
            assert(k < i);
            assert(!sep_at(info@, k));
        }
    }
    None
}

/// The text built for a directory with no `|` in it splits back into
/// that directory and the name.
pub proof fn lemma_theme_info_round_trip(dir: Seq<char>, name: Seq<char>)
    requires
        !dir.contains('|'),
    ensures
        theme_info_parts(theme_info_of(dir, name)) == Some((dir, name)),
{
    let s = theme_info_of(dir, name);
    reveal_strlit("|||");
    let i = dir.len() as int;
    assert(s[i] == '|' && s[i + 1] == '|' && s[i + 2] == '|');
    assert forall|j: int| 0 <= j < i implies !sep_at(s, j) by {
        assert(s[j] == dir[j]);
    }
    assert(first_sep(s, i));
    let k = choose|k: int| first_sep(s, k);
    lemma_first_sep_unique(s, i, k);
    assert(s.take(i) =~= dir);
    assert(s.skip(i + 3) =~= name);
}

// ---------------------------------------------------------------------------
// Messages and actions
// ---------------------------------------------------------------------------

/// Messages of the Kvantum page.
#[derive(Debug)]
pub enum KvantumMessage {
    LoadActiveTheme,
    LoadTheme(String),
    Save,
    SaveAndApply,
    UpdateColor { key: String, value: String },
    UpdateGeneral { key: String, value: String },
    UpdateSection { section: String, key: String, value: String },
    Undo,
    Redo,
    Apply,
    TabChanged(usize),
    OpenThemePicker,
    ShowThemePicker,
    HideThemePicker,
    SelectTheme(String),
    NewTheme,
    NewThemeCreated(Option<String>),
    ApplySystemTheme(String),
    SystemThemeApplied(Result<String, String>),
    ThemesDiscovered(Vec<(String, String, bool)>),
    ThemeLoaded(Result<String, String>),
    /// Reading the theme `name` in `dir` finished.
    ThemeRead { dir: String, name: String, result: Result<KvantumThemeData, String> },
    /// Creating a new theme finished, with its directory.
    ThemeCreated(Result<String, String>),
    Saved(Result<(), String>),
    SavedThenApply(Result<(), String>),
    Applied(Result<String, String>),
}

/// Messages of the SVG panel.
#[derive(Debug)]
pub enum SvgMessage {
    SelectElement(String),
    UpdateFill { element_id: String, color: String },
    UpdateStroke { element_id: String, color: String },
    ImportSvg,
    SvgImported(Option<String>),
    ClearSelection,
}

/// Outside work asked for by the Kvantum page.
pub enum KvantumAction {
    /// Find the active theme and its directory; the answer comes back as
    /// `ThemeLoaded`, with the text of `theme_info_text`.
    ResolveActiveTheme,
    /// Read the theme; it comes back as `ThemeRead`.
    ReadTheme { dir: String, name: String },
    /// Write the theme's files; the outcome comes back as `Saved`, or as
    /// `SavedThenApply` when asked to apply afterwards.
    WriteTheme { save: KvantumSave, then_apply: bool },
    /// Make the theme Kvantum's active one; the outcome comes back as
    /// `Applied`.
    ActivateTheme(String),
    /// Ask for a theme directory; a chosen one comes back as `LoadTheme`.
    PickThemeDir,
    /// List the installed themes; they come back as `ThemesDiscovered`.
    DiscoverThemes,
    /// Ask where to put a new theme; the answer comes back as
    /// `NewThemeCreated`.
    PickNewThemeFile,
    /// Create the theme; its directory comes back as `ThemeCreated`.
    CreateTheme(String),
    /// Make the installed theme the active one; the outcome comes back as
    /// `SystemThemeApplied`.
    ApplySystemTheme(String),
    /// Record the directory as recently opened.
    RecordRecent(String),
    /// Show that the save succeeded.
    FlashSaved,
    /// Bring the Kvantum page to the front.
    ShowPage,
    /// Ask for an SVG file; its text comes back as `SvgImported`.
    PickSvgFile,
}

/// The Kvantum page.
pub struct KvantumPage {
    pub editor: KvantumEditor,
    pub tab: usize,
    pub show_themes: bool,
    /// The discovered themes: name, directory, and whether it is a system
    /// theme.
    pub discovered: Vec<(String, String, bool)>,
    /// The installed themes for the home page: name, and whether it is a
    /// system theme.
    pub installed: Vec<(String, bool)>,
    pub active_theme: Option<String>,
    pub reload_status: Option<String>,
}

/// The session after asking to apply: with a theme name the session stays
/// as it is; without one the failure is shown.
pub open spec fn session_after_apply<M>(s: SessionV<M>, theme_name: Option<String>) -> SessionV<M> {
    match theme_name {
        Some(_) => s,
        None => session_error(s, "Apply failed: "@ + "No theme name to apply."@),
    }
}

/// The actions `acts` are those of asking to apply: activating the theme,
/// when there is a name.
pub open spec fn apply_actions(acts: Seq<KvantumAction>, theme_name: Option<String>) -> bool {
    match theme_name {
        Some(n) => acts.len() == 1 && (acts[0] matches KvantumAction::ActivateTheme(t) && t@ == n@),
        None => acts.len() == 0,
    }
}

/// The name under which a theme directory is loaded: its last component,
/// or `theme`.
pub open spec fn dir_theme_name(path: Seq<char>) -> Seq<char> {
    match file_name_of(path) {
        Some(n) => n,
        None => "theme"@,
    }
}

/// The name of a new theme chosen as the file `path`: the file's stem, or
/// `MyTheme`.
pub open spec fn new_theme_name(path: Seq<char>) -> Seq<char> {
    match file_name_of(path) {
        Some(n) => stem_of(n),
        None => "MyTheme"@,
    }
}

/// `k` is the first discovered theme named `name`.
pub open spec fn first_named(themes: Seq<(String, String, bool)>, name: Seq<char>, k: int) -> bool {
    &&& 0 <= k < themes.len()
    &&& themes[k].0@ == name
    &&& forall|j: int| 0 <= j < k ==> themes[j].0@ != name
}

/// The installed themes listed from the discovered ones.
pub open spec fn installed_of(themes: Seq<(String, String, bool)>) -> Seq<(Seq<char>, bool)> {
    themes.map_values(|t: (String, String, bool)| (t.0@, t.2))
}

/// The texts of installed themes.
pub open spec fn installed_view(v: Seq<(String, bool)>) -> Seq<(Seq<char>, bool)> {
    v.map_values(|t: (String, bool)| (t.0@, t.1))
}

/// Starting to load the theme named in `info` leaves the session `s0` as
/// `s1` and asks for `acts`: reading the theme, or, when `info` names none,
/// nothing but the failure shown.
pub open spec fn info_outcome(
    s0: SessionV<ConfigModel>,
    s1: SessionV<ConfigModel>,
    acts: Seq<KvantumAction>,
    info: Seq<char>,
) -> bool {
    match theme_info_parts(info) {
        Some((d, n)) => {
            &&& s1 == s0
            &&& acts.len() == 1
            &&& acts[0] matches KvantumAction::ReadTheme { dir, name }
            &&& dir@ == d
            &&& name@ == n
        },
        None => s1 == session_load_failed(s0, "Failed to parse theme info"@) && acts.len() == 0,
    }
}

/// Starting to load the theme in the directory `path`: a load begins for
/// the theme named by the directory.
pub open spec fn load_outcome(
    s0: SessionV<ConfigModel>,
    s1: SessionV<ConfigModel>,
    acts: Seq<KvantumAction>,
    path: Seq<char>,
) -> bool {
    info_outcome(session_begin_load(s0), s1, acts, theme_info_of(path, dir_theme_name(path)))
}

impl KvantumPage {
    /// The page with nothing loaded, on its first tab.
    pub fn new() -> (p: Self)
        ensures
            p.editor.session@ == crate::editor::EditSession::<KvantumConfig>::new_view(),
            p.editor.dir_path is None,
            p.editor.theme_name is None,
            p.editor.svg_content is None,
            p.tab == 0,
            !p.show_themes,
            p.discovered@.len() == 0,
            p.installed@.len() == 0,
            p.active_theme is None,
            p.reload_status is None,
    {
        KvantumPage {
            editor: KvantumEditor::new(),
            tab: 0,
            show_themes: false,
            discovered: Vec::new(),
            installed: Vec::new(),
            active_theme: None,
            reload_status: None,
        }
    }

    /// Ask to apply the edited theme.
    fn apply(&mut self) -> (actions: Vec<KvantumAction>)
        ensures
            final(self).editor.session@ == session_after_apply(old(self).editor.session@, old(self).editor.theme_name),
            apply_actions(actions@, old(self).editor.theme_name),
            final(self).editor.theme_name == old(self).editor.theme_name,
            final(self).editor.dir_path == old(self).editor.dir_path,
            final(self).editor.svg_content == old(self).editor.svg_content,
            final(self).tab == old(self).tab,
            final(self).show_themes == old(self).show_themes,
            final(self).discovered == old(self).discovered,
            final(self).installed == old(self).installed,
            final(self).active_theme == old(self).active_theme,
            final(self).reload_status == old(self).reload_status,
    {
        let mut actions: Vec<KvantumAction> = Vec::new();
        match self.editor.apply_target() {
            Ok(t) => actions.push(KvantumAction::ActivateTheme(t)),
            Err(e) => self.editor.session.applied(Err(e)),
        }
        proof {
            reveal_strlit("No theme name to apply.");
        }
        actions
    }

    /// Start loading the theme named in `info`.
    fn theme_info_loaded(&mut self, info: &str) -> (actions: Vec<KvantumAction>)
        ensures
            info_outcome(old(self).editor.session@, final(self).editor.session@, actions@, info@),
            final(self).editor.theme_name == old(self).editor.theme_name,
            final(self).editor.dir_path == old(self).editor.dir_path,
            final(self).editor.svg_content == old(self).editor.svg_content,
            final(self).tab == old(self).tab,
            final(self).show_themes == old(self).show_themes,
            final(self).discovered == old(self).discovered,
            final(self).installed == old(self).installed,
            final(self).active_theme == old(self).active_theme,
            final(self).reload_status == old(self).reload_status,
    {
        let mut actions: Vec<KvantumAction> = Vec::new();
        match split_theme_info(info) {
            Some((dir, name)) => actions.push(KvantumAction::ReadTheme { dir, name }),
            None => self.editor.session.load_failed("Failed to parse theme info".to_string()),
        }
        actions
    }

    /// Start loading the theme in the directory `path`.
    fn load_theme(&mut self, path: &str) -> (actions: Vec<KvantumAction>)
        ensures
            load_outcome(old(self).editor.session@, final(self).editor.session@, actions@, path@),
            final(self).editor.theme_name == old(self).editor.theme_name,
            final(self).editor.dir_path == old(self).editor.dir_path,
            final(self).editor.svg_content == old(self).editor.svg_content,
            final(self).tab == old(self).tab,
            final(self).show_themes == old(self).show_themes,
            final(self).discovered == old(self).discovered,
            final(self).installed == old(self).installed,
            final(self).active_theme == old(self).active_theme,
            final(self).reload_status == old(self).reload_status,
    {
        self.editor.session.begin_load();
        let name = match file_name(path) {
            Some(n) => n,
            None => "theme".to_string(),
        };
        let info = theme_info_text(path, name.as_str());
        self.theme_info_loaded(info.as_str())
    }

    /// The first discovered theme named `name`.
    fn find_discovered(&self, name: &str) -> (r: Option<usize>)
        ensures
            match r {
                Some(k) => first_named(self.discovered@, name@, k as int),
                None => forall|j: int| 0 <= j < self.discovered@.len() ==> self.discovered@[j].0@ != name@,
            },
    {
        let mut k: usize = 0;
        while k < self.discovered.len()
            invariant
                k <= self.discovered@.len(),
                forall|j: int| 0 <= j < k ==> self.discovered@[j].0@ != name@,
            decreases self.discovered@.len() - k,
        {
            if str_eq(self.discovered[k].0.as_str(), name) {
                return Some(k);
            }
            k += 1;
        }
        None
    }

    /// The installed list built from discovered themes.
    fn installed_list(themes: &Vec<(String, String, bool)>) -> (r: Vec<(String, bool)>)
        ensures
            installed_view(r@) == installed_of(themes@),
    {
        let mut r: Vec<(String, bool)> = Vec::new();
        let mut k: usize = 0;
        while k < themes.len()
            invariant
                k <= themes@.len(),
                installed_view(r@) == installed_of(themes@.take(k as int)),
            decreases themes@.len() - k,
        {
            let t = &themes[k];
            let ghost before = r@;
            let name = t.0.clone();
            r.push((name, t.2));
            assert(themes@.take(k + 1) =~= themes@.take(k as int).push(themes@[k as int]));
            assert(installed_view(r@) =~= installed_view(before).push((t.0@, t.2)));
            assert(installed_of(themes@.take(k + 1)) =~= installed_of(themes@.take(k as int)).push(
                (t.0@, t.2),
            ));
            k += 1;
        }
        assert(themes@.take(k as int) =~= themes@);
        r
    }
}

impl KvantumPage {
    /// Handle one message of the Kvantum page; returns the outside work to
    /// do next.  `auto_apply` asks to apply after every save.
    pub fn update(&mut self, msg: KvantumMessage, auto_apply: bool) -> (actions: Vec<KvantumAction>)
        ensures
            match msg {
                KvantumMessage::LoadActiveTheme => {
                    &&& final(self).editor.session@ == session_begin_load(old(self).editor.session@)
                    &&& actions@.len() == 1
                    &&& actions@[0] is ResolveActiveTheme
                },
                KvantumMessage::LoadTheme(path) => load_outcome(
                    old(self).editor.session@,
                    final(self).editor.session@,
                    actions@,
                    path@,
                ),
                KvantumMessage::ThemeLoaded(Ok(info)) => info_outcome(
                    old(self).editor.session@,
                    final(self).editor.session@,
                    actions@,
                    info@,
                ),
                KvantumMessage::ThemeLoaded(Err(e)) => {
                    &&& final(self).editor.session@ == session_load_failed(old(self).editor.session@, e@)
                    &&& actions@.len() == 0
                },
                KvantumMessage::ThemeRead { dir, name, result } => match result {
                    Ok(data) => {
                        &&& final(self).editor.session@ == session_loaded(data.config@)
                        &&& final(self).editor.svg_content == data.svg_content
                        &&& final(self).editor.dir_path == Some(dir)
                        &&& final(self).editor.theme_name == Some(name)
                        &&& actions@.len() == 1
                        &&& actions@[0] matches KvantumAction::RecordRecent(r)
                        &&& r@ == dir@
                    },
                    Err(e) => {
                        &&& final(self).editor.session@ == session_load_failed(old(self).editor.session@, e@)
                        &&& actions@.len() == 0
                    },
                },
                KvantumMessage::Save | KvantumMessage::SaveAndApply => {
                    &&& final(self).editor.session@ == old(self).editor.session@
                    &&& match (old(self).editor.session.config, old(self).editor.dir_path) {
                        (Some(_), Some(_)) => {
                            &&& actions@.len() == 1
                            &&& actions@[0] matches KvantumAction::WriteTheme { save, then_apply }
                            &&& crate::editor::is_save_of(old(self).editor, save)
                            &&& then_apply == (msg is SaveAndApply)
                        },
                        _ => actions@.len() == 0,
                    }
                },
                KvantumMessage::Saved(Ok(())) => {
                    let saved = session_saved(old(self).editor.session@);
                    &&& actions@.len() >= 1
                    &&& actions@[0] is FlashSaved
                    &&& if auto_apply {
                        &&& final(self).editor.session@ == session_after_apply(saved, old(self).editor.theme_name)
                        &&& apply_actions(actions@.skip(1), old(self).editor.theme_name)
                    } else {
                        &&& final(self).editor.session@ == saved
                        &&& actions@.len() == 1
                    }
                },
                KvantumMessage::SavedThenApply(Ok(())) => {
                    &&& final(self).editor.session@ == session_after_apply(
                        session_saved(old(self).editor.session@),
                        old(self).editor.theme_name,
                    )
                    &&& actions@.len() >= 1
                    &&& actions@[0] is FlashSaved
                    &&& apply_actions(actions@.skip(1), old(self).editor.theme_name)
                },
                KvantumMessage::Saved(Err(e)) | KvantumMessage::SavedThenApply(Err(e)) => {
                    &&& final(self).editor.session@ == session_error(old(self).editor.session@, "Save failed: "@ + e@)
                    &&& actions@.len() == 0
                },
                KvantumMessage::UpdateColor { key, value } => {
                    &&& final(self).editor.session@ == match old(self).editor.session@.config {
                        Some(c) => session_edit(old(self).editor.session@, with_color(c, key@, value@)),
                        None => old(self).editor.session@,
                    }
                    &&& actions@.len() == 0
                },
                KvantumMessage::UpdateGeneral { key, value } => {
                    &&& final(self).editor.session@ == match old(self).editor.session@.config {
                        Some(c) => session_edit(old(self).editor.session@, with_general(c, key@, value@)),
                        None => old(self).editor.session@,
                    }
                    &&& actions@.len() == 0
                },
                KvantumMessage::UpdateSection { section, key, value } => {
                    &&& final(self).editor.session@ == match old(self).editor.session@.config {
                        Some(c) => session_edit(
                            old(self).editor.session@,
                            with_section_value(c, section@, key@, value@),
                        ),
                        None => old(self).editor.session@,
                    }
                    &&& actions@.len() == 0
                },
                KvantumMessage::Undo => {
                    &&& final(self).editor.session@ == session_undo(old(self).editor.session@)
                    &&& actions@.len() == 0
                },
                KvantumMessage::Redo => {
                    &&& final(self).editor.session@ == session_redo(old(self).editor.session@)
                    &&& actions@.len() == 0
                },
                KvantumMessage::Apply => {
                    &&& final(self).editor.session@ == session_after_apply(
                        old(self).editor.session@,
                        old(self).editor.theme_name,
                    )
                    &&& apply_actions(actions@, old(self).editor.theme_name)
                },
                KvantumMessage::Applied(Ok(_)) => {
                    &&& final(self).editor.session@ == old(self).editor.session@
                    &&& actions@.len() == 0
                },
                KvantumMessage::Applied(Err(e)) => {
                    &&& final(self).editor.session@ == session_error(old(self).editor.session@, "Apply failed: "@ + e@)
                    &&& actions@.len() == 0
                },
                KvantumMessage::TabChanged(t) => final(self).tab == t && actions@.len() == 0,
                KvantumMessage::OpenThemePicker => actions@.len() == 1 && actions@[0] is PickThemeDir,
                KvantumMessage::ShowThemePicker => {
                    &&& final(self).show_themes
                    &&& actions@.len() == 1
                    &&& actions@[0] is DiscoverThemes
                },
                KvantumMessage::HideThemePicker => !final(self).show_themes && actions@.len() == 0,
                KvantumMessage::SelectTheme(name) => {
                    &&& !final(self).show_themes
                    &&& if exists|k: int| first_named(old(self).discovered@, name@, k) {
                        let k = choose|k: int| first_named(old(self).discovered@, name@, k);
                        load_outcome(
                            old(self).editor.session@,
                            final(self).editor.session@,
                            actions@,
                            old(self).discovered@[k].1@,
                        )
                    } else {
                        &&& final(self).editor.session@ == old(self).editor.session@
                        &&& actions@.len() == 0
                    }
                },
                KvantumMessage::NewTheme => actions@.len() == 1 && actions@[0] is PickNewThemeFile,
                KvantumMessage::NewThemeCreated(Some(path)) => {
                    &&& actions@.len() == 1
                    &&& actions@[0] matches KvantumAction::CreateTheme(n)
                    &&& n@ == new_theme_name(path@)
                },
                KvantumMessage::NewThemeCreated(None) => actions@.len() == 0,
                KvantumMessage::ThemeCreated(Ok(dir)) => {
                    &&& actions@.len() >= 2
                    &&& actions@[0] is ShowPage
                    &&& actions@.last() is DiscoverThemes
                    &&& load_outcome(
                        old(self).editor.session@,
                        final(self).editor.session@,
                        actions@.subrange(1, actions@.len() - 1),
                        dir@,
                    )
                },
                KvantumMessage::ThemeCreated(Err(e)) => {
                    &&& final(self).editor.session@ == session_error(
                        old(self).editor.session@,
                        "Failed to create theme: "@ + e@,
                    )
                    &&& actions@.len() == 0
                },
                KvantumMessage::ApplySystemTheme(name) => {
                    &&& actions@.len() == 1
                    &&& actions@[0] matches KvantumAction::ApplySystemTheme(n)
                    &&& n@ == name@
                },
                KvantumMessage::SystemThemeApplied(Ok(name)) => {
                    &&& final(self).reload_status matches Some(st)
                    &&& st@ == "Applied: "@ + name@
                    &&& final(self).active_theme == Some(name)
                    &&& final(self).editor.session@ == session_begin_load(
                        SessionV { config: None, ..old(self).editor.session@ },
                    )
                    &&& actions@.len() == 1
                    &&& actions@[0] is ResolveActiveTheme
                },
                KvantumMessage::SystemThemeApplied(Err(m)) => {
                    &&& final(self).reload_status == Some(m)
                    &&& actions@.len() == 0
                },
                KvantumMessage::ThemesDiscovered(themes) => {
                    &&& final(self).discovered == themes
                    &&& installed_view(final(self).installed@) == installed_of(themes@)
                    &&& actions@.len() == 0
                },
            },
            !(msg is TabChanged) ==> final(self).tab == old(self).tab,
            !(msg is ShowThemePicker || msg is HideThemePicker || msg is SelectTheme) ==> final(self).show_themes
                == old(self).show_themes,
            !(msg is ThemesDiscovered) ==> final(self).discovered == old(self).discovered
                && final(self).installed == old(self).installed,
            !(msg is SystemThemeApplied) ==> final(self).reload_status == old(self).reload_status
                && final(self).active_theme == old(self).active_theme,
            !(msg is ThemeRead) ==> final(self).editor.dir_path == old(self).editor.dir_path
                && final(self).editor.theme_name == old(self).editor.theme_name
                && final(self).editor.svg_content == old(self).editor.svg_content,
            (msg is TabChanged || msg is OpenThemePicker || msg is ShowThemePicker || msg is HideThemePicker
                || msg is NewTheme || msg is NewThemeCreated || msg is ApplySystemTheme || msg is ThemesDiscovered
                || msg matches KvantumMessage::SystemThemeApplied(Err(_))) ==> final(self).editor.session@
                == old(self).editor.session@,
    {
        let mut actions: Vec<KvantumAction> = Vec::new();
        match msg {
            KvantumMessage::LoadActiveTheme => {
                self.editor.session.begin_load();
                actions.push(KvantumAction::ResolveActiveTheme);
            },
            KvantumMessage::LoadTheme(path) => {
                actions = self.load_theme(path.as_str());
            },
            KvantumMessage::ThemeLoaded(Ok(info)) => {
                actions = self.theme_info_loaded(info.as_str());
            },
            KvantumMessage::ThemeLoaded(Err(e)) => {
                self.editor.session.load_failed(e);
            },
            KvantumMessage::ThemeRead { dir, name, result } => {
                match self.editor.theme_loaded(dir, name, result) {
                    Some(r) => actions.push(KvantumAction::RecordRecent(r)),
                    None => {},
                }
            },
            KvantumMessage::Save => {
                match self.editor.save_request() {
                    Some(save) => actions.push(KvantumAction::WriteTheme { save, then_apply: false }),
                    None => {},
                }
            },
            KvantumMessage::SaveAndApply => {
                match self.editor.save_request() {
                    Some(save) => actions.push(KvantumAction::WriteTheme { save, then_apply: true }),
                    None => {},
                }
            },
            KvantumMessage::Saved(result) => {
                let ok = result.is_ok();
                let apply = self.editor.session.saved(result, auto_apply);
                if ok {
                    actions.push(KvantumAction::FlashSaved);
                }
                if apply {
                    let mut more = self.apply();
                    assert(actions@ == seq![KvantumAction::FlashSaved]);
                    actions.append(&mut more);
                }
            },
            KvantumMessage::SavedThenApply(result) => {
                let ok = result.is_ok();
                let apply = self.editor.session.saved(result, true);
                if ok {
                    actions.push(KvantumAction::FlashSaved);
                }
                if apply {
                    let mut more = self.apply();
                    actions.append(&mut more);
                }
            },
            KvantumMessage::UpdateColor { key, value } => {
                self.editor.update_color(key.as_str(), value);
            },
            KvantumMessage::UpdateGeneral { key, value } => {
                self.editor.update_general(key.as_str(), value);
            },
            KvantumMessage::UpdateSection { section, key, value } => {
                self.editor.update_section(section.as_str(), key.as_str(), value);
            },
            KvantumMessage::Undo => {
                self.editor.session.undo();
            },
            KvantumMessage::Redo => {
                self.editor.session.redo();
            },
            KvantumMessage::Apply => {
                actions = self.apply();
            },
            KvantumMessage::Applied(result) => {
                self.editor.session.applied(result);
            },
            KvantumMessage::TabChanged(t) => {
                self.tab = t;
            },
            KvantumMessage::OpenThemePicker => {
                actions.push(KvantumAction::PickThemeDir);
            },
            KvantumMessage::ShowThemePicker => {
                self.show_themes = true;
                actions.push(KvantumAction::DiscoverThemes);
            },
            KvantumMessage::HideThemePicker => {
                self.show_themes = false;
            },
            KvantumMessage::SelectTheme(name) => {
                self.show_themes = false;
                match self.find_discovered(name.as_str()) {
                    Some(k) => {
                        proof {
                            let j = choose|j: int| first_named(old(self).discovered@, name@, j);
                            if j < k {
                                assert(self.discovered@[j].0@ != name@);
                            } else if k < j {
                                assert(self.discovered@[k as int].0@ != name@);
                            }
                        }
                        let dir = self.discovered[k].1.clone();
                        actions = self.load_theme(dir.as_str());
                    },
                    None => {},
                }
            },
            KvantumMessage::NewTheme => {
                actions.push(KvantumAction::PickNewThemeFile);
            },
            KvantumMessage::NewThemeCreated(Some(path)) => {
                let name = match file_stem(path.as_str()) {
                    Some(n) => n,
                    None => "MyTheme".to_string(),
                };
                actions.push(KvantumAction::CreateTheme(name));
            },
            KvantumMessage::NewThemeCreated(None) => {},
            KvantumMessage::ThemeCreated(Ok(dir)) => {
                actions.push(KvantumAction::ShowPage);
                let mut load = self.load_theme(dir.as_str());
                let ghost mid = load@;
                actions.append(&mut load);
                actions.push(KvantumAction::DiscoverThemes);
                assert(actions@.subrange(1, actions@.len() - 1) =~= mid);
            },
            KvantumMessage::ThemeCreated(Err(e)) => {
                let mut m = "Failed to create theme: ".to_string();
                m.append(e.as_str());
                self.editor.session.error = Some(m);
            },
            KvantumMessage::ApplySystemTheme(name) => {
                actions.push(KvantumAction::ApplySystemTheme(name));
            },
            KvantumMessage::SystemThemeApplied(Ok(name)) => {
                self.reload_status = Some(crate::settings::applied_status(name.as_str()));
                self.active_theme = Some(name);
                self.editor.session.config = None;
                self.editor.session.begin_load();
                actions.push(KvantumAction::ResolveActiveTheme);
            },
            KvantumMessage::SystemThemeApplied(Err(m)) => {
                self.reload_status = Some(m);
            },
            KvantumMessage::ThemesDiscovered(themes) => {
                self.installed = Self::installed_list(&themes);
                self.discovered = themes;
            },
        }
        actions
    }

    /// Handle one message of the SVG panel; returns the outside work to do
    /// next.  Selecting an element changes nothing here.
    pub fn update_svg(&mut self, msg: SvgMessage) -> (actions: Vec<KvantumAction>)
        ensures
            match msg {
                SvgMessage::UpdateFill { element_id, color } => match old(self).editor.svg_content {
                    Some(svg) => final(self).editor.svg_content matches Some(t) && exists|ns: Seq<char>|
                        crate::svg::new_style_ok(svg@, element_id@, "fill"@, color@, ns)
                            && t@ == crate::svg::set_color_spec(svg@, element_id@, "fill"@, color@, ns),
                    None => final(self).editor.svg_content is None,
                },
                SvgMessage::UpdateStroke { element_id, color } => match old(self).editor.svg_content {
                    Some(svg) => final(self).editor.svg_content matches Some(t) && exists|ns: Seq<char>|
                        crate::svg::new_style_ok(svg@, element_id@, "stroke"@, color@, ns)
                            && t@ == crate::svg::set_color_spec(svg@, element_id@, "stroke"@, color@, ns),
                    None => final(self).editor.svg_content is None,
                },
                SvgMessage::SvgImported(content) => final(self).editor.svg_content == (match content {
                    Some(c) => Some(c),
                    None => old(self).editor.svg_content,
                }),
                _ => final(self).editor.svg_content == old(self).editor.svg_content,
            },
            msg is ImportSvg ==> actions@.len() == 1 && actions@[0] is PickSvgFile,
            !(msg is ImportSvg) ==> actions@.len() == 0,
            final(self).editor.session@ == old(self).editor.session@,
            final(self).editor.dir_path == old(self).editor.dir_path,
            final(self).editor.theme_name == old(self).editor.theme_name,
            final(self).tab == old(self).tab,
            final(self).show_themes == old(self).show_themes,
            final(self).discovered == old(self).discovered,
            final(self).installed == old(self).installed,
            final(self).active_theme == old(self).active_theme,
            final(self).reload_status == old(self).reload_status,
    {
        let mut actions: Vec<KvantumAction> = Vec::new();
        match msg {
            SvgMessage::ImportSvg => actions.push(KvantumAction::PickSvgFile),
            SvgMessage::SvgImported(content) => self.editor.svg_imported(content),
            SvgMessage::UpdateFill { element_id, color } => {
                self.editor.update_fill(element_id.as_str(), color.as_str());
            },
            SvgMessage::UpdateStroke { element_id, color } => {
                self.editor.update_stroke(element_id.as_str(), color.as_str());
            },
            SvgMessage::SelectElement(_) => {},
            SvgMessage::ClearSelection => {},
        }
        actions
    }
}

} // verus!
