//! The settings page as a state machine: each message updates the page
//! and tells the caller what outside work to do next.

use vstd::prelude::*;
use crate::models::values::bool_text;
use crate::settings::{auto_apply_of, auto_apply_setting, pair_texts, pairs_to_map, settings_text};
use crate::strmap::{pairs_map, StrMap};
use crate::text::{lines, texts};

verus! {

broadcast use vstd::string::group_string_axioms;

/// Messages of the settings page.
#[derive(Debug)]
pub enum SettingsMessage {
    AppSettingsLoaded(Result<String, String>),
    AppSettingsSaved,
    RecentFilesLoaded(Vec<String>),
    RecentFilesSaved,
    ToggleAutoApply(bool),
    ExtractMatugenPalette,
    PaletteExtracted(Option<String>),
    ReloadKlassy,
    ReloadKvantum,
    ReloadKlassyResult(Result<String, String>),
    ReloadKvantumResult(Result<String, String>),
    DetectWallpaper,
    PickWallpaperImage,
    WallpaperPaletteResult {
        dark: Option<Vec<(String, String)>>,
        light: Option<Vec<(String, String)>>,
        is_dark: bool,
    },
    ToggleDarkPalette(bool),
    /// Ask before overwriting the system's themes with the wallpaper's
    /// colours.
    ShowApplyToSystemConfirm,
    HideApplyToSystemConfirm,
    /// Overwrite the system's themes with the wallpaper's colours.
    ApplyToSystem,
    ApplyToSystemResult { ok: bool, steps: Vec<String> },
}

/// Outside work asked for by the settings page.
pub enum SettingsAction {
    /// Write the text into the settings file; then `AppSettingsSaved`.
    WriteSettings(String),
    /// Reload KWin; the report comes back as `ReloadKlassyResult`.
    ReloadKlassy,
    /// Re-activate the edited Kvantum theme, if there is one; the report
    /// comes back as `ReloadKvantumResult`.
    ReloadKvantum(Option<String>),
    /// Apply the palettes to the whole system; the outcome comes back as
    /// `ApplyToSystemResult`.
    ApplyToSystem { dark: StrMap, light: StrMap, prefer_dark: bool },
    /// List the installed Kvantum themes again.
    DiscoverThemes,
}

/// What the settings page knows of its surroundings.
pub struct SettingsEnv {
    /// The Kvantum theme being edited, if any.
    pub kvantum_theme: Option<String>,
    /// The message shown when there is no palette to apply.
    pub no_palette_text: String,
}

/// The settings page.
pub struct SettingsPage {
    pub auto_apply: bool,
    pub recent_files: Vec<String>,
    pub reload_status: Option<String>,
    pub matugen_loading: bool,
    pub dark_palette: Option<Vec<(String, String)>>,
    pub light_palette: Option<Vec<(String, String)>>,
    pub prefer_dark: bool,
    pub show_confirm: bool,
    pub apply_status: Option<(bool, Vec<String>)>,
}

/// The map of an optional list of pairs.
pub open spec fn palette_map(v: Option<Vec<(String, String)>>) -> Map<Seq<char>, Seq<char>> {
    match v {
        Some(list) => pairs_map(pair_texts(list@)),
        None => Map::empty(),
    }
}

/// The report of a finished reload, success or not.
pub open spec fn report_text(r: Result<String, String>) -> Seq<char> {
    match r {
        Ok(m) => m@,
        Err(m) => m@,
    }
}

impl SettingsPage {
    /// The page before the settings are read: no auto-apply, no recent
    /// files, the dark palette preferred.
    pub fn new() -> (p: Self)
        ensures
            !p.auto_apply,
            p.recent_files@.len() == 0,
            p.reload_status is None,
            !p.matugen_loading,
            p.dark_palette is None,
            p.light_palette is None,
            p.prefer_dark,
            !p.show_confirm,
            p.apply_status is None,
    {
        SettingsPage {
            auto_apply: false,
            recent_files: Vec::new(),
            reload_status: None,
            matugen_loading: false,
            dark_palette: None,
            light_palette: None,
            prefer_dark: true,
            show_confirm: false,
            apply_status: None,
        }
    }

    /// Handle one message of the settings page; returns the outside work to
    /// do next.
    pub fn update(&mut self, msg: SettingsMessage, env: &SettingsEnv) -> (actions: Vec<SettingsAction>)
        ensures
            match msg {
                SettingsMessage::AppSettingsLoaded(Ok(content)) => {
                    &&& final(self).auto_apply == match auto_apply_of(lines(content@)) {
                        Some(b) => b,
                        None => old(self).auto_apply,
                    }
                    &&& actions@.len() == 0
                },
                SettingsMessage::RecentFilesLoaded(files) => {
                    &&& final(self).recent_files == files
                    &&& actions@.len() == 0
                },
                SettingsMessage::ToggleAutoApply(v) => {
                    &&& final(self).auto_apply == v
                    &&& actions@.len() == 1
                    &&& actions@[0] matches SettingsAction::WriteSettings(t)
                    &&& t@ == "[settings]\nauto_apply="@ + bool_text(v) + "\n"@
                },
                SettingsMessage::ReloadKlassy => {
                    &&& final(self).reload_status matches Some(s)
                    &&& s@ == "Reloading Klassy..."@
                    &&& actions@.len() == 1
                    &&& actions@[0] is ReloadKlassy
                },
                SettingsMessage::ReloadKvantum => {
                    &&& final(self).reload_status matches Some(s)
                    &&& s@ == "Reloading Kvantum..."@
                    &&& actions@.len() == 1
                    &&& actions@[0] matches SettingsAction::ReloadKvantum(n)
                    &&& n == env.kvantum_theme
                },
                SettingsMessage::ReloadKlassyResult(r) | SettingsMessage::ReloadKvantumResult(r) => {
                    &&& final(self).reload_status matches Some(s)
                    &&& s@ == report_text(r)
                    &&& actions@.len() == 0
                },
                SettingsMessage::WallpaperPaletteResult { dark, light, is_dark } => {
                    &&& !final(self).matugen_loading
                    &&& final(self).dark_palette == dark
                    &&& final(self).light_palette == light
                    &&& final(self).prefer_dark == is_dark
                    &&& actions@.len() == 0
                },
                SettingsMessage::ToggleDarkPalette(b) => final(self).prefer_dark == b && actions@.len() == 0,
                SettingsMessage::ShowApplyToSystemConfirm => {
                    &&& final(self).show_confirm
                    &&& final(self).apply_status is None
                    &&& actions@.len() == 0
                },
                SettingsMessage::HideApplyToSystemConfirm => !final(self).show_confirm && actions@.len() == 0,
                SettingsMessage::ApplyToSystem => {
                    let dark = palette_map(old(self).dark_palette);
                    let light = palette_map(old(self).light_palette);
                    &&& !final(self).show_confirm
                    &&& if dark.len() == 0 && light.len() == 0 {
                        &&& final(self).apply_status matches Some((ok, steps))
                        &&& !ok
                        &&& texts(steps@) == seq![env.no_palette_text@]
                        &&& actions@.len() == 0
                    } else {
                        &&& final(self).apply_status == old(self).apply_status
                        &&& actions@.len() == 1
                        &&& actions@[0] matches SettingsAction::ApplyToSystem { dark: d, light: l, prefer_dark }
                        &&& d@ == dark
                        &&& l@ == light
                        &&& prefer_dark == old(self).prefer_dark
                    }
                },
                SettingsMessage::ApplyToSystemResult { ok, steps } => {
                    &&& final(self).apply_status == Some((ok, steps))
                    &&& actions@.len() == 1
                    &&& actions@[0] is DiscoverThemes
                },
                _ => actions@.len() == 0,
            },
            !(msg is AppSettingsLoaded || msg is ToggleAutoApply) ==> final(self).auto_apply == old(self).auto_apply,
            !(msg is RecentFilesLoaded) ==> final(self).recent_files == old(self).recent_files,
            !(msg is ReloadKlassy || msg is ReloadKvantum || msg is ReloadKlassyResult || msg is ReloadKvantumResult)
                ==> final(self).reload_status == old(self).reload_status,
            !(msg is WallpaperPaletteResult) ==> final(self).matugen_loading == old(self).matugen_loading
                && final(self).dark_palette == old(self).dark_palette
                && final(self).light_palette == old(self).light_palette,
            !(msg is WallpaperPaletteResult || msg is ToggleDarkPalette) ==> final(self).prefer_dark
                == old(self).prefer_dark,
            !(msg is ShowApplyToSystemConfirm || msg is HideApplyToSystemConfirm || msg is ApplyToSystem)
                ==> final(self).show_confirm == old(self).show_confirm,
            !(msg is ShowApplyToSystemConfirm || msg is ApplyToSystem || msg is ApplyToSystemResult)
                ==> final(self).apply_status == old(self).apply_status,
    {
        let mut actions: Vec<SettingsAction> = Vec::new();
        match msg {
            SettingsMessage::AppSettingsLoaded(Ok(content)) => {
                match auto_apply_setting(content.as_str()) {
                    Some(b) => self.auto_apply = b,
                    None => {},
                }
            },
            SettingsMessage::RecentFilesLoaded(files) => {
                self.recent_files = files;
            },
            SettingsMessage::ToggleAutoApply(v) => {
                self.auto_apply = v;
                actions.push(SettingsAction::WriteSettings(settings_text(v)));
            },
            SettingsMessage::ReloadKlassy => {
                self.reload_status = Some("Reloading Klassy...".to_string());
                actions.push(SettingsAction::ReloadKlassy);
            },
            SettingsMessage::ReloadKvantum => {
                self.reload_status = Some("Reloading Kvantum...".to_string());
                actions.push(SettingsAction::ReloadKvantum(env.kvantum_theme.clone()));
            },
            SettingsMessage::ReloadKlassyResult(r) | SettingsMessage::ReloadKvantumResult(r) => {
                self.reload_status = Some(
                    match r {
                        Ok(m) => m,
                        Err(m) => m,
                    },
                );
            },
            SettingsMessage::WallpaperPaletteResult { dark, light, is_dark } => {
                self.matugen_loading = false;
                self.dark_palette = dark;
                self.light_palette = light;
                self.prefer_dark = is_dark;
            },
            SettingsMessage::ToggleDarkPalette(b) => {
                self.prefer_dark = b;
            },
            SettingsMessage::ShowApplyToSystemConfirm => {
                self.show_confirm = true;
                self.apply_status = None;
            },
            SettingsMessage::HideApplyToSystemConfirm => {
                self.show_confirm = false;
            },
            SettingsMessage::ApplyToSystem => {
                self.show_confirm = false;
                let dark = pairs_to_map(&self.dark_palette);
                let light = pairs_to_map(&self.light_palette);
                if dark.is_empty() && light.is_empty() {
                    let mut steps: Vec<String> = Vec::new();
                    steps.push(env.no_palette_text.clone());
                    assert(texts(steps@) =~= seq![env.no_palette_text@]);
                    self.apply_status = Some((false, steps));
                } else {
                    actions.push(SettingsAction::ApplyToSystem { dark, light, prefer_dark: self.prefer_dark });
                }
            },
            SettingsMessage::ApplyToSystemResult { ok, steps } => {
                self.apply_status = Some((ok, steps));
                actions.push(SettingsAction::DiscoverThemes);
            },
            _ => {},
        }
        actions
    }
}

} // verus!
