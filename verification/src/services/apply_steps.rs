//! Applying a wallpaper palette system-wide: the report of each step, the
//! decisions taken between the steps, and the places the derived Plasma
//! colour scheme is written to.

use vstd::prelude::*;
use crate::models::kvantum::colors::KvantumColors;
use crate::models::kvantum::config::ConfigModel;
use crate::services::kvantum_themes::KvantumThemeData;
use crate::services::wallpaper::{
    kvantum_mapping, kvantum_palette_ok, kvantum_palette_readable, kvantum_with_palette,
};
use crate::strmap::StrMap;
use crate::services::process::ProcessResult;
use crate::text::{texts, trim, trim_str};

verus! {

broadcast use vstd::string::group_string_axioms;

/// Outcome of a system-wide apply operation.
#[derive(Debug, Clone)]
pub struct WallpaperApplyOutcome {
    /// Human-readable summary of each step's result.
    pub steps: Vec<String>,
    /// Whether every step succeeded.
    pub ok: bool,
}

impl WallpaperApplyOutcome {
    /// An outcome with no step yet.
    pub fn new() -> (o: Self)
        ensures
            o.steps@.len() == 0,
            o.ok,
    {
        WallpaperApplyOutcome { steps: Vec::new(), ok: true }
    }

    /// Record a step's report; one failed step makes the outcome fail.
    pub fn record(&mut self, succeeded: bool, message: String)
        ensures
            final(self).steps@ == old(self).steps@.push(message),
            final(self).ok == (old(self).ok && succeeded),
    {
        self.steps.push(message);
        self.ok = self.ok && succeeded;
    }

    /// Record a step's report, given as (succeeded, message).
    pub fn record_step(&mut self, step: (bool, String))
        ensures
            final(self).steps@ == old(self).steps@.push(step.1),
            final(self).ok == (old(self).ok && step.0),
    {
        let (succeeded, message) = step;
        self.record(succeeded, message);
    }
}

/// Outcome of syncing the Plasma colour scheme from a Kvantum theme.
#[derive(Debug, Clone)]
pub struct KvantumPlasmaSyncOutcome {
    /// Path of the installed `.colors` file.
    pub scheme_path: String,
    /// Name of the Plasma colour scheme (e.g. `Kvantum-Teto`).
    pub scheme_name: String,
}

fn concat2(a: &str, b: &str) -> (r: String)
    ensures
        r@ == a@ + b@,
{
    let mut r = a.to_string();
    r.append(b);
    r
}

fn concat3(a: &str, b: &str, c: &str) -> (r: String)
    ensures
        r@ == a@ + b@ + c@,
{
    let mut r = a.to_string();
    r.append(b);
    r.append(c);
    r
}

/// What rewriting the Klassy colours reports: (succeeded, message).
pub open spec fn klassy_report(r: Result<(), String>) -> (bool, Seq<char>) {
    match r {
        Ok(_) => (true, "Updated Klassy colors"@),
        Err(e) => (false, "Failed to update Klassy: "@ + e@),
    }
}

/// What saving the rewritten theme reports.
pub open spec fn save_report(theme_name: Seq<char>, dir: Seq<char>, r: Result<(), String>) -> (bool, Seq<char>) {
    match r {
        Ok(_) => (true, "Overwrote '[GeneralColors]' of '"@ + theme_name + "' at "@ + dir),
        Err(e) => (false, "Failed to save '"@ + theme_name + "': "@ + e@),
    }
}

/// What re-activating the Kvantum theme reports.
pub open spec fn reactivate_report(theme_name: Seq<char>, r: Result<ProcessResult, String>) -> (bool, Seq<char>) {
    match r {
        Ok(p) => if p.exit_code == 0 {
            (true, "Re-activated Kvantum theme '"@ + theme_name + "'"@)
        } else {
            (false, "kvantummanager --set failed: "@ + trim(p.stderr@))
        },
        Err(e) => (false, "kvantummanager not runnable: "@ + e@),
    }
}

/// What syncing the Plasma colour scheme reports.
pub open spec fn plasma_report(r: Result<KvantumPlasmaSyncOutcome, String>) -> (bool, Seq<char>) {
    match r {
        Ok(o) => (true, "Derived Plasma color scheme '"@ + o.scheme_name@ + "' from Kvantum theme"@),
        Err(e) => (false, "Plasma color scheme sync failed: "@ + e@),
    }
}

/// What reconfiguring KWin reports.
pub open spec fn kwin_report(r: Result<ProcessResult, String>) -> (bool, Seq<char>) {
    match r {
        Ok(p) => if p.exit_code == 0 {
            (true, "Reconfigured KWin"@)
        } else {
            (false, "KWin reconfigure failed: "@ + trim(p.stderr@))
        },
        Err(e) => (false, "KWin reconfigure failed: "@ + e@),
    }
}

/// The report when no Kvantum theme is active.
pub open spec fn no_active_theme_text() -> Seq<char> {
    "No active Kvantum theme to overwrite — activate a theme first"@
}

/// The report when the active theme cannot be loaded.
pub open spec fn load_failed_text(theme_name: Seq<char>, error: Seq<char>) -> Seq<char> {
    "Failed to load active theme '"@ + theme_name + "': "@ + error
}

/// The report of rewriting the Klassy colours.
pub fn klassy_step(r: &Result<(), String>) -> (s: (bool, String))
    ensures
        (s.0, s.1@) == klassy_report(*r),
{
    match r {
        Ok(_) => (true, "Updated Klassy colors".to_string()),
        Err(e) => (false, concat2("Failed to update Klassy: ", e.as_str())),
    }
}

/// The report when no Kvantum theme is active; the apply stops there.
pub fn no_active_theme_message() -> (s: String)
    ensures
        s@ == no_active_theme_text(),
{
    "No active Kvantum theme to overwrite — activate a theme first".to_string()
}

/// The report when the active theme cannot be loaded; the apply stops
/// there.
pub fn load_failed_message(theme_name: &str, error: &str) -> (s: String)
    ensures
        s@ == load_failed_text(theme_name@, error@),
{
    let mut s = concat3("Failed to load active theme '", theme_name, "': ");
    s.append(error);
    s
}

/// The report of saving the rewritten theme.
pub fn save_step(theme_name: &str, dir: &str, r: &Result<(), String>) -> (s: (bool, String))
    ensures
        (s.0, s.1@) == save_report(theme_name@, dir@, *r),
{
    match r {
        Ok(_) => {
            let mut s = concat3("Overwrote '[GeneralColors]' of '", theme_name, "' at ");
            s.append(dir);
            (true, s)
        },
        Err(e) => {
            let mut s = concat3("Failed to save '", theme_name, "': ");
            s.append(e.as_str());
            (false, s)
        },
    }
}

/// The report of re-activating the Kvantum theme with `kvantummanager`
/// (its result, or why it could not run).
pub fn reactivate_step(theme_name: &str, r: &Result<ProcessResult, String>) -> (s: (bool, String))
    ensures
        (s.0, s.1@) == reactivate_report(theme_name@, *r),
{
    match r {
        Ok(p) => {
            if p.is_success() {
                (true, concat3("Re-activated Kvantum theme '", theme_name, "'"))
            } else {
                let t = trim_str(p.stderr.as_str());
                (false, concat2("kvantummanager --set failed: ", t.as_str()))
            }
        },
        Err(e) => (false, concat2("kvantummanager not runnable: ", e.as_str())),
    }
}

/// The report of syncing the Plasma colour scheme.
pub fn plasma_sync_step(r: &Result<KvantumPlasmaSyncOutcome, String>) -> (s: (bool, String))
    ensures
        (s.0, s.1@) == plasma_report(*r),
{
    match r {
        Ok(o) => (
            true,
            concat3("Derived Plasma color scheme '", o.scheme_name.as_str(), "' from Kvantum theme"),
        ),
        Err(e) => (false, concat2("Plasma color scheme sync failed: ", e.as_str())),
    }
}

/// The report of reconfiguring KWin: it succeeded when the run finished
/// with exit code 0; otherwise its error output, or why it could not run.
pub fn kwin_step(r: &Result<ProcessResult, String>) -> (s: (bool, String))
    ensures
        (s.0, s.1@) == kwin_report(*r),
{
    match r {
        Ok(p) => {
            if p.is_success() {
                (true, "Reconfigured KWin".to_string())
            } else {
                let t = trim_str(p.stderr.as_str());
                (false, concat2("KWin reconfigure failed: ", t.as_str()))
            }
        },
        Err(e) => (false, concat2("KWin reconfigure failed: ", e.as_str())),
    }
}

/// `root/name`.
pub fn child_path(root: &str, name: &str) -> (r: String)
    ensures
        r@ == root@ + "/"@ + name@,
{
    concat3(root, "/", name)
}

/// A theme without an SVG or without widget sections renders as Kvantum's
/// dark default, so it needs a full template.
pub fn needs_template(theme: &KvantumThemeData) -> (r: bool)
    ensures
        r == (theme.svg_content is None || theme.config@.widgets.len() == 0),
{
    theme.svg_content.is_none() || theme.config.has_no_widget_sections()
}

/// A theme can serve as a template when it has an SVG and widget
/// sections.
pub fn usable_as_template(theme: &KvantumThemeData) -> (r: bool)
    ensures
        r == (theme.svg_content is Some && theme.config@.widgets.len() > 0),
{
    theme.svg_content.is_some() && !theme.config.has_no_widget_sections()
}

/// The SVG text the recoloured theme starts from: its own, else the
/// template's, if either has one.
pub open spec fn source_svg_text(theme: KvantumThemeData, template: Option<KvantumThemeData>) -> Option<Seq<char>> {
    match theme.svg_content {
        Some(s) => Some(s@),
        None => match template {
            Some(t) => match t.svg_content {
                Some(s) => Some(s@),
                None => None,
            },
            None => None,
        },
    }
}

/// How a theme uses the template that may have been loaded for it: the SVG
/// to recolour (its own, else the template's), and whether to adopt the
/// template's configuration (when there is a template and the theme has no
/// widget sections).
pub fn template_plan(theme: &KvantumThemeData, template: &Option<KvantumThemeData>) -> (r: (Option<String>, bool))
    ensures
        match r.0 {
            Some(s) => source_svg_text(*theme, *template) == Some(s@),
            None => source_svg_text(*theme, *template) is None,
        },
        r.1 == (template is Some && theme.config@.widgets.len() == 0),
{
    let svg = match &theme.svg_content {
        Some(s) => Some(s.clone()),
        None => match template {
            Some(t) => match &t.svg_content {
                Some(s) => Some(s.clone()),
                None => None,
            },
            None => None,
        },
    };
    let adopt = template.is_some() && theme.config.has_no_widget_sections();
    (svg, adopt)
}

/// The installed adaptive themes tried, in order, as a template.
pub open spec fn template_dirs(dark: bool) -> Seq<Seq<char>> {
    if dark {
        seq![
            "/usr/share/Kvantum/KvAdaptaDark"@,
            "/usr/share/Kvantum/KvDark"@,
            "/usr/share/Kvantum/KvAdapta"@,
        ]
    } else {
        seq![
            "/usr/share/Kvantum/KvAdapta"@,
            "/usr/share/Kvantum/KvFlat"@,
            "/usr/share/Kvantum/KvBeige"@,
        ]
    }
}

/// The installed adaptive themes tried, in order, as a template for a
/// dark or a light palette.
pub fn template_candidates(dark: bool) -> (r: Vec<&'static str>)
    ensures
        r@.map_values(|s: &str| s@) == template_dirs(dark),
{
    let mut r: Vec<&'static str> = Vec::new();
    if dark {
        r.push("/usr/share/Kvantum/KvAdaptaDark");
        r.push("/usr/share/Kvantum/KvDark");
        r.push("/usr/share/Kvantum/KvAdapta");
    } else {
        r.push("/usr/share/Kvantum/KvAdapta");
        r.push("/usr/share/Kvantum/KvFlat");
        r.push("/usr/share/Kvantum/KvBeige");
    }
    assert(r@.map_values(|s: &str| s@) =~= template_dirs(dark));
    r
}

/// The directory Plasma colour schemes are installed to, under `home`.
pub fn color_schemes_dir(home: &str) -> (r: String)
    ensures
        r@ == home@ + "/.local/share/color-schemes"@,
{
    concat2(home, "/.local/share/color-schemes")
}

/// The `.colors` file of `scheme_name` in `dir`.
pub fn scheme_file_path(dir: &str, scheme_name: &str) -> (r: String)
    ensures
        r@ == dir@ + "/"@ + scheme_name@ + ".colors"@,
{
    let mut r = concat3(dir, "/", scheme_name);
    r.append(".colors");
    r
}

/// What a finished `plasma-apply-colorscheme` run means for the sync.
pub fn colorscheme_applied(p: &ProcessResult) -> (r: Result<(), String>)
    ensures
        p.exit_code == 0 ==> r is Ok,
        p.exit_code != 0 ==> (r matches Err(e) && e@ == "plasma-apply-colorscheme failed: "@ + trim(
            p.stderr@,
        )),
{
    if p.is_success() {
        Ok(())
    } else {
        let t = trim_str(p.stderr.as_str());
        Err(concat2("plasma-apply-colorscheme failed: ", t.as_str()))
    }
}

/// The error when a Kvantum theme is in neither the user nor the system
/// directory.
pub fn theme_not_found_message(theme_name: &str) -> (s: String)
    ensures
        s@ == "Kvantum theme '"@ + theme_name@ + "' not found in user or system directory"@,
{
    concat3("Kvantum theme '", theme_name, "' not found in user or system directory")
}

// ---------------------------------------------------------------------------
// The sequence of an apply run
// ---------------------------------------------------------------------------

/// What an apply run is given: the palette variant, whether the dark one
/// was chosen, and the user and system Kvantum folders.
pub struct WallpaperSetup {
    /// Whether the dark variant of the palette was chosen.
    pub prefer_dark: bool,
    /// The chosen palette variant (matugen colour name → colour text).
    pub variant: StrMap,
    /// The user's Kvantum folder (`~/.config/Kvantum`).
    pub config_root: String,
    /// The system Kvantum folder (`/usr/share/Kvantum`).
    pub system_root: String,
}

/// Which outside work an apply run waits for.
#[derive(Clone, Copy, Debug)]
pub enum WallpaperPhase {
    UpdateKlassy,
    FindTheme,
    LoadUserTheme,
    LoadSystemTheme,
    LoadTemplate,
    Recolor,
    Save,
    Reactivate,
    SyncPlasma,
    ReconfigureKwin,
    Finished,
}

/// What the outside work of a step brought back.
pub enum WallpaperEvent {
    /// Rewriting the Klassy colours finished.
    KlassyUpdated(Result<(), String>),
    /// The active Kvantum theme, if one is set.
    ActiveTheme(Option<String>),
    /// Loading the theme from the folder asked for.
    ThemeLoaded(Result<KvantumThemeData, String>),
    /// The installed adaptive theme found as a template, if any.
    TemplateLoaded(Option<KvantumThemeData>),
    /// The SVG with its colour literals rewritten.
    Recolored(String),
    /// Saving the rewritten theme.
    Saved(Result<(), String>),
    /// Re-activating the theme with `kvantummanager`.
    Reactivated(Result<ProcessResult, String>),
    /// Syncing the Plasma colour scheme.
    PlasmaSynced(Result<KvantumPlasmaSyncOutcome, String>),
    /// Reconfiguring KWin.
    KwinReconfigured(Result<ProcessResult, String>),
}

/// The outside work to do next, or the finished outcome.
pub enum WallpaperAction {
    /// Rewrite the Klassy colours from the palette variant.
    UpdateKlassy,
    /// Read the active Kvantum theme's name.
    ReadActiveTheme,
    /// Load the Kvantum theme in this folder.
    LoadTheme(String),
    /// Find an installed adaptive theme (dark or light) to use as template.
    LoadTemplate(bool),
    /// Rewrite the colour literals of this SVG for these colours.
    RecolorSvg(String, KvantumColors),
    /// Save this theme into this folder.
    SaveTheme(String, KvantumThemeData),
    /// Re-activate the Kvantum theme of this name.
    ReactivateTheme(String),
    /// Sync the Plasma colour scheme from the Kvantum theme of this name.
    SyncPlasma(String),
    /// Reconfigure KWin.
    ReconfigureKwin,
    /// The run is over.
    Done(WallpaperApplyOutcome),
}

/// A theme as plain values.
pub struct ThemeView {
    pub config: ConfigModel,
    pub svg: Option<Seq<char>>,
    pub name: Seq<char>,
    pub dir: Seq<char>,
}

pub open spec fn theme_view(t: KvantumThemeData) -> ThemeView {
    ThemeView {
        config: t.config@,
        svg: match t.svg_content {
            Some(x) => Some(x@),
            None => None,
        },
        name: t.theme_name@,
        dir: t.dir_path@,
    }
}

pub open spec fn opt_theme_view(t: Option<KvantumThemeData>) -> Option<ThemeView> {
    match t {
        Some(x) => Some(theme_view(x)),
        None => None,
    }
}

/// Where an apply run stands.
pub struct WallpaperApplyView {
    pub phase: WallpaperPhase,
    /// The reports recorded so far.
    pub steps: Seq<Seq<char>>,
    /// Whether every recorded step succeeded.
    pub ok: bool,
    /// Whether each recorded step succeeded.
    pub successes: Seq<bool>,
    pub setup: WallpaperSetup,
    /// The active theme's name, once known.
    pub theme_name: Seq<char>,
    /// The theme being rewritten, while it is held.
    pub theme: Option<ThemeView>,
}

/// An apply run between two pieces of outside work.
pub struct WallpaperApplyState {
    phase: WallpaperPhase,
    outcome: WallpaperApplyOutcome,
    reports: Ghost<Seq<bool>>,
    setup: WallpaperSetup,
    theme_name: String,
    theme: Option<KvantumThemeData>,
}

/// Every flag holds.
pub open spec fn all_true(s: Seq<bool>) -> bool {
    forall|i: int| 0 <= i < s.len() ==> s[i]
}

/// How many steps a run has reported when it waits in this phase.
pub open spec fn phase_steps(p: WallpaperPhase) -> nat {
    match p {
        WallpaperPhase::UpdateKlassy => 0,
        WallpaperPhase::Reactivate => 2,
        WallpaperPhase::SyncPlasma => 3,
        WallpaperPhase::ReconfigureKwin => 4,
        WallpaperPhase::Finished => 0,
        _ => 1,
    }
}

impl View for WallpaperApplyState {
    type V = WallpaperApplyView;

    closed spec fn view(&self) -> WallpaperApplyView {
        WallpaperApplyView {
            phase: self.phase,
            steps: texts(self.outcome.steps@),
            ok: self.outcome.ok,
            successes: self.reports@,
            setup: self.setup,
            theme_name: self.theme_name@,
            theme: opt_theme_view(self.theme),
        }
    }
}

impl WallpaperApplyState {
    #[verifier::type_invariant]
    spec fn wf(self) -> bool {
        &&& self.outcome.steps@.len() == self.reports@.len()
        &&& self.outcome.ok == all_true(self.reports@)
        &&& self.reports@.len() == phase_steps(self.phase)
        &&& (self.phase is LoadTemplate || self.phase is Recolor) ==> self.theme is Some
    }

    /// Whether the palette variant's colours can all be read, as loading
    /// the theme into the palette needs.
    pub fn palette_readable(&self) -> (r: bool)
        ensures
            r == kvantum_palette_ok(self@.setup.variant@),
    {
        kvantum_palette_readable(&self.setup.variant)
    }

    /// Whether `event` answers the work this run waits for.
    pub fn accepts(&self, event: &WallpaperEvent) -> (r: bool)
        ensures
            r == wallpaper_accepts(self@.phase, *event),
    {
        match self.phase {
            WallpaperPhase::UpdateKlassy => matches!(event, WallpaperEvent::KlassyUpdated(_)),
            WallpaperPhase::FindTheme => matches!(event, WallpaperEvent::ActiveTheme(_)),
            WallpaperPhase::LoadUserTheme => matches!(event, WallpaperEvent::ThemeLoaded(_)),
            WallpaperPhase::LoadSystemTheme => matches!(event, WallpaperEvent::ThemeLoaded(_)),
            WallpaperPhase::LoadTemplate => matches!(event, WallpaperEvent::TemplateLoaded(_)),
            WallpaperPhase::Recolor => matches!(event, WallpaperEvent::Recolored(_)),
            WallpaperPhase::Save => matches!(event, WallpaperEvent::Saved(_)),
            WallpaperPhase::Reactivate => matches!(event, WallpaperEvent::Reactivated(_)),
            WallpaperPhase::SyncPlasma => matches!(event, WallpaperEvent::PlasmaSynced(_)),
            WallpaperPhase::ReconfigureKwin => matches!(event, WallpaperEvent::KwinReconfigured(_)),
            WallpaperPhase::Finished => false,
        }
    }
}

/// The event that answers the work of each phase.
pub open spec fn wallpaper_accepts(p: WallpaperPhase, e: WallpaperEvent) -> bool {
    match p {
        WallpaperPhase::UpdateKlassy => e is KlassyUpdated,
        WallpaperPhase::FindTheme => e is ActiveTheme,
        WallpaperPhase::LoadUserTheme => e is ThemeLoaded,
        WallpaperPhase::LoadSystemTheme => e is ThemeLoaded,
        WallpaperPhase::LoadTemplate => e is TemplateLoaded,
        WallpaperPhase::Recolor => e is Recolored,
        WallpaperPhase::Save => e is Saved,
        WallpaperPhase::Reactivate => e is Reactivated,
        WallpaperPhase::SyncPlasma => e is PlasmaSynced,
        WallpaperPhase::ReconfigureKwin => e is KwinReconfigured,
        WallpaperPhase::Finished => false,
    }
}

/// The folder the rewritten theme is saved to.
pub open spec fn user_theme_dir(setup: WallpaperSetup, name: Seq<char>) -> Seq<char> {
    setup.config_root@ + "/"@ + name
}

/// The loaded theme with its `[GeneralColors]` taken from the palette.
pub open spec fn palette_theme(t: ThemeView, variant: Map<Seq<char>, Seq<char>>) -> ThemeView {
    ThemeView {
        config: ConfigModel { colors: kvantum_with_palette(t.config.colors, kvantum_mapping(), variant), ..t.config },
        ..t
    }
}

/// A theme without an SVG or widget sections waits for a template.
pub open spec fn theme_needs_template(t: ThemeView) -> bool {
    t.svg is None || t.config.widgets.len() == 0
}

/// The theme after the template: its SVG (else the template's), and, when
/// it has no widget sections, the template's configuration with the
/// theme's colours (and its hacks unless it has none).
pub open spec fn with_template(t: ThemeView, tpl: Option<KvantumThemeData>) -> ThemeView {
    ThemeView {
        config: if tpl is Some && t.config.widgets.len() == 0 {
            ConfigModel {
                colors: t.config.colors,
                hacks: if t.config.hacks.len() == 0 {
                    tpl->0.config@.hacks
                } else {
                    t.config.hacks
                },
                ..tpl->0.config@
            }
        } else {
            t.config
        },
        svg: match t.svg {
            Some(x) => Some(x),
            None => match tpl {
                Some(p) => match p.svg_content {
                    Some(x) => Some(x@),
                    None => None,
                },
                None => None,
            },
        },
        ..t
    }
}

/// `a` saves theme `t`, named for the active theme, into the user folder.
pub open spec fn saves_theme(setup: WallpaperSetup, name: Seq<char>, a: WallpaperAction, t: ThemeView) -> bool {
    a matches WallpaperAction::SaveTheme(d, t2) && d@ == user_theme_dir(setup, name) && theme_view(t2) == (
    ThemeView { name: name, dir: user_theme_dir(setup, name), ..t })
}

/// With the theme prepared, its SVG (if any) is recoloured, then it is
/// saved.
pub open spec fn proceeds(setup: WallpaperSetup, name: Seq<char>, n: WallpaperApplyView, a: WallpaperAction, t: ThemeView) -> bool {
    match t.svg {
        Some(svg) => {
            &&& a matches WallpaperAction::RecolorSvg(x, c)
            &&& x@ == svg
            &&& c@ == t.config.colors
            &&& n.phase is Recolor
            &&& n.theme == Some(t)
        },
        None => n.phase is Save && n.theme is None && saves_theme(setup, name, a, t),
    }
}

/// A theme has been loaded: it takes the palette, then waits for a
/// template or goes on.
pub open spec fn theme_loaded(s: WallpaperApplyView, n: WallpaperApplyView, a: WallpaperAction, t: KvantumThemeData) -> bool {
    let t1 = palette_theme(theme_view(t), s.setup.variant@);
    if theme_needs_template(t1) {
        n.phase is LoadTemplate && n.theme == Some(t1) && a == WallpaperAction::LoadTemplate(s.setup.prefer_dark)
    } else {
        proceeds(s.setup, s.theme_name, n, a, t1)
    }
}

/// The run reports one more step.
pub open spec fn records(s: WallpaperApplyView, n: WallpaperApplyView, rep: (bool, Seq<char>)) -> bool {
    &&& n.steps == s.steps.push(rep.1)
    &&& n.successes == s.successes.push(rep.0)
    &&& n.ok == (s.ok && rep.0)
}

/// The run reports nothing new.
pub open spec fn keeps_reports(s: WallpaperApplyView, n: WallpaperApplyView) -> bool {
    n.steps == s.steps && n.successes == s.successes && n.ok == s.ok
}

/// The run stops with one more report, which is a failure.
pub open spec fn fails_with(s: WallpaperApplyView, n: WallpaperApplyView, a: WallpaperAction, msg: Seq<char>) -> bool {
    &&& a matches WallpaperAction::Done(o)
    &&& texts(o.steps@) == s.steps.push(msg)
    &&& !o.ok
    &&& n.phase is Finished
}

/// One step of an apply run: from where it stands and what the outside
/// work brought back, where it stands next and what to do next.
pub open spec fn wallpaper_step_spec(
    s: WallpaperApplyView,
    e: WallpaperEvent,
    n: WallpaperApplyView,
    a: WallpaperAction,
) -> bool {
    &&& n.setup == s.setup
    &&& match s.phase {
        WallpaperPhase::UpdateKlassy => e matches WallpaperEvent::KlassyUpdated(k) && records(s, n, klassy_report(k))
            && n.phase is FindTheme && n.theme_name == s.theme_name && n.theme == s.theme
            && a is ReadActiveTheme,
        WallpaperPhase::FindTheme => match e {
            WallpaperEvent::ActiveTheme(None) => fails_with(s, n, a, no_active_theme_text()),
            WallpaperEvent::ActiveTheme(Some(name)) => {
                &&& a matches WallpaperAction::LoadTheme(d)
                &&& d@ == user_theme_dir(s.setup, name@)
                &&& keeps_reports(s, n)
                &&& n.phase is LoadUserTheme
                &&& n.theme_name == name@
            },
            _ => false,
        },
        WallpaperPhase::LoadUserTheme => match e {
            WallpaperEvent::ThemeLoaded(Ok(t)) => keeps_reports(s, n) && n.theme_name == s.theme_name
                && theme_loaded(s, n, a, t),
            WallpaperEvent::ThemeLoaded(Err(_)) => {
                &&& a matches WallpaperAction::LoadTheme(d)
                &&& d@ == s.setup.system_root@ + "/"@ + s.theme_name
                &&& keeps_reports(s, n)
                &&& n.phase is LoadSystemTheme
                &&& n.theme_name == s.theme_name
            },
            _ => false,
        },
        WallpaperPhase::LoadSystemTheme => match e {
            WallpaperEvent::ThemeLoaded(Ok(t)) => keeps_reports(s, n) && n.theme_name == s.theme_name
                && theme_loaded(s, n, a, t),
            WallpaperEvent::ThemeLoaded(Err(err)) => fails_with(s, n, a, load_failed_text(s.theme_name, err@)),
            _ => false,
        },
        WallpaperPhase::LoadTemplate => e matches WallpaperEvent::TemplateLoaded(tpl) && keeps_reports(s, n)
            && n.theme_name == s.theme_name && s.theme is Some
            && proceeds(s.setup, s.theme_name, n, a, with_template(s.theme->0, tpl)),
        WallpaperPhase::Recolor => e matches WallpaperEvent::Recolored(x) && keeps_reports(s, n)
            && n.theme_name == s.theme_name && s.theme is Some && n.phase is Save && n.theme is None
            && saves_theme(s.setup, s.theme_name, a, ThemeView { svg: Some(x@), ..s.theme->0 }),
        WallpaperPhase::Save => {
            &&& e matches WallpaperEvent::Saved(r)
            &&& records(s, n, save_report(s.theme_name, user_theme_dir(s.setup, s.theme_name), r))
            &&& a matches WallpaperAction::ReactivateTheme(x)
            &&& x@ == s.theme_name
            &&& n.phase is Reactivate
            &&& n.theme_name == s.theme_name
        },
        WallpaperPhase::Reactivate => {
            &&& e matches WallpaperEvent::Reactivated(r)
            &&& records(s, n, reactivate_report(s.theme_name, r))
            &&& a matches WallpaperAction::SyncPlasma(x)
            &&& x@ == s.theme_name
            &&& n.phase is SyncPlasma
            &&& n.theme_name == s.theme_name
        },
        WallpaperPhase::SyncPlasma => e matches WallpaperEvent::PlasmaSynced(r) && records(s, n, plasma_report(r))
            && n.phase is ReconfigureKwin && n.theme_name == s.theme_name && a is ReconfigureKwin,
        WallpaperPhase::ReconfigureKwin => {
            &&& e matches WallpaperEvent::KwinReconfigured(r)
            &&& a matches WallpaperAction::Done(o)
            &&& texts(o.steps@) == s.steps.push(kwin_report(r).1)
            &&& o.ok == (s.ok && kwin_report(r).0)
            &&& n.phase is Finished
        },
        WallpaperPhase::Finished => false,
    }
}

proof fn lemma_all_true_push(s: Seq<bool>, b: bool)
    ensures
        all_true(s.push(b)) == (all_true(s) && b),
{
    if all_true(s) && b {
        assert forall|i: int| 0 <= i < s.push(b).len() implies s.push(b)[i] by {
            if i < s.len() {
                assert(s[i]);
            }
        }
    }
    if !all_true(s) {
        let i = choose|i: int| 0 <= i < s.len() && !s[i];
        assert(!s.push(b)[i]);
    }
    if !b {
        assert(!s.push(b)[s.len() as int]);
    }
}

proof fn lemma_texts_push(v: Seq<String>, x: String)
    ensures
        texts(v.push(x)) == texts(v).push(x@),
{
    assert(texts(v.push(x)) =~= texts(v).push(x@));
}

/// Start an apply run: the Klassy colours are rewritten first.
pub fn wallpaper_apply_begin(setup: WallpaperSetup) -> (r: (WallpaperApplyState, WallpaperAction))
    ensures
        r.0@.phase is UpdateKlassy,
        r.0@.steps.len() == 0,
        r.0@.successes.len() == 0,
        r.0@.ok,
        r.0@.setup == setup,
        r.0@.theme_name.len() == 0,
        r.0@.theme is None,
        r.1 is UpdateKlassy,
{
    let state = WallpaperApplyState {
        phase: WallpaperPhase::UpdateKlassy,
        outcome: WallpaperApplyOutcome::new(),
        reports: Ghost(Seq::empty()),
        setup,
        theme_name: String::new(),
        theme: None,
    };
    (state, WallpaperAction::UpdateKlassy)
}

fn save_action(setup: &WallpaperSetup, theme_name: &String, t: KvantumThemeData) -> (a: WallpaperAction)
    ensures
        saves_theme(*setup, theme_name@, a, theme_view(t)),
{
    let mut t = t;
    let dir = child_path(setup.config_root.as_str(), theme_name.as_str());
    t.theme_name = theme_name.clone();
    t.dir_path = dir.clone();
    WallpaperAction::SaveTheme(dir, t)
}

/// With the theme prepared, recolour its SVG if it has one, else save it.
fn proceed(
    outcome: WallpaperApplyOutcome,
    reports: Ghost<Seq<bool>>,
    setup: WallpaperSetup,
    theme_name: String,
    t: KvantumThemeData,
) -> (r: (WallpaperApplyState, WallpaperAction))
    requires
        outcome.steps@.len() == reports@.len(),
        outcome.ok == all_true(reports@),
        reports@.len() == 1,
    ensures
        proceeds(setup, theme_name@, r.0@, r.1, theme_view(t)),
        r.0@.steps == texts(outcome.steps@),
        r.0@.successes == reports@,
        r.0@.ok == outcome.ok,
        r.0@.setup == setup,
        r.0@.theme_name == theme_name@,
{
    match &t.svg_content {
        Some(svg) => {
            let svg = svg.clone();
            let colors = t.config.colors_copy();
            let state = WallpaperApplyState {
                phase: WallpaperPhase::Recolor,
                outcome,
                reports,
                setup,
                theme_name,
                theme: Some(t),
            };
            (state, WallpaperAction::RecolorSvg(svg, colors))
        },
        None => {
            let a = save_action(&setup, &theme_name, t);
            let state = WallpaperApplyState {
                phase: WallpaperPhase::Save,
                outcome,
                reports,
                setup,
                theme_name,
                theme: None,
            };
            (state, a)
        },
    }
}

/// A theme has been loaded: give it the palette, then ask for a template
/// or go on.
fn on_theme_loaded(
    outcome: WallpaperApplyOutcome,
    reports: Ghost<Seq<bool>>,
    setup: WallpaperSetup,
    theme_name: String,
    t: KvantumThemeData,
) -> (r: (WallpaperApplyState, WallpaperAction))
    requires
        outcome.steps@.len() == reports@.len(),
        outcome.ok == all_true(reports@),
        reports@.len() == 1,
        kvantum_palette_ok(setup.variant@),
    ensures
        ({
            let s = WallpaperApplyView {
                phase: WallpaperPhase::LoadUserTheme,
                steps: texts(outcome.steps@),
                ok: outcome.ok,
                successes: reports@,
                setup: setup,
                theme_name: theme_name@,
                theme: None,
            };
            &&& theme_loaded(s, r.0@, r.1, t)
            &&& keeps_reports(s, r.0@)
        }),
        r.0@.setup == setup,
        r.0@.theme_name == theme_name@,
{
    let mut t = t;
    t.config.apply_palette(&setup.variant);
    if needs_template(&t) {
        let dark = setup.prefer_dark;
        let state = WallpaperApplyState {
            phase: WallpaperPhase::LoadTemplate,
            outcome,
            reports,
            setup,
            theme_name,
            theme: Some(t),
        };
        (state, WallpaperAction::LoadTemplate(dark))
    } else {
        proceed(outcome, reports, setup, theme_name, t)
    }
}

/// One step of an apply run: take what the outside work brought back and
/// say where the run stands and what to do next.  A run rewrites Klassy,
/// finds the active theme, loads it from the user folder, else the system
/// folder, rewrites and saves it, re-activates it, syncs Plasma and
/// reconfigures KWin.  It stops after two reports when no theme is active
/// or neither folder holds it; otherwise it ends after five, and succeeds
/// when each of the five did.
pub fn wallpaper_apply_step(state: WallpaperApplyState, event: WallpaperEvent) -> (r: (
    WallpaperApplyState,
    WallpaperAction,
))
    requires
        wallpaper_accepts(state@.phase, event),
        event matches WallpaperEvent::ThemeLoaded(Ok(_)) ==> kvantum_palette_ok(state@.setup.variant@),
    ensures
        wallpaper_step_spec(state@, event, r.0@, r.1),
        r.0@.steps.len() == r.0@.successes.len(),
        r.0@.ok == all_true(r.0@.successes),
        r.0@.successes.len() == phase_steps(r.0@.phase),
        r.1 matches WallpaperAction::Done(o) ==> ((o.steps@.len() == 2 && !o.ok && (state@.phase is FindTheme
            || state@.phase is LoadSystemTheme)) || (o.steps@.len() == 5 && state@.phase is ReconfigureKwin
            && o.ok == all_true(state@.successes.push(kwin_report(event->KwinReconfigured_0).0)))),
{
    proof {
        use_type_invariant(&state);
    }
    let ghost s = state@;
    let WallpaperApplyState { phase, outcome, reports, setup, theme_name, theme } = state;
    let mut outcome = outcome;
    match phase {
        WallpaperPhase::UpdateKlassy => match event {
            WallpaperEvent::KlassyUpdated(k) => {
                let rep = klassy_step(&k);
                let ghost reps = reports@.push(rep.0);
                proof {
                    lemma_all_true_push(reports@, rep.0);
                    lemma_texts_push(outcome.steps@, rep.1);
                }
                outcome.record_step(rep);
                let state = WallpaperApplyState {
                    phase: WallpaperPhase::FindTheme,
                    outcome,
                    reports: Ghost(reps),
                    setup,
                    theme_name,
                    theme,
                };
                (state, WallpaperAction::ReadActiveTheme)
            },
            _ => vstd::pervasive::unreached(),
        },
        WallpaperPhase::FindTheme => match event {
            WallpaperEvent::ActiveTheme(None) => {
                let msg = no_active_theme_message();
                proof {
                    lemma_texts_push(outcome.steps@, msg);
                }
                outcome.record(false, msg);
                (finished(setup), WallpaperAction::Done(outcome))
            },
            WallpaperEvent::ActiveTheme(Some(name)) => {
                let dir = child_path(setup.config_root.as_str(), name.as_str());
                let state = WallpaperApplyState {
                    phase: WallpaperPhase::LoadUserTheme,
                    outcome,
                    reports,
                    setup,
                    theme_name: name,
                    theme,
                };
                (state, WallpaperAction::LoadTheme(dir))
            },
            _ => vstd::pervasive::unreached(),
        },
        WallpaperPhase::LoadUserTheme => match event {
            WallpaperEvent::ThemeLoaded(Ok(t)) => on_theme_loaded(outcome, reports, setup, theme_name, t),
            WallpaperEvent::ThemeLoaded(Err(_)) => {
                let dir = child_path(setup.system_root.as_str(), theme_name.as_str());
                let state = WallpaperApplyState {
                    phase: WallpaperPhase::LoadSystemTheme,
                    outcome,
                    reports,
                    setup,
                    theme_name,
                    theme,
                };
                (state, WallpaperAction::LoadTheme(dir))
            },
            _ => vstd::pervasive::unreached(),
        },
        WallpaperPhase::LoadSystemTheme => match event {
            WallpaperEvent::ThemeLoaded(Ok(t)) => on_theme_loaded(outcome, reports, setup, theme_name, t),
            WallpaperEvent::ThemeLoaded(Err(e)) => {
                let msg = load_failed_message(theme_name.as_str(), e.as_str());
                proof {
                    lemma_texts_push(outcome.steps@, msg);
                }
                outcome.record(false, msg);
                (finished(setup), WallpaperAction::Done(outcome))
            },
            _ => vstd::pervasive::unreached(),
        },
        WallpaperPhase::LoadTemplate => match event {
            WallpaperEvent::TemplateLoaded(tpl) => {
                let mut t = match theme {
                    Some(t) => t,
                    None => vstd::pervasive::unreached(),
                };
                let (svg, adopt) = template_plan(&t, &tpl);
                t.svg_content = svg;
                if adopt {
                    match &tpl {
                        Some(p) => {
                            t.config = t.config.adopt_template(&p.config);
                        },
                        None => {},
                    }
                }
                proceed(outcome, reports, setup, theme_name, t)
            },
            _ => vstd::pervasive::unreached(),
        },
        WallpaperPhase::Recolor => match event {
            WallpaperEvent::Recolored(x) => {
                let mut t = match theme {
                    Some(t) => t,
                    None => vstd::pervasive::unreached(),
                };
                t.svg_content = Some(x);
                let a = save_action(&setup, &theme_name, t);
                let state = WallpaperApplyState {
                    phase: WallpaperPhase::Save,
                    outcome,
                    reports,
                    setup,
                    theme_name,
                    theme: None,
                };
                (state, a)
            },
            _ => vstd::pervasive::unreached(),
        },
        WallpaperPhase::Save => match event {
            WallpaperEvent::Saved(r) => {
                let dir = child_path(setup.config_root.as_str(), theme_name.as_str());
                let rep = save_step(theme_name.as_str(), dir.as_str(), &r);
                let ghost reps = reports@.push(rep.0);
                proof {
                    lemma_all_true_push(reports@, rep.0);
                    lemma_texts_push(outcome.steps@, rep.1);
                }
                outcome.record_step(rep);
                let name = theme_name.clone();
                let state = WallpaperApplyState {
                    phase: WallpaperPhase::Reactivate,
                    outcome,
                    reports: Ghost(reps),
                    setup,
                    theme_name,
                    theme: None,
                };
                (state, WallpaperAction::ReactivateTheme(name))
            },
            _ => vstd::pervasive::unreached(),
        },
        WallpaperPhase::Reactivate => match event {
            WallpaperEvent::Reactivated(r) => {
                let rep = reactivate_step(theme_name.as_str(), &r);
                let ghost reps = reports@.push(rep.0);
                proof {
                    lemma_all_true_push(reports@, rep.0);
                    lemma_texts_push(outcome.steps@, rep.1);
                }
                outcome.record_step(rep);
                let name = theme_name.clone();
                let state = WallpaperApplyState {
                    phase: WallpaperPhase::SyncPlasma,
                    outcome,
                    reports: Ghost(reps),
                    setup,
                    theme_name,
                    theme: None,
                };
                (state, WallpaperAction::SyncPlasma(name))
            },
            _ => vstd::pervasive::unreached(),
        },
        WallpaperPhase::SyncPlasma => match event {
            WallpaperEvent::PlasmaSynced(r) => {
                let rep = plasma_sync_step(&r);
                let ghost reps = reports@.push(rep.0);
                proof {
                    lemma_all_true_push(reports@, rep.0);
                    lemma_texts_push(outcome.steps@, rep.1);
                }
                outcome.record_step(rep);
                let state = WallpaperApplyState {
                    phase: WallpaperPhase::ReconfigureKwin,
                    outcome,
                    reports: Ghost(reps),
                    setup,
                    theme_name,
                    theme: None,
                };
                (state, WallpaperAction::ReconfigureKwin)
            },
            _ => vstd::pervasive::unreached(),
        },
        WallpaperPhase::ReconfigureKwin => match event {
            WallpaperEvent::KwinReconfigured(r) => {
                let rep = kwin_step(&r);
                proof {
                    lemma_all_true_push(s.successes, rep.0);
                    lemma_texts_push(outcome.steps@, rep.1);
                }
                outcome.record_step(rep);
                (finished(setup), WallpaperAction::Done(outcome))
            },
            _ => vstd::pervasive::unreached(),
        },
        WallpaperPhase::Finished => vstd::pervasive::unreached(),
    }
}

/// A finished run.
fn finished(setup: WallpaperSetup) -> (s: WallpaperApplyState)
    ensures
        s@.phase is Finished,
        s@.steps.len() == 0,
        s@.successes.len() == 0,
        s@.ok,
        s@.setup == setup,
        s@.theme is None,
{
    WallpaperApplyState {
        phase: WallpaperPhase::Finished,
        outcome: WallpaperApplyOutcome::new(),
        reports: Ghost(Seq::empty()),
        setup,
        theme_name: String::new(),
        theme: None,
    }
}

} // verus!
