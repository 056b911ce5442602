//! The editor pages as state machines: each message (a user action, or
//! the result of outside work) updates the page and tells the caller what
//! outside work to do next, whose result comes back as another message.

use vstd::prelude::*;
use crate::editor::{
    session_begin_load, session_edit, session_error, session_load_failed, session_loaded,
    session_redo, session_saved, session_undo, KlassyEditor,
};
use crate::editor::Page;
use crate::ini::parser::spec_parse_ini;
use crate::ini::serializer::doc_text;
use crate::ini::DocV;
use crate::models::klassy::config::is_klassy_doc;
use crate::kvantum_page::KvantumMessage;
use crate::models::klassy::config::{klassy_from_sections, klassy_set};

verus! {

broadcast use vstd::string::group_string_axioms;

/// Messages of the Klassy page.
#[derive(Debug)]
pub enum KlassyMessage {
    LoadDefault,
    LoadFile(String),
    Save,
    SaveAndApply,
    UpdateKey { section: String, key: String, value: String },
    Undo,
    Redo,
    Apply,
    TabChanged(usize),
    OpenFilePicker,
    ShowPresetPicker,
    HidePresetPicker,
    ApplyPreset(String),
    PresetsLoaded(Vec<String>),
    ConfigLoaded(Result<String, String>),
    Saved(Result<(), String>),
    SavedThenApply(Result<(), String>),
    Applied(Result<String, String>),
}

/// Outside work asked for by the Klassy page.
#[derive(Debug, Clone)]
pub enum KlassyAction {
    /// Read the file; its text (or error) comes back as `ConfigLoaded`.
    ReadFile(String),
    /// Write the text into the file; the outcome comes back as `Saved`, or
    /// as `SavedThenApply` when asked to apply afterwards.
    WriteFile { path: String, content: String, then_apply: bool },
    /// Reload KWin; the outcome comes back as `Applied`.
    ReconfigureKwin,
    /// Run `klassy-settings --preset <name>`; the outcome comes back as
    /// `Applied`.
    RunPreset(String),
    /// Ask for a file; a chosen one comes back as `LoadFile`.
    PickFile,
    /// List the presets; the names come back as `PresetsLoaded`.
    DiscoverPresets,
    /// Record the file as recently opened.
    RecordRecent(String),
    /// Show that the save succeeded.
    FlashSaved,
}

/// What the Klassy page knows of its surroundings.
pub struct KlassyEnv {
    /// The default `klassyrc`, and whether it exists.
    pub default_path: String,
    pub default_exists: bool,
    /// Whether to apply after every save.
    pub auto_apply: bool,
}

/// The Klassy page.
pub struct KlassyPage {
    pub editor: KlassyEditor,
    pub tab: usize,
    pub show_presets: bool,
    pub preset_names: Vec<String>,
}

impl KlassyPage {
    /// The page with nothing loaded, on its first tab.
    pub fn new() -> (p: Self)
        ensures
            p.editor.session@ == crate::editor::EditSession::<crate::models::klassy::config::KlassyConfig>::new_view(),
            p.editor.file_path is None,
            p.tab == 0,
            !p.show_presets,
            p.preset_names@.len() == 0,
    {
        KlassyPage { editor: KlassyEditor::new(), tab: 0, show_presets: false, preset_names: Vec::new() }
    }

    /// Handle one message; returns the outside work to do next.
    pub fn update(&mut self, msg: KlassyMessage, env: &KlassyEnv) -> (actions: Vec<KlassyAction>)
        ensures
            match msg {
                KlassyMessage::LoadDefault => if env.default_exists {
                    &&& final(self).editor.session@ == session_begin_load(old(self).editor.session@)
                    &&& actions@.len() == 1
                    &&& actions@[0] matches KlassyAction::ReadFile(p) && p@ == env.default_path@
                } else {
                    &&& final(self).editor.session@ == session_error(
                        old(self).editor.session@,
                        "Klassy config file not found at default path."@,
                    )
                    &&& actions@.len() == 0
                },
                KlassyMessage::LoadFile(path) => {
                    &&& final(self).editor.session@ == session_begin_load(old(self).editor.session@)
                    &&& final(self).editor.file_path == Some(path)
                    &&& actions@.len() == 1
                    &&& actions@[0] matches KlassyAction::ReadFile(p) && p@ == path@
                },
                KlassyMessage::ConfigLoaded(Ok(content)) => {
                    &&& final(self).editor.session@ == session_loaded(
                        klassy_from_sections(spec_parse_ini(content@).sections),
                    )
                    &&& actions@.len() == 1
                    &&& final(self).editor.file_path matches Some(f)
                    &&& actions@[0] matches KlassyAction::RecordRecent(p) && p@ == f@
                },
                KlassyMessage::ConfigLoaded(Err(e)) => {
                    &&& final(self).editor.session@ == session_load_failed(old(self).editor.session@, e@)
                    &&& actions@.len() == 0
                },
                KlassyMessage::Save | KlassyMessage::SaveAndApply => {
                    &&& final(self).editor.session@ == old(self).editor.session@
                    &&& match (old(self).editor.session.config, old(self).editor.file_path) {
                        (Some(c), Some(f)) => {
                            &&& actions@.len() == 1
                            &&& actions@[0] matches KlassyAction::WriteFile { path, content, then_apply }
                            &&& path@ == f@
                            &&& exists|d: DocV| is_klassy_doc(c@, d) && content@ == doc_text(d)
                            &&& then_apply == (msg is SaveAndApply)
                        },
                        _ => actions@.len() == 0,
                    }
                },
                KlassyMessage::Saved(Ok(())) => {
                    &&& final(self).editor.session@ == session_saved(old(self).editor.session@)
                    &&& actions@.len() == (if env.auto_apply { 2int } else { 1int })
                    &&& actions@[0] is FlashSaved
                    &&& env.auto_apply ==> actions@[1] is ReconfigureKwin
                },
                KlassyMessage::SavedThenApply(Ok(())) => {
                    &&& final(self).editor.session@ == session_saved(old(self).editor.session@)
                    &&& actions@.len() == 2
                    &&& actions@[0] is FlashSaved
                    &&& actions@[1] is ReconfigureKwin
                },
                KlassyMessage::Saved(Err(e)) | KlassyMessage::SavedThenApply(Err(e)) => {
                    &&& final(self).editor.session@ == session_error(old(self).editor.session@, "Save failed: "@ + e@)
                    &&& actions@.len() == 0
                },
                KlassyMessage::UpdateKey { section, key, value } => {
                    &&& final(self).editor.session@ == match old(self).editor.session@.config {
                        Some(c) => session_edit(old(self).editor.session@, klassy_set(c, section@, key@, value@)),
                        None => old(self).editor.session@,
                    }
                    &&& actions@.len() == 0
                },
                KlassyMessage::Undo => final(self).editor.session@ == session_undo(old(self).editor.session@) && actions@.len() == 0,
                KlassyMessage::Redo => final(self).editor.session@ == session_redo(old(self).editor.session@) && actions@.len() == 0,
                KlassyMessage::Apply => final(self).editor.session@ == old(self).editor.session@
                    && actions@.len() == 1 && actions@[0] is ReconfigureKwin,
                KlassyMessage::Applied(Ok(_)) => final(self).editor.session@ == old(self).editor.session@ && actions@.len() == 0,
                KlassyMessage::Applied(Err(e)) => final(self).editor.session@ == session_error(
                    old(self).editor.session@,
                    "Apply failed: "@ + e@,
                ) && actions@.len() == 0,
                KlassyMessage::TabChanged(t) => final(self).tab == t && actions@.len() == 0,
                KlassyMessage::OpenFilePicker => actions@.len() == 1 && actions@[0] is PickFile,
                KlassyMessage::ShowPresetPicker => {
                    &&& final(self).show_presets
                    &&& (old(self).preset_names@.len() == 0 ==> actions@.len() == 1 && actions@[0] is DiscoverPresets)
                    &&& (old(self).preset_names@.len() > 0 ==> actions@.len() == 0)
                },
                KlassyMessage::HidePresetPicker => !final(self).show_presets && actions@.len() == 0,
                KlassyMessage::ApplyPreset(name) => {
                    &&& !final(self).show_presets
                    &&& actions@.len() == 1
                    &&& actions@[0] matches KlassyAction::RunPreset(n) && n@ == name@
                },
                KlassyMessage::PresetsLoaded(names) => final(self).preset_names == names && actions@.len() == 0,
            },
            !(msg is TabChanged) ==> final(self).tab == old(self).tab,
            !(msg is ShowPresetPicker || msg is HidePresetPicker || msg is ApplyPreset) ==> final(self).show_presets == old(self).show_presets,
            !(msg is PresetsLoaded) ==> final(self).preset_names == old(self).preset_names,
            !(msg is LoadDefault || msg is LoadFile || msg is ConfigLoaded || msg is Save || msg is SaveAndApply
                || msg is Saved || msg is SavedThenApply || msg is UpdateKey || msg is Undo || msg is Redo
                || msg is Applied) ==> final(self).editor.session@ == old(self).editor.session@,
            !(msg is LoadFile || msg is ConfigLoaded) ==> final(self).editor.file_path == old(self).editor.file_path,
    {
        let mut actions: Vec<KlassyAction> = Vec::new();
        match msg {
            KlassyMessage::LoadDefault => {
                self.editor.load_default(env.default_exists);
                if env.default_exists {
                    actions.push(KlassyAction::ReadFile(env.default_path.clone()));
                }
            },
            KlassyMessage::LoadFile(path) => {
                let p = path.clone();
                self.editor.load_file(path);
                actions.push(KlassyAction::ReadFile(p));
            },
            KlassyMessage::ConfigLoaded(result) => {
                match self.editor.config_loaded(result, env.default_path.as_str()) {
                    Some(p) => actions.push(KlassyAction::RecordRecent(p)),
                    None => {},
                }
            },
            KlassyMessage::Save => {
                match self.editor.save_request() {
                    Some((path, content)) => actions.push(KlassyAction::WriteFile { path, content, then_apply: false }),
                    None => {},
                }
            },
            KlassyMessage::SaveAndApply => {
                match self.editor.save_request() {
                    Some((path, content)) => actions.push(KlassyAction::WriteFile { path, content, then_apply: true }),
                    None => {},
                }
            },
            KlassyMessage::Saved(result) => {
                let ok = result.is_ok();
                let apply = self.editor.session.saved(result, env.auto_apply);
                if ok {
                    actions.push(KlassyAction::FlashSaved);
                }
                if apply {
                    actions.push(KlassyAction::ReconfigureKwin);
                }
            },
            KlassyMessage::SavedThenApply(result) => {
                let ok = result.is_ok();
                let apply = self.editor.session.saved(result, true);
                if ok {
                    actions.push(KlassyAction::FlashSaved);
                }
                if apply {
                    actions.push(KlassyAction::ReconfigureKwin);
                }
            },
            KlassyMessage::UpdateKey { section, key, value } => {
                self.editor.update_key(section.as_str(), key.as_str(), value);
            },
            KlassyMessage::Undo => {
                self.editor.session.undo();
            },
            KlassyMessage::Redo => {
                self.editor.session.redo();
            },
            KlassyMessage::Apply => {
                actions.push(KlassyAction::ReconfigureKwin);
            },
            KlassyMessage::Applied(result) => {
                self.editor.session.applied(result);
            },
            KlassyMessage::TabChanged(t) => {
                self.tab = t;
            },
            KlassyMessage::OpenFilePicker => {
                actions.push(KlassyAction::PickFile);
            },
            KlassyMessage::ShowPresetPicker => {
                self.show_presets = true;
                if self.preset_names.len() == 0 {
                    actions.push(KlassyAction::DiscoverPresets);
                }
            },
            KlassyMessage::HidePresetPicker => {
                self.show_presets = false;
            },
            KlassyMessage::ApplyPreset(name) => {
                self.show_presets = false;
                actions.push(KlassyAction::RunPreset(name));
            },
            KlassyMessage::PresetsLoaded(names) => {
                self.preset_names = names;
            },
        }
        actions
    }
}

/// A keyboard shortcut that acts on whichever page is shown.
#[derive(Clone, Copy, Debug, PartialEq, Eq, Structural)]
pub enum Shortcut {
    Undo,
    Redo,
    Save,
}

/// The message a shortcut sends to the shown page.
#[derive(Debug)]
pub enum PageCommand {
    Klassy(KlassyMessage),
    Kvantum(KvantumMessage),
    Nothing,
}

/// The message that `shortcut` sends on `page`: the editor pages undo,
/// redo or save; the other pages take none.
pub fn shortcut_command(page: Page, shortcut: Shortcut) -> (c: PageCommand)
    ensures
        match page {
            Page::Klassy => match shortcut {
                Shortcut::Undo => c matches PageCommand::Klassy(KlassyMessage::Undo),
                Shortcut::Redo => c matches PageCommand::Klassy(KlassyMessage::Redo),
                Shortcut::Save => c matches PageCommand::Klassy(KlassyMessage::Save),
            },
            Page::Kvantum => match shortcut {
                Shortcut::Undo => c matches PageCommand::Kvantum(KvantumMessage::Undo),
                Shortcut::Redo => c matches PageCommand::Kvantum(KvantumMessage::Redo),
                Shortcut::Save => c matches PageCommand::Kvantum(KvantumMessage::Save),
            },
            _ => c is Nothing,
        },
{
    match page {
        Page::Klassy => PageCommand::Klassy(
            match shortcut {
                Shortcut::Undo => KlassyMessage::Undo,
                Shortcut::Redo => KlassyMessage::Redo,
                Shortcut::Save => KlassyMessage::Save,
            },
        ),
        Page::Kvantum => PageCommand::Kvantum(
            match shortcut {
                Shortcut::Undo => KvantumMessage::Undo,
                Shortcut::Redo => KvantumMessage::Redo,
                Shortcut::Save => KvantumMessage::Save,
            },
        ),
        _ => PageCommand::Nothing,
    }
}

} // verus!
